use vstd::prelude::*;
use vstd::string::StringExecFns;

verus! {

/// The current status of an agent process. `Running` is the only
/// non-terminal status.
#[derive(Debug, Clone, Copy, PartialEq, Eq, Structural)]
pub enum AgentStatus {
    Running,
    Stopped,
    Failed,
}

/// The lowercase token under which a status is written on the wire.
pub open spec fn status_token(s: AgentStatus) -> Seq<char> {
    match s {
        AgentStatus::Running => seq!['r', 'u', 'n', 'n', 'i', 'n', 'g'],
        AgentStatus::Stopped => seq!['s', 't', 'o', 'p', 'p', 'e', 'd'],
        AgentStatus::Failed => seq!['f', 'a', 'i', 'l', 'e', 'd'],
    }
}

impl AgentStatus {
    pub open spec fn spec_is_terminal(&self) -> bool {
        *self != AgentStatus::Running
    }

    /// Whether no further transition happens from this status.
    #[verifier::when_used_as_spec(spec_is_terminal)]
    pub fn is_terminal(&self) -> (r: bool)
        ensures
            r == self.spec_is_terminal(),
    {
        match self {
            AgentStatus::Running => false,
            _ => true,
        }
    }

    /// The lowercase token of this status: `running`, `stopped` or `failed`.
    pub fn as_str(&self) -> (r: String)
        ensures
            r@ == status_token(*self),
    {
        proof {
            reveal_strlit("running");
            reveal_strlit("stopped");
            reveal_strlit("failed");
        }
        match self {
            AgentStatus::Running => "running".to_owned(),
            AgentStatus::Stopped => "stopped".to_owned(),
            AgentStatus::Failed => "failed".to_owned(),
        }
    }
}

/// The status that an exit watcher records for a process that has ended:
/// `Stopped` for a clean zero-status exit, `Failed` for anything else.
pub open spec fn exit_status(clean_exit: bool) -> AgentStatus {
    if clean_exit {
        AgentStatus::Stopped
    } else {
        AgentStatus::Failed
    }
}

/// Classifies how a process ended; `clean_exit` is true only for an exit with
/// status zero (a non-zero status, a signal or a failed wait are not clean).
pub fn classify_exit(clean_exit: bool) -> (r: AgentStatus)
    ensures
        r == exit_status(clean_exit),
        r.is_terminal(),
{
    if clean_exit {
        AgentStatus::Stopped
    } else {
        AgentStatus::Failed
    }
}

/// The text written to an agent's input for `input`: the input and a line
/// terminator.
pub fn input_line(input: &str) -> (r: String)
    ensures
        r@ == input@ + seq!['\n'],
{
    proof {
        reveal_strlit("\n");
    }
    input.to_owned().concat("\n")
}

/// A snapshot of what is known of one agent.
#[derive(Debug, Clone)]
pub struct AgentInfo {
    pub id: String,
    pub name: String,
    pub command: String,
    pub args: Vec<String>,
    pub status: AgentStatus,
}

/// The mathematical value of an `AgentInfo`.
pub struct AgentInfoView {
    pub id: Seq<char>,
    pub name: Seq<char>,
    pub command: Seq<char>,
    pub args: Seq<Seq<char>>,
    pub status: AgentStatus,
}

pub open spec fn strings_view(v: Seq<String>) -> Seq<Seq<char>> {
    v.map_values(|s: String| s@)
}

impl View for AgentInfo {
    type V = AgentInfoView;

    open spec fn view(&self) -> AgentInfoView {
        AgentInfoView {
            id: self.id@,
            name: self.name@,
            command: self.command@,
            args: strings_view(self.args@),
            status: self.status,
        }
    }
}

impl AgentInfo {
    /// A copy of this snapshot with the same value.
    pub fn snapshot(&self) -> (r: AgentInfo)
        ensures
            r@ == self@,
    {
        let args = self.args.clone();
        proof {
            assert(strings_view(args@) =~= strings_view(self.args@));
        }
        AgentInfo {
            id: self.id.clone(),
            name: self.name.clone(),
            command: self.command.clone(),
            args,
            status: self.status,
        }
    }
}


/// An event published to observers.
#[derive(Debug, Clone)]
pub enum AgentEvent {
    /// A line of output from the agent's stdout or stderr.
    Output { agent_id: String, line: String },
    /// The agent's status changed.
    StatusChanged { agent_id: String, status: AgentStatus },
    /// Input was written to the agent's stdin.
    Input { agent_id: String, input: String },
}

/// The mathematical value of an `AgentEvent`.
pub enum AgentEventView {
    Output { agent_id: Seq<char>, line: Seq<char> },
    StatusChanged { agent_id: Seq<char>, status: AgentStatus },
    Input { agent_id: Seq<char>, input: Seq<char> },
}

impl View for AgentEvent {
    type V = AgentEventView;

    open spec fn view(&self) -> AgentEventView {
        match self {
            AgentEvent::Output { agent_id, line } => AgentEventView::Output {
                agent_id: agent_id@,
                line: line@,
            },
            AgentEvent::StatusChanged { agent_id, status } => AgentEventView::StatusChanged {
                agent_id: agent_id@,
                status: *status,
            },
            AgentEvent::Input { agent_id, input } => AgentEventView::Input {
                agent_id: agent_id@,
                input: input@,
            },
        }
    }
}

impl AgentEventView {
    pub open spec fn agent_id(self) -> Seq<char> {
        match self {
            AgentEventView::Output { agent_id, .. } => agent_id,
            AgentEventView::StatusChanged { agent_id, .. } => agent_id,
            AgentEventView::Input { agent_id, .. } => agent_id,
        }
    }

    /// A status event that reports a terminal status.
    pub open spec fn is_terminal_status(self) -> bool {
        match self {
            AgentEventView::StatusChanged { status, .. } => status.is_terminal(),
            _ => false,
        }
    }
}

impl AgentEvent {
    /// The identifier of the agent this event is about.
    pub fn agent_id(&self) -> (r: &String)
        ensures
            r@ == self@.agent_id(),
    {
        match self {
            AgentEvent::Output { agent_id, .. } => agent_id,
            AgentEvent::StatusChanged { agent_id, .. } => agent_id,
            AgentEvent::Input { agent_id, .. } => agent_id,
        }
    }
}

/// Why an operation of the manager failed.
#[derive(Debug, Clone)]
pub enum AgentError {
    /// The operating system could not create the process; holds its description.
    SpawnFailure(String),
    /// No agent has the given identifier.
    NotFound(String),
    /// The agent with the given identifier is not running.
    NotRunning(String),
    /// No process id was recorded for the agent with the given identifier.
    NoProcessId(String),
    /// Writing to the agent's input failed; holds the description.
    IoError(String),
}

/// The text under which an error is reported to callers.
pub open spec fn error_message(e: AgentError) -> Seq<char> {
    match e {
        AgentError::SpawnFailure(d) => "Failed to spawn process: "@ + d@,
        AgentError::NotFound(id) => "Agent "@ + id@ + " not found"@,
        AgentError::NotRunning(id) => "Agent "@ + id@ + " is not running"@,
        AgentError::NoProcessId(_) => "Agent has no PID"@,
        AgentError::IoError(d) => d@,
    }
}

impl AgentError {
    /// The text under which this error is reported to callers.
    pub fn message(&self) -> (r: String)
        ensures
            r@ == error_message(*self),
    {
        match self {
            AgentError::SpawnFailure(d) => "Failed to spawn process: ".to_owned().concat(d.as_str()),
            AgentError::NotFound(id) => "Agent ".to_owned().concat(id.as_str()).concat(" not found"),
            AgentError::NotRunning(id) => "Agent ".to_owned().concat(id.as_str()).concat(
                " is not running",
            ),
            AgentError::NoProcessId(_) => "Agent has no PID".to_owned(),
            AgentError::IoError(d) => d.clone(),
        }
    }
}

} // verus!
