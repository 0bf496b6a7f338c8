use vstd::prelude::*;
use vstd::string::StringExecFns;
use crate::agent::{
    classify_exit, exit_status, strings_view, AgentError, AgentEvent, AgentEventView, AgentInfo,
    AgentInfoView, AgentStatus,
};

verus! {

/// Relies on uuid::Uuid::new_v4, written out through its `Display` impl: a
/// random identifier. Nothing is assumed of its value.
#[verifier::external_body]
fn random_id() -> (r: String) {
    uuid::Uuid::new_v4().to_string()
}

/// What the registry knows of one agent, as a mathematical value.
pub struct AgentSlot {
    pub info: AgentInfoView,
    /// The OS process id, if one was recorded at spawn.
    pub pid: Option<u32>,
    /// Whether the agent's input stream is held by the registry.
    pub has_stdin: bool,
    /// Whether the exit watcher has recorded the process's real end.
    pub exited: bool,
}

/// One entry of the registry: the agent's snapshot, its process id, its
/// input stream while it is open, and whether its exit has been observed.
struct AgentRecord<S> {
    info: AgentInfo,
    pid: Option<u32>,
    stdin: Option<S>,
    exited: bool,
}

impl<S> AgentRecord<S> {
    spec fn slot(&self) -> AgentSlot {
        AgentSlot {
            info: self.info@,
            pid: self.pid,
            has_stdin: self.stdin is Some,
            exited: self.exited,
        }
    }
}

/// The registry of all agents of one manager, keyed by identifier. Entries
/// are never removed. `S` is the type of an agent's input stream.
pub struct AgentRegistry<S> {
    agents: Vec<AgentRecord<S>>,
}

impl<S> View for AgentRegistry<S> {
    type V = Seq<AgentSlot>;

    closed spec fn view(&self) -> Seq<AgentSlot> {
        self.agents@.map_values(|r: AgentRecord<S>| r.slot())
    }
}

/// Some entry of `s` has identifier `id`.
pub open spec fn has_id(s: Seq<AgentSlot>, id: Seq<char>) -> bool {
    exists|i: int| 0 <= i < s.len() && #[trigger] s[i].info.id == id
}

/// No two entries share an identifier.
pub open spec fn ids_unique(s: Seq<AgentSlot>) -> bool {
    forall|i: int, j: int|
        0 <= i < s.len() && 0 <= j < s.len() && i != j ==> #[trigger] s[i].info.id
            != #[trigger] s[j].info.id
}

/// An entry is consistent: an observed exit left a terminal status, and an
/// input stream is held only while the agent runs.
pub open spec fn slot_wf(x: AgentSlot) -> bool {
    &&& x.exited ==> x.info.status.is_terminal()
    &&& x.info.status.is_terminal() ==> !x.has_stdin
}

pub open spec fn registry_wf(s: Seq<AgentSlot>) -> bool {
    &&& ids_unique(s)
    &&& forall|i: int| 0 <= i < s.len() ==> slot_wf(#[trigger] s[i])
}

/// `new` is `old` with `f` applied to the entries whose identifier is `id`.
pub open spec fn updated_where(
    old: Seq<AgentSlot>,
    new: Seq<AgentSlot>,
    id: Seq<char>,
    f: spec_fn(AgentSlot) -> AgentSlot,
) -> bool {
    &&& new.len() == old.len()
    &&& forall|i: int|
        0 <= i < old.len() ==> #[trigger] new[i] == if old[i].info.id == id {
            f(old[i])
        } else {
            old[i]
        }
}

/// An entry whose status is replaced by `status`; a terminal status closes
/// the input stream.
pub open spec fn with_status(x: AgentSlot, status: AgentStatus) -> AgentSlot {
    AgentSlot {
        info: AgentInfoView { status, ..x.info },
        has_stdin: x.has_stdin && !status.is_terminal(),
        ..x
    }
}

/// A stop request marks a running entry `Stopped`, unless its exit has
/// already been observed: the exit watcher's status is the settled one.
pub open spec fn stop_applied(x: AgentSlot) -> AgentSlot {
    if x.exited {
        x
    } else {
        with_status(x, AgentStatus::Stopped)
    }
}

/// The exit watcher records the real outcome once.
pub open spec fn exit_applied(x: AgentSlot, clean_exit: bool) -> AgentSlot {
    if x.exited {
        x
    } else {
        AgentSlot { exited: true, ..with_status(x, exit_status(clean_exit)) }
    }
}

/// `new` is `old` after a stop request for `id`.
pub open spec fn stop_recorded(old: Seq<AgentSlot>, new: Seq<AgentSlot>, id: Seq<char>) -> bool {
    updated_where(old, new, id, |x: AgentSlot| stop_applied(x))
}

/// `new` is `old` after the exit watcher of `id` observed the process's end.
pub open spec fn exit_recorded(
    old: Seq<AgentSlot>,
    new: Seq<AgentSlot>,
    id: Seq<char>,
    clean_exit: bool,
) -> bool {
    updated_where(old, new, id, |x: AgentSlot| exit_applied(x, clean_exit))
}

/// Some entry with identifier `id` has not had its exit observed.
pub open spec fn has_live(s: Seq<AgentSlot>, id: Seq<char>) -> bool {
    exists|i: int| 0 <= i < s.len() && #[trigger] s[i].info.id == id && !s[i].exited
}

/// The event a stop request publishes.
pub open spec fn stop_event(s: Seq<AgentSlot>, id: Seq<char>) -> Option<AgentEventView> {
    if has_live(s, id) {
        Some(AgentEventView::StatusChanged { agent_id: id, status: AgentStatus::Stopped })
    } else {
        None
    }
}

/// The event the exit watcher publishes.
pub open spec fn exit_event(s: Seq<AgentSlot>, id: Seq<char>, clean_exit: bool) -> Option<
    AgentEventView,
> {
    if has_live(s, id) {
        Some(AgentEventView::StatusChanged { agent_id: id, status: exit_status(clean_exit) })
    } else {
        None
    }
}

pub open spec fn event_view(e: Option<AgentEvent>) -> Option<AgentEventView> {
    match e {
        Some(e) => Some(e@),
        None => None,
    }
}

/// Some entry with identifier `id` is `Running`.
pub open spec fn is_running(s: Seq<AgentSlot>, id: Seq<char>) -> bool {
    exists|i: int|
        0 <= i < s.len() && #[trigger] s[i].info.id == id && s[i].info.status
            == AgentStatus::Running
}

/// Some entry with identifier `id` is `Running` and its input stream is held.
pub open spec fn input_ready(s: Seq<AgentSlot>, id: Seq<char>) -> bool {
    exists|i: int|
        0 <= i < s.len() && #[trigger] s[i].info.id == id && s[i].info.status
            == AgentStatus::Running && s[i].has_stdin
}

/// `e` is the error that refusing input for `id` reports.
pub open spec fn input_refusal(s: Seq<AgentSlot>, id: Seq<char>, e: AgentError) -> bool {
    if !has_id(s, id) {
        e matches AgentError::NotFound(x) && x@ == id
    } else if !is_running(s, id) {
        e matches AgentError::NotRunning(x) && x@ == id
    } else {
        e matches AgentError::IoError(d) && d@ == "Agent stdin not available"@
    }
}

impl<S> AgentRegistry<S> {
    pub open spec fn wf(&self) -> bool {
        registry_wf(self@)
    }

    /// An empty registry.
    pub fn new() -> (r: Self)
        ensures
            r@ == Seq::<AgentSlot>::empty(),
            r.wf(),
    {
        let r = AgentRegistry { agents: Vec::new() };
        assert(r@ =~= Seq::<AgentSlot>::empty());
        r
    }

    /// The number of agents known.
    pub fn len(&self) -> (r: usize)
        ensures
            r == self@.len(),
    {
        self.agents.len()
    }

    /// The position of the entry with identifier `id`.
    fn position(&self, id: &String) -> (r: Option<usize>)
        ensures
            match r {
                Some(i) => i < self@.len() && self@[i as int].info.id == id@,
                None => !has_id(self@, id@),
            },
    {
        let mut i: usize = 0;
        while i < self.agents.len()
            invariant
                i <= self.agents@.len(),
                forall|k: int| 0 <= k < i ==> self@[k].info.id != id@,
            decreases self.agents@.len() - i,
        {
            if self.agents[i].info.id == *id {
                return Some(i);
            }
            i += 1;
        }
        None
    }

    /// Whether an agent with identifier `agent_id` is known.
    pub fn contains(&self, agent_id: &str) -> (r: bool)
        ensures
            r == has_id(self@, agent_id@),
    {
        let id = agent_id.to_owned();
        self.position(&id).is_some()
    }

    /// An identifier that no entry has: `candidate` itself when it is unused,
    /// otherwise one longer than every identifier known.
    pub fn fresh_id_from(&self, candidate: String) -> (r: String)
        ensures
            !has_id(self@, r@),
            !has_id(self@, candidate@) ==> r@ == candidate@,
    {
        if self.position(&candidate).is_none() {
            return candidate;
        }
        let mut acc = candidate;
        let mut i: usize = 0;
        while i < self.agents.len()
            invariant
                i <= self.agents@.len(),
                forall|k: int| 0 <= k < i ==> self@[k].info.id.len() <= acc@.len(),
            decreases self.agents@.len() - i,
        {
            acc = acc.concat(self.agents[i].info.id.as_str());
            i += 1;
        }
        proof {
            reveal_strlit("-");
        }
        let r = acc.concat("-");
        assert forall|k: int| 0 <= k < self@.len() implies self@[k].info.id != r@ by {
            assert(self@[k].info.id.len() < r@.len());
        }
        r
    }

    /// A fresh identifier, drawn at random and made unique among the known
    /// ones.
    pub fn fresh_id(&self) -> (r: String)
        ensures
            !has_id(self@, r@),
    {
        self.fresh_id_from(random_id())
    }

    /// Records the outcome of an attempt to start a process. `spawned` holds
    /// the process id and input stream of a started process, or the operating
    /// system's description of why it could not be started. A started process
    /// gets a fresh identifier and a `Running` entry, and the event to publish
    /// is returned with its snapshot; a failed start leaves the registry as it
    /// was.
    pub fn record_spawn(
        &mut self,
        name: String,
        command: String,
        args: Vec<String>,
        spawned: Result<(Option<u32>, Option<S>), String>,
    ) -> (r: Result<(AgentInfo, AgentEvent), AgentError>)
        requires
            old(self).wf(),
        ensures
            final(self).wf(),
            match spawned {
                Err(d) => {
                    &&& r matches Err(AgentError::SpawnFailure(e)) && e@ == d@
                    &&& final(self)@ == old(self)@
                },
                Ok((pid, stdin)) => match r {
                    Ok((info, ev)) => {
                        &&& !has_id(old(self)@, info.id@)
                        &&& info@ == AgentInfoView {
                            id: info.id@,
                            name: name@,
                            command: command@,
                            args: strings_view(args@),
                            status: AgentStatus::Running,
                        }
                        &&& final(self)@ == old(self)@.push(
                            AgentSlot { info: info@, pid, has_stdin: stdin is Some, exited: false },
                        )
                        &&& ev@ == AgentEventView::StatusChanged {
                            agent_id: info.id@,
                            status: AgentStatus::Running,
                        }
                    },
                    Err(_) => false,
                },
            },
    {
        match spawned {
            Err(d) => Err(AgentError::SpawnFailure(d)),
            Ok((pid, stdin)) => {
                let id = self.fresh_id();
                let info = AgentInfo { id, name, command, args, status: AgentStatus::Running };
                let event = AgentEvent::StatusChanged {
                    agent_id: info.id.clone(),
                    status: AgentStatus::Running,
                };
                let record = AgentRecord { info: info.snapshot(), pid, stdin, exited: false };
                self.agents.push(record);
                proof {
                    assert(self@ =~= old(self)@.push(
                        AgentSlot { info: info@, pid, has_stdin: stdin is Some, exited: false },
                    ));
                }
                Ok((info, event))
            },
        }
    }

    /// A snapshot of every known agent, in the registry's order.
    pub fn list_agents(&self) -> (r: Vec<AgentInfo>)
        ensures
            r@.len() == self@.len(),
            forall|i: int| 0 <= i < r@.len() ==> #[trigger] r@[i]@ == self@[i].info,
    {
        let mut r: Vec<AgentInfo> = Vec::new();
        let mut i: usize = 0;
        while i < self.agents.len()
            invariant
                i <= self.agents@.len(),
                r@.len() == i,
                forall|k: int| 0 <= k < i ==> #[trigger] r@[k]@ == self@[k].info,
            decreases self.agents@.len() - i,
        {
            r.push(self.agents[i].info.snapshot());
            i += 1;
        }
        r
    }

    /// Takes the input stream of a running agent so that a line can be
    /// written to it; `finish_input` hands it back. An unknown agent gives
    /// `NotFound`, one that is not running `NotRunning`, and a running one
    /// whose stream is not held `IoError`; then nothing changes.
    pub fn take_input(&mut self, agent_id: &str) -> (r: Result<(usize, S), AgentError>)
        requires
            old(self).wf(),
        ensures
            final(self).wf(),
            r is Ok <==> input_ready(old(self)@, agent_id@),
            match r {
                Ok((i, _)) => {
                    &&& i < old(self)@.len()
                    &&& old(self)@[i as int].info.id == agent_id@
                    &&& old(self)@[i as int].info.status == AgentStatus::Running
                    &&& old(self)@[i as int].has_stdin
                    &&& final(self)@ == old(self)@.update(
                        i as int,
                        AgentSlot { has_stdin: false, ..old(self)@[i as int] },
                    )
                },
                Err(e) => {
                    &&& input_refusal(old(self)@, agent_id@, e)
                    &&& final(self)@ == old(self)@
                },
            },
    {
        let id = agent_id.to_owned();
        match self.position(&id) {
            None => Err(AgentError::NotFound(id)),
            Some(i) => {
                proof {
                    assert(has_id(self@, id@));
                    assert forall|k: int| 0 <= k < self@.len() && self@[k].info.id == id@ implies k
                        == i by {}
                }
                if self.agents[i].info.status.is_terminal() {
                    return Err(AgentError::NotRunning(id));
                }
                let taken = self.agents[i].stdin.take();
                match taken {
                    None => {
                        proof {
                            assert(self@ =~= old(self)@);
                        }
                        Err(AgentError::IoError("Agent stdin not available".to_owned()))
                    },
                    Some(stdin) => {
                        proof {
                            assert(self@ =~= old(self)@.update(
                                i as int,
                                AgentSlot { has_stdin: false, ..old(self)@[i as int] },
                            ));
                        }
                        Ok((i, stdin))
                    },
                }
            },
        }
    }

    /// Hands back the input stream taken by `take_input` from the entry at
    /// `index`, with the outcome of writing `input` to it. The stream is kept
    /// only while the agent runs. A successful write gives the `Input` event
    /// to publish; a failed one gives `IoError` with its description.
    pub fn finish_input(
        &mut self,
        index: usize,
        stdin: S,
        input: String,
        written: Result<(), String>,
    ) -> (r: Result<AgentEvent, AgentError>)
        requires
            old(self).wf(),
            index < old(self)@.len(),
        ensures
            final(self).wf(),
            final(self)@ == old(self)@.update(
                index as int,
                AgentSlot {
                    has_stdin: old(self)@[index as int].info.status == AgentStatus::Running,
                    ..old(self)@[index as int]
                },
            ),
            match written {
                Ok(()) => r matches Ok(e) && e@ == AgentEventView::Input {
                    agent_id: old(self)@[index as int].info.id,
                    input: input@,
                },
                Err(d) => r matches Err(AgentError::IoError(x)) && x@ == d@,
            },
    {
        if self.agents[index].info.status.is_terminal() {
            self.agents[index].stdin = None;
        } else {
            self.agents[index].stdin = Some(stdin);
        }
        proof {
            assert(self@ =~= old(self)@.update(
                index as int,
                AgentSlot {
                    has_stdin: old(self)@[index as int].info.status == AgentStatus::Running,
                    ..old(self)@[index as int]
                },
            ));
        }
        match written {
            Ok(()) => Ok(AgentEvent::Input { agent_id: self.agents[index].info.id.clone(), input }),
            Err(d) => Err(AgentError::IoError(d)),
        }
    }

    /// The process id to signal to stop an agent: `NotFound` for an unknown
    /// agent, `NoProcessId` where none was recorded.
    pub fn stop_target(&self, agent_id: &str) -> (r: Result<u32, AgentError>)
        requires
            self.wf(),
        ensures
            !has_id(self@, agent_id@) ==> (r matches Err(AgentError::NotFound(x)) && x@ == agent_id@),
            forall|i: int|
                0 <= i < self@.len() && #[trigger] self@[i].info.id == agent_id@ ==> match self@[i].pid {
                    Some(p) => r == Ok::<u32, AgentError>(p),
                    None => r matches Err(AgentError::NoProcessId(x)) && x@ == agent_id@,
                },
    {
        let id = agent_id.to_owned();
        match self.position(&id) {
            None => Err(AgentError::NotFound(id)),
            Some(i) => {
                proof {
                    assert forall|k: int| 0 <= k < self@.len() && self@[k].info.id == id@ implies k
                        == i by {}
                }
                match self.agents[i].pid {
                    Some(p) => Ok(p),
                    None => Err(AgentError::NoProcessId(id)),
                }
            },
        }
    }

    /// Records a stop request after the process was signalled: a running
    /// entry becomes `Stopped` at once and the event to publish is returned.
    /// An entry whose exit was already observed keeps its settled status.
    pub fn mark_stopped(&mut self, agent_id: &str) -> (r: Option<AgentEvent>)
        requires
            old(self).wf(),
        ensures
            final(self).wf(),
            stop_recorded(old(self)@, final(self)@, agent_id@),
            event_view(r) == stop_event(old(self)@, agent_id@),
    {
        let id = agent_id.to_owned();
        match self.position(&id) {
            None => {
                proof {
                    assert(self@ =~= old(self)@);
                }
                None
            },
            Some(i) => {
                proof {
                    assert forall|k: int| 0 <= k < self@.len() && self@[k].info.id == id@ implies k
                        == i by {}
                }
                if self.agents[i].exited {
                    None
                } else {
                    self.agents[i].info.status = AgentStatus::Stopped;
                    self.agents[i].stdin = None;
                    proof {
                        assert(self@ =~= old(self)@.update(i as int, stop_applied(old(self)@[i as int])));
                    }
                    Some(AgentEvent::StatusChanged { agent_id: id, status: AgentStatus::Stopped })
                }
            },
        }
    }

    /// Records the real end of an agent's process, observed by its exit
    /// watcher: the first time, the entry gets the status that the outcome
    /// gives and the event to publish is returned; afterwards nothing changes.
    pub fn record_exit(&mut self, agent_id: &str, clean_exit: bool) -> (r: Option<AgentEvent>)
        requires
            old(self).wf(),
        ensures
            final(self).wf(),
            exit_recorded(old(self)@, final(self)@, agent_id@, clean_exit),
            event_view(r) == exit_event(old(self)@, agent_id@, clean_exit),
    {
        let id = agent_id.to_owned();
        match self.position(&id) {
            None => {
                proof {
                    assert(self@ =~= old(self)@);
                }
                None
            },
            Some(i) => {
                proof {
                    assert forall|k: int| 0 <= k < self@.len() && self@[k].info.id == id@ implies k
                        == i by {}
                }
                if self.agents[i].exited {
                    None
                } else {
                    let status = classify_exit(clean_exit);
                    self.agents[i].info.status = status;
                    self.agents[i].stdin = None;
                    self.agents[i].exited = true;
                    proof {
                        assert(self@ =~= old(self)@.update(
                            i as int,
                            exit_applied(old(self)@[i as int], clean_exit),
                        ));
                    }
                    Some(AgentEvent::StatusChanged { agent_id: id, status })
                }
            },
        }
    }
}

} // verus!
