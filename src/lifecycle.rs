use vstd::prelude::*;
use crate::agent::{exit_status, AgentError, AgentStatus};
use crate::registry::{
    exit_applied, exit_event, exit_recorded, has_id, input_ready, input_refusal, is_running, registry_wf,
    slot_wf, stop_applied, stop_event, stop_recorded, AgentSlot,
};

verus! {

/// No two agents of a registry share an identifier.
pub proof fn lemma_identifiers_unique(s: Seq<AgentSlot>, i: int, j: int)
    requires
        registry_wf(s),
        0 <= i < s.len(),
        0 <= j < s.len(),
        i != j,
    ensures
        s[i].info.id != s[j].info.id,
{
}

/// Adding an entry under an identifier that no entry has, as a spawn does,
/// keeps the registry consistent, and so its identifiers unique.
pub proof fn lemma_spawn_keeps_identifiers_unique(s: Seq<AgentSlot>, x: AgentSlot)
    requires
        registry_wf(s),
        slot_wf(x),
        !has_id(s, x.info.id),
    ensures
        registry_wf(s.push(x)),
{
    let t = s.push(x);
    assert forall|i: int, j: int|
        0 <= i < t.len() && 0 <= j < t.len() && i != j implies #[trigger] t[i].info.id
        != #[trigger] t[j].info.id by {
        if i < s.len() && j < s.len() {
            assert(s[i].info.id != s[j].info.id);
        } else if i < s.len() {
            assert(t[j] == x);
            assert(t[i] == s[i]);
        } else {
            assert(t[i] == x);
            assert(t[j] == s[j]);
        }
    }
    assert forall|i: int| 0 <= i < t.len() implies slot_wf(#[trigger] t[i]) by {
        if i < s.len() {
            assert(t[i] == s[i]);
        }
    }
}

/// Once the exit watcher has observed a running agent's end, the agent's
/// status is `Stopped` for a clean exit and `Failed` for any other.
pub proof fn lemma_exit_settles_status(
    old: Seq<AgentSlot>,
    new: Seq<AgentSlot>,
    id: Seq<char>,
    clean_exit: bool,
    i: int,
)
    requires
        exit_recorded(old, new, id, clean_exit),
        0 <= i < old.len(),
        old[i].info.id == id,
        !old[i].exited,
    ensures
        new[i].info.status == exit_status(clean_exit),
        clean_exit ==> new[i].info.status == AgentStatus::Stopped,
        !clean_exit ==> new[i].info.status == AgentStatus::Failed,
        new[i].exited,
{
    assert(new[i] == (|x: AgentSlot| exit_applied(x, clean_exit))(old[i]));
}

/// Input for an agent that exists but is not running is refused with
/// `NotRunning`; the registry is then not ready to take input for it, so no
/// `Input` event comes of it.
pub proof fn lemma_input_needs_running(s: Seq<AgentSlot>, id: Seq<char>, e: AgentError)
    requires
        has_id(s, id),
        !is_running(s, id),
        input_refusal(s, id, e),
    ensures
        e matches AgentError::NotRunning(x) && x@ == id,
        !input_ready(s, id),
{
}

/// A stop request leaves every entry of the stopped agent in a terminal
/// status at once.
pub proof fn lemma_stop_is_terminal(
    old: Seq<AgentSlot>,
    new: Seq<AgentSlot>,
    id: Seq<char>,
    i: int,
)
    requires
        registry_wf(old),
        stop_recorded(old, new, id),
        0 <= i < old.len(),
        old[i].info.id == id,
    ensures
        new[i].info.status.is_terminal(),
{
    assert(new[i] == (|x: AgentSlot| stop_applied(x))(old[i]));
    assert(slot_wf(old[i]));
}

/// After a stop request, the status settles to what the process's real end
/// gives once the exit watcher observes it.
pub proof fn lemma_stop_then_exit_settles(
    s0: Seq<AgentSlot>,
    s1: Seq<AgentSlot>,
    s2: Seq<AgentSlot>,
    id: Seq<char>,
    clean_exit: bool,
    i: int,
)
    requires
        stop_recorded(s0, s1, id),
        exit_recorded(s1, s2, id, clean_exit),
        0 <= i < s0.len(),
        s0[i].info.id == id,
        !s0[i].exited,
    ensures
        s2[i].info.status == exit_status(clean_exit),
{
    assert(s1[i] == (|x: AgentSlot| stop_applied(x))(s0[i]));
    assert(s2[i] == (|x: AgentSlot| exit_applied(x, clean_exit))(s1[i]));
}

/// The exit watcher publishes its terminal event once: after it has recorded
/// an agent's end, neither another exit nor a stop request publishes a status
/// event for that agent, nor changes its entries.
pub proof fn lemma_exit_event_once(
    s0: Seq<AgentSlot>,
    s1: Seq<AgentSlot>,
    s2: Seq<AgentSlot>,
    id: Seq<char>,
    clean_exit: bool,
    later_clean_exit: bool,
)
    requires
        exit_recorded(s0, s1, id, clean_exit),
        stop_recorded(s1, s2, id),
    ensures
        exit_event(s1, id, later_clean_exit) is None,
        stop_event(s1, id) is None,
        s2 == s1,
{
    assert forall|i: int| 0 <= i < s1.len() && #[trigger] s1[i].info.id == id implies s1[i].exited by {
        assert(s1[i] == (|x: AgentSlot| exit_applied(x, clean_exit))(s0[i]));
    }
    assert forall|i: int| 0 <= i < s1.len() implies #[trigger] s2[i] == s1[i] by {
        if s1[i].info.id == id {
            assert(s2[i] == (|x: AgentSlot| stop_applied(x))(s1[i]));
        }
    }
    assert(s2 =~= s1);
}

} // verus!
