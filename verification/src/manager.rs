//! The state that the requests share.
use vstd::prelude::*;
use crate::state::{PetModel, PetState};
use crate::text::{borrowed, optional, optional_str, texts};

verus! {

/// The pet's state, the tool at work, and the messages that nobody has fetched yet.
pub struct StateManager {
    state: PetState,
    tool: Option<String>,
    changed_at: u64,
    messages: Vec<String>,
}

/// What a `StateManager` holds. Times are in milliseconds.
pub struct ManagerModel {
    pub state: PetModel,
    pub tool: Option<Seq<char>>,
    pub changed_at: int,
    pub messages: Seq<Seq<char>>,
}

impl ManagerModel {
    /// The same messages with another state.
    pub open spec fn with_state(self, state: PetModel, tool: Option<Seq<char>>, now: int) -> ManagerModel {
        ManagerModel { state, tool, changed_at: now, messages: self.messages }
    }

    /// The same state with one more message behind those that wait.
    pub open spec fn with_message(self, message: Seq<char>) -> ManagerModel {
        ManagerModel { messages: self.messages.push(message), ..self }
    }

    /// The same state with no messages.
    pub open spec fn drained(self) -> ManagerModel {
        ManagerModel { messages: Seq::empty(), ..self }
    }

    /// The same state with one message after the other put behind those that wait.
    pub open spec fn with_all(self, messages: Seq<Seq<char>>) -> ManagerModel
        decreases messages.len(),
    {
        if messages.len() == 0 {
            self
        } else {
            self.with_all(messages.drop_last()).with_message(messages.last())
        }
    }

    /// Whether less than `ms` have gone by since the state was set. A clock that stands before
    /// that moment counts as standing at it.
    pub open spec fn keeps_running(self, ms: int, now: int) -> bool {
        if now < self.changed_at {
            0 < ms
        } else {
            now - self.changed_at < ms
        }
    }
}

impl View for StateManager {
    type V = ManagerModel;

    closed spec fn view(&self) -> ManagerModel {
        ManagerModel {
            state: self.state@,
            tool: optional(self.tool),
            changed_at: self.changed_at as int,
            messages: texts(self.messages@),
        }
    }
}

impl StateManager {
    /// Starts in a state, with no tool and no messages.
    pub fn new(state: PetState, now: u64) -> (r: StateManager)
        ensures
            r@ == (ManagerModel {
                state: state@,
                tool: None,
                changed_at: now as int,
                messages: Seq::empty(),
            }),
    {
        let messages: Vec<String> = Vec::new();
        assert(texts(messages@) =~= Seq::<Seq<char>>::empty());
        StateManager { state, tool: None, changed_at: now, messages }
    }

    /// Sets the state and the tool.
    pub fn set_state(&mut self, state: PetState, tool: Option<String>, now: u64)
        ensures
            final(self)@ == old(self)@.with_state(state@, optional(tool), now as int),
    {
        self.state = state;
        self.tool = tool;
        self.changed_at = now;
    }

    pub fn current_state(&self) -> (r: &PetState)
        ensures
            r@ == self@.state,
    {
        &self.state
    }

    pub fn current_tool(&self) -> (r: Option<&str>)
        ensures
            optional_str(r) == self@.tool,
    {
        borrowed(&self.tool)
    }

    /// Whether the state was set less than `ms` ago.
    pub fn should_keep_running(&self, ms: u64, now: u64) -> (r: bool)
        ensures
            r == self@.keeps_running(ms as int, now as int),
    {
        if now < self.changed_at {
            0 < ms
        } else {
            now - self.changed_at < ms
        }
    }

    /// Puts a message behind those that wait.
    pub fn push_message(&mut self, message: String)
        ensures
            final(self)@ == old(self)@.with_message(message@),
    {
        self.messages.push(message);
        assert(texts(self.messages@) =~= texts(old(self).messages@).push(message@));
    }

    /// Hands out the messages that wait, the oldest first, and keeps none of them.
    pub fn drain_messages(&mut self) -> (r: Vec<String>)
        ensures
            texts(r@) == old(self)@.messages,
            final(self)@ == old(self)@.drained(),
    {
        let mut taken: Vec<String> = Vec::new();
        core::mem::swap(&mut taken, &mut self.messages);
        assert(texts(self.messages@) =~= Seq::<Seq<char>>::empty());
        taken
    }
}

/// Messages wait in the order in which they came: what a drain hands out after some pushes is
/// what waited before, then the new messages; the state and the tool stay as they were.
pub proof fn law_messages_in_order(start: ManagerModel, messages: Seq<Seq<char>>)
    ensures
        start.with_all(messages).messages == start.messages + messages,
        start.with_all(messages).drained() == start.drained(),
    decreases messages.len(),
{
    if messages.len() == 0 {
        assert(start.messages + messages =~= start.messages);
    } else {
        law_messages_in_order(start, messages.drop_last());
        assert(start.messages + messages =~= (start.messages + messages.drop_last()).push(
            messages.last(),
        ));
    }
}

/// A message is handed out once: after a drain nothing waits, and another drain changes nothing.
pub proof fn law_drained_is_empty(start: ManagerModel)
    ensures
        start.drained().messages.len() == 0,
        start.drained().drained() == start.drained(),
{
}

/// Setting the state sets the state, the tool and the time, and leaves the messages.
pub proof fn law_with_state(before: ManagerModel, state: PetModel, tool: Option<Seq<char>>, now: int)
    ensures
        ({
            let after = before.with_state(state, tool, now);
            &&& after.state == state
            &&& after.tool == tool
            &&& after.changed_at == now
            &&& after.messages == before.messages
        }),
{
}

/// A new message comes last, the others stay before it, and nothing else changes.
pub proof fn law_with_message(before: ManagerModel, message: Seq<char>)
    ensures
        ({
            let after = before.with_message(message);
            &&& after.messages.len() == before.messages.len() + 1
            &&& after.messages.last() == message
            &&& after.messages.drop_last() == before.messages
            &&& after.state == before.state
            &&& after.tool == before.tool
            &&& after.changed_at == before.changed_at
        }),
{
    assert(before.messages.push(message).drop_last() =~= before.messages);
}

/// A drain takes the messages and nothing else.
pub proof fn law_drain_keeps_state(before: ManagerModel)
    ensures
        ({
            let after = before.drained();
            &&& after.messages.len() == 0
            &&& after.state == before.state
            &&& after.tool == before.tool
            &&& after.changed_at == before.changed_at
        }),
{
}

/// A state runs on until `ms` have gone by since it was set, and no longer.
pub proof fn law_keeps_running(m: ManagerModel, ms: int, now: int)
    requires
        0 < ms,
    ensures
        m.keeps_running(ms, now) <==> now < m.changed_at + ms,
        !m.keeps_running(0, now),
{
}

} // verus!
