//! The requests that the pet answers.
use vstd::prelude::*;
use crate::event::{build_event, event_for, plain_event, EventModel, StateChangeEvent};
use crate::json::{document, parse, text_member, text_of, Json};
use crate::manager::{ManagerModel, StateManager};
use crate::shell::{relay_plan, relay_to_terminal, relay_view, RelayStep};
use crate::state::{state_for_tool, working_state, Catalog, PetModel, PetState};
use crate::text::{borrowed, optional, owned, texts};

verus! {

/// How long the pet is seen at work at the least, in milliseconds.
pub const KEEP_RUNNING_MS: u64 = 800;

/// The status of an answer that all went well.
pub const STATUS_OK: u16 = 200;

/// A hook that names the state it calls for.
#[derive(Debug)]
pub struct StateRequest {
    pub s: String,
    pub tool: Option<String>,
}

/// What the pet shows at the moment.
#[derive(Debug)]
pub struct CurrentResponse {
    pub animation: String,
    pub bubble: String,
    pub core_signal: String,
    pub tool_label: Option<String>,
    pub overlay: Option<String>,
}

/// What the user answered.
#[derive(Debug)]
pub struct UserInputRequest {
    pub value: String,
    pub _input_type: Option<String>,
}

/// What the user wrote to the terminal.
#[derive(Debug)]
pub struct UserMessageRequest {
    pub value: String,
}

/// An answer, and the event that goes out to the windows with it.
pub struct Outcome {
    pub status: u16,
    pub event: Option<StateChangeEvent>,
}

impl Outcome {
    /// The answer is fine and the event goes out.
    pub open spec fn sends(self, event: EventModel) -> bool {
        &&& self.status == STATUS_OK
        &&& self.event is Some
        &&& self.event->0@ == event
    }
}

/// Whether a hook is passed over: it would put an active pet to rest too early.
pub open spec fn held_back(before: ManagerModel, state: PetModel, now: int) -> bool {
    &&& !state.is_active()
    &&& before.state.is_active()
    &&& before.keeps_running(KEEP_RUNNING_MS as int, now)
}

/// What a hook leaves behind.
pub open spec fn after_hook(
    before: ManagerModel,
    state: PetModel,
    tool: Option<Seq<char>>,
    now: int,
) -> ManagerModel {
    if held_back(before, state, now) {
        before
    } else {
        before.with_state(state, tool, now)
    }
}

/// The event that a hook sends out.
pub open spec fn hook_event(
    catalog: Catalog,
    before: ManagerModel,
    state: PetModel,
    tool: Option<Seq<char>>,
    now: int,
) -> Option<EventModel> {
    if held_back(before, state, now) {
        None
    } else {
        Some(event_for(catalog, state, tool))
    }
}

/// What an event holds, where there is one.
pub open spec fn optional_event(event: Option<StateChangeEvent>) -> Option<EventModel> {
    match event {
        Some(e) => Some(e@),
        None => None,
    }
}

/// Sets the state for a hook and gives the event to send out, unless the hook is passed over.
pub fn set_pet_state(
    manager: &mut StateManager,
    catalog: &Catalog,
    state: PetState,
    tool: Option<String>,
    now: u64,
) -> (r: Option<StateChangeEvent>)
    ensures
        final(manager)@ == after_hook(old(manager)@, state@, optional(tool), now as int),
        optional_event(r) == hook_event(
            *catalog,
            old(manager)@,
            state@,
            optional(tool),
            now as int,
        ),
{
    let is_active = manager.current_state().is_active();
    if !state.is_active() && is_active && manager.should_keep_running(KEEP_RUNNING_MS, now) {
        return None;
    }
    let event = build_event(catalog, &state, borrowed(&tool));
    manager.set_state(state, tool, now);
    Some(event)
}

/// POST /api/state: the state that a named hook calls for, in any case.
pub fn handle_state(manager: &mut StateManager, catalog: &Catalog, body: StateRequest, now: u64) -> (r:
    Outcome)
    ensures
        ({
            let state = catalog.hook_state(body.s@, optional(body.tool));
            &&& final(manager)@ == old(manager)@.with_state(state, optional(body.tool), now as int)
            &&& r.sends(event_for(*catalog, state, optional(body.tool)))
        }),
{
    let state = catalog.from_hook(body.s.as_str(), &body.tool);
    let event = build_event(catalog, &state, borrowed(&body.tool));
    manager.set_state(state, body.tool, now);
    Outcome { status: STATUS_OK, event: Some(event) }
}

/// GET /api/heartbeat.
pub fn handle_heartbeat() -> (r: u16)
    ensures
        r == STATUS_OK,
{
    STATUS_OK
}

/// GET /api/current: what the pet shows for its state and tool.
pub fn handle_current(manager: &StateManager, catalog: &Catalog) -> (r: CurrentResponse)
    ensures
        r.animation@ == catalog.shows(manager@.state).animation,
        r.bubble@ == catalog.shows(manager@.state).bubble_text(manager@.tool),
        r.core_signal@ == catalog.shows(manager@.state).core_signal,
        optional(r.tool_label) == manager@.tool,
        optional(r.overlay) == catalog.shows(manager@.state).overlay,
{
    let shown = catalog.texts(manager.current_state());
    let tool = manager.current_tool();
    CurrentResponse {
        animation: shown.animation.clone(),
        bubble: shown.bubble_text(tool).to_owned(),
        core_signal: shown.core_signal.clone(),
        tool_label: owned(tool),
        overlay: owned(borrowed(&shown.overlay)),
    }
}

/// What a hook for a state without a tool does.
pub open spec fn hook_done(
    catalog: Catalog,
    before: ManagerModel,
    after: ManagerModel,
    state: PetModel,
    now: int,
    outcome: Outcome,
) -> bool {
    &&& after == after_hook(before, state, None, now)
    &&& outcome.status == STATUS_OK
    &&& optional_event(outcome.event) == hook_event(catalog, before, state, None, now)
}

/// POST /api/hook/thinking.
pub fn handle_hook_thinking(manager: &mut StateManager, catalog: &Catalog, now: u64) -> (r: Outcome)
    ensures
        hook_done(*catalog, old(manager)@, final(manager)@, PetModel::Chatting, now as int, r),
{
    let event = set_pet_state(manager, catalog, PetState::Chatting, None, now);
    Outcome { status: STATUS_OK, event }
}

/// The tool that the body of a hook names.
pub open spec fn named_tool(body: Seq<char>) -> Option<Seq<char>> {
    match document(body) {
        Some(doc) => text_member(doc, "tool_name"@),
        None => None,
    }
}

/// Reads the tool's name out of the body of a hook.
pub fn hook_tool(body: &str) -> (r: Option<String>)
    ensures
        optional(r) == named_tool(body@),
{
    match parse(body) {
        Ok(value) => owned(text_of(&value, "tool_name")),
        Err(_) => None,
    }
}

/// Sets the state that goes with a tool at work.
pub fn tool_at_work(
    manager: &mut StateManager,
    catalog: &Catalog,
    tool: Option<String>,
    now: u64,
) -> (r: Outcome)
    ensures
        final(manager)@ == old(manager)@.with_state(
            state_for_tool(optional(tool)),
            optional(tool),
            now as int,
        ),
        r.sends(event_for(*catalog, state_for_tool(optional(tool)), optional(tool))),
{
    let state = working_state(borrowed(&tool));
    let event = set_pet_state(manager, catalog, state, tool, now);
    Outcome { status: STATUS_OK, event }
}

/// POST /api/hook/working: the state that goes with the tool that the body names.
pub fn handle_hook_working(manager: &mut StateManager, catalog: &Catalog, body: &str, now: u64) -> (r:
    Outcome)
    ensures
        ({
            let tool = named_tool(body@);
            &&& final(manager)@ == old(manager)@.with_state(state_for_tool(tool), tool, now as int)
            &&& r.sends(event_for(*catalog, state_for_tool(tool), tool))
        }),
{
    let tool = hook_tool(body);
    tool_at_work(manager, catalog, tool, now)
}

/// POST /api/hook/done.
pub fn handle_hook_done(manager: &mut StateManager, catalog: &Catalog, now: u64) -> (r: Outcome)
    ensures
        hook_done(*catalog, old(manager)@, final(manager)@, PetModel::Celebrating, now as int, r),
{
    let event = set_pet_state(manager, catalog, PetState::Celebrating, None, now);
    Outcome { status: STATUS_OK, event }
}

/// POST /api/hook/idle.
pub fn handle_hook_idle(manager: &mut StateManager, catalog: &Catalog, now: u64) -> (r: Outcome)
    ensures
        hook_done(*catalog, old(manager)@, final(manager)@, PetModel::Idle, now as int, r),
{
    let event = set_pet_state(manager, catalog, PetState::Idle, None, now);
    Outcome { status: STATUS_OK, event }
}

/// POST /api/hook/permission: asks for permission, in any case.
pub fn handle_hook_permission(manager: &mut StateManager, catalog: &Catalog, now: u64) -> (r: Outcome)
    ensures
        final(manager)@ == old(manager)@.with_state(PetModel::Permission, None, now as int),
        r.sends(event_for(*catalog, PetModel::Permission, None)),
{
    manager.set_state(PetState::Permission, None, now);
    let event = build_event(catalog, &PetState::Permission, None);
    Outcome { status: STATUS_OK, event: Some(event) }
}

/// A question to the user: where the answer goes, and how it is asked.
pub struct PendingInput<T> {
    pub tx: T,
    pub input_type: Option<String>,
    pub options: Option<Vec<String>>,
}

/// Where the user's input goes: to the one who asked, or, where nobody did, into the bubble.
pub struct TakenInput<T> {
    pub forward: Option<(T, String)>,
    pub unasked: Option<String>,
}

/// Who gets the input, and what they get.
pub open spec fn input_forward<T>(pending: Option<PendingInput<T>>, body: UserInputRequest) -> Option<
    (T, Seq<char>),
> {
    match pending {
        Some(pending) => Some((pending.tx, body.value@)),
        None => None,
    }
}

/// What the user wrote where nobody asked.
pub open spec fn input_unasked<T>(pending: Option<PendingInput<T>>, body: UserInputRequest) -> Option<
    Seq<char>,
> {
    match pending {
        Some(_) => None,
        None => Some(body.value@),
    }
}

/// The event that the user's input sends out.
pub open spec fn input_event(
    catalog: Catalog,
    current: ManagerModel,
    unasked: Option<Seq<char>>,
) -> EventModel {
    match unasked {
        Some(value) => plain_event(catalog.shows(current.state).animation, value, "waiting"@),
        None => plain_event(catalog.shows(current.state).animation, "收到!"@, "running"@),
    }
}

/// What is forwarded, by its characters.
pub open spec fn forward_view<T>(forward: Option<(T, String)>) -> Option<(T, Seq<char>)> {
    match forward {
        Some((tx, value)) => Some((tx, value@)),
        None => None,
    }
}

/// Takes the question that waits and answers it with the user's input.
pub fn take_input<T>(pending_input: &mut Option<PendingInput<T>>, body: UserInputRequest) -> (r:
    TakenInput<T>)
    ensures
        *final(pending_input) is None,
        forward_view(r.forward) == input_forward(*old(pending_input), body),
        optional(r.unasked) == input_unasked(*old(pending_input), body),
{
    match pending_input.take() {
        Some(pending) => TakenInput { forward: Some((pending.tx, body.value)), unasked: None },
        None => TakenInput { forward: None, unasked: Some(body.value) },
    }
}

/// Builds the event that the user's input sends out: that an answer has come, or what the user
/// wrote where nobody asked.
pub fn build_input_event(manager: &StateManager, catalog: &Catalog, unasked: Option<String>) -> (r:
    StateChangeEvent)
    ensures
        r@ == input_event(*catalog, manager@, optional(unasked)),
{
    let animation = catalog.texts(manager.current_state()).animation.clone();
    let (bubble, core_signal) = match unasked {
        Some(value) => (value, "waiting".to_owned()),
        None => ("收到!".to_owned(), "running".to_owned()),
    };
    StateChangeEvent {
        animation,
        bubble,
        core_signal,
        tool_label: None,
        overlay: None,
        input_type: None,
        options: None,
    }
}

/// What becomes of the user's input: it goes to the one who asked, and an event goes out.
pub struct InputOutcome<T> {
    pub status: u16,
    pub forward: Option<(T, String)>,
    pub event: StateChangeEvent,
}

/// POST /api/user/input: hands the user's answer to the question that waits. Where none waits, the
/// pet says what the user wrote.
pub fn handle_user_input<T>(
    pending_input: &mut Option<PendingInput<T>>,
    manager: &StateManager,
    catalog: &Catalog,
    body: UserInputRequest,
) -> (r: InputOutcome<T>)
    ensures
        *final(pending_input) is None,
        pending_reply(*final(pending_input)) is NotWaiting,
        r.status == STATUS_OK,
        forward_view(r.forward) == input_forward(*old(pending_input), body),
        r.event@ == input_event(*catalog, manager@, input_unasked(*old(pending_input), body)),
{
    let taken = take_input(pending_input, body);
    let event = build_input_event(manager, catalog, taken.unasked);
    InputOutcome { status: STATUS_OK, forward: taken.forward, event }
}

/// Whether a question waits, and how it is asked.
pub enum PendingReply {
    Waiting { input_type: Option<String>, options: Option<Vec<String>> },
    NotWaiting,
}

/// What a reply holds.
pub enum PendingModel {
    Waiting { input_type: Option<Seq<char>>, options: Option<Seq<Seq<char>>> },
    NotWaiting,
}

/// The characters of each text of a list that may be missing.
pub open spec fn optional_texts(v: Option<Vec<String>>) -> Option<Seq<Seq<char>>> {
    match v {
        Some(v) => Some(texts(v@)),
        None => None,
    }
}

impl View for PendingReply {
    type V = PendingModel;

    open spec fn view(&self) -> PendingModel {
        match self {
            PendingReply::Waiting { input_type, options } => PendingModel::Waiting {
                input_type: optional(*input_type),
                options: optional_texts(*options),
            },
            PendingReply::NotWaiting => PendingModel::NotWaiting,
        }
    }
}

/// What is told of the question that waits.
pub open spec fn pending_reply<T>(pending_input: Option<PendingInput<T>>) -> PendingModel {
    match pending_input {
        Some(pending) => PendingModel::Waiting {
            input_type: optional(pending.input_type),
            options: optional_texts(pending.options),
        },
        None => PendingModel::NotWaiting,
    }
}

fn copy_texts(v: &Vec<String>) -> (r: Vec<String>)
    ensures
        texts(r@) == texts(v@),
{
    let mut out: Vec<String> = Vec::new();
    let mut k: usize = 0;
    while k < v.len()
        invariant
            k <= v@.len(),
            out@ == v@.take(k as int),
        decreases v@.len() - k,
    {
        out.push(v[k].clone());
        k = k + 1;
        assert(out@ =~= v@.take(k as int));
    }
    assert(v@.take(v@.len() as int) =~= v@);
    out
}

/// GET /api/user/pending: whether a question waits for the user, and of what kind it is.
pub fn handle_user_pending<T>(pending_input: &Option<PendingInput<T>>) -> (r: PendingReply)
    ensures
        r@ == pending_reply(*pending_input),
{
    match pending_input {
        Some(pending) => PendingReply::Waiting {
            input_type: owned(borrowed(&pending.input_type)),
            options: match &pending.options {
                Some(v) => Some(copy_texts(v)),
                None => None,
            },
        },
        None => PendingReply::NotWaiting,
    }
}

/// An answer, and the steps that relay the user's message.
pub struct MessageOutcome {
    pub status: u16,
    pub steps: Vec<RelayStep>,
}

/// POST /api/user/message: keeps the message for whoever fetches it, and relays it to the terminal,
/// whose window `hwnd` was bound at the start.
pub fn handle_user_message(manager: &mut StateManager, body: UserMessageRequest, hwnd: isize) -> (r:
    MessageOutcome)
    ensures
        final(manager)@ == old(manager)@.with_message(body.value@),
        r.status == STATUS_OK,
        relay_view(r.steps@) == relay_plan(body.value@, hwnd),
{
    let steps = relay_to_terminal(body.value.as_str(), hwnd);
    manager.push_message(body.value);
    MessageOutcome { status: STATUS_OK, steps }
}

/// The messages that waited.
pub struct MessagesReply {
    pub messages: Vec<String>,
    pub count: usize,
}

/// GET /api/user/message/pending: hands out the messages that wait and keeps none.
pub fn handle_user_message_pending(manager: &mut StateManager) -> (r: MessagesReply)
    ensures
        texts(r.messages@) == old(manager)@.messages,
        r.count == old(manager)@.messages.len(),
        final(manager)@ == old(manager)@.drained(),
{
    let messages = manager.drain_messages();
    let count: usize = messages.len();
    MessagesReply { messages, count }
}

/// A hook that is passed over changes nothing and sends nothing out.
pub proof fn law_held_back_changes_nothing(
    catalog: Catalog,
    before: ManagerModel,
    state: PetModel,
    tool: Option<Seq<char>>,
    now: int,
)
    requires
        held_back(before, state, now),
    ensures
        after_hook(before, state, tool, now) == before,
        hook_event(catalog, before, state, tool, now) is None,
{
}

/// Work is always shown: a hook for an active state is never passed over.
pub proof fn law_work_is_never_held_back(before: ManagerModel, state: PetModel, now: int)
    requires
        state.is_active(),
    ensures
        !held_back(before, state, now),
{
}

/// A pet that rests can be told anything: nothing is passed over while no work is shown.
pub proof fn law_rest_is_never_held(before: ManagerModel, state: PetModel, now: int)
    requires
        !before.state.is_active(),
    ensures
        !held_back(before, state, now),
{
}

/// A pet that was put to work is seen at work for `KEEP_RUNNING_MS`: no hook that would put it
/// to rest gets through before, and every one does from then on.
pub proof fn law_seen_at_work(before: ManagerModel, state: PetModel, now: int)
    requires
        before.state.is_active(),
        !state.is_active(),
        before.changed_at <= now,
    ensures
        held_back(before, state, now) <==> now < before.changed_at + KEEP_RUNNING_MS,
{
}

/// A hook as it comes in: the state it calls for, the tool it names, and when it comes.
pub struct HookModel {
    pub state: PetModel,
    pub tool: Option<Seq<char>>,
    pub now: int,
}

/// What hooks leave behind that come one after the other.
pub open spec fn after_hooks(before: ManagerModel, hooks: Seq<HookModel>) -> ManagerModel
    decreases hooks.len(),
{
    if hooks.len() == 0 {
        before
    } else {
        let last = hooks.last();
        after_hook(after_hooks(before, hooks.drop_last()), last.state, last.tool, last.now)
    }
}

/// However many hooks would put a pet at work to rest, all of them are passed over while it has
/// not been seen at work for long enough.
pub proof fn law_stays_at_work(before: ManagerModel, hooks: Seq<HookModel>)
    requires
        before.state.is_active(),
        forall|i: int|
            0 <= i < hooks.len() ==> !(#[trigger] hooks[i]).state.is_active() && hooks[i].now
                < before.changed_at + KEEP_RUNNING_MS,
    ensures
        after_hooks(before, hooks) == before,
    decreases hooks.len(),
{
    if hooks.len() > 0 {
        assert forall|i: int| 0 <= i < hooks.drop_last().len() implies !(
        #[trigger] hooks.drop_last()[i]).state.is_active() && hooks.drop_last()[i].now
            < before.changed_at + KEEP_RUNNING_MS by {
            assert(hooks[i] == hooks.drop_last()[i]);
        }
        law_stays_at_work(before, hooks.drop_last());
        assert(hooks.last() == hooks[hooks.len() - 1]);
    }
}

/// Hooks leave the user's messages alone, however many come.
pub proof fn law_hooks_keep_messages(before: ManagerModel, hooks: Seq<HookModel>)
    ensures
        after_hooks(before, hooks).messages == before.messages,
    decreases hooks.len(),
{
    if hooks.len() > 0 {
        law_hooks_keep_messages(before, hooks.drop_last());
    }
}

/// What a hook sends out is what `handle_current` tells afterwards.
pub proof fn law_event_shows_current(
    catalog: Catalog,
    before: ManagerModel,
    state: PetModel,
    tool: Option<Seq<char>>,
    now: int,
)
    requires
        !held_back(before, state, now),
    ensures
        ({
            let after = after_hook(before, state, tool, now);
            let event = hook_event(catalog, before, state, tool, now)->0;
            &&& event.animation == catalog.shows(after.state).animation
            &&& event.bubble == catalog.shows(after.state).bubble_text(after.tool)
            &&& event.core_signal == catalog.shows(after.state).core_signal
            &&& event.tool_label == after.tool
            &&& event.overlay == catalog.shows(after.state).overlay
        }),
{
}

/// A question is answered at most once: the first input goes to the one who asked, and an input
/// that finds the slot empty, as the first one leaves it, goes to nobody and is shown as a bubble
/// instead.
pub proof fn law_question_answered_once<T>(
    catalog: Catalog,
    current: ManagerModel,
    pending: PendingInput<T>,
    after: Option<PendingInput<T>>,
    first: UserInputRequest,
    second: UserInputRequest,
)
    requires
        after is None,
    ensures
        input_forward(Some(pending), first) == Some((pending.tx, first.value@)),
        input_forward(after, second) is None,
        input_event(catalog, current, input_unasked(after, second)) == plain_event(
            catalog.shows(current.state).animation,
            second.value@,
            "waiting"@,
        ),
        pending_reply(after) is NotWaiting,
{
}

/// An answer goes to the one who asked and to nobody else: the event that goes out does not depend
/// on it.
pub proof fn law_answer_is_not_sent_out<T>(
    catalog: Catalog,
    current: ManagerModel,
    pending: PendingInput<T>,
    one: UserInputRequest,
    other: UserInputRequest,
)
    ensures
        input_event(catalog, current, input_unasked(Some(pending), one)) == input_event(
            catalog,
            current,
            input_unasked(Some(pending), other),
        ),
{
}

/// The type that an input claims to have changes nothing, whether a question waits or not.
pub proof fn law_input_type_is_ignored<T>(
    catalog: Catalog,
    current: ManagerModel,
    slot: Option<PendingInput<T>>,
    one: UserInputRequest,
    other: UserInputRequest,
)
    requires
        one.value@ == other.value@,
    ensures
        input_forward(slot, one) == input_forward(slot, other),
        input_event(catalog, current, input_unasked(slot, one)) == input_event(
            catalog,
            current,
            input_unasked(slot, other),
        ),
{
}

/// A hook is passed over where it would put to rest a pet that was put to work less than 800
/// milliseconds ago, and nowhere else.
pub proof fn law_held_back(before: ManagerModel, state: PetModel, now: int)
    ensures
        held_back(before, state, now) <==> !state.is_active() && before.state.is_active() && now
            < before.changed_at + 800,
{
}

/// A hook that is not passed over leaves the state and the tool that it calls for, and sends out
/// the event for them.
pub proof fn law_hook_sets_state(
    catalog: Catalog,
    before: ManagerModel,
    state: PetModel,
    tool: Option<Seq<char>>,
    now: int,
)
    requires
        !held_back(before, state, now),
    ensures
        ({
            let after = after_hook(before, state, tool, now);
            &&& after.state == state
            &&& after.tool == tool
            &&& after.changed_at == now
            &&& after.messages == before.messages
        }),
        hook_event(catalog, before, state, tool, now) == Some(event_for(catalog, state, tool)),
{
}

/// A hook without a tool is answered 200 in any case. It leaves its state and sends out the event
/// for it, or it is passed over and leaves everything.
pub proof fn law_hook_done(
    catalog: Catalog,
    before: ManagerModel,
    after: ManagerModel,
    state: PetModel,
    now: int,
    outcome: Outcome,
)
    requires
        hook_done(catalog, before, after, state, now, outcome),
    ensures
        outcome.status == 200,
        after.messages == before.messages,
        !held_back(before, state, now) ==> {
            &&& after.state == state
            &&& after.tool is None
            &&& after.changed_at == now
            &&& outcome.event is Some
            &&& outcome.event->0@ == event_for(catalog, state, None)
        },
        held_back(before, state, now) ==> after == before && outcome.event is None,
{
}

/// An outcome that sends an event is answered 200 and holds that event.
pub proof fn law_sends(outcome: Outcome, event: EventModel)
    ensures
        outcome.sends(event) <==> outcome.status == 200 && outcome.event is Some
            && outcome.event->0@ == event,
{
}

/// An event that may be missing is told as it is, and is missing where it was.
pub proof fn law_optional_event(event: Option<StateChangeEvent>)
    ensures
        event is None <==> optional_event(event) is None,
        event is Some ==> optional_event(event)->0 == event->0@,
{
}

/// A body names a tool where it is a JSON object with a string under `tool_name`, and nowhere else.
pub proof fn law_named_tool(body: Seq<char>, tool: Seq<char>)
    ensures
        named_tool(body) == Some(tool) <==> (document(body) matches Some(doc) && doc matches Json::Object(
            fields,
        ) && fields.dom().contains("tool_name"@) && fields["tool_name"@] == Json::Text(tool)),
{
}

/// A question gets the whole input, and nothing of it is left for the bubble; without a question it
/// is the other way round.
pub proof fn law_input_goes_one_way<T>(pending: PendingInput<T>, body: UserInputRequest)
    ensures
        input_forward(Some(pending), body) == Some((pending.tx, body.value@)),
        input_unasked(Some(pending), body) is None,
        input_forward(None::<PendingInput<T>>, body) is None,
        input_unasked(None::<PendingInput<T>>, body) == Some(body.value@),
{
}

/// What is forwarded is told with its characters, and by whom it is awaited.
pub proof fn law_forward_view<T>(forward: Option<(T, String)>)
    ensures
        forward is None <==> forward_view(forward) is None,
        forward matches Some((tx, value)) ==> forward_view(forward) == Some((tx, value@)),
{
}

/// The event for an input keeps the animation of the current state. Its bubble is what the user
/// wrote unasked, or says that the answer has come.
pub proof fn law_input_event(catalog: Catalog, current: ManagerModel, unasked: Option<Seq<char>>)
    ensures
        ({
            let e = input_event(catalog, current, unasked);
            &&& e.animation == catalog.shows(current.state).animation
            &&& unasked is Some ==> e.bubble == unasked->0 && e.core_signal == "waiting"@
            &&& unasked is None ==> e.bubble == "收到!"@ && e.core_signal == "running"@
            &&& e.tool_label is None
            &&& e.overlay is None
            &&& e.input_type is None
            &&& e.options is None
        }),
{
}

/// A question that waits is always told of, as it is asked; and one is told of exactly where an
/// input would go to it.
pub proof fn law_pending_is_told<T>(pending: PendingInput<T>, slot: Option<PendingInput<T>>, body: UserInputRequest)
    ensures
        pending_reply(Some(pending)) is Waiting,
        pending_reply(Some(pending))->input_type == optional(pending.input_type),
        pending_reply(Some(pending))->options == optional_texts(pending.options),
        pending_reply(slot) is Waiting <==> input_forward(slot, body) is Some,
        pending_reply(slot) is Waiting <==> slot is Some,
{
}

/// A list that may be missing is told text by text, and is missing where it was.
pub proof fn law_optional_texts(v: Option<Vec<String>>)
    ensures
        v is None <==> optional_texts(v) is None,
        v is Some ==> optional_texts(v)->0.len() == v->0@.len(),
        v is Some ==> forall|i: int|
            0 <= i < v->0@.len() ==> #[trigger] optional_texts(v)->0[i] == v->0@[i]@,
{
}

/// A reply is told with all it says of the question.
pub proof fn law_reply_view(r: PendingReply)
    ensures
        r is Waiting <==> r@ is Waiting,
        r is Waiting ==> r@->input_type == optional(r->input_type),
        r is Waiting ==> r@->options == optional_texts(r->options),
{
}

} // verus!
