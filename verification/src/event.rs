//! The events that tell the window what to show.
use vstd::prelude::*;
use crate::state::{Catalog, PetModel, PetState};
use crate::text::{optional, optional_str, owned, texts};

verus! {

/// What the window is to show from now on.
pub struct StateChangeEvent {
    pub animation: String,
    pub bubble: String,
    pub core_signal: String,
    pub tool_label: Option<String>,
    pub overlay: Option<String>,
    pub input_type: Option<String>,
    pub options: Option<Vec<String>>,
}

/// What an event holds.
pub struct EventModel {
    pub animation: Seq<char>,
    pub bubble: Seq<char>,
    pub core_signal: Seq<char>,
    pub tool_label: Option<Seq<char>>,
    pub overlay: Option<Seq<char>>,
    pub input_type: Option<Seq<char>>,
    pub options: Option<Seq<Seq<char>>>,
}

impl View for StateChangeEvent {
    type V = EventModel;

    open spec fn view(&self) -> EventModel {
        EventModel {
            animation: self.animation@,
            bubble: self.bubble@,
            core_signal: self.core_signal@,
            tool_label: optional(self.tool_label),
            overlay: optional(self.overlay),
            input_type: optional(self.input_type),
            options: match self.options {
                Some(v) => Some(texts(v@)),
                None => None,
            },
        }
    }
}

/// The event for a state and the tool at work, with what the state shows.
pub open spec fn event_for(catalog: Catalog, state: PetModel, tool: Option<Seq<char>>) -> EventModel {
    EventModel {
        animation: catalog.shows(state).animation,
        bubble: catalog.shows(state).bubble_text(tool),
        core_signal: catalog.shows(state).core_signal,
        tool_label: tool,
        overlay: catalog.shows(state).overlay,
        input_type: None,
        options: None,
    }
}

/// An event that only sets the animation, the bubble and the signal.
pub open spec fn plain_event(animation: Seq<char>, bubble: Seq<char>, core_signal: Seq<char>) -> EventModel {
    EventModel {
        animation,
        bubble,
        core_signal,
        tool_label: None,
        overlay: None,
        input_type: None,
        options: None,
    }
}

/// Builds the event for a state and the tool at work.
pub fn build_event(catalog: &Catalog, state: &PetState, tool: Option<&str>) -> (r: StateChangeEvent)
    ensures
        r@ == event_for(*catalog, state@, optional_str(tool)),
{
    let shown = catalog.texts(state);
    StateChangeEvent {
        animation: shown.animation.clone(),
        bubble: shown.bubble_text(tool).to_owned(),
        core_signal: shown.core_signal.clone(),
        tool_label: owned(tool),
        overlay: shown.overlay.clone(),
        input_type: None,
        options: None,
    }
}

/// The event that greets the user when the window opens.
pub fn greeting() -> (r: StateChangeEvent)
    ensures
        r@ == plain_event("waving"@, "爱弥斯已上线~"@, "idle"@),
        r.animation@ == "waving"@,
        r.bubble@ == "爱弥斯已上线~"@,
        r.core_signal@ == "idle"@,
        r.tool_label is None && r.overlay is None && r.input_type is None && r.options is None,
{
    StateChangeEvent {
        animation: "waving".to_owned(),
        bubble: "爱弥斯已上线~".to_owned(),
        core_signal: "idle".to_owned(),
        tool_label: None,
        overlay: None,
        input_type: None,
        options: None,
    }
}

/// An event is told field by field.
pub proof fn law_event_view(e: StateChangeEvent)
    ensures
        e@.animation == e.animation@,
        e@.bubble == e.bubble@,
        e@.core_signal == e.core_signal@,
        e.tool_label is Some ==> e@.tool_label == Some(e.tool_label->0@),
        e.tool_label is None ==> e@.tool_label is None,
        e.overlay is Some ==> e@.overlay == Some(e.overlay->0@),
        e.overlay is None ==> e@.overlay is None,
        e.input_type is Some ==> e@.input_type == Some(e.input_type->0@),
        e.input_type is None ==> e@.input_type is None,
        e.options is Some ==> e@.options is Some && e@.options->0.len() == e.options->0@.len() && (forall|
            i: int,
        |
            0 <= i < e.options->0@.len() ==> #[trigger] e@.options->0[i] == e.options->0@[i]@),
        e.options is None ==> e@.options is None,
{
}

/// An event shows what its state shows, with the bubble and the label of the tool, and asks the
/// user nothing.
pub proof fn law_event_for(c: Catalog, state: PetModel, tool: Option<Seq<char>>)
    ensures
        ({
            let e = event_for(c, state, tool);
            let shown = c.shows(state);
            &&& e.animation == shown.animation
            &&& e.bubble == shown.bubble_text(tool)
            &&& e.core_signal == shown.core_signal
            &&& e.overlay == shown.overlay
            &&& e.tool_label == tool
            &&& e.input_type is None
            &&& e.options is None
        }),
{
}

/// The tool changes the bubble and the label of an event and nothing else.
pub proof fn law_tool_changes_bubble_only(
    c: Catalog,
    state: PetModel,
    one: Option<Seq<char>>,
    other: Option<Seq<char>>,
)
    ensures
        ({
            let a = event_for(c, state, one);
            let b = event_for(c, state, other);
            a == EventModel { bubble: a.bubble, tool_label: a.tool_label, ..b }
        }),
{
}

/// A plain event holds what it is given and nothing else.
pub proof fn law_plain_event(animation: Seq<char>, bubble: Seq<char>, core_signal: Seq<char>)
    ensures
        ({
            let e = plain_event(animation, bubble, core_signal);
            &&& e.animation == animation
            &&& e.bubble == bubble
            &&& e.core_signal == core_signal
            &&& e.tool_label is None
            &&& e.overlay is None
            &&& e.input_type is None
            &&& e.options is None
        }),
{
}

} // verus!
