//! What the pet can be doing, and what it shows while it does so.
use vstd::prelude::*;
use crate::text::{borrowed, optional, optional_str, owned, same_text};

verus! {

/// The bubble for one tool.
pub struct ToolBubble {
    pub tool: String,
    pub bubble: String,
}

/// What a state shows.
pub struct StateTexts {
    /// The name of the animation.
    pub animation: String,
    /// The signal of the pet's core.
    pub core_signal: String,
    /// The overlay over the animation.
    pub overlay: Option<String>,
    /// The bubble while no tool is at work.
    pub bubble: String,
    /// The bubble for a tool that has none of its own.
    pub tool_bubble: String,
    /// The bubbles of tools; the first entry for a tool counts.
    pub tool_bubbles: Vec<ToolBubble>,
}

/// What a `StateTexts` holds.
pub struct TextsModel {
    pub animation: Seq<char>,
    pub core_signal: Seq<char>,
    pub overlay: Option<Seq<char>>,
    pub bubble: Seq<char>,
    pub tool_bubble: Seq<char>,
    pub tool_bubbles: Seq<(Seq<char>, Seq<char>)>,
}

/// What each entry holds: the tool, then its bubble.
pub open spec fn bubbles_view(v: Seq<ToolBubble>) -> Seq<(Seq<char>, Seq<char>)> {
    v.map_values(|b: ToolBubble| (b.tool@, b.bubble@))
}

impl View for StateTexts {
    type V = TextsModel;

    open spec fn view(&self) -> TextsModel {
        TextsModel {
            animation: self.animation@,
            core_signal: self.core_signal@,
            overlay: optional(self.overlay),
            bubble: self.bubble@,
            tool_bubble: self.tool_bubble@,
            tool_bubbles: bubbles_view(self.tool_bubbles@),
        }
    }
}

/// The bubble of the first entry for `tool`, from position `from` on.
pub open spec fn bubble_from(entries: Seq<(Seq<char>, Seq<char>)>, tool: Seq<char>, from: int) -> Option<
    Seq<char>,
>
    decreases entries.len() - from,
{
    if from < 0 || from >= entries.len() {
        None
    } else if entries[from].0 == tool {
        Some(entries[from].1)
    } else {
        bubble_from(entries, tool, from + 1)
    }
}

impl TextsModel {
    /// The bubble that is shown while `tool` is at work.
    pub open spec fn bubble_text(self, tool: Option<Seq<char>>) -> Seq<char> {
        match tool {
            Some(t) => match bubble_from(self.tool_bubbles, t, 0) {
                Some(b) => b,
                None => self.tool_bubble,
            },
            None => self.bubble,
        }
    }
}

impl StateTexts {
    /// Looks up the bubble for a tool.
    pub fn bubble_text(&self, tool: Option<&str>) -> (r: &str)
        ensures
            r@ == self@.bubble_text(optional_str(tool)),
    {
        let name = match tool {
            Some(t) => t,
            None => {
                return self.bubble.as_str();
            },
        };
        let mut k: usize = 0;
        while k < self.tool_bubbles.len()
            invariant
                k <= self.tool_bubbles@.len(),
                bubble_from(self@.tool_bubbles, name@, 0) == bubble_from(
                    self@.tool_bubbles,
                    name@,
                    k as int,
                ),
                tool is Some,
                tool->0@ == name@,
            decreases self.tool_bubbles@.len() - k,
        {
            let entry = &self.tool_bubbles[k];
            assert(self@.tool_bubbles[k as int] == (entry.tool@, entry.bubble@));
            if same_text(entry.tool.as_str(), name) {
                return entry.bubble.as_str();
            }
            k = k + 1;
        }
        self.tool_bubble.as_str()
    }
}

impl Clone for StateTexts {
    fn clone(&self) -> (r: Self)
        ensures
            r@ == self@,
    {
        let mut tool_bubbles: Vec<ToolBubble> = Vec::new();
        let mut k: usize = 0;
        while k < self.tool_bubbles.len()
            invariant
                k <= self.tool_bubbles@.len(),
                bubbles_view(tool_bubbles@) == bubbles_view(self.tool_bubbles@).take(k as int),
            decreases self.tool_bubbles@.len() - k,
        {
            let ghost done = bubbles_view(tool_bubbles@);
            let entry = &self.tool_bubbles[k];
            tool_bubbles.push(ToolBubble { tool: entry.tool.clone(), bubble: entry.bubble.clone() });
            proof {
                assert(bubbles_view(tool_bubbles@) =~= done.push((entry.tool@, entry.bubble@)));
                assert(bubbles_view(self.tool_bubbles@).take(k + 1) =~= done.push(
                    (entry.tool@, entry.bubble@),
                ));
            }
            k = k + 1;
        }
        assert(bubbles_view(tool_bubbles@) =~= bubbles_view(self.tool_bubbles@));
        StateTexts {
            animation: self.animation.clone(),
            core_signal: self.core_signal.clone(),
            overlay: owned(borrowed(&self.overlay)),
            bubble: self.bubble.clone(),
            tool_bubble: self.tool_bubble.clone(),
            tool_bubbles,
        }
    }
}

/// What the pet is doing.
pub enum PetState {
    Running,
    Chatting,
    Fetching,
    Searching,
    Analyzing,
    Building,
    Celebrating,
    Idle,
    Permission,
    /// Anything else; it brings its own texts.
    Other(StateTexts),
}

/// What a `PetState` holds.
pub enum PetModel {
    Running,
    Chatting,
    Fetching,
    Searching,
    Analyzing,
    Building,
    Celebrating,
    Idle,
    Permission,
    Other(TextsModel),
}

impl View for PetState {
    type V = PetModel;

    open spec fn view(&self) -> PetModel {
        match self {
            PetState::Running => PetModel::Running,
            PetState::Chatting => PetModel::Chatting,
            PetState::Fetching => PetModel::Fetching,
            PetState::Searching => PetModel::Searching,
            PetState::Analyzing => PetModel::Analyzing,
            PetState::Building => PetModel::Building,
            PetState::Celebrating => PetModel::Celebrating,
            PetState::Idle => PetModel::Idle,
            PetState::Permission => PetModel::Permission,
            PetState::Other(texts) => PetModel::Other(texts@),
        }
    }
}

impl PetModel {
    /// Whether the pet is at work.
    pub open spec fn is_active(self) -> bool {
        ||| self is Running
        ||| self is Chatting
        ||| self is Fetching
        ||| self is Searching
        ||| self is Analyzing
        ||| self is Building
    }
}

impl Clone for PetState {
    fn clone(&self) -> (r: Self)
        ensures
            r@ == self@,
    {
        match self {
            PetState::Running => PetState::Running,
            PetState::Chatting => PetState::Chatting,
            PetState::Fetching => PetState::Fetching,
            PetState::Searching => PetState::Searching,
            PetState::Analyzing => PetState::Analyzing,
            PetState::Building => PetState::Building,
            PetState::Celebrating => PetState::Celebrating,
            PetState::Idle => PetState::Idle,
            PetState::Permission => PetState::Permission,
            PetState::Other(texts) => PetState::Other(texts.clone()),
        }
    }
}

impl PetState {
    /// Whether the pet is at work.
    pub fn is_active(&self) -> (r: bool)
        ensures
            r == self@.is_active(),
    {
        match self {
            PetState::Running | PetState::Chatting | PetState::Fetching | PetState::Searching
            | PetState::Analyzing | PetState::Building => true,
            _ => false,
        }
    }
}

/// The state that goes with a tool at work.
pub open spec fn state_for_tool(tool: Option<Seq<char>>) -> PetModel {
    match tool {
        Some(t) => if t == "WebFetch"@ {
            PetModel::Fetching
        } else if t == "WebSearch"@ {
            PetModel::Searching
        } else if t == "Write"@ || t == "Edit"@ {
            PetModel::Building
        } else if t == "Agent"@ || t == "TaskCreate"@ || t == "TaskUpdate"@ {
            PetModel::Analyzing
        } else {
            PetModel::Running
        },
        None => PetModel::Running,
    }
}

/// Maps specific tools to specific states.
pub fn working_state(tool: Option<&str>) -> (r: PetState)
    ensures
        r@ == state_for_tool(optional_str(tool)),
{
    match tool {
        Some(t) => if same_text(t, "WebFetch") {
            PetState::Fetching
        } else if same_text(t, "WebSearch") {
            PetState::Searching
        } else if same_text(t, "Write") || same_text(t, "Edit") {
            PetState::Building
        } else if same_text(t, "Agent") || same_text(t, "TaskCreate") || same_text(t, "TaskUpdate") {
            PetState::Analyzing
        } else {
            PetState::Running
        },
        None => PetState::Running,
    }
}

/// A hook's name, and a tool where the rule is for one tool only, with the state they call for.
pub struct HookRule {
    pub hook: String,
    pub tool: Option<String>,
    pub state: PetState,
}

impl HookRule {
    /// Whether the rule is for this hook with this tool.
    pub open spec fn applies(self, hook: Seq<char>, tool: Option<Seq<char>>) -> bool {
        &&& self.hook@ == hook
        &&& optional(self.tool) is Some ==> optional(self.tool) == tool
    }
}

/// The texts of the states and the names of the hooks.
pub struct Catalog {
    pub running: StateTexts,
    pub chatting: StateTexts,
    pub fetching: StateTexts,
    pub searching: StateTexts,
    pub analyzing: StateTexts,
    pub building: StateTexts,
    pub celebrating: StateTexts,
    pub idle: StateTexts,
    pub permission: StateTexts,
    /// Which state a hook calls for; the first rule that applies counts.
    pub hooks: Vec<HookRule>,
    /// The state for a hook that no rule applies to.
    pub unknown_hook: PetState,
}

/// The state of the first rule that applies, from position `from` on.
pub open spec fn rule_from(
    rules: Seq<HookRule>,
    hook: Seq<char>,
    tool: Option<Seq<char>>,
    from: int,
) -> Option<PetModel>
    decreases rules.len() - from,
{
    if from < 0 || from >= rules.len() {
        None
    } else if rules[from].applies(hook, tool) {
        Some(rules[from].state@)
    } else {
        rule_from(rules, hook, tool, from + 1)
    }
}

impl Catalog {
    /// What a state shows.
    pub open spec fn shows(self, state: PetModel) -> TextsModel {
        match state {
            PetModel::Running => self.running@,
            PetModel::Chatting => self.chatting@,
            PetModel::Fetching => self.fetching@,
            PetModel::Searching => self.searching@,
            PetModel::Analyzing => self.analyzing@,
            PetModel::Building => self.building@,
            PetModel::Celebrating => self.celebrating@,
            PetModel::Idle => self.idle@,
            PetModel::Permission => self.permission@,
            PetModel::Other(texts) => texts,
        }
    }

    /// The state that a hook calls for.
    pub open spec fn hook_state(self, hook: Seq<char>, tool: Option<Seq<char>>) -> PetModel {
        match rule_from(self.hooks@, hook, tool, 0) {
            Some(state) => state,
            None => self.unknown_hook@,
        }
    }

    /// Looks up what a state shows.
    pub fn texts<'a>(&'a self, state: &'a PetState) -> (r: &'a StateTexts)
        ensures
            r@ == self.shows(state@),
    {
        match state {
            PetState::Running => &self.running,
            PetState::Chatting => &self.chatting,
            PetState::Fetching => &self.fetching,
            PetState::Searching => &self.searching,
            PetState::Analyzing => &self.analyzing,
            PetState::Building => &self.building,
            PetState::Celebrating => &self.celebrating,
            PetState::Idle => &self.idle,
            PetState::Permission => &self.permission,
            PetState::Other(texts) => texts,
        }
    }

    /// Finds the state that a hook calls for.
    pub fn from_hook(&self, hook: &str, tool: &Option<String>) -> (r: PetState)
        ensures
            r@ == self.hook_state(hook@, optional(*tool)),
    {
        let mut k: usize = 0;
        while k < self.hooks.len()
            invariant
                k <= self.hooks@.len(),
                rule_from(self.hooks@, hook@, optional(*tool), 0) == rule_from(
                    self.hooks@,
                    hook@,
                    optional(*tool),
                    k as int,
                ),
            decreases self.hooks@.len() - k,
        {
            let rule = &self.hooks[k];
            let tool_fits = match (&rule.tool, tool) {
                (Some(a), Some(b)) => same_text(a.as_str(), b.as_str()),
                (Some(_), None) => false,
                (None, _) => true,
            };
            if tool_fits && same_text(rule.hook.as_str(), hook) {
                return rule.state.clone();
            }
            k = k + 1;
        }
        self.unknown_hook.clone()
    }
}

/// What a state shows is told field by field.
pub proof fn law_texts_view(t: StateTexts)
    ensures
        t@.animation == t.animation@,
        t@.core_signal == t.core_signal@,
        t.overlay is Some ==> t@.overlay == Some(t.overlay->0@),
        t.overlay is None ==> t@.overlay is None,
        t@.bubble == t.bubble@,
        t@.tool_bubble == t.tool_bubble@,
        t@.tool_bubbles.len() == t.tool_bubbles@.len(),
        forall|i: int|
            0 <= i < t.tool_bubbles@.len() ==> #[trigger] t@.tool_bubbles[i] == (
                t.tool_bubbles@[i].tool@,
                t.tool_bubbles@[i].bubble@,
            ),
{
}

/// States are told apart, and a state with texts of its own brings them.
pub proof fn law_state_view(s: PetState)
    ensures
        s is Running <==> s@ is Running,
        s is Chatting <==> s@ is Chatting,
        s is Fetching <==> s@ is Fetching,
        s is Searching <==> s@ is Searching,
        s is Analyzing <==> s@ is Analyzing,
        s is Building <==> s@ is Building,
        s is Celebrating <==> s@ is Celebrating,
        s is Idle <==> s@ is Idle,
        s is Permission <==> s@ is Permission,
        s is Other <==> s@ is Other,
        s matches PetState::Other(t) ==> s@ == PetModel::Other(t@),
{
}

/// The bubble: the first that is meant for the tool, else the one for any tool; without a tool the
/// one for that.
pub proof fn law_bubble_text(t: TextsModel, tool: Seq<char>, i: int)
    ensures
        t.bubble_text(None) == t.bubble,
        (forall|j: int| 0 <= j < t.tool_bubbles.len() ==> (#[trigger] t.tool_bubbles[j]).0 != tool)
            ==> t.bubble_text(Some(tool)) == t.tool_bubble,
        0 <= i < t.tool_bubbles.len() && t.tool_bubbles[i].0 == tool && (forall|j: int|
            0 <= j < i ==> (#[trigger] t.tool_bubbles[j]).0 != tool) ==> t.bubble_text(Some(tool))
            == t.tool_bubbles[i].1,
{
    if forall|j: int| 0 <= j < t.tool_bubbles.len() ==> (#[trigger] t.tool_bubbles[j]).0 != tool {
        lemma_bubble_from(t.tool_bubbles, tool, 0, t.tool_bubbles.len() as int);
    }
    if 0 <= i < t.tool_bubbles.len() && t.tool_bubbles[i].0 == tool && (forall|j: int|
        0 <= j < i ==> (#[trigger] t.tool_bubbles[j]).0 != tool) {
        lemma_bubble_from(t.tool_bubbles, tool, 0, i);
    }
}

proof fn lemma_bubble_from(entries: Seq<(Seq<char>, Seq<char>)>, tool: Seq<char>, from: int, to: int)
    requires
        0 <= from <= to <= entries.len(),
        forall|j: int| from <= j < to ==> (#[trigger] entries[j]).0 != tool,
    ensures
        bubble_from(entries, tool, from) == bubble_from(entries, tool, to),
    decreases to - from,
{
    if from < to {
        assert(entries[from].0 != tool);
        lemma_bubble_from(entries, tool, from + 1, to);
    }
}

/// A pet that celebrates, rests, asks or does anything of its own is not at work; any other is.
pub proof fn law_is_active(s: PetModel)
    ensures
        !s.is_active() <==> (s is Celebrating || s is Idle || s is Permission || s is Other),
{
}

/// Which tools go with which state: each state but `Running` goes with its own tools alone, and
/// `Running` with the rest and with none.
pub proof fn law_state_for_tool(tool: Option<Seq<char>>)
    ensures
        state_for_tool(tool) is Fetching <==> tool == Some("WebFetch"@),
        state_for_tool(tool) is Searching <==> tool == Some("WebSearch"@),
        state_for_tool(tool) is Building <==> (tool == Some("Write"@) || tool == Some("Edit"@)),
        state_for_tool(tool) is Analyzing <==> (tool == Some("Agent"@) || tool == Some("TaskCreate"@)
            || tool == Some("TaskUpdate"@)),
        state_for_tool(tool).is_active(),
        !(state_for_tool(tool) is Chatting),
{
    reveal_strlit("WebFetch");
    reveal_strlit("WebSearch");
    reveal_strlit("Write");
    reveal_strlit("Edit");
    reveal_strlit("Agent");
    reveal_strlit("TaskCreate");
    reveal_strlit("TaskUpdate");
    assert("WebFetch"@.len() == 8 && "WebSearch"@.len() == 9);
    assert("Write"@.len() == 5 && "Edit"@.len() == 4);
    assert("Agent"@.len() == 5 && "Agent"@[0] != "Write"@[0]);
    assert("TaskCreate"@.len() == 10 && "TaskUpdate"@.len() == 10);
}

/// Each state shows the texts that stand under its name; a state with texts of its own shows those.
pub proof fn law_shows(c: Catalog, t: TextsModel)
    ensures
        c.shows(PetModel::Running) == c.running@,
        c.shows(PetModel::Chatting) == c.chatting@,
        c.shows(PetModel::Fetching) == c.fetching@,
        c.shows(PetModel::Searching) == c.searching@,
        c.shows(PetModel::Analyzing) == c.analyzing@,
        c.shows(PetModel::Building) == c.building@,
        c.shows(PetModel::Celebrating) == c.celebrating@,
        c.shows(PetModel::Idle) == c.idle@,
        c.shows(PetModel::Permission) == c.permission@,
        c.shows(PetModel::Other(t)) == t,
{
}

/// A rule is for a hook where it names it, and where it names no tool or the hook's tool.
pub proof fn law_rule_applies(rule: HookRule, hook: Seq<char>, tool: Option<Seq<char>>)
    ensures
        rule.applies(hook, tool) <==> rule.hook@ == hook && (rule.tool is None || (tool is Some
            && rule.tool->0@ == tool->0)),
{
}

/// The first rule for a hook decides; where there is none, the state for unknown hooks is taken.
pub proof fn law_hook_state(c: Catalog, hook: Seq<char>, tool: Option<Seq<char>>, i: int)
    ensures
        (forall|j: int| 0 <= j < c.hooks@.len() ==> !(#[trigger] c.hooks@[j]).applies(hook, tool))
            ==> c.hook_state(hook, tool) == c.unknown_hook@,
        0 <= i < c.hooks@.len() && c.hooks@[i].applies(hook, tool) && (forall|j: int|
            0 <= j < i ==> !(#[trigger] c.hooks@[j]).applies(hook, tool)) ==> c.hook_state(hook, tool)
            == c.hooks@[i].state@,
{
    if forall|j: int| 0 <= j < c.hooks@.len() ==> !(#[trigger] c.hooks@[j]).applies(hook, tool) {
        lemma_rule_from(c.hooks@, hook, tool, 0, c.hooks@.len() as int);
    }
    if 0 <= i < c.hooks@.len() && c.hooks@[i].applies(hook, tool) && (forall|j: int|
        0 <= j < i ==> !(#[trigger] c.hooks@[j]).applies(hook, tool)) {
        lemma_rule_from(c.hooks@, hook, tool, 0, i);
    }
}

proof fn lemma_rule_from(
    rules: Seq<HookRule>,
    hook: Seq<char>,
    tool: Option<Seq<char>>,
    from: int,
    to: int,
)
    requires
        0 <= from <= to <= rules.len(),
        forall|j: int| from <= j < to ==> !(#[trigger] rules[j]).applies(hook, tool),
    ensures
        rule_from(rules, hook, tool, from) == rule_from(rules, hook, tool, to),
    decreases to - from,
{
    if from < to {
        assert(!rules[from].applies(hook, tool));
        lemma_rule_from(rules, hook, tool, from + 1, to);
    }
}

} // verus!
