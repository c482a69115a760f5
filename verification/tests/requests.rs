use aemeath::event::{build_event, greeting, StateChangeEvent};
use aemeath::http::{
    build_input_event, handle_current, handle_heartbeat, handle_hook_done, handle_hook_idle, handle_hook_permission,
    handle_hook_thinking, handle_hook_working, handle_state, handle_user_input, handle_user_message,
    handle_user_message_pending, handle_user_pending, hook_tool, set_pet_state, take_input,
    tool_at_work,
    PendingInput, PendingReply, StateRequest, UserInputRequest, UserMessageRequest,
};
use aemeath::manager::StateManager;
use aemeath::shell::RelayStep;
use aemeath::state::{working_state, Catalog, HookRule, PetState, StateTexts, ToolBubble};

fn texts(name: &str) -> StateTexts {
    StateTexts {
        animation: name.to_string(),
        core_signal: format!("{}-signal", name),
        overlay: if name == "permission" { Some("lock".to_string()) } else { None },
        bubble: format!("{}...", name),
        tool_bubble: format!("{} with a tool", name),
        tool_bubbles: vec![
            ToolBubble { tool: "Bash".to_string(), bubble: format!("{} in a shell", name) },
            ToolBubble { tool: "Bash".to_string(), bubble: "never".to_string() },
            ToolBubble { tool: "WebFetch".to_string(), bubble: "fetching a page".to_string() },
        ],
    }
}

fn catalog() -> Catalog {
    Catalog {
        running: texts("running"),
        chatting: texts("chatting"),
        fetching: texts("fetching"),
        searching: texts("searching"),
        analyzing: texts("analyzing"),
        building: texts("building"),
        celebrating: texts("celebrating"),
        idle: texts("idle"),
        permission: texts("permission"),
        hooks: vec![
            HookRule {
                hook: "work".to_string(),
                tool: Some("Edit".to_string()),
                state: PetState::Building,
            },
            HookRule { hook: "work".to_string(), tool: None, state: PetState::Running },
            HookRule {
                hook: "sleep".to_string(),
                tool: None,
                state: PetState::Other(texts("sleeping")),
            },
        ],
        unknown_hook: PetState::Idle,
    }
}

fn manager(state: PetState, now: u64) -> StateManager {
    StateManager::new(state, now)
}

fn animation(m: &StateManager) -> String {
    handle_current(m, &catalog()).animation
}

fn check(e: &StateChangeEvent, animation: &str, bubble: &str, signal: &str, tool: Option<&str>) {
    assert_eq!(e.animation, animation);
    assert_eq!(e.bubble, bubble);
    assert_eq!(e.core_signal, signal);
    assert_eq!(e.tool_label.as_deref(), tool);
    assert!(e.input_type.is_none());
    assert!(e.options.is_none());
}

#[test]
fn event_shows_state_and_tool() {
    let c = catalog();
    let e = build_event(&c, &PetState::Running, Some("Bash"));
    check(&e, "running", "running in a shell", "running-signal", Some("Bash"));
    assert!(e.overlay.is_none());
    let e = build_event(&c, &PetState::Running, Some("Grep"));
    check(&e, "running", "running with a tool", "running-signal", Some("Grep"));
    let e = build_event(&c, &PetState::Permission, None);
    check(&e, "permission", "permission...", "permission-signal", None);
    assert_eq!(e.overlay.as_deref(), Some("lock"));
    let e = build_event(&c, &PetState::Other(texts("sleeping")), None);
    check(&e, "sleeping", "sleeping...", "sleeping-signal", None);
}

#[test]
fn greeting_waves() {
    let e = greeting();
    check(&e, "waving", "爱弥斯已上线~", "idle", None);
    assert!(e.overlay.is_none());
}

#[test]
fn requests_can_be_printed() {
    let r = StateRequest { s: "work".to_string(), tool: None };
    assert_eq!(format!("{:?}", r), "StateRequest { s: \"work\", tool: None }");
    let r = UserMessageRequest { value: "hi".to_string() };
    assert_eq!(format!("{:?}", r), "UserMessageRequest { value: \"hi\" }");
}

#[test]
fn heartbeat_is_ok() {
    assert_eq!(handle_heartbeat(), 200);
}

#[test]
fn tools_have_their_states() {
    assert!(matches!(working_state(Some("WebFetch")), PetState::Fetching));
    assert!(matches!(working_state(Some("WebSearch")), PetState::Searching));
    assert!(matches!(working_state(Some("Write")), PetState::Building));
    assert!(matches!(working_state(Some("Edit")), PetState::Building));
    assert!(matches!(working_state(Some("Agent")), PetState::Analyzing));
    assert!(matches!(working_state(Some("TaskCreate")), PetState::Analyzing));
    assert!(matches!(working_state(Some("TaskUpdate")), PetState::Analyzing));
    assert!(matches!(working_state(Some("Bash")), PetState::Running));
    assert!(matches!(working_state(Some("edit")), PetState::Running));
    assert!(matches!(working_state(Some("")), PetState::Running));
    assert!(matches!(working_state(None), PetState::Running));
}

#[test]
fn active_states() {
    for s in [
        PetState::Running,
        PetState::Chatting,
        PetState::Fetching,
        PetState::Searching,
        PetState::Analyzing,
        PetState::Building,
    ] {
        assert!(s.is_active());
    }
    for s in [
        PetState::Celebrating,
        PetState::Idle,
        PetState::Permission,
        PetState::Other(texts("sleeping")),
    ] {
        assert!(!s.is_active());
    }
}

#[test]
fn hook_body_names_tool() {
    assert_eq!(hook_tool("{\"tool_name\":\"WebFetch\",\"x\":1}").as_deref(), Some("WebFetch"));
    assert_eq!(hook_tool("{\"tool_name\":\"a\\u0062\"}").as_deref(), Some("ab"));
    assert_eq!(hook_tool("{\"tool_name\":7}"), None);
    assert_eq!(hook_tool("{\"other\":\"WebFetch\"}"), None);
    assert_eq!(hook_tool("[\"tool_name\"]"), None);
    assert_eq!(hook_tool("not json"), None);
    assert_eq!(hook_tool(""), None);
}

#[test]
fn working_hook_reads_its_body() {
    let c = catalog();
    let mut m = manager(PetState::Idle, 0);
    let out = handle_hook_working(&mut m, &c, "{\"tool_name\":\"WebFetch\"}", 10);
    assert_eq!(out.status, 200);
    check(&out.event.unwrap(), "fetching", "fetching a page", "fetching-signal", Some("WebFetch"));
    let now = handle_current(&m, &c);
    assert_eq!(now.animation, "fetching");
    assert_eq!(now.bubble, "fetching a page");
    assert_eq!(now.core_signal, "fetching-signal");
    assert_eq!(now.tool_label.as_deref(), Some("WebFetch"));
    assert!(now.overlay.is_none());
    let out = handle_hook_working(&mut m, &c, "broken", 11);
    check(&out.event.unwrap(), "running", "running...", "running-signal", None);
}

#[test]
fn tool_at_work_sets_state() {
    let c = catalog();
    let mut m = manager(PetState::Celebrating, 0);
    let out = tool_at_work(&mut m, &c, Some("Edit".to_string()), 5);
    check(&out.event.unwrap(), "building", "building with a tool", "building-signal", Some("Edit"));
    assert_eq!(animation(&m), "building");
}

#[test]
fn work_is_seen_for_a_while() {
    let c = catalog();
    let mut m = manager(PetState::Idle, 0);
    let out = handle_hook_thinking(&mut m, &c, 1000);
    assert_eq!(out.status, 200);
    check(&out.event.unwrap(), "chatting", "chatting...", "chatting-signal", None);

    let out = handle_hook_done(&mut m, &c, 1799);
    assert_eq!(out.status, 200);
    assert!(out.event.is_none());
    assert_eq!(animation(&m), "chatting");

    let out = handle_hook_idle(&mut m, &c, 1799);
    assert_eq!(out.status, 200);
    assert!(out.event.is_none());
    assert_eq!(animation(&m), "chatting");

    let out = handle_hook_done(&mut m, &c, 1800);
    assert_eq!(out.status, 200);
    check(&out.event.unwrap(), "celebrating", "celebrating...", "celebrating-signal", None);
    assert_eq!(animation(&m), "celebrating");

    let out = handle_hook_idle(&mut m, &c, 1801);
    check(&out.event.unwrap(), "idle", "idle...", "idle-signal", None);
}

#[test]
fn work_follows_work_at_once() {
    let c = catalog();
    let mut m = manager(PetState::Running, 1000);
    let e = set_pet_state(&mut m, &c, PetState::Searching, None, 1000);
    check(&e.unwrap(), "searching", "searching...", "searching-signal", None);
    assert_eq!(animation(&m), "searching");
}

#[test]
fn clock_before_last_change_holds_back() {
    let c = catalog();
    let mut m = manager(PetState::Running, 1000);
    assert!(set_pet_state(&mut m, &c, PetState::Idle, None, 10).is_none());
    assert_eq!(animation(&m), "running");
}

#[test]
fn permission_is_asked_at_once() {
    let c = catalog();
    let mut m = manager(PetState::Running, 1000);
    let out = handle_hook_permission(&mut m, &c, 1001);
    assert_eq!(out.status, 200);
    let e = out.event.unwrap();
    check(&e, "permission", "permission...", "permission-signal", None);
    assert_eq!(e.overlay.as_deref(), Some("lock"));
    assert_eq!(animation(&m), "permission");
}

#[test]
fn named_state_is_set_at_once() {
    let c = catalog();
    let mut m = manager(PetState::Running, 1000);
    let ask = |s: &str, tool: Option<&str>| StateRequest {
        s: s.to_string(),
        tool: tool.map(|t| t.to_string()),
    };
    let out = handle_state(&mut m, &c, ask("sleep", None), 1001);
    assert_eq!(out.status, 200);
    check(&out.event.unwrap(), "sleeping", "sleeping...", "sleeping-signal", None);
    assert_eq!(animation(&m), "sleeping");
    let out = handle_state(&mut m, &c, ask("work", Some("Edit")), 1002);
    check(&out.event.unwrap(), "building", "building with a tool", "building-signal", Some("Edit"));
    let out = handle_state(&mut m, &c, ask("work", Some("Bash")), 1003);
    check(&out.event.unwrap(), "running", "running in a shell", "running-signal", Some("Bash"));
    let out = handle_state(&mut m, &c, ask("?", None), 1004);
    check(&out.event.unwrap(), "idle", "idle...", "idle-signal", None);
}

fn answer(value: &str) -> UserInputRequest {
    UserInputRequest { value: value.to_string(), _input_type: None }
}

#[test]
fn answer_goes_to_the_question() {
    let c = catalog();
    let m = manager(PetState::Permission, 0);
    let mut slot = Some(PendingInput {
        tx: 17u8,
        input_type: Some("choice".to_string()),
        options: Some(vec!["yes".to_string(), "no".to_string()]),
    });
    match handle_user_pending(&slot) {
        PendingReply::Waiting { input_type, options } => {
            assert_eq!(input_type.as_deref(), Some("choice"));
            assert_eq!(options.unwrap(), vec!["yes".to_string(), "no".to_string()]);
        }
        PendingReply::NotWaiting => panic!("a question waits"),
    }
    let out = handle_user_input(&mut slot, &m, &c, answer("yes"));
    assert_eq!(out.status, 200);
    assert_eq!(out.forward, Some((17u8, "yes".to_string())));
    check(&out.event, "permission", "收到!", "running", None);
    assert!(out.event.overlay.is_none());
    assert!(slot.is_none());
    assert!(matches!(handle_user_pending(&slot), PendingReply::NotWaiting));

    let out = handle_user_input(&mut slot, &m, &c, answer("again"));
    assert_eq!(out.status, 200);
    assert!(out.forward.is_none());
    check(&out.event, "permission", "again", "waiting", None);
}

#[test]
fn answer_is_taken_before_the_event_is_built() {
    let c = catalog();
    let m = manager(PetState::Running, 0);
    let mut slot = Some(PendingInput { tx: 'q', input_type: None, options: None });
    let taken = take_input(&mut slot, answer("secret"));
    assert!(slot.is_none());
    assert_eq!(taken.forward, Some(('q', "secret".to_string())));
    assert!(taken.unasked.is_none());
    check(&build_input_event(&m, &c, taken.unasked), "running", "收到!", "running", None);

    let taken = take_input(&mut slot, answer("hello"));
    assert!(taken.forward.is_none());
    assert_eq!(taken.unasked.as_deref(), Some("hello"));
    check(&build_input_event(&m, &c, taken.unasked), "running", "hello", "waiting", None);
}

#[test]
fn event_does_not_depend_on_answer_or_type() {
    let c = catalog();
    let m = manager(PetState::Running, 0);
    for (value, kind) in [("a", None), ("b", Some("text")), ("", Some("choice"))] {
        let mut slot = Some(PendingInput { tx: 1u8, input_type: None, options: None });
        let body = UserInputRequest {
            value: value.to_string(),
            _input_type: kind.map(|k| k.to_string()),
        };
        let out = handle_user_input(&mut slot, &m, &c, body);
        assert_eq!(out.forward, Some((1u8, value.to_string())));
        check(&out.event, "running", "收到!", "running", None);
    }
}

#[test]
fn messages_are_handed_out_once_in_order() {
    let c = catalog();
    let mut m = manager(PetState::Idle, 0);
    for text in ["one", "it's two", "three"] {
        let out = handle_user_message(&mut m, UserMessageRequest { value: text.to_string() }, 42);
        assert_eq!(out.status, 200);
        assert_eq!(out.steps.len(), 2);
        match &out.steps[0] {
            RelayStep::Run(command) => {
                assert_eq!(command.program, "powershell");
                assert_eq!(command.creation_flags, 0x08000000);
                if text == "it's two" {
                    assert_eq!(
                        command.args,
                        vec!["-NoProfile", "-Command", "Set-Clipboard -Value 'it''s two'"]
                    );
                }
            }
            RelayStep::Paste { .. } => panic!("the clipboard comes first"),
        }
        assert!(matches!(out.steps[1], RelayStep::Paste { hwnd: 42 }));
    }
    handle_hook_thinking(&mut m, &c, 5);
    let reply = handle_user_message_pending(&mut m);
    assert_eq!(reply.messages, vec!["one", "it's two", "three"]);
    assert_eq!(reply.count, 3);
    let reply = handle_user_message_pending(&mut m);
    assert!(reply.messages.is_empty());
    assert_eq!(reply.count, 0);
    assert_eq!(animation(&m), "chatting");
}
