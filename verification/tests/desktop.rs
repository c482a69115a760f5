use aemeath::autostart::{check_autostart, toggle_autostart, toggle_link, with_slashes, TogglePlan};
use aemeath::routes::{routes, Endpoint, Method};
use aemeath::shell::{copy_to_clipboard, quote, relay_to_terminal, RelayStep};
use aemeath::text::{contains_term, replace_char, same_text};
use aemeath::webui::{launch_steps, webui_address, LaunchStep};
use aemeath::window::{
    enum_callback, fallback_window, paste_to_window, target_window, title_matches, PasteStep,
};

fn units(s: &str) -> Vec<u16> {
    s.encode_utf16().collect()
}

fn terms() -> Vec<String> {
    vec!["terminal".to_string(), "pty".to_string()]
}

#[test]
fn texts_compare() {
    assert!(same_text("", ""));
    assert!(same_text("收到!", "收到!"));
    assert!(!same_text("a", "b"));
    assert!(!same_text("a", "ab"));
    assert!(!same_text("é", "e"));
}

#[test]
fn texts_replace() {
    assert_eq!(replace_char("a'b''c", '\'', "''"), "a''b''''c");
    assert_eq!(replace_char("", 'x', "y"), "");
    assert_eq!(replace_char("好x好", '好', ""), "x");
}

#[test]
fn texts_search() {
    assert!(contains_term("abcabd", "abd"));
    assert!(contains_term("abc", ""));
    assert!(contains_term("", ""));
    assert!(!contains_term("", "a"));
    assert!(!contains_term("ab", "abc"));
    assert!(contains_term("终端 terminal", "terminal"));
}

#[test]
fn titles_are_searched_for_terms() {
    assert!(title_matches("my terminal here", &terms()));
    assert!(title_matches("a pty", &terms()));
    assert!(!title_matches("Terminal", &terms()));
    assert!(!title_matches("terminal", &Vec::new()));
}

#[test]
fn window_search_stops_at_the_terminal() {
    let mut found: isize = 0;
    assert_eq!(enum_callback(&mut found, 11, true, &units("Notepad"), &terms()), 1);
    assert_eq!(enum_callback(&mut found, 12, false, &units("Terminal"), &terms()), 1);
    assert_eq!(enum_callback(&mut found, 13, true, &units(""), &terms()), 1);
    assert_eq!(found, 0);
    assert_eq!(enum_callback(&mut found, 14, true, &units("✳ TERMINAL — 终端"), &terms()), 0);
    assert_eq!(found, 14);
}

#[test]
fn broken_title_is_read_all_the_same() {
    let mut title = vec![0xd800u16];
    title.extend(units("Terminal"));
    title.push(0xdc00);
    let mut found: isize = 0;
    assert_eq!(enum_callback(&mut found, 7, true, &title, &terms()), 0);
    assert_eq!(found, 7);
}

#[test]
fn characters_of_two_units_are_read() {
    let wanted = vec!["\u{1f408} term".to_string()];
    let mut found: isize = 0;
    assert_eq!(enum_callback(&mut found, 5, true, &[0xd83d, 0x20, 0x74], &wanted), 1);
    assert_eq!(enum_callback(&mut found, 6, true, &units("a \u{1f408} Term"), &wanted), 0);
    assert_eq!(found, 6);
    let broken = vec!["\u{fffd}x\u{fffd}".to_string()];
    assert_eq!(enum_callback(&mut found, 8, true, &[0xd800, 0x58, 0xdc00], &broken), 0);
    assert_eq!(found, 8);
}

#[test]
fn window_to_paste_into() {
    assert_eq!(fallback_window(0, 5), Some(5));
    assert_eq!(fallback_window(3, 5), None);
    assert_eq!(fallback_window(0, 0), None);
    assert_eq!(target_window(3, 5, true), Some(3));
    assert_eq!(target_window(0, 5, true), Some(5));
    assert_eq!(target_window(0, 5, false), None);
    assert_eq!(target_window(0, 0, true), None);
}

#[test]
fn pasting_types_and_gives_focus_back() {
    let expected = vec![
        PasteStep::Show { hwnd: 4, command: 9 },
        PasteStep::Foreground { hwnd: 4 },
        PasteStep::Wait { ms: 100 },
        PasteStep::Key { code: 0x11, flags: 0 },
        PasteStep::Key { code: 0x56, flags: 0 },
        PasteStep::Key { code: 0x56, flags: 2 },
        PasteStep::Key { code: 0x11, flags: 2 },
        PasteStep::Wait { ms: 80 },
        PasteStep::Key { code: 0x0d, flags: 0 },
        PasteStep::Key { code: 0x0d, flags: 2 },
        PasteStep::Wait { ms: 150 },
    ];
    assert_eq!(paste_to_window(4, 0), expected);
    let mut with_focus = expected;
    with_focus.push(PasteStep::Foreground { hwnd: 8 });
    assert_eq!(paste_to_window(4, 8), with_focus);
}

#[test]
fn message_is_quoted_for_the_clipboard() {
    let command = copy_to_clipboard("'");
    assert_eq!(command.program, "powershell");
    assert_eq!(command.args, vec!["-NoProfile", "-Command", "Set-Clipboard -Value ''''"]);
    assert_eq!(command.creation_flags, 0x08000000);
    let command = copy_to_clipboard("");
    assert_eq!(command.args[2], "Set-Clipboard -Value ''");
}

#[test]
fn every_kind_of_quote_is_doubled() {
    assert_eq!(quote("it\u{2019}s"), "it\u{2019}\u{2019}s");
    assert_eq!(
        quote("\u{2018}\u{201a}\u{201b}'"),
        "\u{2018}\u{2018}\u{201a}\u{201a}\u{201b}\u{201b}''"
    );
    assert_eq!(quote("\u{2017}\u{201c}\"`"), "\u{2017}\u{201c}\"`");
    let command = copy_to_clipboard("\u{2019};x");
    assert_eq!(command.args[2], "Set-Clipboard -Value '\u{2019}\u{2019};x'");
}

#[test]
fn message_is_copied_then_pasted() {
    let steps = relay_to_terminal("it\u{2019}s", 9);
    assert_eq!(steps.len(), 2);
    match &steps[0] {
        RelayStep::Run(command) => {
            assert_eq!(command.args[2], "Set-Clipboard -Value 'it\u{2019}\u{2019}s'");
        }
        RelayStep::Paste { .. } => panic!("the clipboard comes first"),
    }
    assert!(matches!(steps[1], RelayStep::Paste { hwnd: 9 }));
}

#[test]
fn all_routes_are_listed() {
    let expected = vec![
        ("/api/state", Method::Post, Endpoint::State),
        ("/api/heartbeat", Method::Get, Endpoint::Heartbeat),
        ("/api/current", Method::Get, Endpoint::Current),
        ("/api/hook/thinking", Method::Post, Endpoint::HookThinking),
        ("/api/hook/working", Method::Post, Endpoint::HookWorking),
        ("/api/hook/done", Method::Post, Endpoint::HookDone),
        ("/api/hook/idle", Method::Post, Endpoint::HookIdle),
        ("/api/hook/permission", Method::Post, Endpoint::HookPermission),
        ("/api/user/input", Method::Post, Endpoint::UserInput),
        ("/api/user/pending", Method::Get, Endpoint::UserPending),
        ("/api/user/message", Method::Post, Endpoint::UserMessage),
        ("/api/user/message/pending", Method::Get, Endpoint::UserMessagePending),
        ("/api/session/messages", Method::Get, Endpoint::SessionMessages),
    ];
    let all = routes();
    assert_eq!(all.len(), expected.len());
    for (route, (path, method, endpoint)) in all.iter().zip(expected) {
        assert_eq!(route.path, path);
        assert_eq!(route.method, method);
        assert_eq!(route.endpoint, endpoint);
    }
}

#[test]
fn no_two_routes_share_a_path() {
    let all = routes();
    for i in 0..all.len() {
        for j in 0..i {
            assert_ne!(all[i].path, all[j].path);
            assert_ne!(all[i].endpoint, all[j].endpoint);
        }
    }
}

#[test]
fn autostart_link_is_found() {
    let appdata = "C:\\Users\\me\\AppData\\Roaming";
    let link =
        "C:/Users/me/AppData/Roaming/Microsoft/Windows/Start Menu/Programs/Startup/Aemeath.lnk";
    assert_eq!(with_slashes(appdata), "C:/Users/me/AppData/Roaming");
    assert_eq!(check_autostart(appdata), link);
    assert_eq!(toggle_link(appdata), link);
}

#[test]
fn autostart_is_turned_off() {
    let (plan, enabled) = toggle_autostart(true, "C:\\A", "C:\\pet.exe", "C:\\");
    assert!(!enabled);
    match plan {
        TogglePlan::TurnOff { link } => {
            assert_eq!(link, "C:/A/Microsoft/Windows/Start Menu/Programs/Startup/Aemeath.lnk");
        }
        TogglePlan::TurnOn { .. } => panic!("the link is there"),
    }
}

#[test]
fn autostart_is_turned_on() {
    let (plan, enabled) = toggle_autostart(false, "C:\\A", "C:\\pet.exe", "C:\\work");
    assert!(enabled);
    match plan {
        TogglePlan::TurnOff { .. } => panic!("there is no link"),
        TogglePlan::TurnOn { dir, command } => {
            assert_eq!(dir, "C:/A/Microsoft/Windows/Start Menu/Programs/Startup");
            assert_eq!(command.program, "powershell");
            assert_eq!(command.creation_flags, 0);
            assert_eq!(
                command.args,
                vec![
                    "-NoProfile",
                    "-Command",
                    "$ws=New-Object -ComObject WScript.Shell;$s=$ws.CreateShortcut('C:/A/Microsoft/Windows/Start Menu/Programs/Startup/Aemeath.lnk');$s.TargetPath='C:\\pet.exe';$s.WorkingDirectory='C:\\work';$s.Save()",
                ]
            );
        }
    }
}

fn is_browser(step: &LaunchStep) -> bool {
    match step {
        LaunchStep::Start(c) => {
            c.program == "cmd" && c.args == vec!["/c", "start", "", "http://127.0.0.1:19876"]
        }
        LaunchStep::Wait(_) => false,
    }
}

#[test]
fn running_webui_is_only_opened() {
    assert_eq!(webui_address(), "127.0.0.1:19876");
    let steps = launch_steps(true, "C:\\Users\\me", ".pet");
    assert_eq!(steps.len(), 1);
    assert!(is_browser(&steps[0]));
}

#[test]
fn stopped_webui_is_started_first() {
    let steps = launch_steps(false, "C:\\Users\\me", ".pet");
    assert_eq!(steps.len(), 3);
    match &steps[0] {
        LaunchStep::Start(c) => {
            assert_eq!(c.program, "pythonw");
            assert_eq!(c.args, vec!["-u", "C:/Users/me/.pet/webui/server.py", "--no-browser"]);
        }
        LaunchStep::Wait(_) => panic!("the server comes first"),
    }
    assert!(matches!(steps[1], LaunchStep::Wait(2000)));
    assert!(is_browser(&steps[2]));
}
