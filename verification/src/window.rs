//! Finding the terminal's window and typing into it.
use vstd::prelude::*;
use vstd::utf8::is_ascii_chars;
use crate::text::{
    ascii_lowercase, contains_term, from_utf16, is_high_surrogate, is_low_surrogate,
    law_occurs, lemma_utf16_plain, lowercase, occurs, to_lowercase, utf16_text,
};

verus! {

/// What the callback of an enumeration answers to see the next window.
pub const CONTINUE: i32 = 1;

/// What the callback of an enumeration answers to see no more windows.
pub const STOP: i32 = 0;

/// Whether a title in lower case is that of the terminal: one of the search terms occurs in it.
pub open spec fn names_terminal(title: Seq<char>, terms: Seq<String>) -> bool {
    exists|k: int| 0 <= k < terms.len() && occurs((#[trigger] terms[k])@, title)
}

/// Whether a window is the terminal's: it can be seen, and its title names it in any case.
pub open spec fn is_terminal(visible: bool, title: Seq<u16>, terms: Seq<String>) -> bool {
    &&& visible
    &&& title.len() > 0
    &&& names_terminal(lowercase(utf16_text(title)), terms)
}

/// What the callback makes of a window: the window that is found so far, and the answer.
pub open spec fn visited(
    found: isize,
    hwnd: isize,
    visible: bool,
    title: Seq<u16>,
    terms: Seq<String>,
) -> (isize, i32) {
    if is_terminal(visible, title, terms) {
        (hwnd, STOP)
    } else {
        (found, CONTINUE)
    }
}

/// A title of ASCII characters in lower case.
pub open spec fn ascii_title(title: Seq<u16>) -> Seq<char> {
    Seq::new(title.len(), |i: int| ascii_lowercase(title[i] as char))
}

/// Whether a title in lower case names the terminal.
pub fn title_matches(title: &str, terms: &Vec<String>) -> (r: bool)
    ensures
        r == names_terminal(title@, terms@),
{
    let mut k: usize = 0;
    while k < terms.len()
        invariant
            k <= terms@.len(),
            forall|j: int| 0 <= j < k ==> !occurs((#[trigger] terms@[j])@, title@),
        decreases terms@.len() - k,
    {
        if contains_term(title, terms[k].as_str()) {
            return true;
        }
        k = k + 1;
    }
    false
}

/// Looks at one window of an enumeration: remembers it and stops where it is the terminal's, and
/// goes on otherwise.
pub fn enum_callback(
    found: &mut isize,
    hwnd: isize,
    visible: bool,
    title: &[u16],
    terms: &Vec<String>,
) -> (r: i32)
    ensures
        (*final(found), r) == visited(*old(found), hwnd, visible, title@, terms@),
        (forall|i: int| 0 <= i < title@.len() ==> #[trigger] title@[i] < 128) ==> (r == STOP <==> visible
            && title@.len() > 0 && names_terminal(ascii_title(title@), terms@)),
{
    if !visible {
        return CONTINUE;
    }
    if title.len() > 0 {
        let text = from_utf16(title);
        let lower = to_lowercase(text.as_str());
        proof {
            if forall|i: int| 0 <= i < title@.len() ==> #[trigger] title@[i] < 128 {
                assert forall|i: int| 0 <= i < title@.len() implies !is_high_surrogate(
                    #[trigger] title@[i],
                ) && !is_low_surrogate(title@[i]) by {
                    assert(title@[i] < 128);
                }
                lemma_utf16_plain(title@);
                assert forall|i: int| 0 <= i < text@.len() implies '\0' <= #[trigger] text@[i]
                    <= '\u{7f}' by {
                    assert(title@[i] < 128);
                }
                assert(is_ascii_chars(text@));
                assert(lower@ =~= ascii_title(title@));
            }
        }
        if title_matches(lower.as_str(), terms) {
            *found = hwnd;
            return STOP;
        }
    }
    CONTINUE
}

/// The window to ask the system about when the search has found nothing: the one that was bound at
/// the start.
pub fn fallback_window(found: isize, bound: isize) -> (r: Option<isize>)
    ensures
        r == if found == 0 && bound != 0 {
            Some(bound)
        } else {
            None
        },
{
    if found == 0 && bound != 0 {
        Some(bound)
    } else {
        None
    }
}

/// The window to paste into: the one that was found, else the bound one while it exists.
pub open spec fn target(found: isize, bound: isize, bound_exists: bool) -> Option<isize> {
    if found != 0 {
        Some(found)
    } else if bound != 0 && bound_exists {
        Some(bound)
    } else {
        None
    }
}

/// Chooses the window to paste into.
pub fn target_window(found: isize, bound: isize, bound_exists: bool) -> (r: Option<isize>)
    ensures
        r == target(found, bound, bound_exists),
{
    let mut hwnd: isize = found;
    if hwnd == 0 && bound != 0 && bound_exists {
        hwnd = bound;
    }
    if hwnd == 0 {
        None
    } else {
        Some(hwnd)
    }
}

/// One step of pasting.
#[derive(Clone, Copy, Debug, PartialEq, Eq, Structural)]
pub enum PasteStep {
    /// Show the window in the given way.
    Show { hwnd: isize, command: i32 },
    /// Bring the window to the front.
    Foreground { hwnd: isize },
    /// Wait for so many milliseconds.
    Wait { ms: u64 },
    /// Press a key, or let it go.
    Key { code: u8, flags: u32 },
}

/// The way to show a window that brings it back from the task bar.
pub const SW_RESTORE: i32 = 9;

/// The flag with which a key is let go.
pub const KEY_UP: u32 = 2;

pub const VK_CONTROL: u8 = 0x11;

pub const VK_V: u8 = 0x56;

pub const VK_RETURN: u8 = 0x0d;

pub open spec fn press(code: u8) -> PasteStep {
    PasteStep::Key { code, flags: 0 }
}

pub open spec fn release(code: u8) -> PasteStep {
    PasteStep::Key { code, flags: KEY_UP }
}

/// The steps that paste the clipboard into a window, confirm it, and give the focus back to the
/// window that had it.
pub open spec fn paste_plan(hwnd: isize, previous: isize) -> Seq<PasteStep> {
    seq![
        PasteStep::Show { hwnd, command: SW_RESTORE },
        PasteStep::Foreground { hwnd },
        PasteStep::Wait { ms: 100 },
        press(VK_CONTROL),
        press(VK_V),
        release(VK_V),
        release(VK_CONTROL),
        PasteStep::Wait { ms: 80 },
        press(VK_RETURN),
        release(VK_RETURN),
        PasteStep::Wait { ms: 150 },
    ] + (if previous != 0 {
        seq![PasteStep::Foreground { hwnd: previous }]
    } else {
        Seq::empty()
    })
}

fn key(code: u8, flags: u32) -> (r: PasteStep)
    ensures
        r == (PasteStep::Key { code, flags }),
{
    PasteStep::Key { code, flags }
}

/// Lists the steps that paste the clipboard into a window.
pub fn paste_to_window(hwnd: isize, previous: isize) -> (r: Vec<PasteStep>)
    ensures
        r@ == paste_plan(hwnd, previous),
{
    let mut steps: Vec<PasteStep> = Vec::new();
    steps.push(PasteStep::Show { hwnd, command: SW_RESTORE });
    steps.push(PasteStep::Foreground { hwnd });
    steps.push(PasteStep::Wait { ms: 100 });
    steps.push(key(VK_CONTROL, 0));
    steps.push(key(VK_V, 0));
    steps.push(key(VK_V, KEY_UP));
    steps.push(key(VK_CONTROL, KEY_UP));
    steps.push(PasteStep::Wait { ms: 80 });
    steps.push(key(VK_RETURN, 0));
    steps.push(key(VK_RETURN, KEY_UP));
    steps.push(PasteStep::Wait { ms: 150 });
    if previous != 0 {
        steps.push(PasteStep::Foreground { hwnd: previous });
    }
    assert(steps@ =~= paste_plan(hwnd, previous));
    steps
}

/// The keys that are down after the first `n` steps.
pub open spec fn keys_down(steps: Seq<PasteStep>, n: nat) -> Set<u8>
    decreases n,
{
    if n == 0 || n > steps.len() {
        Set::empty()
    } else {
        let before = keys_down(steps, (n - 1) as nat);
        match steps[n - 1] {
            PasteStep::Key { code, flags } => if flags == KEY_UP {
                before.remove(code)
            } else {
                before.insert(code)
            },
            _ => before,
        }
    }
}

/// The window that is in front after the first `n` steps, where `start` was at first.
pub open spec fn in_front(steps: Seq<PasteStep>, start: isize, n: nat) -> isize
    decreases n,
{
    if n == 0 || n > steps.len() {
        start
    } else {
        match steps[n - 1] {
            PasteStep::Foreground { hwnd } => hwnd,
            _ => in_front(steps, start, (n - 1) as nat),
        }
    }
}

/// A window as an enumeration shows it.
pub struct WindowModel {
    pub hwnd: isize,
    pub visible: bool,
    pub title: Seq<u16>,
}

impl WindowModel {
    /// Whether the window is the terminal's.
    pub open spec fn is_terminal(self, terms: Seq<String>) -> bool {
        is_terminal(self.visible, self.title, terms)
    }
}

/// What is found when the callback sees the windows one after the other, until it stops.
pub open spec fn enumerated(found: isize, windows: Seq<WindowModel>, terms: Seq<String>) -> isize
    decreases windows.len(),
{
    if windows.len() == 0 {
        found
    } else {
        let w = windows[0];
        let (next, answer) = visited(found, w.hwnd, w.visible, w.title, terms);
        if answer == STOP {
            next
        } else {
            enumerated(next, windows.skip(1), terms)
        }
    }
}

/// Of several windows of terminals the first one is found, which is the topmost.
pub proof fn law_first_terminal_is_found(
    found: isize,
    windows: Seq<WindowModel>,
    terms: Seq<String>,
    i: int,
)
    requires
        0 <= i < windows.len(),
        windows[i].is_terminal(terms),
        forall|j: int| 0 <= j < i ==> !(#[trigger] windows[j]).is_terminal(terms),
    ensures
        enumerated(found, windows, terms) == windows[i].hwnd,
    decreases windows.len(),
{
    if i > 0 {
        assert(!windows[0].is_terminal(terms));
        law_first_terminal_is_found(found, windows.skip(1), terms, i - 1);
    }
}

/// Where no window is a terminal's, what was found before stays.
pub proof fn law_no_terminal_is_found(found: isize, windows: Seq<WindowModel>, terms: Seq<String>)
    requires
        forall|j: int| 0 <= j < windows.len() ==> !(#[trigger] windows[j]).is_terminal(terms),
    ensures
        enumerated(found, windows, terms) == found,
    decreases windows.len(),
{
    if windows.len() > 0 {
        assert(!windows[0].is_terminal(terms));
        law_no_terminal_is_found(found, windows.skip(1), terms);
    }
}

/// Pasting leaves no key down.
pub proof fn law_no_key_stays_down(hwnd: isize, previous: isize)
    ensures
        keys_down(paste_plan(hwnd, previous), paste_plan(hwnd, previous).len()) =~= Set::<u8>::empty(),
{
    reveal_with_fuel(keys_down, 13);
}

/// Every key goes to the window that is pasted into.
pub proof fn law_keys_go_to_target(hwnd: isize, previous: isize, i: int)
    requires
        0 <= i < paste_plan(hwnd, previous).len(),
        paste_plan(hwnd, previous)[i] is Key,
    ensures
        in_front(paste_plan(hwnd, previous), previous, i as nat) == hwnd,
{
    reveal_with_fuel(in_front, 13);
}

/// The window that had the focus has it again in the end; where none had it, the window that was
/// pasted into keeps it.
pub proof fn law_focus_comes_back(hwnd: isize, previous: isize)
    ensures
        in_front(paste_plan(hwnd, previous), previous, paste_plan(hwnd, previous).len()) == if previous
            != 0 {
            previous
        } else {
            hwnd
        },
{
    reveal_with_fuel(in_front, 13);
}

/// The search comes first: the bound window is asked for only where the search found nothing, and
/// nothing is pasted where there is neither.
pub proof fn law_search_before_bound(found: isize, bound: isize, bound_exists: bool)
    ensures
        found != 0 ==> target(found, bound, bound_exists) == Some(found),
        found == 0 && !(bound != 0 && bound_exists) ==> target(found, bound, bound_exists) is None,
        target(found, bound, bound_exists) is Some ==> target(found, bound, bound_exists)->0 != 0,
{
}

/// A term names the terminal wherever it stands in a title, whatever stands before and behind it;
/// and a title that names the terminal has a term in it.
pub proof fn law_names_terminal(
    terms: Seq<String>,
    k: int,
    a: Seq<char>,
    b: Seq<char>,
    title: Seq<char>,
)
    ensures
        0 <= k < terms.len() ==> names_terminal(a + terms[k]@ + b, terms),
        names_terminal(title, terms) ==> exists|j: int, x: Seq<char>, y: Seq<char>|
            0 <= j < terms.len() && title == #[trigger] (x + terms[j]@ + y),
{
    if 0 <= k < terms.len() {
        law_occurs(terms[k]@, title, a, b);
    }
    if names_terminal(title, terms) {
        let j = choose|j: int| 0 <= j < terms.len() && occurs((#[trigger] terms[j])@, title);
        law_occurs(terms[j]@, title, a, b);
        let (x, y) = choose|x: Seq<char>, y: Seq<char>| title == #[trigger] (x + terms[j]@ + y);
        assert(title == x + terms[j]@ + y);
    }
}

/// A window is the terminal's where it can be seen, has a title, and the title in lower case has a
/// term in it, and nowhere else.
pub proof fn law_is_terminal(
    visible: bool,
    title: Seq<u16>,
    terms: Seq<String>,
    k: int,
    a: Seq<char>,
    b: Seq<char>,
)
    ensures
        visible && title.len() > 0 && 0 <= k < terms.len() && lowercase(utf16_text(title)) == a
            + terms[k]@ + b ==> is_terminal(visible, title, terms),
        is_terminal(visible, title, terms) ==> visible && title.len() > 0 && exists|
            j: int,
            x: Seq<char>,
            y: Seq<char>,
        |
            0 <= j < terms.len() && lowercase(utf16_text(title)) == #[trigger] (x + terms[j]@ + y),
{
    law_names_terminal(terms, k, a, b, lowercase(utf16_text(title)));
}

/// An ASCII title in lower case has a character for each unit: the letters `A` to `Z` so many codes
/// further on, anything else as it is.
pub proof fn law_ascii_title(title: Seq<u16>, i: int)
    requires
        0 <= i < title.len(),
        title[i] < 128,
    ensures
        ascii_title(title).len() == title.len(),
        65 <= title[i] <= 90 ==> ascii_title(title)[i] as u32 == title[i] + 32,
        title[i] < 65 || title[i] > 90 ==> ascii_title(title)[i] as u32 == title[i],
{
}

/// The terminal's window is remembered and ends the search with 0; any other is forgotten and the
/// search goes on with 1.
pub proof fn law_visited(found: isize, hwnd: isize, visible: bool, title: Seq<u16>, terms: Seq<String>)
    ensures
        is_terminal(visible, title, terms) ==> visited(found, hwnd, visible, title, terms) == (
            hwnd,
            0i32,
        ),
        !is_terminal(visible, title, terms) ==> visited(found, hwnd, visible, title, terms) == (
            found,
            1i32,
        ),
{
}

/// A window is pasted into exactly where it was found, or where nothing was found and it is the
/// bound one and exists.
pub proof fn law_target(found: isize, bound: isize, bound_exists: bool, hwnd: isize)
    ensures
        target(found, bound, bound_exists) == Some(hwnd) <==> hwnd != 0 && (hwnd == found || (found == 0
            && hwnd == bound && bound_exists)),
{
}

/// Pasting shows the window and brings it to the front, types Ctrl+V and Enter with their pauses,
/// and gives the focus back, step by step.
pub proof fn law_paste_steps(hwnd: isize, previous: isize)
    ensures
        ({
            let p = paste_plan(hwnd, previous);
            &&& p.len() == if previous != 0 {
                12int
            } else {
                11
            }
            &&& p[0] == (PasteStep::Show { hwnd, command: 9 })
            &&& p[1] == (PasteStep::Foreground { hwnd })
            &&& p[2] == (PasteStep::Wait { ms: 100 })
            &&& p[3] == (PasteStep::Key { code: 0x11, flags: 0 })
            &&& p[4] == (PasteStep::Key { code: 0x56, flags: 0 })
            &&& p[5] == (PasteStep::Key { code: 0x56, flags: 2 })
            &&& p[6] == (PasteStep::Key { code: 0x11, flags: 2 })
            &&& p[7] == (PasteStep::Wait { ms: 80 })
            &&& p[8] == (PasteStep::Key { code: 0x0d, flags: 0 })
            &&& p[9] == (PasteStep::Key { code: 0x0d, flags: 2 })
            &&& p[10] == (PasteStep::Wait { ms: 150 })
            &&& previous != 0 ==> p[11] == (PasteStep::Foreground { hwnd: previous })
        }),
{
}

} // verus!
