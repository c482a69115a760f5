//! The commands that the program starts.
use vstd::prelude::*;
use crate::text::texts;

verus! {

/// The flag under which Windows opens no console for a program.
pub const CREATE_NO_WINDOW: u32 = 0x08000000;

/// A program to start, with its arguments and the flags it is created with.
pub struct ShellCommand {
    pub program: String,
    pub args: Vec<String>,
    pub creation_flags: u32,
}

/// What a command holds.
pub struct CommandModel {
    pub program: Seq<char>,
    pub args: Seq<Seq<char>>,
    pub creation_flags: u32,
}

impl View for ShellCommand {
    type V = CommandModel;

    open spec fn view(&self) -> CommandModel {
        CommandModel {
            program: self.program@,
            args: texts(self.args@),
            creation_flags: self.creation_flags,
        }
    }
}

/// A PowerShell script as a command.
pub open spec fn powershell(script: Seq<char>, creation_flags: u32) -> CommandModel {
    CommandModel {
        program: "powershell"@,
        args: seq!["-NoProfile"@, "-Command"@, script],
        creation_flags,
    }
}

/// Builds the command for a PowerShell script.
pub fn powershell_command(script: String, creation_flags: u32) -> (r: ShellCommand)
    ensures
        r@ == powershell(script@, creation_flags),
{
    let mut args: Vec<String> = Vec::new();
    args.push("-NoProfile".to_owned());
    args.push("-Command".to_owned());
    args.push(script);
    assert(texts(args@) =~= seq!["-NoProfile"@, "-Command"@, script@]);
    ShellCommand { program: "powershell".to_owned(), args, creation_flags }
}

/// The characters that PowerShell reads as a single quote.
pub open spec fn is_quote(c: char) -> bool {
    ||| c == '\''
    ||| c == '\u{2018}'
    ||| c == '\u{2019}'
    ||| c == '\u{201a}'
    ||| c == '\u{201b}'
}

/// One character as it stands in a quoted text: a quote is written twice.
pub open spec fn quoted_char(c: char) -> Seq<char> {
    if is_quote(c) {
        seq![c, c]
    } else {
        seq![c]
    }
}

/// A text as it stands between quotes in a script.
pub open spec fn quoted(s: Seq<char>) -> Seq<char>
    decreases s.len(),
{
    if s.len() == 0 {
        Seq::empty()
    } else {
        quoted(s.drop_last()) + quoted_char(s.last())
    }
}

/// Writes a text as it stands between quotes in a script.
pub fn quote(s: &str) -> (r: String)
    ensures
        r@ == quoted(s@),
{
    let mut out = String::new();
    for c in it: s.chars()
        invariant
            it.seq() == s@,
            out@ == quoted(s@.take(it.index())),
    {
        let ghost done = out@;
        proof {
            assert(s@.take(it.index() + 1).drop_last() =~= s@.take(it.index()));
        }
        if c == '\'' || c == '\u{2018}' || c == '\u{2019}' || c == '\u{201a}' || c == '\u{201b}' {
            out.push(c);
        }
        out.push(c);
        assert(out@ =~= done + quoted_char(c));
    }
    assert(s@.take(s@.len() as int) =~= s@);
    out
}

/// The script that puts a message on the clipboard.
pub open spec fn clipboard_script(message: Seq<char>) -> Seq<char> {
    "Set-Clipboard -Value '"@ + quoted(message) + "'"@
}

/// The command that puts a message on the clipboard, without a console.
pub open spec fn clipboard_command(message: Seq<char>) -> CommandModel {
    powershell(clipboard_script(message), CREATE_NO_WINDOW)
}

/// Builds the command that puts a message on the clipboard.
pub fn copy_to_clipboard(message: &str) -> (r: ShellCommand)
    ensures
        r@ == clipboard_command(message@),
{
    let escaped = quote(message);
    let mut script = String::new();
    script.append("Set-Clipboard -Value '");
    script.append(escaped.as_str());
    script.append("'");
    proof {
        assert(script@ =~= clipboard_script(message@));
    }
    powershell_command(script, CREATE_NO_WINDOW)
}

/// One step of relaying a message.
pub enum RelayStep {
    /// Run a command and wait for its end, however it ends.
    Run(ShellCommand),
    /// Paste the clipboard into the terminal, where `hwnd` is the window that was bound at the
    /// start, and wait for nothing.
    Paste { hwnd: isize },
}

/// What a step holds.
pub enum RelayModel {
    Run(CommandModel),
    Paste { hwnd: isize },
}

impl View for RelayStep {
    type V = RelayModel;

    open spec fn view(&self) -> RelayModel {
        match self {
            RelayStep::Run(command) => RelayModel::Run(command@),
            RelayStep::Paste { hwnd } => RelayModel::Paste { hwnd: *hwnd },
        }
    }
}

/// What each step holds.
pub open spec fn relay_view(v: Seq<RelayStep>) -> Seq<RelayModel> {
    v.map_values(|s: RelayStep| s@)
}

/// The steps that relay a message: put it on the clipboard, then paste it.
pub open spec fn relay_plan(message: Seq<char>, hwnd: isize) -> Seq<RelayModel> {
    seq![RelayModel::Run(clipboard_command(message)), RelayModel::Paste { hwnd }]
}

/// Lists the steps that copy a message to the clipboard and paste it into the terminal's window.
pub fn relay_to_terminal(message: &str, hwnd: isize) -> (r: Vec<RelayStep>)
    ensures
        relay_view(r@) == relay_plan(message@, hwnd),
{
    let mut steps: Vec<RelayStep> = Vec::new();
    steps.push(RelayStep::Run(copy_to_clipboard(message)));
    steps.push(RelayStep::Paste { hwnd });
    assert(relay_view(steps@) =~= relay_plan(message@, hwnd));
    steps
}

/// Reads a text that stands behind an opening quote in a script: the text, and what follows its
/// closing quote. Two quotes in a row stand for the second of them, and a quote without another
/// behind it closes the text. `None` where the text is never closed.
pub open spec fn read_literal(s: Seq<char>) -> Option<(Seq<char>, Seq<char>)>
    decreases s.len(),
{
    if s.len() == 0 {
        None
    } else if !is_quote(s[0]) {
        match read_literal(s.skip(1)) {
            Some((text, rest)) => Some((seq![s[0]] + text, rest)),
            None => None,
        }
    } else if s.len() >= 2 && is_quote(s[1]) {
        match read_literal(s.skip(2)) {
            Some((text, rest)) => Some((seq![s[1]] + text, rest)),
            None => None,
        }
    } else {
        Some((Seq::empty(), s.skip(1)))
    }
}

proof fn lemma_quoted_concat(a: Seq<char>, b: Seq<char>)
    ensures
        quoted(a + b) == quoted(a) + quoted(b),
    decreases b.len(),
{
    if b.len() == 0 {
        assert(a + b =~= a);
        assert(quoted(a) + quoted(b) =~= quoted(a));
    } else {
        lemma_quoted_concat(a, b.drop_last());
        assert((a + b).drop_last() =~= a + b.drop_last());
        assert((a + b).last() == b.last());
        assert(quoted(a + b) =~= quoted(a) + quoted(b));
    }
}

/// Whatever the message, the clipboard gets it as it is and no part of it is read as script: the
/// script's text runs to the script's last character and reads as the message.
pub proof fn law_clipboard_gets_message(message: Seq<char>)
    ensures
        clipboard_script(message) == "Set-Clipboard -Value '"@ + (quoted(message) + "'"@),
        read_literal(quoted(message) + "'"@) == Some((message, Seq::<char>::empty())),
    decreases message.len(),
{
    reveal_strlit("'");
    assert(clipboard_script(message) =~= "Set-Clipboard -Value '"@ + (quoted(message) + "'"@));
    let whole = quoted(message) + "'"@;
    if message.len() == 0 {
        assert(whole =~= seq!['\'']);
        assert(whole.skip(1) =~= Seq::<char>::empty());
        assert(message =~= Seq::<char>::empty());
    } else {
        let first = seq![message[0]];
        let tail = message.skip(1);
        law_clipboard_gets_message(tail);
        assert(message =~= first + tail);
        lemma_quoted_concat(first, tail);
        assert(first.drop_last() =~= Seq::<char>::empty());
        reveal_with_fuel(quoted, 2);
        assert(quoted(first) =~= quoted_char(message[0]));
        if is_quote(message[0]) {
            assert(whole.skip(2) =~= quoted(tail) + "'"@);
        } else {
            assert(whole.skip(1) =~= quoted(tail) + "'"@);
        }
    }
}

/// A command is told with its program, each argument and its flags.
pub proof fn law_command_view(c: ShellCommand)
    ensures
        c@.program == c.program@,
        c@.args.len() == c.args@.len(),
        forall|i: int| 0 <= i < c.args@.len() ==> #[trigger] c@.args[i] == c.args@[i]@,
        c@.creation_flags == c.creation_flags,
{
}

/// A script is handed to PowerShell as it is, without the user's profile.
pub proof fn law_powershell(script: Seq<char>, creation_flags: u32)
    ensures
        ({
            let c = powershell(script, creation_flags);
            &&& c.program == "powershell"@
            &&& c.args.len() == 3
            &&& c.args[0] == "-NoProfile"@
            &&& c.args[1] == "-Command"@
            &&& c.args[2] == script
            &&& c.creation_flags == creation_flags
        }),
{
}

/// The quotes are the apostrophe and the four characters from U+2018 on.
pub proof fn law_is_quote(c: char)
    ensures
        is_quote(c) <==> c as u32 == 39 || 0x2018 <= c as u32 <= 0x201b,
{
}

/// A text is quoted character by character: a quote is written twice, any other character once.
pub proof fn law_quoted(a: Seq<char>, b: Seq<char>, c: char)
    ensures
        quoted(Seq::empty()) == Seq::<char>::empty(),
        is_quote(c) ==> quoted(seq![c]) == seq![c, c],
        !is_quote(c) ==> quoted(seq![c]) == seq![c],
        quoted(a + b) == quoted(a) + quoted(b),
{
    reveal_with_fuel(quoted, 2);
    assert(seq![c].drop_last() =~= Seq::<char>::empty());
    assert(Seq::<char>::empty() + quoted_char(c) =~= quoted_char(c));
    lemma_quoted_concat(a, b);
}

/// A quoted text is read from its beginning: a character that is no quote stands for itself, two
/// quotes for the second of them, and a quote without another behind it ends the text.
pub proof fn law_read_literal(c: char, d: char, s: Seq<char>)
    ensures
        read_literal(Seq::empty()) is None,
        !is_quote(c) ==> read_literal(seq![c] + s) == match read_literal(s) {
            Some((text, rest)) => Some((seq![c] + text, rest)),
            None => None,
        },
        is_quote(c) && is_quote(d) ==> read_literal(seq![c, d] + s) == match read_literal(s) {
            Some((text, rest)) => Some((seq![d] + text, rest)),
            None => None,
        },
        is_quote(c) && (s.len() == 0 || !is_quote(s[0])) ==> read_literal(seq![c] + s) == Some(
            (Seq::<char>::empty(), s),
        ),
{
    assert((seq![c] + s).skip(1) =~= s);
    assert((seq![c, d] + s).skip(2) =~= s);
}

/// The command that is run puts the whole message on the clipboard: its script sets the clipboard to
/// a text that reads as the message and runs to the script's end.
pub proof fn law_command_copies_message(message: Seq<char>)
    ensures
        ({
            let c = clipboard_command(message);
            let set = "Set-Clipboard -Value '"@;
            let literal = c.args[2].skip(set.len() as int);
            &&& c.program == "powershell"@
            &&& c.args.len() == 3
            &&& c.args[0] == "-NoProfile"@
            &&& c.args[1] == "-Command"@
            &&& c.args[2] == set + literal
            &&& read_literal(literal) == Some((message, Seq::<char>::empty()))
            &&& c.creation_flags == 0x08000000
        }),
{
    law_clipboard_gets_message(message);
    let set = "Set-Clipboard -Value '"@;
    let literal = clipboard_command(message).args[2].skip(set.len() as int);
    assert(literal =~= quoted(message) + "'"@);
}

/// Two messages are never copied by the same command.
pub proof fn law_commands_differ(one: Seq<char>, other: Seq<char>)
    requires
        clipboard_command(one) == clipboard_command(other),
    ensures
        one == other,
{
    law_command_copies_message(one);
    law_command_copies_message(other);
}

/// A message is relayed in two steps: its copy to the clipboard first, then the paste into the
/// window at hand.
pub proof fn law_relay_plan(message: Seq<char>, hwnd: isize)
    ensures
        ({
            let plan = relay_plan(message, hwnd);
            let set = "Set-Clipboard -Value '"@;
            &&& plan.len() == 2
            &&& plan[0] == RelayModel::Run(clipboard_command(message))
            &&& plan[0] matches RelayModel::Run(c) && c.args.last() == set + c.args.last().skip(
                set.len() as int,
            ) && read_literal(c.args.last().skip(set.len() as int)) == Some(
                (message, Seq::<char>::empty()),
            )
            &&& plan[1] == RelayModel::Paste { hwnd }
        }),
{
    law_command_copies_message(message);
}

/// The steps are told one by one, each with all it holds.
pub proof fn law_relay_view(step: RelayStep, v: Seq<RelayStep>)
    ensures
        step matches RelayStep::Run(c) ==> step@ == RelayModel::Run(c@),
        step matches RelayStep::Paste { hwnd } ==> step@ == (RelayModel::Paste { hwnd }),
        relay_view(v).len() == v.len(),
        forall|i: int| 0 <= i < v.len() ==> #[trigger] relay_view(v)[i] == v[i]@,
{
}

} // verus!
