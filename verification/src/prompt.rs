//! The yes/no prompt on the terminal: what each key does to it and how it
//! is drawn.

use vstd::prelude::*;

verus! {

/// A key press, as far as the prompt tells keys apart.
#[derive(Clone, Copy, Debug, PartialEq, Eq, Structural)]
pub enum Key {
    /// A printable character.
    Char(char),
    ArrowLeft,
    ArrowRight,
    Enter,
    CtrlC,
    /// Any other key.
    Other,
}

/// What the terminal loop does after a key press.
#[derive(Clone, Copy, Debug, PartialEq, Eq, Structural)]
pub enum KeyAction {
    /// Nothing.
    Ignore,
    /// Draw the prompt again: the choice has changed.
    Redraw,
    /// The user confirmed with "yes" chosen.
    Confirm,
    /// The user asked to quit; no further key is read.
    Quit,
}

/// The prompt's state: which answer is chosen.
#[derive(Clone, Copy, Debug, PartialEq, Eq, Structural)]
pub struct Prompt {
    /// Whether "yes" is chosen.
    pub yes: bool,
}

/// The key chooses "yes": `y`, `a`, `h` or the left arrow.
pub open spec fn chooses_yes(key: Key) -> bool {
    key == Key::Char('y') || key == Key::Char('a') || key == Key::Char('h') || key
        == Key::ArrowLeft
}

/// The key chooses "no": `n`, `d`, `l` or the right arrow.
pub open spec fn chooses_no(key: Key) -> bool {
    key == Key::Char('n') || key == Key::Char('d') || key == Key::Char('l') || key
        == Key::ArrowRight
}

/// The choice after a key press.
pub open spec fn choice_after(yes: bool, key: Key) -> bool {
    if chooses_yes(key) {
        true
    } else if chooses_no(key) {
        false
    } else {
        yes
    }
}

/// What a key press calls for. A key that chooses an answer calls for a
/// redraw where it changes the choice. Enter confirms where "yes" is chosen
/// and does nothing otherwise. Ctrl-C quits.
pub open spec fn action_of(yes: bool, key: Key) -> KeyAction {
    if key == Key::CtrlC {
        KeyAction::Quit
    } else if key == Key::Enter {
        if yes {
            KeyAction::Confirm
        } else {
            KeyAction::Ignore
        }
    } else if choice_after(yes, key) != yes {
        KeyAction::Redraw
    } else {
        KeyAction::Ignore
    }
}

/// The control sequence that erases the whole line of the cursor: the
/// introducer `ESC [`, the parameter `2` and the final byte `K`.
pub open spec fn erase_line_code() -> Seq<char> {
    seq!['\u{1b}', '[', '2', 'K']
}

/// The control sequence that moves the cursor up by one line: the
/// introducer `ESC [`, the parameter `1` and the final byte `A`.
pub open spec fn cursor_up_code() -> Seq<char> {
    seq!['\u{1b}', '[', '1', 'A']
}

/// The control character that moves the cursor to the start of its line.
pub open spec fn carriage_return_code() -> Seq<char> {
    seq!['\r']
}

/// The prompt as it is written to the terminal: the line is erased, then
/// the two answers follow, the chosen one as a capital.
pub open spec fn prompt_line(yes: bool) -> Seq<char> {
    erase_line_code() + if yes {
        "[Y/n]"@
    } else {
        "[y/N]"@
    }
}

/// What is written before the status line to draw it afresh: cursor up by
/// one line, erase that line, return to its start.
pub open spec fn status_prefix() -> Seq<char> {
    cursor_up_code() + erase_line_code() + carriage_return_code()
}

/// `ansi_control_codes::control_sequences::EL` with the parameter
/// `EraseLine::BeginToEnd`, written out by the `Display` of the control
/// function it returns. The contract claims the text that the crate builds
/// for it: the control sequence introducer, the parameter's number 2 in
/// decimal, and the function's final byte `04/11`.
#[verifier::external_body]
fn erase_line() -> (code: String)
    ensures
        code@ == erase_line_code(),
{
    ansi_control_codes::control_sequences::EL(
        Some(ansi_control_codes::control_sequences::EraseLine::BeginToEnd),
    ).to_string()
}

/// `ansi_control_codes::control_sequences::CUU` without a parameter, written
/// out by the `Display` of the control function it returns. The contract
/// claims the text that the crate builds for it: the control sequence
/// introducer, the default parameter 1, and the function's final byte
/// `04/01`.
#[verifier::external_body]
fn cursor_up() -> (code: String)
    ensures
        code@ == cursor_up_code(),
{
    ansi_control_codes::control_sequences::CUU(None).to_string()
}

/// The constant `ansi_control_codes::c0::CR`, written out by its `Display`.
/// The contract claims that the text is the single character `00/13`.
#[verifier::external_body]
fn carriage_return() -> (code: String)
    ensures
        code@ == carriage_return_code(),
{
    ansi_control_codes::c0::CR.to_string()
}

impl Prompt {
    /// The prompt as it first appears: "no" is chosen.
    pub fn new() -> (prompt: Prompt)
        ensures
            !prompt.yes,
    {
        Prompt { yes: false }
    }

    /// Takes a key press: updates the choice and says what the terminal
    /// loop does next.
    pub fn on_key(&mut self, key: Key) -> (action: KeyAction)
        ensures
            final(self).yes == choice_after(old(self).yes, key),
            action == action_of(old(self).yes, key),
    {
        match key {
            Key::Char('y') | Key::Char('a') | Key::Char('h') | Key::ArrowLeft => {
                if self.yes {
                    KeyAction::Ignore
                } else {
                    self.yes = true;
                    KeyAction::Redraw
                }
            },
            Key::Char('n') | Key::Char('d') | Key::Char('l') | Key::ArrowRight => {
                if self.yes {
                    self.yes = false;
                    KeyAction::Redraw
                } else {
                    KeyAction::Ignore
                }
            },
            Key::Enter => {
                if self.yes {
                    KeyAction::Confirm
                } else {
                    KeyAction::Ignore
                }
            },
            Key::CtrlC => KeyAction::Quit,
            _ => KeyAction::Ignore,
        }
    }

    /// The text that draws the prompt.
    pub fn text(&self) -> (line: String)
        ensures
            line@ == prompt_line(self.yes),
    {
        let mut line = erase_line();
        if self.yes {
            line.append("[Y/n]");
        } else {
            line.append("[y/N]");
        }
        line
    }
}

impl Default for Prompt {
    fn default() -> (prompt: Prompt)
        ensures
            !prompt.yes,
    {
        Prompt::new()
    }
}

/// The text that is written before the status line to draw it afresh.
pub fn redraw_prefix() -> (prefix: String)
    ensures
        prefix@ == status_prefix(),
{
    let mut prefix = cursor_up();
    let erase = erase_line();
    let start = carriage_return();
    prefix.append(erase.as_str());
    prefix.append(start.as_str());
    prefix
}

} // verus!
