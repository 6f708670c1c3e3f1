//! The decisions behind the interactive prompts: confirming a suggestion,
//! and collecting free-text instructions key by key. Reading keys and
//! drawing on the terminal are left to the caller, which feeds each key in
//! and carries out the step it gets back.
use vstd::prelude::*;

verus! {

/// What the user answered to a prompt for instructions.
#[derive(Debug, PartialEq, Eq)]
pub enum AdditionalInstructions {
    /// Instructions were typed (trimmed of surrounding white space).
    Text(String),
    /// No text: `true` to accept (an empty answer), `false` to cancel.
    Flag(bool),
}

/// The modifier held with a key, as far as the prompts care.
#[derive(Clone, Copy, Debug, PartialEq, Eq, Structural)]
pub enum Modifier {
    /// No modifier.
    Plain,
    /// Control alone.
    Control,
    /// Meta (command) alone.
    Meta,
    /// Any other combination.
    Other,
}

/// A key press, as far as the prompts care.
#[derive(Clone, Copy, Debug, PartialEq, Eq, Structural)]
pub enum Key {
    Enter,
    Esc,
    Backspace,
    Char(char, Modifier),
    /// Any other key.
    Other,
}

/// Whether the key is the interrupt chord: `c` with Control or Meta.
pub open spec fn is_interrupt(k: Key) -> bool {
    k matches Key::Char(c, m) && c == 'c' && (m == Modifier::Control || m == Modifier::Meta)
}

/// The answer a key gives to a yes-or-no prompt, if it gives one: Enter
/// accepts, Escape and the interrupt chord decline, other keys are ignored.
pub open spec fn confirm_answer(k: Key) -> Option<bool> {
    if k == Key::Enter {
        Some(true)
    } else if k == Key::Esc || is_interrupt(k) {
        Some(false)
    } else {
        None
    }
}

/// The answer a key gives to a yes-or-no prompt, if it gives one.
pub fn confirm_key(k: Key) -> (r: Option<bool>)
    ensures
        r == confirm_answer(k),
{
    match k {
        Key::Enter => Some(true),
        Key::Esc => Some(false),
        Key::Char(c, m) => if c == 'c' && (m == Modifier::Control || m == Modifier::Meta) {
            Some(false)
        } else {
            None
        },
        _ => None,
    }
}

/// The text `str::trim` leaves of `s`.
pub uninterp spec fn trim_of(s: Seq<char>) -> Seq<char>;

/// The text `str::to_lowercase` makes of `s`.
pub uninterp spec fn lower_of(s: Seq<char>) -> Seq<char>;

/// Relies on `str::trim`: the text without leading and trailing white
/// space, a function of the text alone.
#[verifier::external_body]
pub(crate) fn trimmed(s: &str) -> (r: String)
    ensures
        r@ == trim_of(s@),
{
    s.trim().to_string()
}

/// Relies on `str::to_lowercase`: the lower-case form of the text, a
/// function of the text alone.
#[verifier::external_body]
fn lowercased(s: &str) -> (r: String)
    ensures
        r@ == lower_of(s@),
{
    s.to_lowercase()
}

/// The words that cancel, compared in lower case.
pub open spec fn is_cancel_word(w: Seq<char>) -> bool {
    ||| w == "quit"@
    ||| w == "n"@
    ||| w == "\\q"@
    ||| w == "exit"@
    ||| w == "\\exit"@
}

/// Whether `w` is one of the words that cancel.
fn cancel_word(w: &String) -> (r: bool)
    ensures
        r == is_cancel_word(w@),
{
    let quit = "quit".to_string();
    let no = "n".to_string();
    let bq = "\\q".to_string();
    let exit = "exit".to_string();
    let bexit = "\\exit".to_string();
    *w == quit || *w == no || *w == bq || *w == exit || *w == bexit
}

/// What an answer means, given its trimmed text and the lower-case form of
/// that: empty accepts, a cancel word cancels, anything else is the
/// instructions.
pub fn classify_trimmed(trimmed: String, lowered: &String) -> (r: AdditionalInstructions)
    ensures
        trimmed@.len() == 0 ==> r == AdditionalInstructions::Flag(true),
        trimmed@.len() > 0 && is_cancel_word(lowered@) ==> r == AdditionalInstructions::Flag(false),
        trimmed@.len() > 0 && !is_cancel_word(lowered@) ==> r == AdditionalInstructions::Text(
            trimmed,
        ),
{
    if trimmed.unicode_len() == 0 {
        AdditionalInstructions::Flag(true)
    } else if cancel_word(lowered) {
        AdditionalInstructions::Flag(false)
    } else {
        AdditionalInstructions::Text(trimmed)
    }
}

/// `a` is what the submitted text `input` means: accept where it is blank,
/// cancel where it is a cancel word in any case, and otherwise the trimmed
/// text as instructions.
pub open spec fn answers_to(a: AdditionalInstructions, input: Seq<char>) -> bool {
    if trim_of(input).len() == 0 {
        a == AdditionalInstructions::Flag(true)
    } else if is_cancel_word(lower_of(trim_of(input))) {
        a == AdditionalInstructions::Flag(false)
    } else {
        a matches AdditionalInstructions::Text(t) && t@ == trim_of(input)
    }
}

/// What a submitted answer means.
pub fn classify_answer(input: &str) -> (r: AdditionalInstructions)
    ensures
        answers_to(r, input@),
{
    let t = trimmed(input);
    let lowered = lowercased(t.as_str());
    classify_trimmed(t, &lowered)
}

/// What the caller is to do after a key at the instructions prompt.
#[derive(Debug, PartialEq, Eq)]
pub enum PromptStep {
    /// Nothing to show.
    Continue,
    /// Show the character typed.
    Echo(char),
    /// Erase the last character shown.
    Erase,
    /// The prompt is over, with this answer.
    Finish(AdditionalInstructions),
}

/// Relies on `FromIterator<char>` for `String`: the string holds exactly the
/// characters, in order.
#[verifier::external_body]
fn string_of_chars(chars: &Vec<char>) -> (r: String)
    ensures
        r@ == chars@,
{
    chars.iter().collect()
}

/// The prompt that collects free-text instructions.
pub struct InstructionPrompt {
    input: Vec<char>,
}

impl InstructionPrompt {
    /// What has been typed so far.
    pub closed spec fn typed(&self) -> Seq<char> {
        self.input@
    }

    /// A prompt with nothing typed.
    pub fn new() -> (r: Self)
        ensures
            r.typed() == Seq::<char>::empty(),
    {
        InstructionPrompt { input: Vec::new() }
    }

    /// Takes one key: Enter submits what was typed, Escape and the
    /// interrupt chord cancel, Backspace removes the last character, and a
    /// character is added; other keys are ignored.
    pub fn on_key(&mut self, k: Key) -> (r: PromptStep)
        ensures
            k == Key::Enter ==> final(self).typed() == old(self).typed() && (r matches PromptStep::Finish(a)
                && answers_to(a, old(self).typed())),
            (k == Key::Esc || is_interrupt(k)) ==> final(self).typed() == old(self).typed()
                && r == PromptStep::Finish(AdditionalInstructions::Flag(false)),
            k == Key::Backspace && old(self).typed().len() > 0 ==> final(self).typed()
                == old(self).typed().drop_last() && r == PromptStep::Erase,
            k == Key::Backspace && old(self).typed().len() == 0 ==> final(self).typed()
                == old(self).typed() && r == PromptStep::Continue,
            (k matches Key::Char(c, _) && !is_interrupt(k)) ==> final(self).typed()
                == old(self).typed().push(k->Char_0) && r == PromptStep::Echo(k->Char_0),
            k == Key::Other ==> final(self).typed() == old(self).typed() && r == PromptStep::Continue,
    {
        match k {
            Key::Enter => {
                let text = string_of_chars(&self.input);
                PromptStep::Finish(classify_answer(text.as_str()))
            },
            Key::Backspace => {
                if self.input.len() > 0 {
                    self.input.pop();
                    PromptStep::Erase
                } else {
                    PromptStep::Continue
                }
            },
            Key::Char(c, m) => {
                if c == 'c' && (m == Modifier::Control || m == Modifier::Meta) {
                    PromptStep::Finish(AdditionalInstructions::Flag(false))
                } else {
                    self.input.push(c);
                    PromptStep::Echo(c)
                }
            },
            Key::Esc => PromptStep::Finish(AdditionalInstructions::Flag(false)),
            Key::Other => PromptStep::Continue,
        }
    }
}

} // verus!
