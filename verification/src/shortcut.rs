//! Shortcut strings: the cheap format check that guards the stored
//! preference, and the parse into a key combination that guards a live
//! registration.
//!
//! The two checks are deliberately separate. The format check only looks at
//! the character class; whether the string names a real key is decided by the
//! shortcut parser of the `global-hotkey` crate, and whether the platform then
//! takes the binding is decided by the operating system.

use global_hotkey::hotkey::HotKey;
use std::str::FromStr;
use vstd::prelude::*;

verus! {

/// What `char::is_alphanumeric` answers for `c`.
///
/// The Unicode tables behind it are not restated here; contracts speak of the
/// answer by this name.
pub uninterp spec fn char_is_alphanumeric(c: char) -> bool;

/// `char::is_alphanumeric` of the standard library. The only claim is that
/// its answer is the one named by [`char_is_alphanumeric`]: a function of the
/// character alone.
pub assume_specification[ char::is_alphanumeric ](c: char) -> (b: bool)
    ensures
        b == char_is_alphanumeric(c),
;

/// Whether `c` may occur in a shortcut string, where `alphanumeric` says
/// whether it is alphanumeric: the alphanumeric characters may, and so may
/// `+` and `-`.
pub open spec fn allowed(c: char, alphanumeric: bool) -> bool {
    alphanumeric || c == '+' || c == '-'
}

/// A character that may occur in a shortcut string: alphanumeric, `+` or `-`.
pub open spec fn is_shortcut_char(c: char) -> bool {
    allowed(c, char_is_alphanumeric(c))
}

/// Every character of `raw` may occur in a shortcut string.
pub open spec fn all_shortcut_chars(raw: Seq<char>) -> bool {
    forall|i: int| 0 <= i < raw.len() ==> is_shortcut_char(#[trigger] raw[i])
}

/// The format that a hotkey preference must have: not empty, and made of
/// alphanumeric characters, `+` and `-` only.
pub open spec fn is_valid_format(raw: Seq<char>) -> bool {
    raw.len() > 0 && all_shortcut_chars(raw)
}

/// Why a shortcut string was turned down by the format check.
#[derive(Clone, Copy, Debug, PartialEq, Eq, Structural)]
pub enum InvalidFormat {
    /// The string is empty.
    Empty,
    /// The string holds a character other than an alphanumeric, `+` or `-`.
    IllegalCharacter,
}

/// The verdict of the format check on `raw`.
pub open spec fn format_verdict(raw: Seq<char>) -> Result<(), InvalidFormat> {
    if raw.len() == 0 {
        Err(InvalidFormat::Empty)
    } else if !all_shortcut_chars(raw) {
        Err(InvalidFormat::IllegalCharacter)
    } else {
        Ok(())
    }
}

impl InvalidFormat {
    /// The text shown to the user for this rejection.
    pub open spec fn message_text(self) -> Seq<char> {
        match self {
            InvalidFormat::Empty => "Invalid hotkey format. Hotkey cannot be empty."@,
            InvalidFormat::IllegalCharacter => "Invalid hotkey format. Use F10, ctrl+shift+l, alt+k, etc."@,
        }
    }

    /// The text shown to the user for this rejection.
    pub fn message(&self) -> (text: String)
        ensures
            text@ == self.message_text(),
    {
        match self {
            InvalidFormat::Empty => "Invalid hotkey format. Hotkey cannot be empty.".to_owned(),
            InvalidFormat::IllegalCharacter => "Invalid hotkey format. Use F10, ctrl+shift+l, alt+k, etc.".to_owned(),
        }
    }
}

/// Decides whether `c` may occur in a shortcut string, given whether it is
/// alphanumeric.
pub fn allowed_in_shortcut(c: char, alphanumeric: bool) -> (ok: bool)
    ensures
        ok == allowed(c, alphanumeric),
{
    alphanumeric || c == '+' || c == '-'
}

/// Checks the format of a shortcut string.
///
/// Accepts exactly the non-empty strings made of alphanumeric characters, `+`
/// and `-`. It does not ask whether the string names a real key.
pub fn validate(raw: &str) -> (verdict: Result<(), InvalidFormat>)
    ensures
        verdict == format_verdict(raw@),
        verdict is Ok <==> is_valid_format(raw@),
{
    if raw.is_empty() {
        return Err(InvalidFormat::Empty);
    }
    let mut clean: bool = true;
    for c in it: raw.chars()
        invariant
            it.seq() == raw@,
            clean == (forall|i: int| 0 <= i < it.index() ==> is_shortcut_char(#[trigger] raw@[i])),
    {
        if !allowed_in_shortcut(c, c.is_alphanumeric()) {
            clean = false;
        }
    }
    if clean {
        Ok(())
    } else {
        Err(InvalidFormat::IllegalCharacter)
    }
}

/// A parsed shortcut: a key combination as the `global-hotkey` crate holds
/// it, made of modifier flags (control, alt, shift, meta) and one key code.
/// Its inside is not visible to the proofs here: they speak of the value as
/// a whole, and it is carried from the parser to whoever registers it.
#[verifier::external_type_specification]
#[verifier::external_body]
pub struct ExHotKey(HotKey);

/// The key combination that the shortcut parser of the `global-hotkey` crate
/// (`HotKey::from_str`) makes of `raw`; `None` where it turns the string
/// down.
///
/// The grammar behind it is not restated here; contracts speak of the
/// parser's result by this name. The name fixes no value. It says that one
/// string gives one result: in any one build that holds, also of the strings
/// that say "command or control", whose modifier follows the build target.
pub uninterp spec fn shortcut_parsed(raw: Seq<char>) -> Option<HotKey>;

/// `HotKey::from_str` of the `global-hotkey` crate, with its error dropped.
///
/// Claimed: its result is the one named by [`shortcut_parsed`], a function
/// of the string alone, and it returns on every string.
#[verifier::external_body]
pub(crate) fn hotkey_from_str(raw: &str) -> (parsed: Option<HotKey>)
    ensures
        parsed == shortcut_parsed(raw@),
{
    HotKey::from_str(raw).ok()
}

} // verus!
