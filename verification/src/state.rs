//! The hotkey preference: the one piece of state that the commands share.
//!
//! [`AppState`] is a plain owned value. Whoever shares it between entry
//! points guards it with a lock and holds that lock only for the single call
//! that reads or replaces the preference.

use crate::shortcut::{format_verdict, is_valid_format, validate, InvalidFormat};
use crate::text::join3;
use vstd::prelude::*;

verus! {

/// The binding that is in force until the user chooses another.
pub const DEFAULT_HOTKEY: &'static str = "F10";

/// What a hotkey command answers: whether it succeeded, and a text for the
/// user.
#[derive(Debug, PartialEq, Eq)]
pub struct HotkeyResult {
    pub success: bool,
    pub message: String,
}

/// A [`HotkeyResult`] as a mathematical value.
pub struct HotkeyResultView {
    pub success: bool,
    pub message: Seq<char>,
}

impl View for HotkeyResult {
    type V = HotkeyResultView;

    open spec fn view(&self) -> HotkeyResultView {
        HotkeyResultView { success: self.success, message: self.message@ }
    }
}

/// The text that confirms a stored preference.
pub open spec fn saved_text(hotkey: Seq<char>) -> Seq<char> {
    "Hotkey '"@ + hotkey + "' saved! Please restart the app to apply changes."@
}

/// The answer to a request to store `hotkey` as the preference: a
/// confirmation where the format is valid, the reason of the rejection where
/// it is not.
pub open spec fn registration_reply(hotkey: Seq<char>) -> HotkeyResultView {
    match format_verdict(hotkey) {
        Ok(_) => HotkeyResultView { success: true, message: saved_text(hotkey) },
        Err(reason) => HotkeyResultView { success: false, message: reason.message_text() },
    }
}

/// The preference after a request to store `hotkey`, where it was `before`:
/// the hotkey if its format is valid, else what it was.
pub open spec fn stored_after(before: Seq<char>, hotkey: Seq<char>) -> Seq<char> {
    if is_valid_format(hotkey) {
        hotkey
    } else {
        before
    }
}

/// Answers a request to store `hotkey` as the preference, from the verdict of
/// the format check on it.
fn reply_to_registration(hotkey: &str, verdict: Result<(), InvalidFormat>) -> (reply: HotkeyResult)
    requires
        verdict == format_verdict(hotkey@),
    ensures
        reply@ == registration_reply(hotkey@),
{
    match verdict {
        Ok(_) => HotkeyResult {
            success: true,
            message: join3("Hotkey '", hotkey, "' saved! Please restart the app to apply changes."),
        },
        Err(reason) => HotkeyResult { success: false, message: reason.message() },
    }
}

/// The hotkey preference of the running application.
///
/// It always holds either the default binding or a string that passed the
/// format check. No history is kept: a stored preference replaces the
/// previous one.
pub struct AppState {
    current_hotkey: String,
}

impl View for AppState {
    type V = Seq<char>;

    /// The preference that is stored.
    closed spec fn view(&self) -> Seq<char> {
        self.current_hotkey@
    }
}

impl AppState {
    #[verifier::type_invariant]
    spec fn default_or_valid(self) -> bool {
        self.current_hotkey@ == DEFAULT_HOTKEY@ || is_valid_format(self.current_hotkey@)
    }

    /// The state at startup: the default binding.
    pub fn new() -> (state: Self)
        ensures
            state@ == DEFAULT_HOTKEY@,
    {
        AppState { current_hotkey: DEFAULT_HOTKEY.to_owned() }
    }

    /// Stores `hotkey` as the preference if its format is valid, and answers
    /// with a confirmation; otherwise leaves the preference as it was and
    /// answers with the reason.
    ///
    /// The preference is stored whether or not a live registration of the
    /// binding later succeeds: it takes effect at the next start.
    pub fn register_hotkey(&mut self, hotkey: String) -> (reply: HotkeyResult)
        ensures
            reply@ == registration_reply(hotkey@),
            reply.success == is_valid_format(hotkey@),
            final(self)@ == stored_after(old(self)@, hotkey@),
    {
        let verdict = validate(hotkey.as_str());
        let reply = reply_to_registration(hotkey.as_str(), verdict);
        if verdict.is_ok() {
            self.current_hotkey = hotkey;
        }
        reply
    }

    /// The current preference. Never fails.
    pub fn get_hotkey(&self) -> (hotkey: String)
        ensures
            hotkey@ == self@,
            hotkey@ == DEFAULT_HOTKEY@ || is_valid_format(hotkey@),
    {
        proof {
            use_type_invariant(self);
        }
        self.current_hotkey.clone()
    }
}

/// Answers a request to store `hotkey` without a store at hand: the answer
/// that [`AppState::register_hotkey`] gives, with nothing stored.
///
/// This is what a caller answers when the lock around the state cannot be
/// taken.
pub fn register_hotkey_unstored(hotkey: &str) -> (reply: HotkeyResult)
    ensures
        reply@ == registration_reply(hotkey@),
{
    reply_to_registration(hotkey, validate(hotkey))
}

/// The preference to report without a store at hand: the default binding.
pub fn default_hotkey() -> (hotkey: String)
    ensures
        hotkey@ == DEFAULT_HOTKEY@,
{
    DEFAULT_HOTKEY.to_owned()
}

/// A request that is confirmed stores its hotkey: whatever the preference
/// was, the next read gives that hotkey back.
pub proof fn lemma_confirmed_hotkey_is_stored(before: Seq<char>, hotkey: Seq<char>)
    requires
        registration_reply(hotkey).success,
    ensures
        stored_after(before, hotkey) == hotkey,
{
}

/// A request that is turned down leaves the preference as it was.
pub proof fn lemma_rejected_hotkey_changes_nothing(before: Seq<char>, hotkey: Seq<char>)
    requires
        !registration_reply(hotkey).success,
    ensures
        stored_after(before, hotkey) == before,
{
}

/// The empty string is turned down, and the preference stays as it was.
pub proof fn lemma_empty_hotkey_is_rejected(before: Seq<char>)
    ensures
        !registration_reply(Seq::<char>::empty()).success,
        registration_reply(Seq::<char>::empty()).message == InvalidFormat::Empty.message_text(),
        stored_after(before, Seq::<char>::empty()) == before,
{
}

} // verus!
