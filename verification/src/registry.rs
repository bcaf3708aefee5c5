//! The hotkey registry: replacing the live registration of the global
//! shortcut.
//!
//! At most one shortcut is meant to be registered with the operating system
//! at a time, so a new binding is activated by dropping every registration
//! first and registering the new shortcut second. The two requests are not
//! one atomic step: a key press that arrives between them is lost.
//!
//! Activation takes two calls. [`init_hotkey`] parses the binding and says
//! what to ask of the operating system; [`init_hotkey_completed`] takes the
//! outcome of the registration and gives the reply. The stored preference is
//! not touched by either.

use crate::outcome::outcome_view;
use crate::shortcut::{hotkey_from_str, is_valid_format, shortcut_parsed};
use crate::state::{
    registration_reply, stored_after, AppState, HotkeyResult, HotkeyResultView, DEFAULT_HOTKEY,
};
use crate::text::{join2, join3};
use global_hotkey::hotkey::HotKey;
use vstd::prelude::*;

verus! {

/// The first half of an activation: either the operating system is to
/// replace the registration, or the activation is over.
#[derive(Debug, PartialEq, Eq)]
pub enum RegistryStep {
    /// Drop every registered shortcut, going on even if that fails; then
    /// register this one, and call [`init_hotkey_completed`] with the outcome
    /// of the registration.
    Replace(HotKey),
    /// Nothing is asked of the operating system; this is the reply.
    Done(HotkeyResult),
}

/// A [`RegistryStep`] as a mathematical value.
pub enum RegistryStepView {
    Replace(HotKey),
    Done(HotkeyResultView),
}

impl View for RegistryStep {
    type V = RegistryStepView;

    open spec fn view(&self) -> RegistryStepView {
        match self {
            RegistryStep::Replace(shortcut) => RegistryStepView::Replace(*shortcut),
            RegistryStep::Done(reply) => RegistryStepView::Done(reply@),
        }
    }
}

/// The text that turns down a binding that does not parse.
pub open spec fn unparsable_text(hotkey: Seq<char>) -> Seq<char> {
    "Invalid hotkey format: '"@ + hotkey + "'. Use F10, ctrl+shift+l, etc."@
}

/// The text that confirms an activation.
pub open spec fn activated_text(hotkey: Seq<char>) -> Seq<char> {
    "Hotkey '"@ + hotkey + "' activated"@
}

/// The text that reports that the operating system refused the shortcut.
pub open spec fn refused_text(error: Seq<char>) -> Seq<char> {
    "Failed to register hotkey: "@ + error
}

/// The first half of the activation of `hotkey`, given what the parser made
/// of it: a shortcut is to replace the registration; without one the
/// activation ends with a failure.
pub open spec fn init_step(hotkey: Seq<char>, parsed: Option<HotKey>) -> RegistryStepView {
    match parsed {
        Some(shortcut) => RegistryStepView::Replace(shortcut),
        None => RegistryStepView::Done(
            HotkeyResultView { success: false, message: unparsable_text(hotkey) },
        ),
    }
}

/// The reply of the activation of `hotkey` whose registration ended with
/// `outcome`.
pub open spec fn init_result(hotkey: Seq<char>, outcome: Result<(), Seq<char>>) -> HotkeyResultView {
    match outcome {
        Ok(_) => HotkeyResultView { success: true, message: activated_text(hotkey) },
        Err(error) => HotkeyResultView { success: false, message: refused_text(error) },
    }
}

/// Starts the activation of `hotkey` from what the parser made of it.
pub fn init_hotkey_parsed(hotkey: &str, parsed: Option<HotKey>) -> (step: RegistryStep)
    ensures
        step@ == init_step(hotkey@, parsed),
{
    match parsed {
        Some(shortcut) => RegistryStep::Replace(shortcut),
        None => RegistryStep::Done(
            HotkeyResult {
                success: false,
                message: join3("Invalid hotkey format: '", hotkey, "'. Use F10, ctrl+shift+l, etc."),
            },
        ),
    }
}

/// Starts the activation of `hotkey`.
///
/// Where the shortcut parser accepts the string, the shortcut that it makes
/// of the string is to replace the registration. Where it does not, the
/// activation ends at once with a failure that quotes the string, and
/// nothing is asked of the operating system.
pub fn init_hotkey(hotkey: &str) -> (step: RegistryStep)
    ensures
        step@ == init_step(hotkey@, shortcut_parsed(hotkey@)),
{
    init_hotkey_parsed(hotkey, hotkey_from_str(hotkey))
}

/// Ends the activation of `hotkey`: `outcome` is what came of the
/// registration, with the operating system's error where it refused.
pub fn init_hotkey_completed(hotkey: &str, outcome: Result<(), String>) -> (reply: HotkeyResult)
    ensures
        reply@ == init_result(hotkey@, outcome_view(outcome)),
{
    match outcome {
        Ok(_) => HotkeyResult { success: true, message: join3("Hotkey '", hotkey, "' activated") },
        Err(error) => HotkeyResult {
            success: false,
            message: join2("Failed to register hotkey: ", error.as_str()),
        },
    }
}

/// The first half of making `hotkey` the binding in both senses: a string
/// whose format is invalid is turned down with the reason; any other goes on
/// to its activation.
pub open spec fn set_active_step(hotkey: Seq<char>) -> RegistryStepView {
    if is_valid_format(hotkey) {
        init_step(hotkey, shortcut_parsed(hotkey))
    } else {
        RegistryStepView::Done(registration_reply(hotkey))
    }
}

/// Makes `hotkey` the binding in both senses: stores it as the preference,
/// then starts its activation.
///
/// The order is write, then attempt to register. A string whose format is
/// invalid is turned down before anything is touched. A string that was
/// stored stays stored even if it then does not parse, or if the operating
/// system later refuses it: the preference takes effect at the next start.
///
/// The lock around `state` is to be released before the step is carried out.
pub fn set_active(state: &mut AppState, hotkey: String) -> (step: RegistryStep)
    ensures
        final(state)@ == stored_after(old(state)@, hotkey@),
        step@ == set_active_step(hotkey@),
{
    let stored = hotkey.clone();
    let reply = state.register_hotkey(stored);
    if reply.success {
        init_hotkey(hotkey.as_str())
    } else {
        RegistryStep::Done(reply)
    }
}

/// The shortcut to register at startup, before any user interaction: the
/// default binding, parsed. It is registered on its own, with nothing dropped
/// first. A refusal by the operating system is not fatal: the application
/// goes on without a live hotkey.
pub fn register_default() -> (shortcut: Option<HotKey>)
    ensures
        shortcut == shortcut_parsed(DEFAULT_HOTKEY@),
{
    hotkey_from_str(DEFAULT_HOTKEY)
}

/// The registered shortcuts after the operating system was asked to drop all
/// of them: none if it did, the same as before if it failed.
pub open spec fn after_unregister_all(live: Set<HotKey>, dropped: bool) -> Set<HotKey> {
    if dropped {
        Set::empty()
    } else {
        live
    }
}

/// The registered shortcuts after the operating system was asked to register
/// `shortcut`: one more if it did, the same as before if it refused.
pub open spec fn after_register(live: Set<HotKey>, shortcut: HotKey, registered: bool) -> Set<HotKey> {
    if registered {
        live.insert(shortcut)
    } else {
        live
    }
}

/// The registered shortcuts after `step` was carried out, where `dropped`
/// and `registered` say whether the operating system did what it was asked.
pub open spec fn after_step(
    live: Set<HotKey>,
    step: RegistryStepView,
    dropped: bool,
    registered: bool,
) -> Set<HotKey> {
    match step {
        RegistryStepView::Replace(shortcut) => after_register(
            after_unregister_all(live, dropped),
            shortcut,
            registered,
        ),
        RegistryStepView::Done(_) => live,
    }
}

/// Single active shortcut: whatever was registered before, an activation
/// whose drop request was honoured leaves the new shortcut as the only
/// registration, or none at all if the operating system refused it.
pub proof fn lemma_activation_leaves_at_most_one(
    live: Set<HotKey>,
    hotkey: Seq<char>,
    shortcut: HotKey,
    registered: bool,
)
    ensures
        after_step(live, init_step(hotkey, Some(shortcut)), true, registered) == if registered {
            Set::empty().insert(shortcut)
        } else {
            Set::empty()
        },
        after_step(live, init_step(hotkey, Some(shortcut)), true, registered).finite(),
        after_step(live, init_step(hotkey, Some(shortcut)), true, registered).len() == if registered {
            1nat
        } else {
            0nat
        },
{
}

/// Two activations in a row leave exactly one registration, the second
/// shortcut, provided the operating system honoured the second drop request
/// and took the second shortcut. How the first activation went does not
/// matter.
pub proof fn lemma_second_activation_replaces_first(
    live: Set<HotKey>,
    first_hotkey: Seq<char>,
    first: HotKey,
    first_dropped: bool,
    first_registered: bool,
    second_hotkey: Seq<char>,
    second: HotKey,
)
    ensures
        ({
            let between = after_step(
                live,
                init_step(first_hotkey, Some(first)),
                first_dropped,
                first_registered,
            );
            let end = after_step(between, init_step(second_hotkey, Some(second)), true, true);
            &&& end == Set::empty().insert(second)
            &&& end.finite()
            &&& end.len() == 1
        }),
{
}

/// An activation that ends before anything is asked of the operating system
/// leaves the registrations as they were.
pub proof fn lemma_rejected_activation_changes_nothing(
    live: Set<HotKey>,
    hotkey: Seq<char>,
    dropped: bool,
    registered: bool,
)
    ensures
        after_step(live, init_step(hotkey, None), dropped, registered) == live,
{
}

} // verus!
