//! The visibility controller: toggling the main window between shown and
//! hidden.
//!
//! The controller keeps no record of the window's state. Every toggle starts
//! from what the windowing layer reports at that moment, so a change made
//! behind its back (the user closing the window) cannot make it drift.
//!
//! A toggle takes two calls. [`toggle_window_visibility`] takes the report
//! and says what to do with the window; [`toggle_window_completed`] takes what
//! came of it and gives the reply.

use crate::outcome::outcome_view;
use crate::text::join2;
use vstd::prelude::*;

verus! {

/// The label of the window that is shown and hidden.
pub const MAIN_WINDOW: &'static str = "main";

/// What the windowing layer reports about the main window.
#[derive(Debug, PartialEq, Eq)]
pub enum WindowProbe {
    /// There is no such window.
    Missing,
    /// The window exists, but its visibility could not be read; the text is
    /// the windowing layer's error.
    Unreadable(String),
    /// The window is shown.
    Visible,
    /// The window is hidden.
    Hidden,
}

/// A [`WindowProbe`] as a mathematical value.
pub enum WindowProbeView {
    Missing,
    Unreadable(Seq<char>),
    Visible,
    Hidden,
}

impl View for WindowProbe {
    type V = WindowProbeView;

    open spec fn view(&self) -> WindowProbeView {
        match self {
            WindowProbe::Missing => WindowProbeView::Missing,
            WindowProbe::Unreadable(error) => WindowProbeView::Unreadable(error@),
            WindowProbe::Visible => WindowProbeView::Visible,
            WindowProbe::Hidden => WindowProbeView::Hidden,
        }
    }
}

/// What is to be done with the main window.
#[derive(Clone, Copy, Debug, PartialEq, Eq, Structural)]
pub enum WindowAction {
    /// Hide the window, and report whether that worked.
    Hide,
    /// Show the window, then give it the focus, and report whether both
    /// worked: the first failure is the outcome.
    ShowAndFocus,
}

/// What a toggle answers: whether it succeeded, a text for the user, and the
/// window's new visibility where it succeeded.
#[derive(Debug, PartialEq, Eq)]
pub struct ToggleResult {
    pub success: bool,
    pub message: String,
    pub visible: Option<bool>,
}

/// A [`ToggleResult`] as a mathematical value.
pub struct ToggleResultView {
    pub success: bool,
    pub message: Seq<char>,
    pub visible: Option<bool>,
}

impl View for ToggleResult {
    type V = ToggleResultView;

    open spec fn view(&self) -> ToggleResultView {
        ToggleResultView { success: self.success, message: self.message@, visible: self.visible }
    }
}

/// The first half of a toggle: either something is to be done with the
/// window, or the toggle is over.
#[derive(Debug, PartialEq, Eq)]
pub enum ToggleStep {
    /// Carry this out, then call [`toggle_window_completed`].
    Perform(WindowAction),
    /// Nothing can be done; this is the reply.
    Done(ToggleResult),
}

/// A [`ToggleStep`] as a mathematical value.
pub enum ToggleStepView {
    Perform(WindowAction),
    Done(ToggleResultView),
}

impl View for ToggleStep {
    type V = ToggleStepView;

    open spec fn view(&self) -> ToggleStepView {
        match self {
            ToggleStep::Perform(action) => ToggleStepView::Perform(*action),
            ToggleStep::Done(result) => ToggleStepView::Done(result@),
        }
    }
}

/// The text that reports a toggle and the new visibility.
pub open spec fn toggled_text(visible: bool) -> Seq<char> {
    if visible {
        "Window toggled. Visible: true"@
    } else {
        "Window toggled. Visible: false"@
    }
}

/// The text that reports that the window could not be hidden, or could not
/// be shown and focused.
pub open spec fn toggle_failed_text(error: Seq<char>) -> Seq<char> {
    "Failed to toggle window: "@ + error
}

/// The text that reports that the window's visibility could not be read.
pub open spec fn unreadable_text(error: Seq<char>) -> Seq<char> {
    "Failed to check window visibility: "@ + error
}

/// The text that reports that there is no main window.
pub open spec fn missing_text() -> Seq<char> {
    "Main window not found"@
}

/// The first half of a toggle on the report `probe`: a shown window is to be
/// hidden, a hidden one shown and focused; a missing or unreadable window
/// ends the toggle with a failure.
pub open spec fn toggle_step(probe: WindowProbeView) -> ToggleStepView {
    match probe {
        WindowProbeView::Visible => ToggleStepView::Perform(WindowAction::Hide),
        WindowProbeView::Hidden => ToggleStepView::Perform(WindowAction::ShowAndFocus),
        WindowProbeView::Missing => ToggleStepView::Done(
            ToggleResultView { success: false, message: missing_text(), visible: None },
        ),
        WindowProbeView::Unreadable(error) => ToggleStepView::Done(
            ToggleResultView { success: false, message: unreadable_text(error), visible: None },
        ),
    }
}

/// The window's visibility once `action` has been carried out.
pub open spec fn visibility_after(action: WindowAction) -> bool {
    match action {
        WindowAction::Hide => false,
        WindowAction::ShowAndFocus => true,
    }
}

/// The reply of a toggle whose `action` ended with `outcome`: where the
/// action was carried out, the visibility that the window now has; where it
/// failed, the error, and no visibility.
pub open spec fn toggle_result(action: WindowAction, outcome: Result<(), Seq<char>>) -> ToggleResultView {
    match outcome {
        Ok(_) => ToggleResultView {
            success: true,
            message: toggled_text(visibility_after(action)),
            visible: Some(visibility_after(action)),
        },
        Err(error) => ToggleResultView {
            success: false,
            message: toggle_failed_text(error),
            visible: None,
        },
    }
}

/// The reply of a toggle that succeeded and left the window `visible`.
fn toggled(visible: bool) -> (result: ToggleResult)
    ensures
        result@ == (ToggleResultView { success: true, message: toggled_text(visible), visible: Some(visible) }),
{
    let message = if visible {
        "Window toggled. Visible: true".to_owned()
    } else {
        "Window toggled. Visible: false".to_owned()
    };
    ToggleResult { success: true, message, visible: Some(visible) }
}

/// The reply of a toggle that failed with `message`.
fn failed(message: String) -> (result: ToggleResult)
    ensures
        result@ == (ToggleResultView { success: false, message: message@, visible: None }),
{
    ToggleResult { success: false, message, visible: None }
}

/// Starts a toggle from what the windowing layer reports about the main
/// window.
///
/// A shown window is to be hidden and a hidden one shown and focused. Where
/// the window is missing or cannot be read, the toggle ends at once with a
/// failure that says so.
pub fn toggle_window_visibility(probe: WindowProbe) -> (step: ToggleStep)
    ensures
        step@ == toggle_step(probe@),
{
    match probe {
        WindowProbe::Visible => ToggleStep::Perform(WindowAction::Hide),
        WindowProbe::Hidden => ToggleStep::Perform(WindowAction::ShowAndFocus),
        WindowProbe::Missing => ToggleStep::Done(failed("Main window not found".to_owned())),
        WindowProbe::Unreadable(error) => ToggleStep::Done(
            failed(join2("Failed to check window visibility: ", error.as_str())),
        ),
    }
}

/// Ends a toggle: `action` is what [`toggle_window_visibility`] asked for and
/// `outcome` what came of it, with the windowing layer's error where it
/// failed.
///
/// Where the action was carried out, the reply carries the new visibility.
/// Where it failed, the reply is a failure that reports the error: a window
/// that could not be shown is not said to be visible.
pub fn toggle_window_completed(action: WindowAction, outcome: Result<(), String>) -> (result: ToggleResult)
    ensures
        result@ == toggle_result(action, outcome_view(outcome)),
{
    match outcome {
        Ok(_) => match action {
            WindowAction::Hide => toggled(false),
            WindowAction::ShowAndFocus => toggled(true),
        },
        Err(error) => failed(join2("Failed to toggle window: ", error.as_str())),
    }
}

/// What a toggle set off by the hotkey or the tray does to the window, if
/// anything.
///
/// Such a toggle has nobody to report to, so it is lenient: a window whose
/// visibility cannot be read is taken to be hidden, and a missing window is
/// left alone.
pub open spec fn event_toggle_action(probe: WindowProbeView) -> Option<WindowAction> {
    match probe {
        WindowProbeView::Missing => None,
        WindowProbeView::Visible => Some(WindowAction::Hide),
        WindowProbeView::Hidden => Some(WindowAction::ShowAndFocus),
        WindowProbeView::Unreadable(_) => Some(WindowAction::ShowAndFocus),
    }
}

/// Decides what a toggle set off by the hotkey or the tray does to the
/// window, from what the windowing layer reports about it. There is nobody
/// to hand the outcome of the action to.
pub fn event_toggle(probe: &WindowProbe) -> (action: Option<WindowAction>)
    ensures
        action == event_toggle_action(probe@),
{
    match probe {
        WindowProbe::Missing => None,
        WindowProbe::Visible => Some(WindowAction::Hide),
        WindowProbe::Hidden => Some(WindowAction::ShowAndFocus),
        WindowProbe::Unreadable(_) => Some(WindowAction::ShowAndFocus),
    }
}

/// What opening the settings does to the window, if anything: the window is
/// shown and focused whatever its state, and a missing window is left alone.
pub open spec fn settings_window_action(probe: WindowProbeView) -> Option<WindowAction> {
    if probe is Missing {
        None
    } else {
        Some(WindowAction::ShowAndFocus)
    }
}

/// Decides what opening the settings does to the window, from what the
/// windowing layer reports about it.
///
/// With `Some`, the action is carried out and the user interface is then
/// told to open its settings. With `None` there is no window: nothing is
/// done, and nothing is sent.
pub fn settings_action(probe: &WindowProbe) -> (action: Option<WindowAction>)
    ensures
        action == settings_window_action(probe@),
{
    match probe {
        WindowProbe::Missing => None,
        _ => Some(WindowAction::ShowAndFocus),
    }
}

/// What the windowing layer reports about a window that exists, can be read
/// and has the visibility `visible`.
pub open spec fn probe_of(visible: bool) -> WindowProbeView {
    if visible {
        WindowProbeView::Visible
    } else {
        WindowProbeView::Hidden
    }
}

/// One undisturbed toggle of a window with the visibility `visible`: the
/// windowing layer reports the truth and carries out what it is asked. Gives
/// the reply and the window's visibility afterwards.
pub open spec fn undisturbed_toggle(visible: bool) -> (ToggleResultView, bool) {
    match toggle_step(probe_of(visible)) {
        ToggleStepView::Perform(action) => (toggle_result(action, Ok(())), visibility_after(action)),
        ToggleStepView::Done(result) => (result, visible),
    }
}

/// The window's visibility after `count` undisturbed toggles in a row,
/// starting from `initial`.
pub open spec fn visibility_after_toggles(initial: bool, count: nat) -> bool
    decreases count,
{
    if count == 0 {
        initial
    } else {
        undisturbed_toggle(visibility_after_toggles(initial, (count - 1) as nat)).1
    }
}

/// The reply of the toggle that follows `count` undisturbed toggles, starting
/// from `initial`.
pub open spec fn reply_after_toggles(initial: bool, count: nat) -> ToggleResultView {
    undisturbed_toggle(visibility_after_toggles(initial, count)).0
}

/// An undisturbed toggle succeeds, flips the window, and reports the
/// visibility that the window then has.
pub proof fn lemma_toggle_flips(visible: bool)
    ensures
        undisturbed_toggle(visible).0.success,
        undisturbed_toggle(visible).0.visible == Some(!visible),
        undisturbed_toggle(visible).1 == !visible,
{
}

/// Undisturbed toggles in a row report alternating visibilities: no two
/// consecutive replies agree, and every other reply is the same.
pub proof fn lemma_toggles_alternate(initial: bool, count: nat)
    ensures
        reply_after_toggles(initial, count).success,
        reply_after_toggles(initial, count).visible is Some,
        reply_after_toggles(initial, count + 1).visible != reply_after_toggles(initial, count).visible,
        reply_after_toggles(initial, count + 2).visible == reply_after_toggles(initial, count).visible,
{
}

} // verus!
