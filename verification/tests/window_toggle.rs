use hotkey_toggle::visibility::{
    event_toggle, settings_action, toggle_window_completed, toggle_window_visibility,
    ToggleResult, ToggleStep, WindowAction, WindowProbe, MAIN_WINDOW,
};

/// A window that reports the truth and does what it is asked.
struct FakeWindow {
    visible: bool,
    hides: u32,
    shows: u32,
}

impl FakeWindow {
    fn probe(&self) -> WindowProbe {
        if self.visible {
            WindowProbe::Visible
        } else {
            WindowProbe::Hidden
        }
    }

    fn perform(&mut self, action: WindowAction) -> Result<(), String> {
        match action {
            WindowAction::Hide => {
                self.visible = false;
                self.hides += 1;
            }
            WindowAction::ShowAndFocus => {
                self.visible = true;
                self.shows += 1;
            }
        }
        Ok(())
    }

    fn toggle(&mut self) -> ToggleResult {
        match toggle_window_visibility(self.probe()) {
            ToggleStep::Done(result) => result,
            ToggleStep::Perform(action) => {
                let outcome = self.perform(action);
                toggle_window_completed(action, outcome)
            }
        }
    }
}

#[test]
fn main_window_label() {
    assert_eq!(MAIN_WINDOW, "main");
}

#[test]
fn toggle_hides_a_visible_window() {
    assert_eq!(
        toggle_window_visibility(WindowProbe::Visible),
        ToggleStep::Perform(WindowAction::Hide)
    );
}

#[test]
fn toggle_shows_a_hidden_window() {
    assert_eq!(
        toggle_window_visibility(WindowProbe::Hidden),
        ToggleStep::Perform(WindowAction::ShowAndFocus)
    );
}

#[test]
fn toggle_reports_missing_window() {
    assert_eq!(
        toggle_window_visibility(WindowProbe::Missing),
        ToggleStep::Done(ToggleResult {
            success: false,
            message: "Main window not found".to_string(),
            visible: None,
        })
    );
}

#[test]
fn toggle_reports_unreadable_window() {
    assert_eq!(
        toggle_window_visibility(WindowProbe::Unreadable("window closed".to_string())),
        ToggleStep::Done(ToggleResult {
            success: false,
            message: "Failed to check window visibility: window closed".to_string(),
            visible: None,
        })
    );
}

#[test]
fn completed_hide_reports_hidden() {
    assert_eq!(
        toggle_window_completed(WindowAction::Hide, Ok(())),
        ToggleResult {
            success: true,
            message: "Window toggled. Visible: false".to_string(),
            visible: Some(false),
        }
    );
}

#[test]
fn completed_show_reports_visible() {
    assert_eq!(
        toggle_window_completed(WindowAction::ShowAndFocus, Ok(())),
        ToggleResult {
            success: true,
            message: "Window toggled. Visible: true".to_string(),
            visible: Some(true),
        }
    );
}

#[test]
fn failed_hide_is_reported() {
    assert_eq!(
        toggle_window_completed(WindowAction::Hide, Err("not permitted".to_string())),
        ToggleResult {
            success: false,
            message: "Failed to toggle window: not permitted".to_string(),
            visible: None,
        }
    );
}

#[test]
fn failed_show_is_reported() {
    assert_eq!(
        toggle_window_completed(WindowAction::ShowAndFocus, Err("no display".to_string())),
        ToggleResult {
            success: false,
            message: "Failed to toggle window: no display".to_string(),
            visible: None,
        }
    );
}

#[test]
fn toggle_of_hidden_window_that_cannot_be_shown_fails() {
    let action = match toggle_window_visibility(WindowProbe::Hidden) {
        ToggleStep::Perform(action) => action,
        ToggleStep::Done(result) => panic!("ended early: {}", result.message),
    };
    assert_eq!(action, WindowAction::ShowAndFocus);
    let result = toggle_window_completed(action, Err("no display".to_string()));
    assert!(!result.success);
    assert_eq!(result.visible, None);
    assert_eq!(result.message, "Failed to toggle window: no display");
}

#[test]
fn consecutive_toggles_alternate_from_hidden() {
    let mut window = FakeWindow { visible: false, hides: 0, shows: 0 };
    let mut reported = Vec::new();
    for _ in 0..6 {
        let result = window.toggle();
        assert!(result.success);
        reported.push(result.visible);
    }
    assert_eq!(
        reported,
        vec![Some(true), Some(false), Some(true), Some(false), Some(true), Some(false)]
    );
    assert_eq!(window.shows, 3);
    assert_eq!(window.hides, 3);
}

#[test]
fn consecutive_toggles_alternate_from_visible() {
    let mut window = FakeWindow { visible: true, hides: 0, shows: 0 };
    let first = window.toggle();
    let second = window.toggle();
    assert_eq!(first.visible, Some(false));
    assert_eq!(second.visible, Some(true));
    assert_ne!(first.visible, second.visible);
    assert!(window.visible);
}

#[test]
fn toggle_follows_outside_changes() {
    let mut window = FakeWindow { visible: false, hides: 0, shows: 0 };
    assert_eq!(window.toggle().visible, Some(true));
    // The user closes the window behind the controller's back.
    window.visible = false;
    assert_eq!(window.toggle().visible, Some(true));
}

#[test]
fn event_toggle_hides_and_shows() {
    assert_eq!(event_toggle(&WindowProbe::Visible), Some(WindowAction::Hide));
    assert_eq!(event_toggle(&WindowProbe::Hidden), Some(WindowAction::ShowAndFocus));
}

#[test]
fn event_toggle_takes_unreadable_for_hidden() {
    assert_eq!(
        event_toggle(&WindowProbe::Unreadable("gone".to_string())),
        Some(WindowAction::ShowAndFocus)
    );
}

#[test]
fn event_toggle_leaves_missing_window_alone() {
    assert_eq!(event_toggle(&WindowProbe::Missing), None);
}

#[test]
fn settings_show_the_window_whatever_its_state() {
    assert_eq!(settings_action(&WindowProbe::Visible), Some(WindowAction::ShowAndFocus));
    assert_eq!(settings_action(&WindowProbe::Hidden), Some(WindowAction::ShowAndFocus));
    assert_eq!(
        settings_action(&WindowProbe::Unreadable("gone".to_string())),
        Some(WindowAction::ShowAndFocus)
    );
}

#[test]
fn settings_leave_missing_window_alone() {
    assert_eq!(settings_action(&WindowProbe::Missing), None);
}
