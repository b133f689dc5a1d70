use envy_tui::app::{Action, App, AppPanel, AppState, GraphicsMode, Key, Rtd3Level, WorkerStatus};
use envy_tui::envycontrol::ToolError;

fn fresh() -> App {
    App::new()
}

#[test]
fn defaults() {
    let app = fresh();
    assert_eq!(app.current_mode, None);
    assert_eq!(app.pending_mode, None);
    assert_eq!(app.selected_mode_index, 0);
    assert_eq!(app.selected_option_index, 0);
    assert_eq!(app.active_panel, AppPanel::ModeSelection);
    assert_eq!(app.state, AppState::Normal);
    assert_eq!(app.message, "");
    assert!(!app.rtd3_enabled);
    assert_eq!(app.rtd3_level, Rtd3Level::FineGrained);
    assert!(!app.force_comp);
    assert!(!app.coolbits_enabled);
    assert_eq!(app.coolbits_value, 28);
    assert!(!app.should_quit);
}

#[test]
fn mode_cursor_wraps_forward() {
    let mut app = fresh();
    app.next_mode();
    assert_eq!(app.selected_mode_index, 1);
    app.next_mode();
    assert_eq!(app.selected_mode_index, 2);
    app.next_mode();
    assert_eq!(app.selected_mode_index, 0);
}

#[test]
fn mode_cursor_wraps_backward() {
    let mut app = fresh();
    app.previous_mode();
    assert_eq!(app.selected_mode_index, 2);
    app.previous_mode();
    assert_eq!(app.selected_mode_index, 1);
    app.previous_mode();
    assert_eq!(app.selected_mode_index, 0);
}

#[test]
fn long_navigation_stays_in_bounds() {
    let mut app = fresh();
    for i in 0..100 {
        if i % 3 == 0 {
            app.next_mode();
        } else {
            app.previous_mode();
        }
        assert!(app.selected_mode_index < 3);
    }
}

#[test]
fn option_cursor_wraps_per_mode() {
    let mut app = fresh();
    app.next_mode(); // Hybrid: two options
    app.next_option();
    assert_eq!(app.selected_option_index, 1);
    app.next_option();
    assert_eq!(app.selected_option_index, 0);
    app.previous_option();
    assert_eq!(app.selected_option_index, 1);
}

#[test]
fn option_cursor_clamped_when_mode_changes() {
    let mut app = fresh();
    app.next_mode(); // Hybrid
    app.next_option(); // index 1
    app.previous_mode(); // Integrated: one placeholder entry
    assert_eq!(app.selected_option_index, 0);
}

#[test]
fn toggle_first_option_flips_exactly_one_boolean() {
    let mut app = fresh();
    app.next_mode(); // Hybrid, option index 0 = RTD3 enable
    let before_level = app.rtd3_level;
    app.toggle_current_option();
    assert!(app.rtd3_enabled);
    assert!(!app.force_comp);
    assert!(!app.coolbits_enabled);
    assert_eq!(app.rtd3_level, before_level);
    assert_eq!(app.state, AppState::Normal);
    assert_eq!(app.selected_mode_index, 1);
    assert_eq!(app.message, "");
    app.toggle_current_option();
    assert!(!app.rtd3_enabled);
}

#[test]
fn toggle_first_option_on_nvidia_flips_force_comp() {
    let mut app = fresh();
    app.next_mode();
    app.next_mode(); // Nvidia, option index 0 = forced composition
    app.toggle_current_option();
    assert!(app.force_comp);
    assert!(!app.rtd3_enabled);
    assert!(!app.coolbits_enabled);
}

#[test]
fn toggle_on_integrated_changes_nothing() {
    let mut app = fresh();
    app.toggle_current_option();
    assert!(!app.rtd3_enabled);
    assert!(!app.force_comp);
    assert!(!app.coolbits_enabled);
    assert_eq!(app.rtd3_level, Rtd3Level::FineGrained);
}

#[test]
fn rtd3_level_cycles_even_while_disabled() {
    let mut app = fresh();
    app.next_mode(); // Hybrid
    app.next_option(); // index 1 = RTD3 level
    assert!(!app.rtd3_enabled);
    app.toggle_current_option();
    assert_eq!(app.rtd3_level, Rtd3Level::FineGrainedAmpere);
    app.toggle_current_option();
    assert_eq!(app.rtd3_level, Rtd3Level::Disabled);
    app.toggle_current_option();
    assert_eq!(app.rtd3_level, Rtd3Level::CoarseGrained);
}

#[test]
fn panel_toggle_alternates() {
    let mut app = fresh();
    app.toggle_panel();
    assert_eq!(app.active_panel, AppPanel::Options);
    app.toggle_panel();
    assert_eq!(app.active_panel, AppPanel::ModeSelection);
}

#[test]
fn commit_sets_pending_to_selected() {
    let mut app = fresh();
    app.current_mode = Some(GraphicsMode::Nvidia);
    app.next_mode(); // Hybrid selected
    let action = app.handle_key(Key::Enter);
    assert_eq!(action, Action::Noop);
    assert_eq!(app.state, AppState::ConfirmingSwitch);
    assert_eq!(app.pending_mode, Some(GraphicsMode::Hybrid));
    assert_eq!(app.message, "Switch to hybrid mode? (y/n)");
}

#[test]
fn decline_clears_pending_and_message() {
    let mut app = fresh();
    let _ = app.handle_key(Key::Enter);
    let action = app.handle_key(Key::Char('n'));
    assert_eq!(action, Action::Noop);
    assert_eq!(app.state, AppState::Normal);
    assert_eq!(app.pending_mode, None);
    assert_eq!(app.message, "");
}

#[test]
fn confirm_starts_switch_with_snapshot() {
    let mut app = fresh();
    app.next_mode(); // Hybrid
    app.toggle_current_option(); // RTD3 on
    let _ = app.handle_key(Key::Enter);
    let action = app.handle_key(Key::Char('y'));
    match action {
        Action::StartSwitch(req) => {
            assert_eq!(req.mode, GraphicsMode::Hybrid);
            assert!(req.rtd3_enabled);
            assert_eq!(req.rtd3_level, Rtd3Level::FineGrained);
            assert!(!req.force_comp);
            assert!(!req.coolbits_enabled);
            assert_eq!(req.coolbits_value, 28);
        }
        other => panic!("expected a switch request, got {:?}", other),
    }
    assert_eq!(app.state, AppState::Loading);
    assert_eq!(app.message, "Applying changes...");
}

#[test]
fn modal_lock_ignores_navigation_and_quit() {
    let mut app = fresh();
    let _ = app.handle_key(Key::Enter);
    for key in [Key::Char('q'), Key::CtrlC, Key::Up, Key::Down, Key::Tab, Key::Char(' ')] {
        let action = app.handle_key(key);
        assert_eq!(action, Action::Noop);
        assert_eq!(app.state, AppState::ConfirmingSwitch);
        assert_eq!(app.pending_mode, Some(GraphicsMode::Integrated));
        assert!(!app.should_quit);
        assert_eq!(app.selected_mode_index, 0);
    }
}

#[test]
fn switch_success_confirms_reboot() {
    let mut app = fresh();
    app.next_mode();
    let _ = app.handle_key(Key::Enter);
    let _ = app.handle_key(Key::Char('y'));
    let done = app.poll_switch(
        GraphicsMode::Hybrid,
        WorkerStatus::Delivered(Ok("whatever the tool printed".to_string())),
    );
    assert!(done);
    assert_eq!(app.state, AppState::ConfirmingReboot);
    assert_eq!(app.current_mode, Some(GraphicsMode::Hybrid));
    assert_eq!(app.pending_mode, None);
    assert_eq!(app.message, "Mode changed successfully! Do you want to reboot now?");
}

#[test]
fn switch_failure_reports_error_and_keeps_current_mode() {
    let mut app = fresh();
    app.current_mode = Some(GraphicsMode::Integrated);
    app.next_mode();
    let _ = app.handle_key(Key::Enter);
    let _ = app.handle_key(Key::Char('y'));
    let done = app.poll_switch(
        GraphicsMode::Hybrid,
        WorkerStatus::Delivered(Err(ToolError::SwitchFailed("permission denied".to_string()))),
    );
    assert!(done);
    assert_eq!(app.state, AppState::Error);
    assert_eq!(app.current_mode, Some(GraphicsMode::Integrated));
    assert_eq!(app.pending_mode, None);
    assert_eq!(app.message, "Failed to switch mode: permission denied");
}

#[test]
fn switch_pending_poll_ticks_spinner() {
    let mut app = fresh();
    let _ = app.handle_key(Key::Enter);
    let _ = app.handle_key(Key::Char('y'));
    let frame = app.spinner_frame;
    let done = app.poll_switch(GraphicsMode::Integrated, WorkerStatus::Pending);
    assert!(!done);
    assert_eq!(app.spinner_frame, (frame + 1) % 10);
    assert_eq!(app.state, AppState::Loading);
}

#[test]
fn spinner_wraps() {
    let mut app = fresh();
    for _ in 0..9 {
        app.tick_spinner();
    }
    assert_eq!(app.spinner_frame, 9);
    app.tick_spinner();
    assert_eq!(app.spinner_frame, 0);
}

#[test]
fn severed_channel_is_a_generic_error() {
    let mut app = fresh();
    let _ = app.handle_key(Key::Enter);
    let _ = app.handle_key(Key::Char('y'));
    let done = app.poll_switch(GraphicsMode::Integrated, WorkerStatus::Disconnected);
    assert!(done);
    assert_eq!(app.state, AppState::Error);
    assert_eq!(app.pending_mode, None);
    assert_eq!(app.message, "Command failed unexpectedly");
}

#[test]
fn reboot_declined_shows_success() {
    let mut app = fresh();
    let _ = app.handle_key(Key::Enter);
    let _ = app.handle_key(Key::Char('y'));
    let _ = app.poll_switch(GraphicsMode::Integrated, WorkerStatus::Delivered(Ok(String::new())));
    let action = app.handle_key(Key::Esc);
    assert_eq!(action, Action::Noop);
    assert_eq!(app.state, AppState::Success);
    assert_eq!(app.message, "Changes applied. Reboot the computer for changes to take effect.");
}

#[test]
fn reboot_confirmed_requests_reboot() {
    let mut app = fresh();
    let _ = app.handle_key(Key::Enter);
    let _ = app.handle_key(Key::Enter);
    let _ = app.poll_switch(GraphicsMode::Integrated, WorkerStatus::Delivered(Ok(String::new())));
    let action = app.handle_key(Key::Char('y'));
    assert_eq!(action, Action::RequestReboot);
    assert_eq!(app.state, AppState::ConfirmingReboot);
}

#[test]
fn any_key_dismisses_result_modals() {
    for key in [Key::Char('q'), Key::Enter, Key::Esc, Key::Up, Key::Char('z'), Key::Other] {
        let mut app = fresh();
        app.set_error("something went wrong");
        let action = app.handle_key(key);
        assert_eq!(action, Action::Noop);
        assert_eq!(app.state, AppState::Normal);
        assert_eq!(app.message, "");
        assert!(!app.should_quit);

        let mut app = fresh();
        app.set_success("it worked");
        let action = app.handle_key(key);
        assert_eq!(action, Action::Noop);
        assert_eq!(app.state, AppState::Normal);
        assert_eq!(app.message, "");
        assert!(!app.should_quit);
    }
}

#[test]
fn quit_keys_work_only_in_normal() {
    for key in [Key::Char('q'), Key::Esc, Key::CtrlC] {
        let mut app = fresh();
        let action = app.handle_key(key);
        assert_eq!(action, Action::Noop);
        assert!(app.should_quit);
    }
}

#[test]
fn reset_key_starts_reset() {
    let mut app = fresh();
    let action = app.handle_key(Key::Char('r'));
    assert_eq!(action, Action::StartReset);
    assert_eq!(app.state, AppState::Loading);
    assert_eq!(app.message, "Resetting...");
}

#[test]
fn reset_success_forgets_current_mode() {
    let mut app = fresh();
    app.current_mode = Some(GraphicsMode::Nvidia);
    let _ = app.handle_key(Key::Char('r'));
    let done = app.poll_reset(WorkerStatus::Delivered(Ok(
        "Reset successful. Please reboot for changes to take effect.".to_string(),
    )));
    assert!(done);
    assert_eq!(app.state, AppState::Success);
    assert_eq!(app.current_mode, None);
    assert_eq!(app.message, "Reset successful. Please reboot for changes to take effect.");
}

#[test]
fn reset_failure_keeps_current_mode() {
    let mut app = fresh();
    app.current_mode = Some(GraphicsMode::Nvidia);
    let _ = app.handle_key(Key::Char('r'));
    let done = app.poll_reset(WorkerStatus::Delivered(Err(ToolError::ResetFailed(
        "no permission".to_string(),
    ))));
    assert!(done);
    assert_eq!(app.state, AppState::Error);
    assert_eq!(app.current_mode, Some(GraphicsMode::Nvidia));
    assert_eq!(app.message, "Failed to reset: no permission");
}

#[test]
fn startup_with_missing_tool_errors_and_skips_query() {
    let mut app = fresh();
    let need_query = app.startup(false);
    assert!(!need_query);
    assert_eq!(app.state, AppState::Error);
    assert_eq!(app.message, "envycontrol is not installed. Please install it first.");
}

#[test]
fn startup_with_tool_present_queries() {
    let mut app = fresh();
    let need_query = app.startup(true);
    assert!(need_query);
    assert_eq!(app.state, AppState::Normal);
    assert_eq!(app.message, "");
}

#[test]
fn query_result_sets_current_mode_and_telemetry_wish() {
    let mut app = fresh();
    let want = app.apply_query_result(Ok(Some(GraphicsMode::Hybrid)));
    assert!(want);
    assert_eq!(app.current_mode, Some(GraphicsMode::Hybrid));
    assert_eq!(app.state, AppState::Normal);

    let mut app = fresh();
    let want = app.apply_query_result(Ok(Some(GraphicsMode::Integrated)));
    assert!(!want);
    assert_eq!(app.current_mode, Some(GraphicsMode::Integrated));

    let mut app = fresh();
    let want = app.apply_query_result(Ok(None));
    assert!(want);
    assert_eq!(app.current_mode, None);
    assert_eq!(app.state, AppState::Normal);
}

#[test]
fn failed_query_means_unknown_mode_not_error() {
    let mut app = fresh();
    app.current_mode = Some(GraphicsMode::Nvidia);
    let want = app.apply_query_result(Err(ToolError::QueryFailed));
    assert!(!want);
    assert_eq!(app.current_mode, None);
    assert_eq!(app.state, AppState::Normal);
}

#[test]
fn missing_tool_query_is_surfaced() {
    let mut app = fresh();
    let want = app.apply_query_result(Err(ToolError::NotInstalled));
    assert!(!want);
    assert_eq!(app.state, AppState::Error);
    assert_eq!(app.message, "Failed to query mode: envycontrol not installed");
}

#[test]
fn reboot_failure_is_surfaced() {
    let mut app = fresh();
    app.fail(&ToolError::RebootFailed("spawn refused".to_string()));
    assert_eq!(app.state, AppState::Error);
    assert_eq!(app.message, "Failed to reboot: spawn refused");
}
