use envy_tui::app::{Action, App, AppState, GraphicsMode, Key, Rtd3Level, WorkerStatus};
use envy_tui::envycontrol::{
    build_switch_args, interpret_query_output, interpret_reset_output, interpret_switch_output,
    parse_gpu_info, reset_command, switch_command, SwitchOptions, ToolError,
};
use envy_tui::text::u8_decimal;

fn plain_request(mode: GraphicsMode) -> SwitchOptions {
    SwitchOptions {
        mode,
        rtd3_enabled: false,
        rtd3_level: Rtd3Level::FineGrained,
        force_comp: false,
        coolbits_enabled: false,
        coolbits_value: 28,
    }
}

#[test]
fn switch_args_for_plain_modes() {
    let args = build_switch_args(&plain_request(GraphicsMode::Integrated));
    assert_eq!(args, vec!["-s", "integrated", "--verbose"]);
    let args = build_switch_args(&plain_request(GraphicsMode::Hybrid));
    assert_eq!(args, vec!["-s", "hybrid", "--verbose"]);
    let args = build_switch_args(&plain_request(GraphicsMode::Nvidia));
    assert_eq!(args, vec!["-s", "nvidia", "--verbose"]);
}

#[test]
fn rtd3_flag_needs_hybrid_and_enabled() {
    let mut req = plain_request(GraphicsMode::Hybrid);
    req.rtd3_enabled = true;
    let args = build_switch_args(&req);
    assert_eq!(args, vec!["-s", "hybrid", "--rtd3", "2", "--verbose"]);

    // The level alone, without the enable flag, must not surface.
    req.rtd3_enabled = false;
    req.rtd3_level = Rtd3Level::FineGrainedAmpere;
    let args = build_switch_args(&req);
    assert_eq!(args, vec!["-s", "hybrid", "--verbose"]);

    // The enable flag on another mode must not surface either.
    let mut req = plain_request(GraphicsMode::Integrated);
    req.rtd3_enabled = true;
    let args = build_switch_args(&req);
    assert_eq!(args, vec!["-s", "integrated", "--verbose"]);
}

#[test]
fn nvidia_flags_are_independent() {
    let mut req = plain_request(GraphicsMode::Nvidia);
    req.force_comp = true;
    let args = build_switch_args(&req);
    assert_eq!(args, vec!["-s", "nvidia", "--force-comp", "--verbose"]);

    req.coolbits_enabled = true;
    let args = build_switch_args(&req);
    assert_eq!(args, vec!["-s", "nvidia", "--force-comp", "--coolbits", "28", "--verbose"]);

    req.force_comp = false;
    let args = build_switch_args(&req);
    assert_eq!(args, vec!["-s", "nvidia", "--coolbits", "28", "--verbose"]);
}

#[test]
fn commands_wrap_the_tool_with_auto_confirmation() {
    let mut req = plain_request(GraphicsMode::Nvidia);
    req.coolbits_enabled = true;
    assert_eq!(
        switch_command(&req),
        "yes | envycontrol -s nvidia --coolbits 28 --verbose"
    );
    assert_eq!(reset_command(), "yes | envycontrol --reset --verbose");
}

#[test]
fn decimal_rendering_is_exact() {
    assert_eq!(u8_decimal(0), "0");
    assert_eq!(u8_decimal(7), "7");
    assert_eq!(u8_decimal(10), "10");
    assert_eq!(u8_decimal(28), "28");
    assert_eq!(u8_decimal(100), "100");
    assert_eq!(u8_decimal(255), "255");
}

#[test]
fn committed_nvidia_coolbits_scenario() {
    let mut app = App::new();
    app.next_mode();
    app.next_mode(); // Nvidia under the cursor
    app.toggle_panel();
    app.next_option(); // the coolbits entry
    app.toggle_current_option(); // coolbits on, value stays 28
    assert!(app.coolbits_enabled);
    let _ = app.handle_key(Key::Enter);
    assert_eq!(app.message, "Switch to nvidia mode? (y/n)");
    let action = app.handle_key(Key::Char('y'));
    let req = match action {
        Action::StartSwitch(req) => req,
        other => panic!("expected a switch request, got {:?}", other),
    };
    let args = build_switch_args(&req);
    assert_eq!(args, vec!["-s", "nvidia", "--coolbits", "28", "--verbose"]);

    let done = app.poll_switch(
        req.mode,
        WorkerStatus::Delivered(interpret_switch_output(req.mode, true, "")),
    );
    assert!(done);
    assert_eq!(app.state, AppState::ConfirmingReboot);
    assert_eq!(app.current_mode, Some(GraphicsMode::Nvidia));
}

#[test]
fn disabled_rtd3_level_does_not_reach_the_request() {
    let mut app = App::new();
    app.next_mode(); // Hybrid
    app.toggle_panel();
    app.next_option(); // the RTD3 level entry
    app.toggle_current_option(); // advances the level even while disabled
    assert_eq!(app.rtd3_level, Rtd3Level::FineGrainedAmpere);
    assert!(!app.rtd3_enabled);
    let _ = app.handle_key(Key::Enter);
    let action = app.handle_key(Key::Enter);
    let req = match action {
        Action::StartSwitch(req) => req,
        other => panic!("expected a switch request, got {:?}", other),
    };
    let args = build_switch_args(&req);
    assert_eq!(args, vec!["-s", "hybrid", "--verbose"]);
}

#[test]
fn switch_output_interpretation() {
    let ok = interpret_switch_output(GraphicsMode::Hybrid, true, "");
    assert_eq!(
        ok.unwrap(),
        "Switched to hybrid mode. Please reboot for changes to take effect."
    );
    let err = interpret_switch_output(GraphicsMode::Hybrid, false, "boom");
    match err {
        Err(ToolError::SwitchFailed(s)) => assert_eq!(s, "boom"),
        other => panic!("expected a switch failure, got {:?}", other),
    }
}

#[test]
fn reset_output_interpretation() {
    let ok = interpret_reset_output(true, "");
    assert_eq!(ok.unwrap(), "Reset successful. Please reboot for changes to take effect.");
    let err = interpret_reset_output(false, "nope");
    match err {
        Err(ToolError::ResetFailed(s)) => assert_eq!(s, "nope"),
        other => panic!("expected a reset failure, got {:?}", other),
    }
}

#[test]
fn query_output_matches_mode_names_case_insensitively() {
    let r = interpret_query_output(true, "Current mode: HYBRID\n", "");
    assert_eq!(r.unwrap(), Some(GraphicsMode::Hybrid));
    let r = interpret_query_output(true, "mode is Integrated", "");
    assert_eq!(r.unwrap(), Some(GraphicsMode::Integrated));
    let r = interpret_query_output(true, "nvidia", "");
    assert_eq!(r.unwrap(), Some(GraphicsMode::Nvidia));
    let r = interpret_query_output(true, "no mode here", "");
    assert_eq!(r.unwrap(), None);
}

#[test]
fn query_output_first_match_wins() {
    let r = interpret_query_output(true, "nvidia then integrated", "");
    assert_eq!(r.unwrap(), Some(GraphicsMode::Integrated));
}

#[test]
fn query_failure_classification() {
    let r = interpret_query_output(false, "", "sh: envycontrol: command not found");
    assert!(matches!(r, Err(ToolError::NotInstalled)));
    let r = interpret_query_output(false, "", "No such file or directory");
    assert!(matches!(r, Err(ToolError::NotInstalled)));
    let r = interpret_query_output(false, "", "some other failure");
    assert!(matches!(r, Err(ToolError::QueryFailed)));
}

#[test]
fn error_messages() {
    assert_eq!(ToolError::NotInstalled.message(), "envycontrol not installed");
    assert_eq!(
        ToolError::SwitchFailed("x".to_string()).message(),
        "Failed to switch mode: x"
    );
    assert_eq!(ToolError::ResetFailed("y".to_string()).message(), "Failed to reset: y");
    assert_eq!(ToolError::RebootFailed("z".to_string()).message(), "Failed to reboot: z");
    assert_eq!(
        ToolError::WorkerDisconnected.message(),
        "Command failed unexpectedly"
    );
}

#[test]
fn telemetry_parsing() {
    let info = parse_gpu_info(" NVIDIA GeForce RTX 3060 , 45, 1024 , 6144\n").unwrap();
    assert_eq!(info.name, "NVIDIA GeForce RTX 3060");
    assert_eq!(info.temperature, "45\u{c2}\u{b0}C");
    assert_eq!(info.memory_used, "1024");
    assert_eq!(info.memory_total, "6144");
    assert_eq!(info.memory_display(), "1024 / 6144 MiB");
}

#[test]
fn telemetry_needs_four_fields() {
    assert!(parse_gpu_info("only, three, fields").is_none());
    assert!(parse_gpu_info("").is_none());
    assert!(parse_gpu_info("a, b, c, d, e").is_some());
}
