use envy_tui::app::{App, GraphicsMode, Rtd3Level};

#[test]
fn modes_in_cursor_order() {
    let all = GraphicsMode::all();
    assert_eq!(
        all,
        vec![GraphicsMode::Integrated, GraphicsMode::Hybrid, GraphicsMode::Nvidia]
    );
}

#[test]
fn mode_names() {
    assert_eq!(GraphicsMode::Integrated.name(), "integrated");
    assert_eq!(GraphicsMode::Hybrid.name(), "hybrid");
    assert_eq!(GraphicsMode::Nvidia.name(), "nvidia");
}

#[test]
fn mode_descriptions_mention_their_gpu() {
    assert!(GraphicsMode::Integrated.description().contains("iGPU"));
    assert!(GraphicsMode::Hybrid.description().contains("PRIME"));
    assert!(GraphicsMode::Nvidia.description().contains("dGPU"));
}

#[test]
fn rtd3_levels_and_codes() {
    let all = Rtd3Level::all();
    assert_eq!(
        all,
        vec![
            Rtd3Level::Disabled,
            Rtd3Level::CoarseGrained,
            Rtd3Level::FineGrained,
            Rtd3Level::FineGrainedAmpere,
        ]
    );
    let codes: Vec<u8> = all.iter().map(|l| l.value()).collect();
    assert_eq!(codes, vec![0, 1, 2, 3]);
}

#[test]
fn rtd3_labels() {
    assert_eq!(Rtd3Level::Disabled.label(), "0 - Disabled");
    assert_eq!(Rtd3Level::CoarseGrained.label(), "1 - Coarse-grained");
    assert_eq!(Rtd3Level::FineGrained.label(), "2 - Fine-grained");
    assert_eq!(Rtd3Level::FineGrainedAmpere.label(), "3 - Fine-grained (Ampere+)");
}

#[test]
fn selected_mode_follows_cursor() {
    let mut app = App::new();
    assert_eq!(app.selected_mode(), GraphicsMode::Integrated);
    app.next_mode();
    assert_eq!(app.selected_mode(), GraphicsMode::Hybrid);
    app.next_mode();
    assert_eq!(app.selected_mode(), GraphicsMode::Nvidia);
}

#[test]
fn option_entries_for_hybrid() {
    let mut app = App::new();
    app.next_mode();
    let entries = app.option_entries();
    assert_eq!(entries.len(), 2);
    assert_eq!(entries[0].label, "RTD3 Power Management");
    assert!(!entries[0].on);
    assert!(entries[0].toggleable);
    assert_eq!(entries[1].label, "RTD3 Level: 2 - Fine-grained");
    assert!(!entries[1].toggleable, "the level entry is inert while RTD3 is off");

    app.toggle_current_option(); // RTD3 on
    let entries = app.option_entries();
    assert!(entries[0].on);
    assert!(entries[1].toggleable);
}

#[test]
fn option_entries_for_nvidia() {
    let mut app = App::new();
    app.next_mode();
    app.next_mode();
    let entries = app.option_entries();
    assert_eq!(entries.len(), 2);
    assert_eq!(entries[0].label, "Force Composition Pipeline");
    assert_eq!(entries[1].label, "Coolbits (value: 28)");
    assert!(entries[1].toggleable);
    assert!(!entries[1].on);
}

#[test]
fn option_entries_for_integrated() {
    let app = App::new();
    let entries = app.option_entries();
    assert_eq!(entries.len(), 1);
    assert_eq!(entries[0].label, "No additional options available");
    assert!(!entries[0].toggleable);
}

#[test]
fn icons_are_distinct() {
    let a = GraphicsMode::Integrated.icon();
    let b = GraphicsMode::Hybrid.icon();
    let c = GraphicsMode::Nvidia.icon();
    assert_ne!(a, b);
    assert_ne!(b, c);
    assert_ne!(a, c);
}
