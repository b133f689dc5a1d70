//! Application state: the graphics modes, the option set, the modal lifecycle
//! and its transition functions.

use vstd::prelude::*;
use vstd::string::StringExecFns;

use crate::envycontrol::{
    gpu_info_view, tool_error_text, GpuInfo, GpuInfoView, SwitchOptions, ToolError,
};
use crate::text::dec_spec;

verus! {

/// One of the three GPU operating policies the external tool can apply.
#[derive(Debug, Clone, Copy, PartialEq, Eq, Structural)]
pub enum GraphicsMode {
    Integrated,
    Hybrid,
    Nvidia,
}

/// Number of graphics modes; the mode cursor wraps at this bound.
pub const MODE_COUNT: usize = 3;

/// The mode that the cursor index `i` denotes.
pub open spec fn mode_at(i: int) -> GraphicsMode {
    if i == 0 {
        GraphicsMode::Integrated
    } else if i == 1 {
        GraphicsMode::Hybrid
    } else {
        GraphicsMode::Nvidia
    }
}

/// The lower-case name of a mode, as the external tool spells it.
pub open spec fn mode_name_spec(m: GraphicsMode) -> Seq<char> {
    match m {
        GraphicsMode::Integrated => "integrated"@,
        GraphicsMode::Hybrid => "hybrid"@,
        GraphicsMode::Nvidia => "nvidia"@,
    }
}

impl GraphicsMode {
    /// The lower-case name of the mode, passed verbatim to the external tool
    /// and embedded in user-facing messages.
    pub fn name(&self) -> (r: &'static str)
        ensures
            r@ == mode_name_spec(*self),
    {
        match self {
            GraphicsMode::Integrated => "integrated",
            GraphicsMode::Hybrid => "hybrid",
            GraphicsMode::Nvidia => "nvidia",
        }
    }

    /// A one-line description shown beside the mode.
    pub fn description(&self) -> (r: &'static str)
        ensures
            self is Integrated ==> r@ == "Use Intel/AMD iGPU exclusively. Nvidia GPU is turned off for power saving."@,
            self is Hybrid ==> r@ == "Enable PRIME render offloading. GPU can be dynamically turned off when not in use."@,
            self is Nvidia ==> r@ == "Use Nvidia dGPU exclusively. Higher performance, higher power consumption."@,
    {
        match self {
            GraphicsMode::Integrated => "Use Intel/AMD iGPU exclusively. Nvidia GPU is turned off for power saving.",
            GraphicsMode::Hybrid => "Enable PRIME render offloading. GPU can be dynamically turned off when not in use.",
            GraphicsMode::Nvidia => "Use Nvidia dGPU exclusively. Higher performance, higher power consumption.",
        }
    }

    /// The glyph shown beside the mode.
    pub fn icon(&self) -> (r: &'static str)
        ensures
            self is Integrated ==> r@ == "\u{f0379}"@,
            self is Hybrid ==> r@ == "\u{f08ae}"@,
            self is Nvidia ==> r@ == "\u{f0fb2}"@,
    {
        match self {
            GraphicsMode::Integrated => "\u{f0379}",
            GraphicsMode::Hybrid => "\u{f08ae}",
            GraphicsMode::Nvidia => "\u{f0fb2}",
        }
    }

    /// All modes, in cursor order.
    pub fn all() -> (r: Vec<GraphicsMode>)
        ensures
            r@.len() == MODE_COUNT,
            forall|i: int| 0 <= i < MODE_COUNT ==> r@[i] == mode_at(i),
    {
        let r = vec![GraphicsMode::Integrated, GraphicsMode::Hybrid, GraphicsMode::Nvidia];
        assert(forall|i: int| 0 <= i < MODE_COUNT ==> r@[i] == mode_at(i));
        r
    }
}

/// Runtime D3 power-management level for the discrete GPU in Hybrid mode.
#[derive(Debug, Clone, Copy, PartialEq, Eq, Structural)]
pub enum Rtd3Level {
    Disabled,
    CoarseGrained,
    FineGrained,
    FineGrainedAmpere,
}

/// Number of RTD3 levels; cycling the level wraps at this bound.
pub const RTD3_LEVEL_COUNT: usize = 4;

/// The integer code of a level, passed verbatim to the external tool.
pub open spec fn rtd3_value_spec(l: Rtd3Level) -> u8 {
    match l {
        Rtd3Level::Disabled => 0,
        Rtd3Level::CoarseGrained => 1,
        Rtd3Level::FineGrained => 2,
        Rtd3Level::FineGrainedAmpere => 3,
    }
}

/// The level that the cursor index `i` denotes.
pub open spec fn rtd3_at(i: int) -> Rtd3Level {
    if i == 0 {
        Rtd3Level::Disabled
    } else if i == 1 {
        Rtd3Level::CoarseGrained
    } else if i == 2 {
        Rtd3Level::FineGrained
    } else {
        Rtd3Level::FineGrainedAmpere
    }
}

/// The level after `l` in cyclic order: cycling past the last level wraps to
/// the first.
pub open spec fn rtd3_next(l: Rtd3Level) -> Rtd3Level {
    match l {
        Rtd3Level::Disabled => Rtd3Level::CoarseGrained,
        Rtd3Level::CoarseGrained => Rtd3Level::FineGrained,
        Rtd3Level::FineGrained => Rtd3Level::FineGrainedAmpere,
        Rtd3Level::FineGrainedAmpere => Rtd3Level::Disabled,
    }
}

impl Rtd3Level {
    /// The integer code (0 to 3) of this level, passed verbatim to the
    /// external tool.
    pub fn value(&self) -> (r: u8)
        ensures
            r == rtd3_value_spec(*self),
    {
        match self {
            Rtd3Level::Disabled => 0,
            Rtd3Level::CoarseGrained => 1,
            Rtd3Level::FineGrained => 2,
            Rtd3Level::FineGrainedAmpere => 3,
        }
    }

    /// All levels, in cyclic order.
    pub fn all() -> (r: Vec<Rtd3Level>)
        ensures
            r@.len() == RTD3_LEVEL_COUNT,
            forall|i: int| 0 <= i < RTD3_LEVEL_COUNT ==> r@[i] == rtd3_at(i),
    {
        let r = vec![
            Rtd3Level::Disabled,
            Rtd3Level::CoarseGrained,
            Rtd3Level::FineGrained,
            Rtd3Level::FineGrainedAmpere,
        ];
        assert(forall|i: int| 0 <= i < RTD3_LEVEL_COUNT ==> r@[i] == rtd3_at(i));
        r
    }

    /// The level after this one in cyclic order.
    pub fn next(&self) -> (r: Rtd3Level)
        ensures
            r == rtd3_next(*self),
    {
        match self {
            Rtd3Level::Disabled => Rtd3Level::CoarseGrained,
            Rtd3Level::CoarseGrained => Rtd3Level::FineGrained,
            Rtd3Level::FineGrained => Rtd3Level::FineGrainedAmpere,
            Rtd3Level::FineGrainedAmpere => Rtd3Level::Disabled,
        }
    }
}

/// The display label of a level, embedding its integer code.
pub open spec fn rtd3_label_spec(l: Rtd3Level) -> Seq<char> {
    match l {
        Rtd3Level::Disabled => "0 - Disabled"@,
        Rtd3Level::CoarseGrained => "1 - Coarse-grained"@,
        Rtd3Level::FineGrained => "2 - Fine-grained"@,
        Rtd3Level::FineGrainedAmpere => "3 - Fine-grained (Ampere+)"@,
    }
}

impl Rtd3Level {
    /// The display label of this level.
    pub fn label(&self) -> (r: &'static str)
        ensures
            r@ == rtd3_label_spec(*self),
    {
        match self {
            Rtd3Level::Disabled => "0 - Disabled",
            Rtd3Level::CoarseGrained => "1 - Coarse-grained",
            Rtd3Level::FineGrained => "2 - Fine-grained",
            Rtd3Level::FineGrainedAmpere => "3 - Fine-grained (Ampere+)",
        }
    }
}

/// Which panel receives directional input.
#[derive(Debug, Clone, Copy, PartialEq, Eq, Structural)]
pub enum AppPanel {
    ModeSelection,
    Options,
}

/// The modal phase of the application, gating which inputs are honoured.
#[derive(Debug, Clone, Copy, PartialEq, Eq, Structural)]
pub enum AppState {
    Normal,
    ConfirmingSwitch,
    Loading,
    ConfirmingReboot,
    Success,
    Error,
}

/// Number of entries in the option panel for a mode. Integrated shows a
/// single non-toggleable placeholder; Hybrid and Nvidia each show two
/// settings.
pub open spec fn option_count_spec(m: GraphicsMode) -> nat {
    match m {
        GraphicsMode::Integrated => 1,
        GraphicsMode::Hybrid => 2,
        GraphicsMode::Nvidia => 2,
    }
}

/// `i` clamped to the option entries of mode `m`, for when the mode cursor
/// moves to a mode with fewer options.
pub open spec fn clamp_option(i: nat, m: GraphicsMode) -> nat {
    if i < option_count_spec(m) {
        i
    } else {
        (option_count_spec(m) - 1) as nat
    }
}

/// Number of busy-indicator frames; the spinner cursor wraps at this bound.
pub const SPINNER_FRAME_COUNT: usize = 10;

/// The central mutable record: everything the engine decides on, independent
/// of any terminal or process handle.
pub struct App {
    /// Last hardware-confirmed mode; `None` means unknown.
    pub current_mode: Option<GraphicsMode>,
    /// The mode awaiting confirmation or execution; `Some` only while a
    /// switch is being confirmed or is in flight.
    pub pending_mode: Option<GraphicsMode>,
    pub selected_mode_index: usize,
    pub selected_option_index: usize,
    pub active_panel: AppPanel,
    pub state: AppState,
    /// Human-readable text for the current lifecycle state.
    pub message: String,
    pub rtd3_enabled: bool,
    pub rtd3_level: Rtd3Level,
    pub force_comp: bool,
    pub coolbits_enabled: bool,
    pub coolbits_value: u8,
    /// Busy-indicator frame cursor, advanced once per poll while loading.
    pub spinner_frame: usize,
    pub gpu_info: Option<GpuInfo>,
    pub should_quit: bool,
}

/// Abstract value of [`App`]: the same fields over mathematical types, so
/// that transitions can be stated and related as spec functions.
#[verifier::ext_equal]
pub struct AppView {
    pub current_mode: Option<GraphicsMode>,
    pub pending_mode: Option<GraphicsMode>,
    pub selected_mode_index: nat,
    pub selected_option_index: nat,
    pub active_panel: AppPanel,
    pub state: AppState,
    pub message: Seq<char>,
    pub rtd3_enabled: bool,
    pub rtd3_level: Rtd3Level,
    pub force_comp: bool,
    pub coolbits_enabled: bool,
    pub coolbits_value: u8,
    pub spinner_frame: nat,
    pub gpu_info: Option<GpuInfoView>,
    pub should_quit: bool,
}

impl View for App {
    type V = AppView;

    open spec fn view(&self) -> AppView {
        AppView {
            current_mode: self.current_mode,
            pending_mode: self.pending_mode,
            selected_mode_index: self.selected_mode_index as nat,
            selected_option_index: self.selected_option_index as nat,
            active_panel: self.active_panel,
            state: self.state,
            message: self.message@,
            rtd3_enabled: self.rtd3_enabled,
            rtd3_level: self.rtd3_level,
            force_comp: self.force_comp,
            coolbits_enabled: self.coolbits_enabled,
            coolbits_value: self.coolbits_value,
            spinner_frame: self.spinner_frame as nat,
            gpu_info: match self.gpu_info {
                Some(g) => Some(g@),
                None => None,
            },
            should_quit: self.should_quit,
        }
    }
}

impl AppView {
    /// The mode the cursor rests on.
    pub open spec fn selected(self) -> GraphicsMode {
        mode_at(self.selected_mode_index as int)
    }

    /// The cursor indices and the spinner frame are in bounds.
    pub open spec fn bounds_ok(self) -> bool {
        &&& self.selected_mode_index < MODE_COUNT
        &&& self.selected_option_index < option_count_spec(self.selected())
        &&& self.spinner_frame < SPINNER_FRAME_COUNT
    }

    /// Well-formedness: cursor indices are in bounds, and a pending mode
    /// exists exactly while a switch is being confirmed or executed.
    pub open spec fn inv(self) -> bool {
        &&& self.bounds_ok()
        &&& self.state is ConfirmingSwitch ==> self.pending_mode is Some
        &&& (self.state is Normal || self.state is ConfirmingReboot || self.state is Success
            || self.state is Error) ==> self.pending_mode is None
    }

    /// The state after moving the mode cursor one step down, wrapping at the
    /// end; the option cursor is clamped to the new mode's options.
    pub open spec fn mode_next(self) -> AppView {
        let i = (self.selected_mode_index + 1) % (MODE_COUNT as nat);
        AppView {
            selected_mode_index: i,
            selected_option_index: clamp_option(self.selected_option_index, mode_at(i as int)),
            ..self
        }
    }

    /// The state after moving the mode cursor one step up, wrapping at the
    /// start.
    pub open spec fn mode_prev(self) -> AppView {
        let i = if self.selected_mode_index == 0 {
            (MODE_COUNT - 1) as nat
        } else {
            (self.selected_mode_index - 1) as nat
        };
        AppView {
            selected_mode_index: i,
            selected_option_index: clamp_option(self.selected_option_index, mode_at(i as int)),
            ..self
        }
    }

    /// The state after moving the option cursor one step down, wrapping.
    pub open spec fn option_next(self) -> AppView {
        AppView {
            selected_option_index: (self.selected_option_index + 1) % option_count_spec(
                self.selected(),
            ),
            ..self
        }
    }

    /// The state after moving the option cursor one step up, wrapping.
    pub open spec fn option_prev(self) -> AppView {
        AppView {
            selected_option_index: if self.selected_option_index == 0 {
                (option_count_spec(self.selected()) - 1) as nat
            } else {
                (self.selected_option_index - 1) as nat
            },
            ..self
        }
    }

    /// The state after giving directional focus to the other panel.
    pub open spec fn panel_toggled(self) -> AppView {
        AppView {
            active_panel: match self.active_panel {
                AppPanel::ModeSelection => AppPanel::Options,
                AppPanel::Options => AppPanel::ModeSelection,
            },
            ..self
        }
    }

    /// The state after toggling the option under the cursor. The entries are
    /// mode-dependent: for Hybrid the first flips the RTD3 enable and the
    /// second cycles the RTD3 level; for Nvidia the first flips the forced
    /// composition pipeline and the second flips the coolbits enable;
    /// Integrated has nothing to toggle.
    pub open spec fn option_toggled(self) -> AppView {
        match self.selected() {
            GraphicsMode::Hybrid => {
                if self.selected_option_index == 0 {
                    AppView { rtd3_enabled: !self.rtd3_enabled, ..self }
                } else {
                    AppView { rtd3_level: rtd3_next(self.rtd3_level), ..self }
                }
            },
            GraphicsMode::Nvidia => {
                if self.selected_option_index == 0 {
                    AppView { force_comp: !self.force_comp, ..self }
                } else {
                    AppView { coolbits_enabled: !self.coolbits_enabled, ..self }
                }
            },
            GraphicsMode::Integrated => self,
        }
    }

    /// The state after recording a success: only the lifecycle state and the
    /// message change.
    pub open spec fn with_success(self, msg: Seq<char>) -> AppView {
        AppView { state: AppState::Success, message: msg, ..self }
    }

    /// The state after recording an error: only the lifecycle state and the
    /// message change.
    pub open spec fn with_error(self, msg: Seq<char>) -> AppView {
        AppView { state: AppState::Error, message: msg, ..self }
    }

    /// The state after dispatching work: a busy caption is shown.
    pub open spec fn with_loading(self, msg: Seq<char>) -> AppView {
        AppView { state: AppState::Loading, message: msg, ..self }
    }

    /// The state after returning to normal: the message is cleared.
    pub open spec fn cleared(self) -> AppView {
        AppView { state: AppState::Normal, message: Seq::empty(), ..self }
    }

    /// The state after advancing the busy indicator one frame, wrapping.
    pub open spec fn ticked(self) -> AppView {
        AppView {
            spinner_frame: (self.spinner_frame + 1) % (SPINNER_FRAME_COUNT as nat),
            ..self
        }
    }
}

/// The state an [`App`] is created in: no known mode, nothing pending, all
/// toggles off, RTD3 level fine-grained, coolbits value 28.
pub open spec fn initial_view() -> AppView {
    AppView {
        current_mode: None,
        pending_mode: None,
        selected_mode_index: 0,
        selected_option_index: 0,
        active_panel: AppPanel::ModeSelection,
        state: AppState::Normal,
        message: Seq::empty(),
        rtd3_enabled: false,
        rtd3_level: Rtd3Level::FineGrained,
        force_comp: false,
        coolbits_enabled: false,
        coolbits_value: 28,
        spinner_frame: 0,
        gpu_info: None,
        should_quit: false,
    }
}

/// Number of entries in the option panel for mode `m`.
pub fn option_count(m: GraphicsMode) -> (r: usize)
    ensures
        r == option_count_spec(m),
{
    match m {
        GraphicsMode::Integrated => 1,
        GraphicsMode::Hybrid => 2,
        GraphicsMode::Nvidia => 2,
    }
}

impl App {
    /// A fresh application state with the documented defaults.
    pub fn new() -> (r: App)
        ensures
            r@ == initial_view(),
            r@.inv(),
    {
        let r = App {
            current_mode: None,
            pending_mode: None,
            selected_mode_index: 0,
            selected_option_index: 0,
            active_panel: AppPanel::ModeSelection,
            state: AppState::Normal,
            message: String::new(),
            rtd3_enabled: false,
            rtd3_level: Rtd3Level::FineGrained,
            force_comp: false,
            coolbits_enabled: false,
            coolbits_value: 28,
            spinner_frame: 0,
            gpu_info: None,
            should_quit: false,
        };
        assert(r@ =~= initial_view());
        r
    }

    /// The mode the cursor rests on.
    pub fn selected_mode(&self) -> (r: GraphicsMode)
        requires
            self@.selected_mode_index < MODE_COUNT,
        ensures
            r == self@.selected(),
    {
        let modes = GraphicsMode::all();
        modes[self.selected_mode_index]
    }

    /// Moves the mode cursor one step down, wrapping at the end.
    pub fn next_mode(&mut self)
        requires
            old(self)@.inv(),
        ensures
            final(self)@ == old(self)@.mode_next(),
            final(self)@.inv(),
    {
        let modes = GraphicsMode::all();
        self.selected_mode_index = (self.selected_mode_index + 1) % modes.len();
        self.clamp_option_index();
        assert(self@ =~= old(self)@.mode_next());
    }

    /// Moves the mode cursor one step up, wrapping at the start.
    pub fn previous_mode(&mut self)
        requires
            old(self)@.inv(),
        ensures
            final(self)@ == old(self)@.mode_prev(),
            final(self)@.inv(),
    {
        let modes = GraphicsMode::all();
        self.selected_mode_index = if self.selected_mode_index == 0 {
            modes.len() - 1
        } else {
            self.selected_mode_index - 1
        };
        self.clamp_option_index();
        assert(self@ =~= old(self)@.mode_prev());
    }

    /// Clamps the option cursor to the options of the newly selected mode.
    fn clamp_option_index(&mut self)
        requires
            old(self)@.selected_mode_index < MODE_COUNT,
        ensures
            final(self)@ == (AppView {
                selected_option_index: clamp_option(
                    old(self)@.selected_option_index,
                    old(self)@.selected(),
                ),
                ..old(self)@
            }),
    {
        let count = option_count(self.selected_mode());
        if self.selected_option_index >= count {
            self.selected_option_index = count - 1;
        }
        assert(self@ =~= (AppView {
            selected_option_index: clamp_option(
                old(self)@.selected_option_index,
                old(self)@.selected(),
            ),
            ..old(self)@
        }));
    }

    /// Moves the option cursor one step down, wrapping.
    pub fn next_option(&mut self)
        requires
            old(self)@.inv(),
        ensures
            final(self)@ == old(self)@.option_next(),
            final(self)@.inv(),
    {
        let count = option_count(self.selected_mode());
        self.selected_option_index = (self.selected_option_index + 1) % count;
        assert(self@ =~= old(self)@.option_next());
    }

    /// Moves the option cursor one step up, wrapping.
    pub fn previous_option(&mut self)
        requires
            old(self)@.inv(),
        ensures
            final(self)@ == old(self)@.option_prev(),
            final(self)@.inv(),
    {
        let count = option_count(self.selected_mode());
        self.selected_option_index = if self.selected_option_index == 0 {
            count - 1
        } else {
            self.selected_option_index - 1
        };
        assert(self@ =~= old(self)@.option_prev());
    }

    /// Gives directional focus to the other panel.
    pub fn toggle_panel(&mut self)
        requires
            old(self)@.inv(),
        ensures
            final(self)@ == old(self)@.panel_toggled(),
            final(self)@.inv(),
    {
        self.active_panel = match self.active_panel {
            AppPanel::ModeSelection => AppPanel::Options,
            AppPanel::Options => AppPanel::ModeSelection,
        };
        assert(self@ =~= old(self)@.panel_toggled());
    }

    /// Toggles the option under the cursor; see [`AppView::option_toggled`]
    /// for the mode-dependent meaning of each entry.
    pub fn toggle_current_option(&mut self)
        requires
            old(self)@.inv(),
        ensures
            final(self)@ == old(self)@.option_toggled(),
            final(self)@.inv(),
    {
        match self.selected_mode() {
            GraphicsMode::Hybrid => {
                if self.selected_option_index == 0 {
                    self.rtd3_enabled = !self.rtd3_enabled;
                } else {
                    self.rtd3_level = self.rtd3_level.next();
                }
            },
            GraphicsMode::Nvidia => {
                if self.selected_option_index == 0 {
                    self.force_comp = !self.force_comp;
                } else {
                    self.coolbits_enabled = !self.coolbits_enabled;
                }
            },
            GraphicsMode::Integrated => {},
        }
        assert(self@ =~= old(self)@.option_toggled());
    }

    /// Records a success with the given message.
    pub fn set_success(&mut self, msg: &str)
        requires
            old(self)@.bounds_ok(),
            old(self)@.pending_mode is None,
        ensures
            final(self)@ == old(self)@.with_success(msg@),
            final(self)@.inv(),
    {
        self.state = AppState::Success;
        self.message = msg.to_owned();
        assert(self@ =~= old(self)@.with_success(msg@));
    }

    /// Records an error with the given message.
    pub fn set_error(&mut self, msg: &str)
        requires
            old(self)@.bounds_ok(),
            old(self)@.pending_mode is None,
        ensures
            final(self)@ == old(self)@.with_error(msg@),
            final(self)@.inv(),
    {
        self.state = AppState::Error;
        self.message = msg.to_owned();
        assert(self@ =~= old(self)@.with_error(msg@));
    }

    /// Shows a busy caption while work is in flight.
    pub fn set_loading(&mut self, msg: &str)
        requires
            old(self)@.bounds_ok(),
        ensures
            final(self)@ == old(self)@.with_loading(msg@),
            final(self)@.inv(),
    {
        self.state = AppState::Loading;
        self.message = msg.to_owned();
        assert(self@ =~= old(self)@.with_loading(msg@));
    }

    /// Returns to the normal state and clears the message.
    pub fn clear_message(&mut self)
        requires
            old(self)@.bounds_ok(),
            old(self)@.pending_mode is None,
        ensures
            final(self)@ == old(self)@.cleared(),
            final(self)@.inv(),
    {
        self.state = AppState::Normal;
        self.message = String::new();
        assert(self@ =~= old(self)@.cleared());
    }

    /// Advances the busy indicator one frame, wrapping.
    pub fn tick_spinner(&mut self)
        requires
            old(self)@.inv(),
        ensures
            final(self)@ == old(self)@.ticked(),
            final(self)@.inv(),
    {
        self.spinner_frame = (self.spinner_frame + 1) % SPINNER_FRAME_COUNT;
        assert(self@ =~= old(self)@.ticked());
    }
}

/// A key press, reduced to the distinctions the dispatcher makes. The binary
/// maps raw terminal events onto this.
#[derive(Debug, Clone, Copy, PartialEq, Eq, Structural)]
pub enum Key {
    Char(char),
    Enter,
    Esc,
    Tab,
    Up,
    Down,
    CtrlC,
    Other,
}

/// What the caller has to carry out after a key was dispatched. Starting work
/// and rebooting involve processes, so the engine only requests them.
#[derive(Debug, Clone, Copy, PartialEq, Eq, Structural)]
pub enum Action {
    /// Nothing to do beyond the state change.
    Noop,
    /// Run the switch invocation for this request on a worker and poll for
    /// its result.
    StartSwitch(SwitchOptions),
    /// Run the reset invocation on a worker and poll for its result.
    StartReset,
    /// Issue the system reboot request.
    RequestReboot,
}

/// A non-blocking look at the one-shot channel a worker reports through.
#[derive(Debug)]
pub enum WorkerStatus {
    /// No result yet; the worker is still running.
    Pending,
    /// The worker finished and sent its outcome.
    Delivered(Result<String, ToolError>),
    /// The channel was severed without a result.
    Disconnected,
}

/// Keys that answer a confirmation prompt with yes.
pub open spec fn is_confirm_key(k: Key) -> bool {
    k == Key::Char('y') || k == Key::Char('s') || k == Key::Enter
}

/// Keys that answer a confirmation prompt with no.
pub open spec fn is_decline_key(k: Key) -> bool {
    k == Key::Char('n') || k == Key::Esc
}

/// Keys that quit the application from the normal state.
pub open spec fn is_quit_key(k: Key) -> bool {
    k == Key::Char('q') || k == Key::Esc || k == Key::CtrlC
}

/// Whether `k` answers a confirmation prompt with yes.
pub fn confirms(k: Key) -> (r: bool)
    ensures
        r == is_confirm_key(k),
{
    match k {
        Key::Char(c) => c == 'y' || c == 's',
        Key::Enter => true,
        _ => false,
    }
}

/// Whether `k` answers a confirmation prompt with no.
pub fn declines(k: Key) -> (r: bool)
    ensures
        r == is_decline_key(k),
{
    match k {
        Key::Char(c) => c == 'n',
        Key::Esc => true,
        _ => false,
    }
}

/// Whether `k` quits the application from the normal state.
pub fn quits(k: Key) -> (r: bool)
    ensures
        r == is_quit_key(k),
{
    match k {
        Key::Char(c) => c == 'q',
        Key::Esc => true,
        Key::CtrlC => true,
        _ => false,
    }
}

/// The confirmation prompt shown before a switch.
pub open spec fn switch_prompt(m: GraphicsMode) -> Seq<char> {
    "Switch to "@ + mode_name_spec(m) + " mode? (y/n)"@
}

/// The prompt shown once a switch has succeeded.
pub open spec fn reboot_prompt() -> Seq<char> {
    "Mode changed successfully! Do you want to reboot now?"@
}

/// The message shown when the user declines the reboot.
pub open spec fn applied_message() -> Seq<char> {
    "Changes applied. Reboot the computer for changes to take effect."@
}

/// The busy caption while a switch is in flight.
pub open spec fn applying_caption() -> Seq<char> {
    "Applying changes..."@
}

/// The busy caption while a reset is in flight.
pub open spec fn resetting_caption() -> Seq<char> {
    "Resetting..."@
}

/// The standing error shown when the tool is absent at startup.
pub open spec fn missing_tool_message() -> Seq<char> {
    "envycontrol is not installed. Please install it first."@
}

/// The prefix of the error shown when the startup query fails.
pub open spec fn query_error_prefix() -> Seq<char> {
    "Failed to query mode: "@
}

/// The switch request carrying mode `m` and the option fields of `a`.
pub open spec fn request_of(a: AppView, m: GraphicsMode) -> SwitchOptions {
    SwitchOptions {
        mode: m,
        rtd3_enabled: a.rtd3_enabled,
        rtd3_level: a.rtd3_level,
        force_comp: a.force_comp,
        coolbits_enabled: a.coolbits_enabled,
        coolbits_value: a.coolbits_value,
    }
}

impl AppView {
    /// The mode a confirmed switch applies: the pending one, or the selection
    /// as a fallback.
    pub open spec fn mode_to_apply(self) -> GraphicsMode {
        match self.pending_mode {
            Some(m) => m,
            None => self.selected(),
        }
    }

    /// One step of the dispatch policy in the normal state: navigation,
    /// panel and option toggles, committing a selection, reset, quit.
    pub open spec fn normal_step(self, k: Key) -> AppView {
        if is_quit_key(k) {
            AppView { should_quit: true, ..self }
        } else if k == Key::Tab {
            self.panel_toggled()
        } else if k == Key::Up || k == Key::Char('k') {
            if self.active_panel is ModeSelection {
                self.mode_prev()
            } else {
                self.option_prev()
            }
        } else if k == Key::Down || k == Key::Char('j') {
            if self.active_panel is ModeSelection {
                self.mode_next()
            } else {
                self.option_next()
            }
        } else if k == Key::Char(' ') {
            if self.active_panel is Options {
                self.option_toggled()
            } else {
                self
            }
        } else if k == Key::Enter {
            AppView {
                pending_mode: Some(self.selected()),
                state: AppState::ConfirmingSwitch,
                message: switch_prompt(self.selected()),
                ..self
            }
        } else if k == Key::Char('r') {
            self.with_loading(resetting_caption())
        } else {
            self
        }
    }

    /// One step of the full dispatch policy: while a confirmation is shown
    /// only the confirm/decline pair acts; a result modal returns to normal
    /// on any key; only the normal state navigates, commits, resets or
    /// quits. No key is read while loading, so that state ignores keys.
    pub open spec fn key_step(self, k: Key) -> AppView {
        match self.state {
            AppState::ConfirmingSwitch => {
                if is_confirm_key(k) {
                    self.with_loading(applying_caption())
                } else if is_decline_key(k) {
                    AppView { pending_mode: None, ..self }.cleared()
                } else {
                    self
                }
            },
            AppState::ConfirmingReboot => {
                if is_decline_key(k) {
                    self.with_success(applied_message())
                } else {
                    self
                }
            },
            AppState::Success => self.cleared(),
            AppState::Error => self.cleared(),
            AppState::Loading => self,
            AppState::Normal => self.normal_step(k),
        }
    }

    /// The work a key step asks of the caller.
    pub open spec fn key_action(self, k: Key) -> Action {
        match self.state {
            AppState::ConfirmingSwitch => {
                if is_confirm_key(k) {
                    Action::StartSwitch(request_of(self, self.mode_to_apply()))
                } else {
                    Action::Noop
                }
            },
            AppState::ConfirmingReboot => {
                if is_confirm_key(k) {
                    Action::RequestReboot
                } else {
                    Action::Noop
                }
            },
            AppState::Normal => {
                if k == Key::Char('r') {
                    Action::StartReset
                } else {
                    Action::Noop
                }
            },
            _ => Action::Noop,
        }
    }

    /// The state after a switch to `mode` succeeded: the new mode is
    /// committed, nothing is pending any more, and the reboot prompt shows.
    pub open spec fn switch_succeeded(self, mode: GraphicsMode) -> AppView {
        AppView {
            current_mode: Some(mode),
            pending_mode: None,
            state: AppState::ConfirmingReboot,
            message: reboot_prompt(),
            ..self
        }
    }

    /// The state after a switch failed: nothing is pending any more, the
    /// known mode is untouched, and the failure text shows.
    pub open spec fn switch_failed(self, err: Seq<char>) -> AppView {
        AppView { pending_mode: None, ..self }.with_error(err)
    }

    /// The state after a reset succeeded: the known mode becomes unknown.
    pub open spec fn reset_succeeded(self, msg: Seq<char>) -> AppView {
        AppView { current_mode: None, ..self }.with_success(msg)
    }
}

impl App {
    /// Dispatches one key press according to the current modal state and
    /// returns what the caller must carry out.
    pub fn handle_key(&mut self, key: Key) -> (action: Action)
        requires
            old(self)@.inv(),
        ensures
            final(self)@ == old(self)@.key_step(key),
            action == old(self)@.key_action(key),
            final(self)@.inv(),
    {
        match self.state {
            AppState::ConfirmingSwitch => {
                if confirms(key) {
                    let mode = match self.pending_mode {
                        Some(m) => m,
                        None => self.selected_mode(),
                    };
                    let request = SwitchOptions {
                        mode,
                        rtd3_enabled: self.rtd3_enabled,
                        rtd3_level: self.rtd3_level,
                        force_comp: self.force_comp,
                        coolbits_enabled: self.coolbits_enabled,
                        coolbits_value: self.coolbits_value,
                    };
                    self.set_loading("Applying changes...");
                    assert(self@ =~= old(self)@.key_step(key));
                    Action::StartSwitch(request)
                } else if declines(key) {
                    self.pending_mode = None;
                    self.clear_message();
                    assert(self@ =~= old(self)@.key_step(key));
                    Action::Noop
                } else {
                    Action::Noop
                }
            },
            AppState::ConfirmingReboot => {
                if confirms(key) {
                    Action::RequestReboot
                } else if declines(key) {
                    self.set_success(
                        "Changes applied. Reboot the computer for changes to take effect.",
                    );
                    assert(self@ =~= old(self)@.key_step(key));
                    Action::Noop
                } else {
                    Action::Noop
                }
            },
            AppState::Success => {
                self.clear_message();
                Action::Noop
            },
            AppState::Error => {
                self.clear_message();
                Action::Noop
            },
            AppState::Loading => Action::Noop,
            AppState::Normal => {
                if quits(key) {
                    self.should_quit = true;
                    assert(self@ =~= old(self)@.key_step(key));
                    Action::Noop
                } else {
                    match key {
                        Key::Tab => {
                            self.toggle_panel();
                            Action::Noop
                        },
                        Key::Up | Key::Char('k') => {
                            match self.active_panel {
                                AppPanel::ModeSelection => self.previous_mode(),
                                AppPanel::Options => self.previous_option(),
                            }
                            Action::Noop
                        },
                        Key::Down | Key::Char('j') => {
                            match self.active_panel {
                                AppPanel::ModeSelection => self.next_mode(),
                                AppPanel::Options => self.next_option(),
                            }
                            Action::Noop
                        },
                        Key::Char(' ') => {
                            if matches!(self.active_panel, AppPanel::Options) {
                                self.toggle_current_option();
                            }
                            Action::Noop
                        },
                        Key::Enter => {
                            let selected = self.selected_mode();
                            self.pending_mode = Some(selected);
                            self.state = AppState::ConfirmingSwitch;
                            self.message = switch_prompt_string(selected);
                            assert(self@ =~= old(self)@.key_step(key));
                            Action::Noop
                        },
                        Key::Char('r') => {
                            self.set_loading("Resetting...");
                            assert(self@ =~= old(self)@.key_step(key));
                            Action::StartReset
                        },
                        _ => Action::Noop,
                    }
                }
            },
        }
    }

    /// Applies one poll of the switch worker: advances the busy indicator
    /// while nothing arrived, commits the outcome once it did, and turns a
    /// severed channel into a generic error. Returns whether the polling
    /// sub-loop is over.
    pub fn poll_switch(&mut self, mode: GraphicsMode, status: WorkerStatus) -> (done: bool)
        requires
            old(self)@.inv(),
        ensures
            final(self)@.inv(),
            (match status {
                WorkerStatus::Pending => final(self)@ == old(self)@.ticked() && !done,
                WorkerStatus::Delivered(outcome) => done && (match outcome {
                    Ok(_) => final(self)@ == old(self)@.switch_succeeded(mode),
                    Err(e) => final(self)@ == old(self)@.switch_failed(tool_error_text(e)),
                }),
                WorkerStatus::Disconnected => done && final(self)@ == old(self)@.switch_failed(
                    tool_error_text(ToolError::WorkerDisconnected),
                ),
            }),
    {
        match status {
            WorkerStatus::Pending => {
                self.tick_spinner();
                false
            },
            WorkerStatus::Delivered(outcome) => {
                match outcome {
                    Ok(_) => {
                        self.current_mode = Some(mode);
                        self.pending_mode = None;
                        self.state = AppState::ConfirmingReboot;
                        self.message = String::from_str(
                            "Mode changed successfully! Do you want to reboot now?",
                        );
                        assert(self@ =~= old(self)@.switch_succeeded(mode));
                    },
                    Err(e) => {
                        self.pending_mode = None;
                        let msg = e.message();
                        self.set_error(msg.as_str());
                        assert(self@ =~= old(self)@.switch_failed(tool_error_text(e)));
                    },
                }
                true
            },
            WorkerStatus::Disconnected => {
                self.pending_mode = None;
                self.set_error("Command failed unexpectedly");
                assert(self@ =~= old(self)@.switch_failed(
                    tool_error_text(ToolError::WorkerDisconnected),
                ));
                true
            },
        }
    }

    /// Applies one poll of the reset worker; as [`App::poll_switch`], except
    /// that success makes the current mode unknown rather than setting it.
    pub fn poll_reset(&mut self, status: WorkerStatus) -> (done: bool)
        requires
            old(self)@.inv(),
            old(self)@.pending_mode is None,
        ensures
            final(self)@.inv(),
            (match status {
                WorkerStatus::Pending => final(self)@ == old(self)@.ticked() && !done,
                WorkerStatus::Delivered(outcome) => done && (match outcome {
                    Ok(msg) => final(self)@ == old(self)@.reset_succeeded(msg@),
                    Err(e) => final(self)@ == old(self)@.with_error(tool_error_text(e)),
                }),
                WorkerStatus::Disconnected => done && final(self)@ == old(self)@.with_error(
                    tool_error_text(ToolError::WorkerDisconnected),
                ),
            }),
    {
        match status {
            WorkerStatus::Pending => {
                self.tick_spinner();
                false
            },
            WorkerStatus::Delivered(outcome) => {
                match outcome {
                    Ok(msg) => {
                        self.current_mode = None;
                        self.set_success(msg.as_str());
                        assert(self@ =~= old(self)@.reset_succeeded(msg@));
                    },
                    Err(e) => {
                        let msg = e.message();
                        self.set_error(msg.as_str());
                    },
                }
                true
            },
            WorkerStatus::Disconnected => {
                self.set_error("Command failed unexpectedly");
                true
            },
        }
    }

    /// Records the startup presence probe. When the tool is absent, a
    /// standing error banner is set and no query must be attempted; the
    /// result says whether to query.
    pub fn startup(&mut self, installed: bool) -> (need_query: bool)
        requires
            old(self)@.inv(),
            old(self)@.pending_mode is None,
        ensures
            final(self)@.inv(),
            need_query == installed,
            installed ==> final(self)@ == old(self)@,
            !installed ==> final(self)@ == old(self)@.with_error(missing_tool_message()),
    {
        if !installed {
            self.set_error("envycontrol is not installed. Please install it first.");
        }
        installed
    }

    /// Applies the startup query's outcome: a parsed mode (or none) becomes
    /// the known mode; a failed query leaves the mode unknown; only a missing
    /// tool is surfaced as an error. Returns whether telemetry is worth
    /// querying (the known mode is anything but Integrated).
    pub fn apply_query_result(&mut self, result: Result<Option<GraphicsMode>, ToolError>) -> (want_telemetry:
        bool)
        requires
            old(self)@.inv(),
            old(self)@.pending_mode is None,
        ensures
            final(self)@.inv(),
            (match result {
                Ok(m) => final(self)@ == (AppView { current_mode: m, ..old(self)@ })
                    && want_telemetry == (m != Some(GraphicsMode::Integrated)),
                Err(ToolError::QueryFailed) => final(self)@ == (AppView {
                    current_mode: None,
                    ..old(self)@
                }) && !want_telemetry,
                Err(e) => final(self)@ == old(self)@.with_error(
                    query_error_prefix() + tool_error_text(e),
                ) && !want_telemetry,
            }),
    {
        match result {
            Ok(m) => {
                self.current_mode = m;
                assert(self@ =~= (AppView { current_mode: m, ..old(self)@ }));
                match m {
                    Some(GraphicsMode::Integrated) => false,
                    _ => true,
                }
            },
            Err(ToolError::QueryFailed) => {
                self.current_mode = None;
                assert(self@ =~= (AppView { current_mode: None, ..old(self)@ }));
                false
            },
            Err(e) => {
                let msg = String::from_str("Failed to query mode: ").concat(
                    e.message().as_str(),
                );
                self.set_error(msg.as_str());
                assert(self@ =~= old(self)@.with_error(query_error_prefix() + tool_error_text(e)));
                false
            },
        }
    }

    /// Stores the telemetry the binary read, if any.
    pub fn set_gpu_info(&mut self, info: Option<GpuInfo>)
        requires
            old(self)@.inv(),
        ensures
            final(self)@ == (AppView { gpu_info: gpu_info_view(info), ..old(self)@ }),
            final(self)@.inv(),
    {
        let ghost v = gpu_info_view(info);
        self.gpu_info = info;
        assert(self@ =~= (AppView { gpu_info: v, ..old(self)@ }));
    }

    /// Surfaces a boundary failure (such as a reboot request that could not
    /// be issued) as the error modal.
    pub fn fail(&mut self, e: &ToolError)
        requires
            old(self)@.inv(),
            old(self)@.pending_mode is None,
        ensures
            final(self)@ == old(self)@.with_error(tool_error_text(*e)),
            final(self)@.inv(),
    {
        let msg = e.message();
        self.set_error(msg.as_str());
    }
}

/// The confirmation prompt shown before a switch to `m`.
pub fn switch_prompt_string(m: GraphicsMode) -> (r: String)
    ensures
        r@ == switch_prompt(m),
{
    String::from_str("Switch to ").concat(m.name()).concat(" mode? (y/n)")
}

/// One entry of the option panel: what it is called, what it does, whether it
/// is on, and whether toggling it is currently meaningful.
pub struct OptionEntry {
    pub label: String,
    pub description: String,
    pub on: bool,
    pub toggleable: bool,
}

/// Abstract value of an [`OptionEntry`].
#[verifier::ext_equal]
pub struct OptionEntryView {
    pub label: Seq<char>,
    pub description: Seq<char>,
    pub on: bool,
    pub toggleable: bool,
}

impl View for OptionEntry {
    type V = OptionEntryView;

    open spec fn view(&self) -> OptionEntryView {
        OptionEntryView {
            label: self.label@,
            description: self.description@,
            on: self.on,
            toggleable: self.toggleable,
        }
    }
}

/// The abstract values of a sequence of option entries.
pub open spec fn entry_views(v: Seq<OptionEntry>) -> Seq<OptionEntryView> {
    v.map_values(|e: OptionEntry| e@)
}

/// The option entries shown for the selected mode. The same index carries a
/// different setting per mode, and the RTD3 level entry is marked meaningful
/// only while RTD3 is enabled.
pub open spec fn option_entries_spec(a: AppView) -> Seq<OptionEntryView> {
    match mode_at(a.selected_mode_index as int) {
        GraphicsMode::Hybrid => seq![
            OptionEntryView {
                label: "RTD3 Power Management"@,
                description: "Enables Runtime D3 (RTD3) power management for the dGPU. Allows GPU to enter low-power state when idle."@,
                on: a.rtd3_enabled,
                toggleable: true,
            },
            OptionEntryView {
                label: "RTD3 Level: "@ + rtd3_label_spec(a.rtd3_level),
                description: "Controls RTD3 aggressiveness. Higher levels save more power but may cause latency on GPU wake."@,
                on: false,
                toggleable: a.rtd3_enabled,
            },
        ],
        GraphicsMode::Nvidia => seq![
            OptionEntryView {
                label: "Force Composition Pipeline"@,
                description: "Forces full composition pipeline. Fixes screen tearing but may reduce performance slightly."@,
                on: a.force_comp,
                toggleable: true,
            },
            OptionEntryView {
                label: "Coolbits (value: "@ + dec_spec(a.coolbits_value as nat) + ")"@,
                description: "Enables advanced GPU features like overclocking, fan control, and voltage adjustment."@,
                on: a.coolbits_enabled,
                toggleable: true,
            },
        ],
        GraphicsMode::Integrated => seq![
            OptionEntryView {
                label: "No additional options available"@,
                description: "Integrated mode uses only the iGPU. The dGPU is powered off to save battery."@,
                on: false,
                toggleable: false,
            },
        ],
    }
}

impl App {
    /// The option entries shown for the selected mode, in cursor order; see
    /// [`option_entries_spec`].
    pub fn option_entries(&self) -> (r: Vec<OptionEntry>)
        requires
            self@.inv(),
        ensures
            entry_views(r@) == option_entries_spec(self@),
            r@.len() == option_count_spec(self@.selected()),
    {
        let mut r: Vec<OptionEntry> = Vec::new();
        match self.selected_mode() {
            GraphicsMode::Hybrid => {
                r.push(OptionEntry {
                    label: String::from_str("RTD3 Power Management"),
                    description: String::from_str(
                        "Enables Runtime D3 (RTD3) power management for the dGPU. Allows GPU to enter low-power state when idle.",
                    ),
                    on: self.rtd3_enabled,
                    toggleable: true,
                });
                r.push(OptionEntry {
                    label: String::from_str("RTD3 Level: ").concat(self.rtd3_level.label()),
                    description: String::from_str(
                        "Controls RTD3 aggressiveness. Higher levels save more power but may cause latency on GPU wake.",
                    ),
                    on: false,
                    toggleable: self.rtd3_enabled,
                });
            },
            GraphicsMode::Nvidia => {
                r.push(OptionEntry {
                    label: String::from_str("Force Composition Pipeline"),
                    description: String::from_str(
                        "Forces full composition pipeline. Fixes screen tearing but may reduce performance slightly.",
                    ),
                    on: self.force_comp,
                    toggleable: true,
                });
                r.push(OptionEntry {
                    label: String::from_str("Coolbits (value: ").concat(
                        crate::text::u8_decimal(self.coolbits_value).as_str(),
                    ).concat(")"),
                    description: String::from_str(
                        "Enables advanced GPU features like overclocking, fan control, and voltage adjustment.",
                    ),
                    on: self.coolbits_enabled,
                    toggleable: true,
                });
            },
            GraphicsMode::Integrated => {
                r.push(OptionEntry {
                    label: String::from_str("No additional options available"),
                    description: String::from_str(
                        "Integrated mode uses only the iGPU. The dGPU is powered off to save battery.",
                    ),
                    on: false,
                    toggleable: false,
                });
            },
        }
        assert(entry_views(r@) =~= option_entries_spec(self@));
        r
    }
}

// What follows states the engine's laws once, over the same spec functions
// the executable functions are specified with, so that they hold of every
// reachable state and not merely of tested ones.

/// Law: however the mode cursor is moved, it stays within the mode
/// collection's bounds, and it wraps exactly at them: stepping back from the
/// first index yields the last, and stepping forward from the last yields the
/// first. Bounds are preserved by every step, so they hold for any sequence
/// of steps.
pub proof fn lemma_mode_navigation_wraps(a: AppView)
    requires
        a.inv(),
    ensures
        a.mode_next().inv(),
        a.mode_prev().inv(),
        a.mode_next().selected_mode_index < MODE_COUNT,
        a.mode_prev().selected_mode_index < MODE_COUNT,
        a.selected_mode_index == 0 ==> a.mode_prev().selected_mode_index == MODE_COUNT - 1,
        a.selected_mode_index == MODE_COUNT - 1 ==> a.mode_next().selected_mode_index == 0,
        a.selected_mode_index < MODE_COUNT - 1 ==> a.mode_next().selected_mode_index
            == a.selected_mode_index + 1,
        a.selected_mode_index > 0 ==> a.mode_prev().selected_mode_index == a.selected_mode_index
            - 1,
{
}

/// The state after a sequence of mode-cursor steps, each one forward
/// (`true`) or backward (`false`).
pub open spec fn nav_fold(a: AppView, steps: Seq<bool>) -> AppView
    decreases steps.len(),
{
    if steps.len() == 0 {
        a
    } else if steps[0] {
        nav_fold(a.mode_next(), steps.skip(1))
    } else {
        nav_fold(a.mode_prev(), steps.skip(1))
    }
}

/// Law: after any sequence of next/previous steps, however long and in
/// whatever order, the mode cursor is still within the mode collection's
/// bounds.
pub proof fn lemma_navigation_sequence_in_bounds(a: AppView, steps: Seq<bool>)
    requires
        a.inv(),
    ensures
        nav_fold(a, steps).inv(),
        nav_fold(a, steps).selected_mode_index < MODE_COUNT,
    decreases steps.len(),
{
    if steps.len() > 0 {
        if steps[0] {
            lemma_navigation_sequence_in_bounds(a.mode_next(), steps.skip(1));
        } else {
            lemma_navigation_sequence_in_bounds(a.mode_prev(), steps.skip(1));
        }
    }
}

/// Law: toggling the first option entry flips exactly one boolean — the
/// selected mode's primary enable flag — and leaves every other field
/// unchanged. Integrated has no toggleable entry, so it is left out: there
/// the toggle changes nothing at all.
pub proof fn lemma_toggle_first_option_flips_one(a: AppView)
    requires
        a.selected_option_index == 0,
        a.selected() is Hybrid || a.selected() is Nvidia,
    ensures
        a.selected() is Hybrid ==> a.option_toggled() == (AppView {
            rtd3_enabled: !a.rtd3_enabled,
            ..a
        }),
        a.selected() is Nvidia ==> a.option_toggled() == (AppView { force_comp: !a.force_comp, ..a }),
{
}

/// Law: committing a selection enters the confirming state with the pending
/// mode taken from the cursor — never from the previously known mode, unless
/// the two coincide.
pub proof fn lemma_commit_pends_selected(a: AppView)
    requires
        a.inv(),
        a.state is Normal,
    ensures
        a.key_step(Key::Enter).state is ConfirmingSwitch,
        a.key_step(Key::Enter).pending_mode == Some(a.selected()),
        a.current_mode != Some(a.selected()) ==> a.key_step(Key::Enter).pending_mode
            != a.current_mode,
{
}

/// Law: a successful switch result moves to confirming the reboot, commits
/// the switched-to mode and clears the pending one; a failed switch result
/// moves to the error state, clears the pending mode, and leaves the known
/// mode untouched.
pub proof fn lemma_switch_result(a: AppView, m: GraphicsMode, err: Seq<char>)
    ensures
        a.switch_succeeded(m).state is ConfirmingReboot,
        a.switch_succeeded(m).current_mode == Some(m),
        a.switch_succeeded(m).pending_mode is None,
        a.switch_failed(err).state is Error,
        a.switch_failed(err).pending_mode is None,
        a.switch_failed(err).current_mode == a.current_mode,
        a.switch_failed(err).message == err,
{
}

/// Law: from the success or error modal, any key whatever returns to the
/// normal state with an empty message, changes nothing else, and requests no
/// work.
pub proof fn lemma_result_modal_dismissed(a: AppView, k: Key)
    requires
        a.state is Success || a.state is Error,
    ensures
        a.key_step(k) == (AppView {
            state: AppState::Normal,
            message: Seq::<char>::empty(),
            ..a
        }),
        a.key_action(k) == Action::Noop,
{
}

/// Law: while a switch or a reboot is being confirmed, every key outside the
/// confirm/decline pair changes nothing and requests nothing — in particular
/// navigation and quit keys are inert, so no second privileged operation can
/// start and the application cannot be left while one is pending.
pub proof fn lemma_modal_lock(a: AppView, k: Key)
    requires
        a.state is ConfirmingSwitch || a.state is ConfirmingReboot,
        !is_confirm_key(k),
        !is_decline_key(k),
    ensures
        a.key_step(k) == a,
        a.key_action(k) == Action::Noop,
{
}

} // verus!
