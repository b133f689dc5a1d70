//! Adapter logic for the external privileged tool: argument building, output
//! parsing, and the error taxonomy. Everything here is pure computation on
//! plain values; running the processes themselves is the binary's job.

use vstd::prelude::*;
use vstd::string::StringExecFns;

use crate::app::{mode_name_spec, rtd3_value_spec, GraphicsMode, Rtd3Level};
use crate::text::{
    contains_spec, contains_str, dec_spec, join_spaced, join_spaces, split_commas, split_commas_str,
    trim_spec, trim_str, u8_decimal, views_of,
};

verus! {

/// Everything that can go wrong at the external-tool boundary. All failures
/// are values: none of them may abort the interactive loop.
#[derive(Debug)]
pub enum ToolError {
    /// The tool's executable is absent.
    NotInstalled,
    /// The query ran and failed for another reason; treated as "mode
    /// unknown", never surfaced as an error.
    QueryFailed,
    /// The switch invocation ran and returned failure; carries its error
    /// output.
    SwitchFailed(String),
    /// The reset invocation ran and returned failure; carries its error
    /// output.
    ResetFailed(String),
    /// The reboot request could not even be issued; carries the spawn error
    /// text.
    RebootFailed(String),
    /// The worker's channel was severed before any result arrived.
    WorkerDisconnected,
}

/// The user-facing text of each error.
pub open spec fn tool_error_text(e: ToolError) -> Seq<char> {
    match e {
        ToolError::NotInstalled => "envycontrol not installed"@,
        ToolError::QueryFailed => "could not query the current mode"@,
        ToolError::SwitchFailed(s) => "Failed to switch mode: "@ + s@,
        ToolError::ResetFailed(s) => "Failed to reset: "@ + s@,
        ToolError::RebootFailed(s) => "Failed to reboot: "@ + s@,
        ToolError::WorkerDisconnected => "Command failed unexpectedly"@,
    }
}

impl ToolError {
    /// The user-facing text of this error.
    pub fn message(&self) -> (r: String)
        ensures
            r@ == tool_error_text(*self),
    {
        match self {
            ToolError::NotInstalled => String::from_str("envycontrol not installed"),
            ToolError::QueryFailed => String::from_str("could not query the current mode"),
            ToolError::SwitchFailed(s) => String::from_str("Failed to switch mode: ").concat(
                s.as_str(),
            ),
            ToolError::ResetFailed(s) => String::from_str("Failed to reset: ").concat(s.as_str()),
            ToolError::RebootFailed(s) => String::from_str("Failed to reboot: ").concat(s.as_str()),
            ToolError::WorkerDisconnected => String::from_str("Command failed unexpectedly"),
        }
    }
}

/// A snapshot of everything a switch invocation depends on. The worker thread
/// owns a copy of it; it never touches the application state.
#[derive(Debug, Clone, Copy, PartialEq, Eq, Structural)]
pub struct SwitchOptions {
    pub mode: GraphicsMode,
    pub rtd3_enabled: bool,
    pub rtd3_level: Rtd3Level,
    pub force_comp: bool,
    pub coolbits_enabled: bool,
    pub coolbits_value: u8,
}

/// Best-effort GPU telemetry, parsed from the telemetry tool's output.
#[derive(Debug, Clone)]
pub struct GpuInfo {
    pub name: String,
    pub temperature: String,
    pub memory_used: String,
    pub memory_total: String,
}

/// Abstract value of [`GpuInfo`]: its four fields as character sequences.
pub struct GpuInfoView {
    pub name: Seq<char>,
    pub temperature: Seq<char>,
    pub memory_used: Seq<char>,
    pub memory_total: Seq<char>,
}

impl View for GpuInfo {
    type V = GpuInfoView;

    open spec fn view(&self) -> GpuInfoView {
        GpuInfoView {
            name: self.name@,
            temperature: self.temperature@,
            memory_used: self.memory_used@,
            memory_total: self.memory_total@,
        }
    }
}

/// The abstract value of an optional telemetry record.
pub open spec fn gpu_info_view(i: Option<GpuInfo>) -> Option<GpuInfoView> {
    match i {
        Some(g) => Some(g@),
        None => None,
    }
}

impl GpuInfo {
    /// The memory line shown in the header: used and total, in MiB.
    pub fn memory_display(&self) -> (r: String)
        ensures
            r@ == self.memory_used@ + " / "@ + self.memory_total@ + " MiB"@,
    {
        self.memory_used.clone().concat(" / ").concat(self.memory_total.as_str()).concat(" MiB")
    }
}

/// The argument list of a switch invocation: the mode, then the RTD3 level
/// only when the mode is Hybrid and RTD3 is enabled, then the forced
/// composition pipeline and/or coolbits flags only when the mode is Nvidia,
/// then the verbosity flag.
pub open spec fn switch_args_spec(o: SwitchOptions) -> Seq<Seq<char>> {
    let base = seq!["-s"@, mode_name_spec(o.mode)];
    let with_options = if o.mode is Hybrid && o.rtd3_enabled {
        base + seq!["--rtd3"@, dec_spec(rtd3_value_spec(o.rtd3_level) as nat)]
    } else if o.mode is Nvidia {
        (if o.force_comp {
            base.push("--force-comp"@)
        } else {
            base
        }) + (if o.coolbits_enabled {
            seq!["--coolbits"@, dec_spec(o.coolbits_value as nat)]
        } else {
            Seq::<Seq<char>>::empty()
        })
    } else {
        base
    };
    with_options.push("--verbose"@)
}

/// Builds the argument list of a switch invocation; see
/// [`switch_args_spec`] for when each flag is appended.
pub fn build_switch_args(options: &SwitchOptions) -> (args: Vec<String>)
    ensures
        views_of(args@) == switch_args_spec(*options),
{
    let mut args: Vec<String> = Vec::new();
    args.push(String::from_str("-s"));
    args.push(String::from_str(options.mode.name()));
    match options.mode {
        GraphicsMode::Hybrid => {
            if options.rtd3_enabled {
                args.push(String::from_str("--rtd3"));
                args.push(u8_decimal(options.rtd3_level.value()));
            }
        },
        GraphicsMode::Nvidia => {
            if options.force_comp {
                args.push(String::from_str("--force-comp"));
            }
            if options.coolbits_enabled {
                args.push(String::from_str("--coolbits"));
                args.push(u8_decimal(options.coolbits_value));
            }
        },
        GraphicsMode::Integrated => {},
    }
    args.push(String::from_str("--verbose"));
    assert(views_of(args@) =~= switch_args_spec(*options));
    args
}

/// Law: while RTD3 is disabled, the level is invisible to the applied
/// request — the argument list is the same whatever the level holds, since
/// the level flag is gated by the enable flag.
pub proof fn lemma_disabled_rtd3_level_invisible(o: SwitchOptions, l: Rtd3Level)
    requires
        !o.rtd3_enabled,
    ensures
        switch_args_spec(SwitchOptions { rtd3_level: l, ..o }) == switch_args_spec(o),
{
    assert(switch_args_spec(SwitchOptions { rtd3_level: l, ..o }) =~= switch_args_spec(o));
}

/// The shell line a switch runs under the privilege wrapper: the tool with
/// the built arguments, its interactive prompt auto-confirmed.
pub open spec fn switch_command_spec(o: SwitchOptions) -> Seq<char> {
    "yes | envycontrol "@ + join_spaced(switch_args_spec(o))
}

/// Builds the shell line of a switch invocation.
pub fn switch_command(options: &SwitchOptions) -> (r: String)
    ensures
        r@ == switch_command_spec(*options),
{
    let args = build_switch_args(options);
    assert(args@.len() == switch_args_spec(*options).len());
    let joined = join_spaces(&args);
    String::from_str("yes | envycontrol ").concat(joined.as_str())
}

/// The shell line a reset runs under the privilege wrapper.
pub fn reset_command() -> (r: String)
    ensures
        r@ == "yes | envycontrol --reset --verbose"@,
{
    String::from_str("yes | envycontrol --reset --verbose")
}

/// The success message of a switch, embedding the target mode's name.
pub open spec fn switch_success_message(m: GraphicsMode) -> Seq<char> {
    "Switched to "@ + mode_name_spec(m) + " mode. Please reboot for changes to take effect."@
}

/// The success message of a reset.
pub open spec fn reset_success_message() -> Seq<char> {
    "Reset successful. Please reboot for changes to take effect."@
}

/// Turns a finished switch invocation into its domain result: a success
/// message for exit status zero, otherwise the error output as a failure.
pub fn interpret_switch_output(mode: GraphicsMode, status_ok: bool, stderr: &str) -> (r: Result<
    String,
    ToolError,
>)
    ensures
        status_ok ==> (r matches Ok(m) && m@ == switch_success_message(mode)),
        !status_ok ==> (r matches Err(e) && (e matches ToolError::SwitchFailed(s) && s@
            == stderr@)),
{
    if status_ok {
        Ok(
            String::from_str("Switched to ").concat(mode.name()).concat(
                " mode. Please reboot for changes to take effect.",
            ),
        )
    } else {
        Err(ToolError::SwitchFailed(stderr.to_owned()))
    }
}

/// Turns a finished reset invocation into its domain result.
pub fn interpret_reset_output(status_ok: bool, stderr: &str) -> (r: Result<String, ToolError>)
    ensures
        status_ok ==> (r matches Ok(m) && m@ == reset_success_message()),
        !status_ok ==> (r matches Err(e) && (e matches ToolError::ResetFailed(s) && s@ == stderr@)),
{
    if status_ok {
        Ok(String::from_str("Reset successful. Please reboot for changes to take effect."))
    } else {
        Err(ToolError::ResetFailed(stderr.to_owned()))
    }
}

/// Whether the error output matches the tool-absent pattern.
pub open spec fn not_installed_pattern(err: Seq<char>) -> bool {
    contains_spec(err, "not found"@, false) || contains_spec(err, "No such file"@, false)
}

/// What a finished query invocation means. A failed run means the tool is
/// absent when its error output says so, and an unreadable mode otherwise; a
/// successful run is matched case-insensitively for the first mode name among
/// integrated, hybrid, nvidia, and yields no mode when none occurs.
pub open spec fn query_outcome(status_ok: bool, stdout: Seq<char>, stderr: Seq<char>) -> Result<
    Option<GraphicsMode>,
    ToolError,
> {
    if !status_ok {
        if not_installed_pattern(stderr) {
            Err(ToolError::NotInstalled)
        } else {
            Err(ToolError::QueryFailed)
        }
    } else if contains_spec(stdout, "integrated"@, true) {
        Ok(Some(GraphicsMode::Integrated))
    } else if contains_spec(stdout, "hybrid"@, true) {
        Ok(Some(GraphicsMode::Hybrid))
    } else if contains_spec(stdout, "nvidia"@, true) {
        Ok(Some(GraphicsMode::Nvidia))
    } else {
        Ok(None)
    }
}

/// Turns a finished query invocation into its domain result; see
/// [`query_outcome`].
pub fn interpret_query_output(status_ok: bool, stdout: &str, stderr: &str) -> (r: Result<
    Option<GraphicsMode>,
    ToolError,
>)
    ensures
        r == query_outcome(status_ok, stdout@, stderr@),
{
    if !status_ok {
        if contains_str(stderr, "not found", false) || contains_str(stderr, "No such file", false) {
            Err(ToolError::NotInstalled)
        } else {
            Err(ToolError::QueryFailed)
        }
    } else if contains_str(stdout, "integrated", true) {
        Ok(Some(GraphicsMode::Integrated))
    } else if contains_str(stdout, "hybrid", true) {
        Ok(Some(GraphicsMode::Hybrid))
    } else if contains_str(stdout, "nvidia", true) {
        Ok(Some(GraphicsMode::Nvidia))
    } else {
        Ok(None)
    }
}

/// The telemetry fields in the tool's output: the text trimmed, split at
/// commas, each piece trimmed.
pub open spec fn gpu_fields(stdout: Seq<char>) -> Seq<Seq<char>> {
    split_commas(trim_spec(stdout)).map_values(|p: Seq<char>| trim_spec(p))
}

/// Parses the telemetry tool's output: at least four comma-separated fields
/// yield a record (name, temperature with the degree suffix, memory used,
/// memory total); anything shorter yields nothing.
pub fn parse_gpu_info(stdout: &str) -> (r: Option<GpuInfo>)
    ensures
        gpu_fields(stdout@).len() >= 4 ==> (r matches Some(g) && (g.name@ == gpu_fields(stdout@)[0]
            && g.temperature@ == gpu_fields(stdout@)[1] + "\u{c2}\u{b0}C"@ && g.memory_used@
            == gpu_fields(stdout@)[2] && g.memory_total@ == gpu_fields(stdout@)[3])),
        gpu_fields(stdout@).len() < 4 ==> r is None,
{
    let trimmed = trim_str(stdout);
    let raw = split_commas_str(trimmed.as_str());
    assert(raw@.len() == gpu_fields(stdout@).len());
    if raw.len() >= 4 {
        let name = trim_str(raw[0].as_str());
        let temperature = trim_str(raw[1].as_str()).concat("\u{c2}\u{b0}C");
        let memory_used = trim_str(raw[2].as_str());
        let memory_total = trim_str(raw[3].as_str());
        Some(GpuInfo { name, temperature, memory_used, memory_total })
    } else {
        None
    }
}

} // verus!
