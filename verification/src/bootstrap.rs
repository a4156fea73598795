//! The bootstrap state machine.
//!
//! The launcher's interpreter-embedding calls are performed by the
//! surrounding binary; every decision between two such calls is taken here.
//! The binary drives the machine: starting from [`Phase::Start`] it performs
//! the [`Command`] of each [`Step`], reports the outcome back as an
//! [`Event`], and repeats until the machine tells it to finish or fail.
//! [`transition`] is the machine's full specification, and [`next_step`] is
//! proved to follow it on every phase and event.

use vstd::prelude::*;
use vstd::string::*;
use crate::args::has_profile_flag;
use crate::args::contains_profile_flag;
use crate::messages::contains_seq;
use crate::messages::import_failure_message;
use crate::messages::import_failure_text;
use crate::messages::lemma_version_warning_mentions_both;
use crate::messages::locale_warning;
use crate::messages::locale_warning_text;
use crate::messages::native_version_text;
use crate::messages::version_warning;
use crate::messages::version_warning_text;
use crate::version::HostedVersion;
use crate::version::NativeVersion;
use crate::version::triples_match;
use crate::version::versions_match;

verus! {

/// How far the bootstrap has come. `Failed` is terminal; so is `Dispatched`,
/// reached when the hosted entry point has returned.
#[derive(Debug, Clone, Copy, PartialEq, Eq, Structural)]
pub enum Phase {
    /// Nothing has happened yet.
    Start,
    /// The embedded runtime is up and its execution lock is held.
    RuntimeReady,
    /// The OS reported a POSIX family; the locale call is outstanding.
    LocalePending,
    /// Locale negotiation is over (performed, skipped, or warned about).
    EnvConfigured,
    /// The hosted version disagrees; its display string is outstanding.
    MismatchNoted,
    /// The hosted version was read and compared.
    VersionChecked,
    /// The argument list sits in the interpreter's argument slot.
    ArgsForwarded,
    /// The import-profiling hook is active.
    ProfilingInstalled,
    /// The hosted entry point ran to completion.
    Dispatched,
    /// A fatal failure ended the bootstrap.
    Failed,
}

/// What the driving binary reports back after performing a command.
#[derive(Debug)]
pub enum Event {
    /// The runtime is initialized and the execution lock is held.
    RuntimeUp,
    /// The interpreter's OS module reported this OS identity.
    OsNamed { name: String },
    /// The locale was set from the environment.
    LocaleSet,
    /// The locale call failed with this error text.
    LocaleFailed { error: String },
    /// The hosted top-level module is imported and reported this version.
    HostedImported { hosted: HostedVersion },
    /// The hosted top-level module could not be imported.
    HostedImportFailed,
    /// The hosted module rendered its own version as this display string.
    HostedDisplay { display: String },
    /// The argument list was installed into the interpreter.
    ArgsInstalled,
    /// The profiling installer ran.
    ProfilingActive,
    /// The hosted entry point returned without raising.
    EntryReturned,
    /// Any other interpreter-level failure; it is fatal.
    Fault,
}

/// What the driving binary must do next.
#[derive(Debug, PartialEq, Eq)]
pub enum Command {
    /// Ask the interpreter's OS module for the OS identity.
    QueryOsName,
    /// Set all locale categories from the process environment.
    SetLocaleFromEnv,
    /// Import the hosted application's top-level module and read its version.
    ImportHosted,
    /// Ask the hosted module to render its version as a display string.
    FormatHostedVersion,
    /// Install the forwarded argument list into the interpreter.
    InstallArgs,
    /// Import the profiling module and run its installer.
    InstallProfiling,
    /// Invoke the hosted application's entry point.
    Dispatch,
    /// Exit successfully.
    Finish,
    /// Print this diagnostic to the error stream, then exit with failure.
    FailWithMessage { message: String },
    /// Exit with failure, propagating the failure already in hand.
    Fail,
}

/// One decision of the machine: the phase reached, a warning to print on the
/// error stream (never fatal), and the next command.
#[derive(Debug)]
pub struct Step {
    pub phase: Phase,
    pub warning: Option<String>,
    pub command: Command,
}

/// The OS identity on which locale negotiation happens.
pub open spec fn posix_name() -> Seq<char> {
    "posix"@
}

/// A step that carries no warning: most transitions.
pub open spec fn plain_step(s: Step, phase: Phase, command: Command) -> bool {
    &&& s.phase == phase
    &&& s.warning is None
    &&& s.command == command
}

/// The step that gives up: reached on any interpreter failure and on any
/// event that its phase does not expect.
pub open spec fn failing_step(s: Step) -> bool {
    &&& s.phase is Failed
    &&& s.warning is None
    &&& s.command is Fail
}

/// The transition relation of the bootstrap machine: in `phase`, on `event`,
/// the machine answers `s`. Every pair not listed, the `Fault` event
/// included, is answered by the failing step.
pub open spec fn transition(
    native: NativeVersion,
    args: Seq<String>,
    phase: Phase,
    event: Event,
    s: Step,
) -> bool {
    match (phase, event) {
        (Phase::Start, Event::RuntimeUp) => plain_step(
            s,
            Phase::RuntimeReady,
            Command::QueryOsName,
        ),
        (Phase::RuntimeReady, Event::OsNamed { name }) => if name@ == posix_name() {
            plain_step(s, Phase::LocalePending, Command::SetLocaleFromEnv)
        } else {
            plain_step(s, Phase::EnvConfigured, Command::ImportHosted)
        },
        (Phase::LocalePending, Event::LocaleSet) => plain_step(
            s,
            Phase::EnvConfigured,
            Command::ImportHosted,
        ),
        (Phase::LocalePending, Event::LocaleFailed { error }) => {
            &&& s.phase is EnvConfigured
            &&& s.warning matches Some(w) && w@ == locale_warning_text(error@)
            &&& s.command is ImportHosted
        },
        (Phase::EnvConfigured, Event::HostedImported { hosted }) => if triples_match(
            native,
            hosted,
        ) {
            plain_step(s, Phase::VersionChecked, Command::InstallArgs)
        } else {
            plain_step(s, Phase::MismatchNoted, Command::FormatHostedVersion)
        },
        (Phase::EnvConfigured, Event::HostedImportFailed) => {
            &&& s.phase is Failed
            &&& s.warning is None
            &&& s.command matches Command::FailWithMessage { message } && message@
                == import_failure_text()
        },
        (Phase::MismatchNoted, Event::HostedDisplay { display }) => {
            &&& s.phase is VersionChecked
            &&& s.warning matches Some(w) && w@ == version_warning_text(display@, native)
            &&& s.command is InstallArgs
        },
        (Phase::VersionChecked, Event::ArgsInstalled) => if has_profile_flag(args) {
            plain_step(s, Phase::ArgsForwarded, Command::InstallProfiling)
        } else {
            plain_step(s, Phase::ArgsForwarded, Command::Dispatch)
        },
        (Phase::ArgsForwarded, Event::ProfilingActive) => if has_profile_flag(args) {
            plain_step(s, Phase::ProfilingInstalled, Command::Dispatch)
        } else {
            failing_step(s)
        },
        (Phase::ArgsForwarded, Event::EntryReturned) => if has_profile_flag(args) {
            failing_step(s)
        } else {
            plain_step(s, Phase::Dispatched, Command::Finish)
        },
        (Phase::ProfilingInstalled, Event::EntryReturned) => plain_step(
            s,
            Phase::Dispatched,
            Command::Finish,
        ),
        _ => failing_step(s),
    }
}

/// Takes one step of the bootstrap: in `phase`, on `event`, decides the next
/// phase, the warning to print, and the command to perform.
pub fn next_step(native: &NativeVersion, args: &Vec<String>, phase: &Phase, event: Event) -> (s:
    Step)
    ensures
        transition(*native, args@, *phase, event, s),
{
    match (*phase, event) {
        (Phase::Start, Event::RuntimeUp) => Step {
            phase: Phase::RuntimeReady,
            warning: None,
            command: Command::QueryOsName,
        },
        (Phase::RuntimeReady, Event::OsNamed { name }) => {
            let posix = String::from_str("posix");
            if name.eq(&posix) {
                Step {
                    phase: Phase::LocalePending,
                    warning: None,
                    command: Command::SetLocaleFromEnv,
                }
            } else {
                Step {
                    phase: Phase::EnvConfigured,
                    warning: None,
                    command: Command::ImportHosted,
                }
            }
        },
        (Phase::LocalePending, Event::LocaleSet) => Step {
            phase: Phase::EnvConfigured,
            warning: None,
            command: Command::ImportHosted,
        },
        (Phase::LocalePending, Event::LocaleFailed { error }) => Step {
            phase: Phase::EnvConfigured,
            warning: Some(locale_warning(&error)),
            command: Command::ImportHosted,
        },
        (Phase::EnvConfigured, Event::HostedImported { hosted }) => {
            if versions_match(native, &hosted) {
                Step {
                    phase: Phase::VersionChecked,
                    warning: None,
                    command: Command::InstallArgs,
                }
            } else {
                Step {
                    phase: Phase::MismatchNoted,
                    warning: None,
                    command: Command::FormatHostedVersion,
                }
            }
        },
        (Phase::EnvConfigured, Event::HostedImportFailed) => Step {
            phase: Phase::Failed,
            warning: None,
            command: Command::FailWithMessage { message: import_failure_message() },
        },
        (Phase::MismatchNoted, Event::HostedDisplay { display }) => Step {
            phase: Phase::VersionChecked,
            warning: Some(version_warning(native, &display)),
            command: Command::InstallArgs,
        },
        (Phase::VersionChecked, Event::ArgsInstalled) => {
            if contains_profile_flag(args) {
                Step {
                    phase: Phase::ArgsForwarded,
                    warning: None,
                    command: Command::InstallProfiling,
                }
            } else {
                Step {
                    phase: Phase::ArgsForwarded,
                    warning: None,
                    command: Command::Dispatch,
                }
            }
        },
        (Phase::ArgsForwarded, Event::ProfilingActive) => {
            if contains_profile_flag(args) {
                Step {
                    phase: Phase::ProfilingInstalled,
                    warning: None,
                    command: Command::Dispatch,
                }
            } else {
                fail_step()
            }
        },
        (Phase::ArgsForwarded, Event::EntryReturned) => {
            if contains_profile_flag(args) {
                fail_step()
            } else {
                Step {
                    phase: Phase::Dispatched,
                    warning: None,
                    command: Command::Finish,
                }
            }
        },
        (Phase::ProfilingInstalled, Event::EntryReturned) => Step {
            phase: Phase::Dispatched,
            warning: None,
            command: Command::Finish,
        },
        _ => fail_step(),
    }
}

/// The failing step, as a value.
fn fail_step() -> (s: Step)
    ensures
        failing_step(s),
{
    Step { phase: Phase::Failed, warning: None, command: Command::Fail }
}

/// How far along the bootstrap a phase lies; `Failed` sits above all.
pub open spec fn phase_rank(p: Phase) -> nat {
    match p {
        Phase::Start => 0,
        Phase::RuntimeReady => 1,
        Phase::LocalePending => 2,
        Phase::EnvConfigured => 3,
        Phase::MismatchNoted => 4,
        Phase::VersionChecked => 5,
        Phase::ArgsForwarded => 6,
        Phase::ProfilingInstalled => 7,
        Phase::Dispatched => 8,
        Phase::Failed => 9,
    }
}

/// Every transition moves strictly forward, or gives up for good.
pub proof fn lemma_transition_progress(
    native: NativeVersion,
    args: Seq<String>,
    phase: Phase,
    event: Event,
    s: Step,
)
    requires
        transition(native, args, phase, event, s),
    ensures
        phase_rank(s.phase) > phase_rank(phase) || s.phase is Failed,
{
}

/// A run of the machine: `steps[i]` answers `events[i]`, received in
/// `phases[i]`; the first phase is `Start`, and each later phase is where
/// the previous step left off.
pub open spec fn is_run(
    native: NativeVersion,
    args: Seq<String>,
    phases: Seq<Phase>,
    events: Seq<Event>,
    steps: Seq<Step>,
) -> bool {
    &&& phases.len() == events.len()
    &&& phases.len() == steps.len()
    &&& phases.len() > 0 ==> phases[0] is Start
    &&& forall|i: int|
        0 <= i < phases.len() ==> transition(native, args, phases[i], events[i], #[trigger] steps[i])
    &&& forall|i: int| 0 <= i < phases.len() - 1 ==> phases[i + 1] == (#[trigger] steps[i]).phase
}

/// Along a run, phases move strictly forward until the machine gives up.
pub proof fn lemma_run_monotone(
    native: NativeVersion,
    args: Seq<String>,
    phases: Seq<Phase>,
    events: Seq<Event>,
    steps: Seq<Step>,
    i: int,
    j: int,
)
    requires
        is_run(native, args, phases, events, steps),
        0 <= i < j < phases.len(),
    ensures
        phase_rank(phases[j]) > phase_rank(phases[i]) || phases[j] is Failed,
    decreases j - i,
{
    lemma_transition_progress(native, args, phases[j - 1], events[j - 1], steps[j - 1]);
    assert(phases[j] == steps[j - 1].phase);
    if i < j - 1 {
        lemma_run_monotone(native, args, phases, events, steps, i, j - 1);
    }
}

/// The locale call is commanded only on a POSIX OS report: in any other
/// circumstance, and in particular on a non-POSIX-reported OS, the
/// locale-setting function is never invoked.
pub proof fn lemma_locale_needs_posix(
    native: NativeVersion,
    args: Seq<String>,
    phase: Phase,
    event: Event,
    s: Step,
)
    requires
        transition(native, args, phase, event, s),
        s.command is SetLocaleFromEnv,
    ensures
        phase is RuntimeReady,
        event matches Event::OsNamed { name } && name@ == posix_name(),
{
}

/// The profiling installer is commanded only when the flag stands somewhere
/// in the argument list, and only as the answer to the just-installed
/// argument list.
pub proof fn lemma_profiling_needs_flag(
    native: NativeVersion,
    args: Seq<String>,
    phase: Phase,
    event: Event,
    s: Step,
)
    requires
        transition(native, args, phase, event, s),
        s.command is InstallProfiling,
    ensures
        has_profile_flag(args),
        phase is VersionChecked,
        event is ArgsInstalled,
{
}

/// Entry dispatch is commanded from exactly two places: straight after
/// argument forwarding when the flag is absent, and straight after the
/// profiling installer when it is present.
pub proof fn lemma_dispatch_source(
    native: NativeVersion,
    args: Seq<String>,
    phase: Phase,
    event: Event,
    s: Step,
)
    requires
        transition(native, args, phase, event, s),
        s.command is Dispatch,
    ensures
        phase is VersionChecked || phase is ArgsForwarded,
        phase is VersionChecked ==> !has_profile_flag(args) && event is ArgsInstalled,
        phase is ArgsForwarded ==> has_profile_flag(args) && event is ProfilingActive,
{
}

/// `ArgsForwarded` is entered only from the version check, and when the
/// flag is present that entering step commands the profiling installer.
pub proof fn lemma_args_forwarded_source(
    native: NativeVersion,
    args: Seq<String>,
    phase: Phase,
    event: Event,
    s: Step,
)
    requires
        transition(native, args, phase, event, s),
        s.phase is ArgsForwarded,
    ensures
        phase is VersionChecked,
        event is ArgsInstalled,
        has_profile_flag(args) ==> s.command is InstallProfiling,
{
}

/// In a run whose OS report was never POSIX, no step commands the locale
/// call.
pub proof fn lemma_no_locale_in_non_posix_run(
    native: NativeVersion,
    args: Seq<String>,
    phases: Seq<Phase>,
    events: Seq<Event>,
    steps: Seq<Step>,
    j: int,
)
    requires
        is_run(native, args, phases, events, steps),
        forall|i: int|
            0 <= i < events.len() ==> !((#[trigger] events[i]) matches Event::OsNamed { name }
                && name@ == posix_name()),
        0 <= j < phases.len(),
    ensures
        !(steps[j].command is SetLocaleFromEnv),
{
    if steps[j].command is SetLocaleFromEnv {
        lemma_locale_needs_posix(native, args, phases[j], events[j], steps[j]);
    }
}

/// In any run the profiling installer is commanded at most once.
pub proof fn lemma_profiling_at_most_once(
    native: NativeVersion,
    args: Seq<String>,
    phases: Seq<Phase>,
    events: Seq<Event>,
    steps: Seq<Step>,
    i: int,
    j: int,
)
    requires
        is_run(native, args, phases, events, steps),
        0 <= i < phases.len(),
        0 <= j < phases.len(),
        steps[i].command is InstallProfiling,
        steps[j].command is InstallProfiling,
    ensures
        i == j,
{
    lemma_profiling_needs_flag(native, args, phases[i], events[i], steps[i]);
    lemma_profiling_needs_flag(native, args, phases[j], events[j], steps[j]);
    if i < j {
        lemma_run_monotone(native, args, phases, events, steps, i, j);
    } else if j < i {
        lemma_run_monotone(native, args, phases, events, steps, j, i);
    }
}

/// When the flag is absent from the argument list, no step of any run
/// commands the profiling installer.
pub proof fn lemma_no_profiling_without_flag(
    native: NativeVersion,
    args: Seq<String>,
    phases: Seq<Phase>,
    events: Seq<Event>,
    steps: Seq<Step>,
    j: int,
)
    requires
        is_run(native, args, phases, events, steps),
        !has_profile_flag(args),
        0 <= j < phases.len(),
    ensures
        !(steps[j].command is InstallProfiling),
{
    if steps[j].command is InstallProfiling {
        lemma_profiling_needs_flag(native, args, phases[j], events[j], steps[j]);
    }
}

/// When the flag is present, every dispatch command is immediately preceded
/// by the one step that commands the profiling installer: the installer runs
/// exactly once, before entry dispatch.
pub proof fn lemma_profiling_precedes_dispatch(
    native: NativeVersion,
    args: Seq<String>,
    phases: Seq<Phase>,
    events: Seq<Event>,
    steps: Seq<Step>,
    j: int,
)
    requires
        is_run(native, args, phases, events, steps),
        has_profile_flag(args),
        0 <= j < phases.len(),
        steps[j].command is Dispatch,
    ensures
        1 <= j,
        steps[j - 1].command is InstallProfiling,
{
    lemma_dispatch_source(native, args, phases[j], events[j], steps[j]);
    assert(phases[j] is ArgsForwarded);
    assert(j != 0) by {
        if j == 0 {
            assert(phases[0] is Start);
        }
    }
    assert(phases[j] == steps[j - 1].phase);
    lemma_args_forwarded_source(native, args, phases[j - 1], events[j - 1], steps[j - 1]);
}

/// A hosted application that cannot be imported aborts the bootstrap: the
/// discoverability diagnostic is commanded on the spot, and no step of the
/// whole run dispatches the entry point.
pub proof fn lemma_import_failure_aborts(
    native: NativeVersion,
    args: Seq<String>,
    phases: Seq<Phase>,
    events: Seq<Event>,
    steps: Seq<Step>,
    i: int,
)
    requires
        is_run(native, args, phases, events, steps),
        0 <= i < phases.len(),
        phases[i] is EnvConfigured,
        events[i] is HostedImportFailed,
    ensures
        steps[i].command matches Command::FailWithMessage { message } && message@
            == import_failure_text(),
        forall|j: int| 0 <= j < phases.len() ==> !((#[trigger] steps[j]).command is Dispatch),
{
    assert forall|j: int| 0 <= j < phases.len() implies !((#[trigger] steps[j]).command
        is Dispatch) by {
        if steps[j].command is Dispatch {
            lemma_dispatch_source(native, args, phases[j], events[j], steps[j]);
            if j < i {
                lemma_run_monotone(native, args, phases, events, steps, j, i);
            } else if i < j {
                assert(phases[i + 1] == steps[i].phase);
                assert(phases[i + 1] is Failed);
                if i + 1 < j {
                    lemma_run_monotone(native, args, phases, events, steps, i + 1, j);
                }
                assert(phases[j] is Failed);
            }
        }
    }
}

/// A warning is never fatal: every step that carries one goes on with the
/// bootstrap. Warnings arise only from a failed locale call and from a
/// version mismatch.
pub proof fn lemma_warning_never_fatal(
    native: NativeVersion,
    args: Seq<String>,
    phase: Phase,
    event: Event,
    s: Step,
)
    requires
        transition(native, args, phase, event, s),
        s.warning is Some,
    ensures
        !(s.phase is Failed),
        s.command is ImportHosted || s.command is InstallArgs,
        event is LocaleFailed || event is HostedDisplay,
{
}

/// A hosted version whose numeric triple equals the launcher's draws no
/// warning, whatever its release label and serial, and the bootstrap goes
/// straight on to argument forwarding.
pub proof fn lemma_matching_version_no_warning(
    native: NativeVersion,
    args: Seq<String>,
    event: Event,
    s: Step,
)
    requires
        transition(native, args, Phase::EnvConfigured, event, s),
        event matches Event::HostedImported { hosted } && triples_match(native, hosted),
    ensures
        s.warning is None,
        s.phase is VersionChecked,
        s.command is InstallArgs,
{
}

/// A hosted version whose numeric triple differs never aborts: the machine
/// asks for the hosted application's own rendering of its version instead.
pub proof fn lemma_mismatch_continues(
    native: NativeVersion,
    args: Seq<String>,
    event: Event,
    s: Step,
)
    requires
        transition(native, args, Phase::EnvConfigured, event, s),
        event matches Event::HostedImported { hosted } && !triples_match(native, hosted),
    ensures
        s.warning is None,
        s.phase is MismatchNoted,
        s.command is FormatHostedVersion,
{
}

/// Once the hosted display string is in hand after a mismatch, the machine
/// warns — quoting both the hosted rendering and the launcher's own
/// `major.minor.patch` — and continues toward dispatch rather than failing.
pub proof fn lemma_mismatch_warns_and_continues(
    native: NativeVersion,
    args: Seq<String>,
    display: String,
    s: Step,
)
    requires
        transition(native, args, Phase::MismatchNoted, Event::HostedDisplay { display }, s),
    ensures
        s.warning matches Some(w) && w@ == version_warning_text(display@, native),
        s.warning matches Some(w) ==> contains_seq(w@, display@) && contains_seq(
            w@,
            native_version_text(native),
        ),
        s.phase is VersionChecked,
        s.command is InstallArgs,
{
    lemma_version_warning_mentions_both(display@, native);
}

} // verus!
