use brz_launcher::args::{contains_profile_flag, forwarded_args};
use brz_launcher::bootstrap::{next_step, Command, Event, Phase, Step};
use brz_launcher::decimal::decimal_string;
use brz_launcher::messages::{
    import_failure_message, locale_warning, native_version_string, version_warning,
};
use brz_launcher::version::{versions_match, HostedVersion, NativeVersion};

fn native_331() -> NativeVersion {
    NativeVersion { major: 3, minor: 3, patch: 1 }
}

fn hosted(major: u32, minor: u32, patch: u32, label: &str, serial: u32) -> HostedVersion {
    HostedVersion { major, minor, patch, label: String::from(label), serial }
}

#[test]
fn decimal_renders_small_numbers() {
    assert_eq!(decimal_string(0), "0");
    assert_eq!(decimal_string(7), "7");
    assert_eq!(decimal_string(10), "10");
    assert_eq!(decimal_string(310), "310");
}

#[test]
fn decimal_renders_the_largest_number() {
    assert_eq!(decimal_string(u32::MAX), "4294967295");
}

#[test]
fn native_version_renders_as_dotted_triple() {
    assert_eq!(native_version_string(&native_331()), "3.3.1");
    let zero = NativeVersion { major: 0, minor: 0, patch: 0 };
    assert_eq!(native_version_string(&zero), "0.0.0");
}

#[test]
fn matching_triples_compare_equal_whatever_the_label() {
    assert!(versions_match(&native_331(), &hosted(3, 3, 1, "final", 0)));
    assert!(versions_match(&native_331(), &hosted(3, 3, 1, "dev", 4)));
}

#[test]
fn differing_triples_compare_unequal() {
    assert!(!versions_match(&native_331(), &hosted(3, 2, 9, "final", 0)));
    assert!(!versions_match(&native_331(), &hosted(4, 3, 1, "final", 0)));
    assert!(!versions_match(&native_331(), &hosted(3, 3, 2, "final", 0)));
}

#[test]
fn profile_flag_found_anywhere_in_the_list() {
    let args = vec![String::from("brz"), String::from("status"), String::from("--profile-imports")];
    assert!(contains_profile_flag(&args));
    let args = vec![String::from("brz"), String::from("--profile-imports"), String::from("st")];
    assert!(contains_profile_flag(&args));
}

#[test]
fn profile_flag_absent_or_inexact_is_not_found() {
    let args = vec![String::from("brz"), String::from("status")];
    assert!(!contains_profile_flag(&args));
    let args = vec![String::from("brz"), String::from("--profile-imports=x")];
    assert!(!contains_profile_flag(&args));
    let empty: Vec<String> = Vec::new();
    assert!(!contains_profile_flag(&empty));
}

#[test]
fn forwarding_is_exact() {
    let args = vec![String::from("brz"), String::from("st"), String::from("-v")];
    let forwarded = forwarded_args(args.clone());
    assert_eq!(forwarded, args);
}

#[test]
fn locale_warning_text_is_exact() {
    let w = locale_warning(&String::from("unsupported locale setting"));
    assert_eq!(
        w,
        "brz: WARNING: unsupported locale setting\n  \
         Could not set the application locale.\n  \
         Although this should be no problem for bzr itself, it might\n  \
         cause problems with some plugins. To investigate the issue,\n  \
         look at the output of the locale(1p) tool.\n\n"
    );
}

#[test]
fn import_failure_message_is_exact() {
    assert_eq!(
        import_failure_message(),
        "brz: ERROR: Couldn't import breezy and dependencies.\n\
         Please check the directory containing breezy is on your PYTHONPATH.\n\n"
    );
}

#[test]
fn version_warning_quotes_both_versions() {
    let w = version_warning(&native_331(), &String::from("3.2.9"));
    assert_eq!(
        w,
        "brz: WARNING: breezy version doesn't match the brz program.\n  \
         This may indicate an installation problem.\n  \
         breezy version is 3.2.9\n  \
         brz version is 3.3.1\n\n"
    );
    assert!(w.contains("3.2.9"));
    assert!(w.contains("3.3.1"));
}

#[test]
fn runtime_up_leads_to_os_query() {
    let args: Vec<String> = vec![String::from("brz")];
    let s = next_step(&native_331(), &args, &Phase::Start, Event::RuntimeUp);
    assert_eq!(s.phase, Phase::RuntimeReady);
    assert!(s.warning.is_none());
    assert_eq!(s.command, Command::QueryOsName);
}

#[test]
fn posix_report_asks_for_the_locale() {
    let args: Vec<String> = vec![String::from("brz")];
    let s = next_step(
        &native_331(),
        &args,
        &Phase::RuntimeReady,
        Event::OsNamed { name: String::from("posix") },
    );
    assert_eq!(s.phase, Phase::LocalePending);
    assert!(s.warning.is_none());
    assert_eq!(s.command, Command::SetLocaleFromEnv);
}

#[test]
fn non_posix_report_never_asks_for_the_locale() {
    let args: Vec<String> = vec![String::from("brz")];
    let s = next_step(
        &native_331(),
        &args,
        &Phase::RuntimeReady,
        Event::OsNamed { name: String::from("nt") },
    );
    assert_eq!(s.phase, Phase::EnvConfigured);
    assert!(s.warning.is_none());
    assert_eq!(s.command, Command::ImportHosted);
}

#[test]
fn failed_locale_warns_and_continues() {
    let args: Vec<String> = vec![String::from("brz")];
    let s = next_step(
        &native_331(),
        &args,
        &Phase::LocalePending,
        Event::LocaleFailed { error: String::from("boom") },
    );
    assert_eq!(s.phase, Phase::EnvConfigured);
    let w = s.warning.expect("a locale failure must warn");
    assert!(w.starts_with("brz: WARNING: boom\n"));
    assert_eq!(s.command, Command::ImportHosted);
}

#[test]
fn import_failure_is_fatal_with_the_diagnostic() {
    let args: Vec<String> = vec![String::from("brz")];
    let s = next_step(&native_331(), &args, &Phase::EnvConfigured, Event::HostedImportFailed);
    assert_eq!(s.phase, Phase::Failed);
    assert!(s.warning.is_none());
    match s.command {
        Command::FailWithMessage { message } => {
            assert_eq!(message, import_failure_message());
        }
        other => panic!("expected the fatal diagnostic, got {:?}", other),
    }
}

#[test]
fn failure_is_terminal() {
    let args: Vec<String> = vec![String::from("brz")];
    let s = next_step(&native_331(), &args, &Phase::Failed, Event::ArgsInstalled);
    assert_eq!(s.phase, Phase::Failed);
    assert_eq!(s.command, Command::Fail);
    let s = next_step(&native_331(), &args, &Phase::Failed, Event::EntryReturned);
    assert_eq!(s.phase, Phase::Failed);
    assert_eq!(s.command, Command::Fail);
}

#[test]
fn interpreter_fault_is_fatal_in_any_phase() {
    let args: Vec<String> = vec![String::from("brz")];
    for phase in [Phase::Start, Phase::RuntimeReady, Phase::EnvConfigured, Phase::ArgsForwarded] {
        let s = next_step(&native_331(), &args, &phase, Event::Fault);
        assert_eq!(s.phase, Phase::Failed);
        assert_eq!(s.command, Command::Fail);
    }
}

/// Drives the machine from `Start` with the given argument list, answering
/// each command from the scripted outcomes, and returns the performed
/// commands in order.
fn drive(native: &NativeVersion, args: &[&str], hosted: HostedVersion, display: &str) -> (Vec<String>, Vec<Step>) {
    let args: Vec<String> = args.iter().map(|a| String::from(*a)).collect();
    let mut steps: Vec<Step> = Vec::new();
    let mut phase = Phase::Start;
    let mut event = Some(Event::RuntimeUp);
    let mut hosted = Some(hosted);
    let mut warnings: Vec<String> = Vec::new();
    while let Some(e) = event.take() {
        let s = next_step(native, &args, &phase, e);
        phase = s.phase;
        if let Some(w) = &s.warning {
            warnings.push(w.clone());
        }
        event = match &s.command {
            Command::QueryOsName => Some(Event::OsNamed { name: String::from("posix") }),
            Command::SetLocaleFromEnv => Some(Event::LocaleSet),
            Command::ImportHosted => {
                Some(Event::HostedImported { hosted: hosted.take().expect("imported once") })
            }
            Command::FormatHostedVersion => {
                Some(Event::HostedDisplay { display: String::from(display) })
            }
            Command::InstallArgs => Some(Event::ArgsInstalled),
            Command::InstallProfiling => Some(Event::ProfilingActive),
            Command::Dispatch => Some(Event::EntryReturned),
            Command::Finish | Command::FailWithMessage { .. } | Command::Fail => None,
        };
        steps.push(s);
    }
    (warnings, steps)
}

fn commands(steps: &[Step]) -> Vec<String> {
    steps.iter().map(|s| format!("{:?}", s.command)).collect()
}

#[test]
fn matching_version_dispatches_without_warning() {
    let (warnings, steps) =
        drive(&native_331(), &["brz", "status"], hosted(3, 3, 1, "final", 0), "3.3.1");
    assert!(warnings.is_empty());
    assert_eq!(
        commands(&steps),
        vec![
            "QueryOsName",
            "SetLocaleFromEnv",
            "ImportHosted",
            "InstallArgs",
            "Dispatch",
            "Finish"
        ]
    );
}

#[test]
fn mismatched_version_warns_and_still_dispatches() {
    let (warnings, steps) =
        drive(&native_331(), &["brz", "status"], hosted(3, 2, 9, "final", 0), "3.2.9");
    assert_eq!(warnings.len(), 1);
    assert!(warnings[0].contains("breezy version is 3.2.9"));
    assert!(warnings[0].contains("brz version is 3.3.1"));
    assert_eq!(
        commands(&steps),
        vec![
            "QueryOsName",
            "SetLocaleFromEnv",
            "ImportHosted",
            "FormatHostedVersion",
            "InstallArgs",
            "Dispatch",
            "Finish"
        ]
    );
}

#[test]
fn profile_flag_installs_the_hook_once_before_dispatch() {
    let argv = ["brz", "status", "--profile-imports"];
    let (warnings, steps) = drive(&native_331(), &argv, hosted(3, 3, 1, "final", 0), "3.3.1");
    assert!(warnings.is_empty());
    let cmds = commands(&steps);
    assert_eq!(
        cmds,
        vec![
            "QueryOsName",
            "SetLocaleFromEnv",
            "ImportHosted",
            "InstallArgs",
            "InstallProfiling",
            "Dispatch",
            "Finish"
        ]
    );
    assert_eq!(cmds.iter().filter(|c| *c == "InstallProfiling").count(), 1);
    let args: Vec<String> = argv.iter().map(|a| String::from(*a)).collect();
    let forwarded = forwarded_args(args.clone());
    assert_eq!(forwarded, args);
}

#[test]
fn import_failure_never_reaches_dispatch() {
    let native = native_331();
    let args: Vec<String> = vec![String::from("brz")];
    let mut phase = Phase::Start;
    let mut commands_seen: Vec<String> = Vec::new();
    let script = [
        Event::RuntimeUp,
        Event::OsNamed { name: String::from("posix") },
        Event::LocaleSet,
        Event::HostedImportFailed,
    ];
    for event in script {
        let s = next_step(&native, &args, &phase, event);
        phase = s.phase;
        commands_seen.push(format!("{:?}", s.command));
    }
    assert_eq!(phase, Phase::Failed);
    assert!(commands_seen.iter().all(|c| c != "Dispatch"));
    assert!(commands_seen
        .last()
        .expect("the script takes steps")
        .starts_with("FailWithMessage"));
}
