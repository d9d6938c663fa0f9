use mfek_ipc::available::Available;
use mfek_ipc::names::Platform;
use mfek_ipc::probe::{is_launchable, Action, Entry, Event, Probe};
use mfek_ipc::report::{Finding, Report};

/// One path of a made-up host: what lies there, and what a launch of it prints.
struct Path {
    name: &'static str,
    dir: usize,
    entry: Entry,
    output: Option<&'static [u8]>,
}

fn executable(name: &'static str, dir: usize, output: &'static [u8]) -> Path {
    Path { name, dir, entry: Entry::File { mode: Some(0o755) }, output: Some(output) }
}

/// What a probe did on a made-up host, and what it ended with.
struct Run {
    report: Report,
    inspected: Vec<(String, usize)>,
    queried: Vec<(String, usize)>,
}

impl Run {
    fn result(&self) -> (Available, &str) {
        (self.report.available(), self.report.name.as_str())
    }
}

fn run_probe(
    module: &str,
    version: &str,
    platform: Platform,
    search_path: Option<usize>,
    host: &[Path],
) -> Run {
    let mut probe = Probe::new(module, version, platform, search_path);
    let mut action = probe.action();
    let mut inspected = Vec::new();
    let mut queried = Vec::new();
    for _ in 0..10_000 {
        let event = match action {
            Action::Inspect { name, dir } => {
                let entry = host
                    .iter()
                    .find(|p| p.name == name && p.dir == dir)
                    .map(|p| p.entry)
                    .unwrap_or(Entry::Unavailable);
                inspected.push((name, dir));
                Event::Inspected(entry)
            }
            Action::Query { name, dir } => {
                let output = host
                    .iter()
                    .find(|p| p.name == name && p.dir == dir)
                    .and_then(|p| p.output);
                queried.push((name, dir));
                match output {
                    Some(bytes) => Event::Printed(bytes.to_vec()),
                    None => Event::LaunchFailed,
                }
            }
            Action::Finish(report) => return Run { report, inspected, queried },
        };
        action = probe.step(event);
    }
    panic!("the probe did not end");
}

fn at(name: &str, dir: usize) -> (String, usize) {
    (name.to_string(), dir)
}

#[test]
fn matching_version_is_yes() {
    let host = [executable("MFEKfoo", 0, b"foo 1.2.3")];
    let run = run_probe("foo", "1.2.3", Platform::Other, Some(1), &host);
    assert_eq!(run.result(), (Available::Yes, "MFEKfoo"));
    assert_eq!(run.report.finding, Finding::Confirmed);
    assert_eq!(run.inspected, vec![at("MFEKfoo", 0)]);
    assert_eq!(run.queried, vec![at("MFEKfoo", 0)]);
}

#[test]
fn other_version_is_degraded() {
    let host = [executable("MFEKfoo", 0, b"foo 1.2.4")];
    let run = run_probe("foo", "1.2.3", Platform::Other, Some(1), &host);
    assert_eq!(run.result(), (Available::Degraded, "MFEKfoo"));
    assert_eq!(run.report.finding, Finding::Mismatch("foo 1.2.4".to_string()));
}

#[test]
fn nothing_on_the_path_is_no() {
    let run = run_probe("foo", "1.2.3", Platform::Other, Some(3), &[]);
    assert_eq!(run.result(), (Available::No, ""));
    assert_eq!(run.report.finding, Finding::NotFound);
    assert_eq!(
        run.inspected,
        vec![
            at("MFEKfoo", 0),
            at("MFEKfoo", 1),
            at("MFEKfoo", 2),
            at("mfek-foo", 0),
            at("mfek-foo", 1),
            at("mfek-foo", 2),
        ]
    );
    assert!(run.queried.is_empty());
}

#[test]
fn other_names_on_the_path_are_not_found() {
    let host = [
        executable("MFEKbar", 0, b"foo 1.2.3"),
        executable("foo", 0, b"foo 1.2.3"),
        executable("MFEKfoo.exe", 1, b"foo 1.2.3"),
        executable("mfek_foo", 1, b"foo 1.2.3"),
    ];
    let run = run_probe("foo", "1.2.3", Platform::Other, Some(2), &host);
    assert_eq!(run.result(), (Available::No, ""));
    assert!(run.queried.is_empty());
}

#[test]
fn a_search_path_that_is_not_set_is_no() {
    let host = [executable("MFEKfoo", 0, b"foo 1.2.3")];
    let run = run_probe("foo", "1.2.3", Platform::Other, None, &host);
    assert_eq!(run.result(), (Available::No, ""));
    assert!(run.inspected.is_empty());
    assert!(run.queried.is_empty());
}

#[test]
fn an_empty_search_path_is_no() {
    let run = run_probe("foo", "1.2.3", Platform::Windows, Some(0), &[]);
    assert_eq!(run.result(), (Available::No, ""));
    assert!(run.inspected.is_empty());
}

#[test]
fn a_file_without_execute_permission_is_degraded_and_not_launched() {
    let host = [Path {
        name: "MFEKfoo",
        dir: 1,
        entry: Entry::File { mode: Some(0o644) },
        output: Some(b"foo 1.2.3"),
    }];
    let run = run_probe("foo", "1.2.3", Platform::Other, Some(2), &host);
    assert_eq!(run.result(), (Available::Degraded, "MFEKfoo"));
    assert_eq!(run.report.finding, Finding::NotExecutable);
    assert!(run.queried.is_empty());
    assert_eq!(run.inspected, vec![at("MFEKfoo", 0), at("MFEKfoo", 1)]);
}

#[test]
fn output_with_whitespace_around_it_is_yes() {
    let host = [executable("mfek-foo", 2, b"\n  foo 1.2.3 \r\n")];
    let run = run_probe("foo", "1.2.3", Platform::Other, Some(3), &host);
    assert_eq!(run.result(), (Available::Yes, "mfek-foo"));
    assert_eq!(run.queried, vec![at("mfek-foo", 2)]);
}

#[test]
fn no_output_is_degraded() {
    let host = [executable("MFEKfoo", 0, b"")];
    let run = run_probe("foo", "1.2.3", Platform::Other, Some(1), &host);
    assert_eq!(run.result(), (Available::Degraded, "MFEKfoo"));
    assert_eq!(run.report.finding, Finding::Mismatch(String::new()));
}

#[test]
fn a_failed_launch_is_degraded() {
    let host = [Path {
        name: "MFEKfoo",
        dir: 0,
        entry: Entry::File { mode: Some(0o700) },
        output: None,
    }];
    let run = run_probe("foo", "1.2.3", Platform::Other, Some(1), &host);
    assert_eq!(run.result(), (Available::Degraded, "MFEKfoo"));
    assert_eq!(run.report.finding, Finding::LaunchFailed);
    assert_eq!(run.queried, vec![at("MFEKfoo", 0)]);
}

#[test]
fn output_that_is_no_text_is_degraded() {
    let host = [executable("MFEKfoo", 0, &[0x66, 0x6f, 0x6f, 0xff])];
    let run = run_probe("foo", "1.2.3", Platform::Other, Some(1), &host);
    assert_eq!(run.result(), (Available::Degraded, "MFEKfoo"));
    assert_eq!(run.report.finding, Finding::Unreadable);
}

#[test]
fn an_earlier_candidate_wins_over_an_earlier_directory() {
    let host = [
        executable("mfek-foo", 0, b"foo 1.2.3"),
        executable("MFEKfoo", 1, b"foo 9.9.9"),
    ];
    let run = run_probe("foo", "1.2.3", Platform::Other, Some(2), &host);
    assert_eq!(run.result(), (Available::Degraded, "MFEKfoo"));
    assert_eq!(run.report.finding, Finding::Mismatch("foo 9.9.9".to_string()));
    assert_eq!(run.inspected, vec![at("MFEKfoo", 0), at("MFEKfoo", 1)]);
    assert_eq!(run.queried, vec![at("MFEKfoo", 1)]);
}

#[test]
fn the_second_candidate_is_tried_after_every_directory_of_the_first() {
    let host = [executable("mfek-foo", 1, b"foo 1.2.3")];
    let run = run_probe("foo", "1.2.3", Platform::Other, Some(3), &host);
    assert_eq!(run.result(), (Available::Yes, "mfek-foo"));
    assert_eq!(
        run.inspected,
        vec![
            at("MFEKfoo", 0),
            at("MFEKfoo", 1),
            at("MFEKfoo", 2),
            at("mfek-foo", 0),
            at("mfek-foo", 1),
        ]
    );
}

#[test]
fn an_earlier_directory_wins_for_one_candidate() {
    let host = [
        executable("MFEKfoo", 2, b"foo 1.2.3"),
        executable("MFEKfoo", 1, b"foo 0.0.1"),
    ];
    let run = run_probe("foo", "1.2.3", Platform::Other, Some(3), &host);
    assert_eq!(run.result(), (Available::Degraded, "MFEKfoo"));
    assert_eq!(run.queried, vec![at("MFEKfoo", 1)]);
}

#[test]
fn the_first_file_found_ends_the_scan_even_if_it_cannot_be_launched() {
    let host = [
        Path {
            name: "MFEKfoo",
            dir: 0,
            entry: Entry::File { mode: Some(0o600) },
            output: None,
        },
        executable("MFEKfoo", 1, b"foo 1.2.3"),
        executable("mfek-foo", 0, b"foo 1.2.3"),
    ];
    let run = run_probe("foo", "1.2.3", Platform::Other, Some(2), &host);
    assert_eq!(run.result(), (Available::Degraded, "MFEKfoo"));
    assert_eq!(run.inspected, vec![at("MFEKfoo", 0)]);
    assert!(run.queried.is_empty());
}

#[test]
fn what_is_no_regular_file_is_passed_over() {
    let host = [
        Path { name: "MFEKfoo", dir: 0, entry: Entry::NotAFile, output: Some(b"foo 1.2.3") },
        Path { name: "MFEKfoo", dir: 1, entry: Entry::Unavailable, output: Some(b"foo 1.2.3") },
        executable("mfek-foo", 1, b"foo 1.2.3"),
    ];
    let run = run_probe("foo", "1.2.3", Platform::Other, Some(2), &host);
    assert_eq!(run.result(), (Available::Yes, "mfek-foo"));
    assert_eq!(run.queried, vec![at("mfek-foo", 1)]);
}

#[test]
fn without_permission_bits_every_regular_file_is_launched() {
    let host = [Path {
        name: "MFEKfoo.exe",
        dir: 0,
        entry: Entry::File { mode: None },
        output: Some(b"foo 1.2.3\r\n"),
    }];
    let run = run_probe("foo", "1.2.3", Platform::Windows, Some(1), &host);
    assert_eq!(run.result(), (Available::Yes, "MFEKfoo.exe"));
    assert_eq!(run.queried, vec![at("MFEKfoo.exe", 0)]);

    let host = [Path {
        name: "mfek-foo.exe",
        dir: 0,
        entry: Entry::File { mode: None },
        output: None,
    }];
    let run = run_probe("foo", "1.2.3", Platform::Windows, Some(1), &host);
    assert_eq!(run.result(), (Available::Degraded, "mfek-foo.exe"));
    assert_eq!(run.report.finding, Finding::LaunchFailed);
}

#[test]
fn the_second_candidate_is_looked_for_in_lower_case() {
    let host = [
        executable("mfek-Glif", 0, b"Glif 1.0"),
        executable("mfek-glif", 1, b"Glif 1.0\n"),
    ];
    let run = run_probe("Glif", "1.0", Platform::Other, Some(2), &host);
    assert_eq!(run.result(), (Available::Yes, "mfek-glif"));
    assert_eq!(
        run.inspected,
        vec![at("MFEKGlif", 0), at("MFEKGlif", 1), at("mfek-glif", 0), at("mfek-glif", 1)]
    );
    assert_eq!(run.queried, vec![at("mfek-glif", 1)]);
}

#[test]
fn any_one_execute_bit_is_enough() {
    assert!(is_launchable(Some(0o100)));
    assert!(is_launchable(Some(0o010)));
    assert!(is_launchable(Some(0o001)));
    assert!(is_launchable(Some(0o755)));
    assert!(is_launchable(Some(0o100644 | 0o001)));
    assert!(is_launchable(Some(u32::MAX)));
    assert!(is_launchable(None));
    assert!(!is_launchable(Some(0)));
    assert!(!is_launchable(Some(0o644)));
    assert!(!is_launchable(Some(0o666)));
    assert!(!is_launchable(Some(0o100644)));
    assert!(!is_launchable(Some(0o7666)));
    assert!(!is_launchable(Some(!0o111)));
}

#[test]
fn a_new_probe_asks_for_the_first_candidate_in_the_first_directory() {
    let probe = Probe::new("foo", "1.2.3", Platform::Other, Some(4));
    assert_eq!(probe.action(), Action::Inspect { name: "MFEKfoo".to_string(), dir: 0 });
    // Asking again changes nothing.
    assert_eq!(probe.action(), Action::Inspect { name: "MFEKfoo".to_string(), dir: 0 });
    let probe = Probe::new("foo", "1.2.3", Platform::Windows, Some(1));
    assert_eq!(probe.action(), Action::Inspect { name: "MFEKfoo.exe".to_string(), dir: 0 });
}

#[test]
fn each_step_says_what_to_do_next() {
    let mut probe = Probe::new("foo", "1.2.3", Platform::Other, Some(2));
    assert_eq!(
        probe.step(Event::Inspected(Entry::Unavailable)),
        Action::Inspect { name: "MFEKfoo".to_string(), dir: 1 }
    );
    assert_eq!(
        probe.step(Event::Inspected(Entry::NotAFile)),
        Action::Inspect { name: "mfek-foo".to_string(), dir: 0 }
    );
    assert_eq!(
        probe.step(Event::Inspected(Entry::File { mode: Some(0o555) })),
        Action::Query { name: "mfek-foo".to_string(), dir: 0 }
    );
    assert_eq!(
        probe.step(Event::Printed(b"foo 1.2.3\n".to_vec())),
        Action::Finish(Report { name: "mfek-foo".to_string(), finding: Finding::Confirmed })
    );
}

#[test]
fn an_event_that_answers_nothing_changes_nothing() {
    let mut probe = Probe::new("foo", "1.2.3", Platform::Other, Some(2));
    let asked = Action::Inspect { name: "MFEKfoo".to_string(), dir: 0 };
    assert_eq!(probe.step(Event::LaunchFailed), asked);
    assert_eq!(probe.step(Event::Printed(b"foo 1.2.3".to_vec())), asked);
    assert_eq!(probe.action(), asked);

    let asked = Action::Query { name: "MFEKfoo".to_string(), dir: 0 };
    assert_eq!(probe.step(Event::Inspected(Entry::File { mode: None })), asked);
    assert_eq!(probe.step(Event::Inspected(Entry::Unavailable)), asked);
    assert_eq!(probe.step(Event::Inspected(Entry::File { mode: Some(0) })), asked);
    assert_eq!(probe.action(), asked);
}

#[test]
fn a_probe_that_has_ended_stays_ended() {
    let mut probe = Probe::new("foo", "1.2.3", Platform::Other, Some(1));
    probe.step(Event::Inspected(Entry::File { mode: Some(0o755) }));
    let end = probe.step(Event::Printed(b"foo 1.2.3".to_vec()));
    assert_eq!(
        end,
        Action::Finish(Report { name: "MFEKfoo".to_string(), finding: Finding::Confirmed })
    );
    assert_eq!(probe.step(Event::Printed(b"foo 0.0.0".to_vec())), end);
    assert_eq!(probe.step(Event::LaunchFailed), end);
    assert_eq!(probe.step(Event::Inspected(Entry::Unavailable)), end);
    assert_eq!(probe.action(), end);

    let mut probe = Probe::new("foo", "1.2.3", Platform::Other, None);
    let end = Action::Finish(Report { name: String::new(), finding: Finding::NotFound });
    assert_eq!(probe.action(), end);
    assert_eq!(probe.step(Event::Inspected(Entry::File { mode: None })), end);
}

#[test]
fn a_long_search_path_is_swept_once_for_each_candidate() {
    let run = run_probe("foo", "1.2.3", Platform::Other, Some(100), &[]);
    assert_eq!(run.result(), (Available::No, ""));
    assert_eq!(run.inspected.len(), 200);
    for (i, (name, dir)) in run.inspected.iter().enumerate() {
        assert_eq!(name, if i < 100 { "MFEKfoo" } else { "mfek-foo" });
        assert_eq!(*dir, i % 100);
    }
}

#[test]
fn the_same_host_gives_the_same_report() {
    let host = [
        executable("mfek-foo", 0, b"foo 1.2.3"),
        Path { name: "MFEKfoo", dir: 1, entry: Entry::NotAFile, output: None },
    ];
    let first = run_probe("foo", "1.2.3", Platform::Other, Some(2), &host);
    let second = run_probe("foo", "1.2.3", Platform::Other, Some(2), &host);
    assert_eq!(first.report, second.report);
    assert_eq!(first.inspected, second.inspected);
    assert_eq!(first.result(), (Available::Yes, "mfek-foo"));
}
