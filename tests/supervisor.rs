use therese::commands::{get_backend_port, greet};
use therese::decimal::port_text;
use therese::launch::{launch_failure_message, launch_spec, LaunchFailure, SIDECAR_NAME};
use therese::reaper::{
    plan_cleanup, Platform, Reaper, ReaperAction, ReaperEvent, ReaperPhase, RuntimeEntry,
};
use therese::relay::{output_record, relay_record, termination_text, Console, OutputEvent, OutputRelay};
use therese::scan::{pid_of_line, pids_in_listing, split_bytes, ScanFormat};
use therese::shutdown::{
    backend_address_text, shutdown_request_text, ShutdownAction, ShutdownCoordinator,
    ShutdownEvent, ShutdownPhase,
};
use therese::sink::log_entry_text;
use therese::state::{resolve_port, BackendPort, PortError, PortPolicy, SidecarState, BACKEND_PORT};

fn listing(text: &str) -> ReaperEvent {
    ReaperEvent::Listing { success: true, stdout: text.as_bytes().to_vec() }
}

#[test]
fn port_text_spells_decimal() {
    assert_eq!(port_text(0), "0");
    assert_eq!(port_text(17293), "17293");
    assert_eq!(port_text(65535), "65535");
}

#[test]
fn greet_names_the_user() {
    assert_eq!(greet("Alice"), "Bonjour Alice ! Je suis THÉRÈSE, votre assistante.");
}

#[test]
fn backend_port_defaults_to_fixed_and_updates() {
    let mut p = BackendPort::new();
    assert_eq!(get_backend_port(&p), 17293);
    p.set(40000);
    assert_eq!(p.get(), 40000);
    assert_eq!(get_backend_port(&p), 40000);
}

#[test]
fn fixed_policy_always_gives_the_constant() {
    assert_eq!(resolve_port(PortPolicy::Fixed, None), Ok(BACKEND_PORT));
    assert_eq!(resolve_port(PortPolicy::Fixed, Some(50000)), Ok(17293));
    assert_eq!(resolve_port(PortPolicy::Fixed, Some(80)), Ok(17293));
}

#[test]
fn dynamic_policy_takes_the_offer_or_fails() {
    assert_eq!(resolve_port(PortPolicy::Dynamic, Some(54321)), Ok(54321));
    assert_eq!(resolve_port(PortPolicy::Dynamic, Some(1024)), Ok(1024));
    assert_eq!(resolve_port(PortPolicy::Dynamic, Some(0)), Err(PortError::NoFreePort));
    assert_eq!(resolve_port(PortPolicy::Dynamic, Some(443)), Err(PortError::NoFreePort));
    assert_eq!(resolve_port(PortPolicy::Dynamic, None), Err(PortError::NoFreePort));
}

#[test]
fn slot_never_holds_two_handles() {
    let mut s: SidecarState<u32> = SidecarState::new();
    assert!(!s.is_running());
    assert_eq!(s.install(100), Ok(()));
    assert!(s.is_running());
    assert_eq!(s.install(200), Err(200));
    assert_eq!(s.take(), Some(100));
    assert!(!s.is_running());
    assert_eq!(s.take(), None);
}

#[test]
fn split_keeps_empty_pieces() {
    let pieces = split_bytes(b"a,,b,", b',');
    assert_eq!(pieces, vec![b"a".to_vec(), vec![], b"b".to_vec(), vec![]]);
    assert_eq!(split_bytes(b"", b'\n'), vec![Vec::<u8>::new()]);
}

#[test]
fn pid_lines_are_trimmed_and_parsed() {
    assert_eq!(pid_of_line(ScanFormat::PidLines, b"  4242 \r"), Some(4242));
    assert_eq!(pid_of_line(ScanFormat::PidLines, b"+17"), Some(17));
    assert_eq!(pid_of_line(ScanFormat::PidLines, b"4294967295"), Some(4294967295));
    assert_eq!(pid_of_line(ScanFormat::PidLines, b"4294967296"), None);
    assert_eq!(pid_of_line(ScanFormat::PidLines, b"12a"), None);
    assert_eq!(pid_of_line(ScanFormat::PidLines, b"-5"), None);
    assert_eq!(pid_of_line(ScanFormat::PidLines, b"+"), None);
    assert_eq!(pid_of_line(ScanFormat::PidLines, b""), None);
}

#[test]
fn key_value_lines_need_the_key() {
    assert_eq!(pid_of_line(ScanFormat::KeyValue, b"ProcessId=812\r"), Some(812));
    assert_eq!(pid_of_line(ScanFormat::KeyValue, b"ProcessId= 9 "), Some(9));
    assert_eq!(pid_of_line(ScanFormat::KeyValue, b"processid=812"), None);
    assert_eq!(pid_of_line(ScanFormat::KeyValue, b"812"), None);
}

#[test]
fn csv_rows_give_the_second_column() {
    let row = b"\"backend.exe\",\"12345\",\"Console\",\"1\",\"45 000 K\"";
    assert_eq!(pid_of_line(ScanFormat::Csv, row), Some(12345));
    assert_eq!(pid_of_line(ScanFormat::Csv, b"backend.exe"), None);
    assert_eq!(pid_of_line(ScanFormat::Csv, b"x, \"77\" "), Some(77));
    assert_eq!(pid_of_line(ScanFormat::Csv, b"x,\" 77\""), None);
}

#[test]
fn listing_leaves_out_own_pid_and_keeps_order() {
    let out = b"300\n42\nnoise\n100\n\n";
    assert_eq!(pids_in_listing(ScanFormat::PidLines, false, out, 42), vec![300, 100]);
    assert_eq!(pids_in_listing(ScanFormat::PidLines, true, b"", 42), Vec::<u32>::new());
}

#[test]
fn failed_key_value_listing_is_ignored() {
    let out = b"\r\nProcessId=55\r\n\r\nProcessId=66\r\n";
    assert_eq!(pids_in_listing(ScanFormat::KeyValue, true, out, 1), vec![55, 66]);
    assert_eq!(pids_in_listing(ScanFormat::KeyValue, false, out, 1), Vec::<u32>::new());
}

fn pids(a: &ReaperAction) -> Vec<u32> {
    match a {
        ReaperAction::Terminate(p) | ReaperAction::ForceKill(p) => p.clone(),
        _ => panic!("not a signal"),
    }
}

#[test]
fn unix_reaper_signals_all_then_kills_survivors() {
    let (mut r, first) = Reaper::start(Platform::Unix, 7);
    assert!(matches!(first, ReaperAction::Scan(ScanFormat::PidLines)));
    let a = r.step(listing("11\n7\n12\n13\n"));
    assert!(matches!(a, ReaperAction::Terminate(_)));
    assert_eq!(pids(&a), vec![11, 12, 13]);
    assert!(matches!(r.step(ReaperEvent::Completed), ReaperAction::Sleep(2)));
    assert!(matches!(r.step(ReaperEvent::Completed), ReaperAction::Scan(ScanFormat::PidLines)));
    let k = r.step(listing("12\n"));
    assert!(matches!(k, ReaperAction::ForceKill(_)));
    assert_eq!(pids(&k), vec![12]);
    assert!(matches!(r.step(ReaperEvent::Completed), ReaperAction::RemoveStaleArtifacts));
    assert!(matches!(r.step(ReaperEvent::Completed), ReaperAction::Finish));
    assert!(r.is_done());
}

#[test]
fn unix_reaper_skips_to_cleanup_when_nothing_matches() {
    let (mut r, _) = Reaper::start(Platform::Unix, 7);
    assert!(matches!(r.step(listing("7\n")), ReaperAction::RemoveStaleArtifacts));
    assert_eq!(r.phase, ReaperPhase::Cleaning);
    assert!(matches!(r.step(ReaperEvent::Completed), ReaperAction::Finish));
}

#[test]
fn unix_reaper_stops_when_survivors_are_gone() {
    let (mut r, _) = Reaper::start(Platform::Unix, 7);
    r.step(listing("11\n"));
    r.step(ReaperEvent::Completed);
    r.step(ReaperEvent::Completed);
    assert!(matches!(r.step(ReaperEvent::Unavailable), ReaperAction::RemoveStaleArtifacts));
}

#[test]
fn windows_reaper_falls_back_to_the_second_scanner() {
    let (mut r, first) = Reaper::start(Platform::Windows, 7);
    assert!(matches!(first, ReaperAction::Scan(ScanFormat::KeyValue)));
    assert!(matches!(r.step(ReaperEvent::Unavailable), ReaperAction::Scan(ScanFormat::Csv)));
    let t = r.step(listing("\"backend.exe\",\"900\",\"Console\",\"1\",\"1 K\"\r\n"));
    assert!(matches!(t, ReaperAction::Terminate(_)));
    assert_eq!(pids(&t), vec![900]);
    assert!(matches!(r.step(ReaperEvent::Completed), ReaperAction::Sleep(2)));
    assert!(matches!(r.step(ReaperEvent::Completed), ReaperAction::Scan(ScanFormat::KeyValue)));
    assert!(matches!(r.step(ReaperEvent::Unavailable), ReaperAction::Scan(ScanFormat::Csv)));
    let k = r.step(listing("\"backend.exe\",\"900\",\"Console\",\"1\",\"1 K\"\r\n"));
    assert!(matches!(k, ReaperAction::ForceKill(_)));
    assert_eq!(pids(&k), vec![900]);
    assert!(matches!(r.step(ReaperEvent::Completed), ReaperAction::RemoveStaleArtifacts));
    assert!(matches!(r.step(ReaperEvent::Completed), ReaperAction::Finish));
    assert!(r.is_done());
}

#[test]
fn windows_reaper_signals_first_scanner_matches() {
    let (mut r, _) = Reaper::start(Platform::Windows, 7);
    let t = r.step(listing("ProcessId=31\r\nProcessId=32\r\n"));
    assert!(matches!(t, ReaperAction::Terminate(_)));
    assert_eq!(pids(&t), vec![31, 32]);
    assert!(matches!(r.step(ReaperEvent::Completed), ReaperAction::Sleep(2)));
}

#[test]
fn reaper_finishes_in_eight_steps_whatever_happens() {
    for platform in [Platform::Unix, Platform::Windows] {
        for out in ["5\n6\nProcessId=5\nx,\"5\"\n", "", "x,\"5\"\n"] {
            let (mut r, _) = Reaper::start(platform, 1);
            let mut steps = 0;
            while !r.is_done() {
                r.step(listing(out));
                steps += 1;
                assert!(steps <= 8);
            }
        }
    }
}

fn total_sleep(platform: Platform, out: &str) -> (u64, usize) {
    let (mut r, _) = Reaper::start(platform, 1);
    let mut total = 0;
    let mut sleeps = 0;
    while !r.is_done() {
        if let ReaperAction::Sleep(s) = r.step(listing(out)) {
            total += s;
            sleeps += 1;
        }
    }
    (total, sleeps)
}

#[test]
fn reaper_waits_once_and_only_when_something_matched() {
    for platform in [Platform::Unix, Platform::Windows] {
        assert_eq!(total_sleep(platform, "5\nProcessId=5\nx,\"5\"\n"), (2, 1));
        assert_eq!(total_sleep(platform, ""), (0, 0));
        assert_eq!(total_sleep(platform, "1\nProcessId=1\n"), (0, 0));
    }
}

fn entry(name: &str, is_dir: bool) -> RuntimeEntry {
    RuntimeEntry { name: name.to_string(), is_dir }
}

#[test]
fn cleanup_picks_stale_staging_dirs() {
    let entries = vec![
        entry("_MEI12345", true),
        entry("_MEI999", false),
        entry("models", true),
        entry("_ME", true),
        entry("_MEIabc", true),
    ];
    let plan = plan_cleanup(true, &entries);
    assert!(plan.remove_lock);
    assert_eq!(plan.remove_dirs, vec![0, 4]);
}

#[test]
fn cleanup_is_a_no_op_when_nothing_is_stale() {
    let plan = plan_cleanup(false, &vec![]);
    assert!(!plan.remove_lock);
    assert!(plan.remove_dirs.is_empty());
    let plan = plan_cleanup(false, &vec![entry("cache", true), entry("_MEIx", false)]);
    assert!(!plan.remove_lock);
    assert!(plan.remove_dirs.is_empty());
}

#[test]
fn launch_spec_is_exact() {
    let spec = launch_spec(17293, "/home/u/.therese/models", "/home/u/.therese/runtime");
    assert_eq!(spec.program, SIDECAR_NAME);
    assert_eq!(spec.args, vec!["--host", "127.0.0.1", "--port", "17293"]);
    let env: Vec<(&str, &str)> = spec.env.iter().map(|(k, v)| (k.as_str(), v.as_str())).collect();
    assert_eq!(
        env,
        vec![
            ("THERESE_PORT", "17293"),
            ("THERESE_ENV", "production"),
            ("SENTENCE_TRANSFORMERS_HOME", "/home/u/.therese/models"),
            ("TMPDIR", "/home/u/.therese/runtime"),
            ("TEMP", "/home/u/.therese/runtime"),
            ("TMP", "/home/u/.therese/runtime"),
        ]
    );
}

#[test]
fn launch_failures_have_messages() {
    assert_eq!(
        launch_failure_message(LaunchFailure::BinaryMissing, "no such file"),
        "Binaire sidecar introuvable : no such file"
    );
    assert_eq!(
        launch_failure_message(LaunchFailure::SpawnFailed, "denied"),
        "Erreur lancement sidecar : denied"
    );
}

#[test]
fn shutdown_request_is_exact() {
    assert_eq!(
        shutdown_request_text(17293),
        "POST /api/shutdown HTTP/1.1\r\nHost: 127.0.0.1:17293\r\nContent-Length: 0\r\nConnection: close\r\n\r\n"
    );
    assert_eq!(backend_address_text(8000), "127.0.0.1:8000");
}

fn blocking(a: &ShutdownAction) -> u64 {
    match a {
        ShutdownAction::Connect { timeout_secs, .. } => *timeout_secs,
        ShutdownAction::SendRequest { read_timeout_secs, .. } => *read_timeout_secs,
        ShutdownAction::Sleep(s) => *s,
        _ => 0,
    }
}

#[test]
fn shutdown_tears_down_an_unresponsive_backend() {
    let (mut c, first) = ShutdownCoordinator::start(4321, 17293);
    let mut total = blocking(&first);
    let mut kinds = Vec::new();
    while !c.is_torn_down() {
        let a = c.step(ShutdownEvent::Unreachable);
        total += blocking(&a);
        kinds.push(match a {
            ShutdownAction::Sleep(_) => "sleep",
            ShutdownAction::KillChild => "kill",
            ShutdownAction::KillChildrenOf(4321) => "orphans",
            ShutdownAction::Finish => "finish",
            _ => "other",
        });
    }
    assert_eq!(kinds, vec!["sleep", "kill", "orphans", "finish"]);
    assert!(total <= 2 + 3);
}

#[test]
fn shutdown_of_an_answering_backend_sends_the_request() {
    let (mut c, first) = ShutdownCoordinator::start(99, 8000);
    match &first {
        ShutdownAction::Connect { address, timeout_secs } => {
            assert_eq!(address, "127.0.0.1:8000");
            assert_eq!(*timeout_secs, 2);
        }
        _ => panic!("first action must connect"),
    }
    match c.step(ShutdownEvent::Connected) {
        ShutdownAction::SendRequest { request, read_timeout_secs } => {
            assert!(request.starts_with("POST /api/shutdown HTTP/1.1\r\n"));
            assert_eq!(read_timeout_secs, 2);
        }
        _ => panic!("expected the request"),
    }
    assert!(matches!(c.step(ShutdownEvent::Completed), ShutdownAction::Sleep(3)));
    assert!(matches!(c.step(ShutdownEvent::Completed), ShutdownAction::KillChild));
    assert!(matches!(c.step(ShutdownEvent::Completed), ShutdownAction::KillChildrenOf(99)));
    assert!(matches!(c.step(ShutdownEvent::Completed), ShutdownAction::Finish));
    assert_eq!(c.phase, ShutdownPhase::TornDown);
}

#[test]
fn shutdown_of_an_exited_child_completes_every_step() {
    let (mut c, _) = ShutdownCoordinator::start(5, 17293);
    let mut steps = 0;
    let mut killed = false;
    let mut orphans = false;
    while !c.is_torn_down() {
        match c.step(ShutdownEvent::Completed) {
            ShutdownAction::KillChild => killed = true,
            ShutdownAction::KillChildrenOf(5) => orphans = true,
            _ => {}
        }
        steps += 1;
    }
    assert!(killed && orphans);
    assert_eq!(steps, 4);
    assert!(matches!(c.step(ShutdownEvent::Completed), ShutdownAction::Finish));
}

#[test]
fn relay_records_trim_and_decode() {
    let r = relay_record(&OutputEvent::Stdout(b"  INFO started \n".to_vec())).unwrap();
    assert_eq!(r.log_line, "[stdout] INFO started");
    assert_eq!(r.echo, "[backend]   INFO started \n");
    assert_eq!(r.console, Console::Stdout);
    let r = relay_record(&OutputEvent::Stderr(vec![b'o', 0xff, b'k'])).unwrap();
    assert_eq!(r.log_line, "[stderr] o\u{fffd}k");
    assert_eq!(r.console, Console::Stderr);
    assert!(relay_record(&OutputEvent::Other).is_none());
}

#[test]
fn termination_message_spells_options() {
    assert_eq!(termination_text(Some(0), None), "Sidecar terminé (code: Some(0), signal: None)");
    assert_eq!(
        termination_text(Some(-2147483648), Some(9)),
        "Sidecar terminé (code: Some(-2147483648), signal: Some(9))"
    );
    let r = relay_record(&OutputEvent::Terminated { code: None, signal: Some(15) }).unwrap();
    assert_eq!(r.echo, "[THÉRÈSE] Sidecar terminé (code: None, signal: Some(15))\n");
}

#[test]
fn relay_keeps_order_and_stops_at_the_end() {
    let events = vec![
        OutputEvent::Stdout(b"a".to_vec()),
        OutputEvent::Stderr(b"b".to_vec()),
        OutputEvent::Other,
        OutputEvent::Stdout(b"c".to_vec()),
        OutputEvent::Terminated { code: Some(0), signal: None },
        OutputEvent::Stdout(b"late".to_vec()),
    ];
    let mut relay = OutputRelay::new();
    let mut log = Vec::new();
    for e in &events {
        if let Some(r) = relay.handle(e) {
            log.push(r.log_line);
        }
    }
    assert!(relay.is_finished());
    assert_eq!(
        log,
        vec![
            "[stdout] a",
            "[stderr] b",
            "[stdout] c",
            "Sidecar terminé (code: Some(0), signal: None)",
        ]
    );
}

#[test]
fn output_record_trims_unicode_whitespace() {
    let r = output_record(Console::Stderr, "\u{3000}\tready\u{a0}\u{2028}");
    assert_eq!(r.log_line, "[stderr] ready");
    assert_eq!(r.echo, "[backend] \u{3000}\tready\u{a0}\u{2028}");
    assert_eq!(r.console, Console::Stderr);
    let r = output_record(Console::Stdout, "  ");
    assert_eq!(r.log_line, "[stdout] ");
    let r = output_record(Console::Stdout, "a b");
    assert_eq!(r.log_line, "[stdout] a b");
}

#[test]
fn log_entries_carry_the_time() {
    assert_eq!(log_entry_text(1700000000, "Nettoyage terminé"), "[1700000000] Nettoyage terminé");
    assert_eq!(log_entry_text(0, ""), "[0] ");
    assert_eq!(log_entry_text(u64::MAX, "x"), "[18446744073709551615] x");
}
