use multigit::daemon::scheduler::Schedule;
use multigit::daemon::scheduler::Scheduler;
use multigit::daemon::service::DaemonService;
use multigit::error::MultiGitError;

#[test]
fn test_schedule_parsing() {
    assert_eq!(Schedule::from_duration_str("30s").unwrap().interval_seconds(), 30);
    assert_eq!(Schedule::from_duration_str("5m").unwrap().interval_seconds(), 300);
    assert_eq!(Schedule::from_duration_str("2h").unwrap().interval_seconds(), 7200);
    assert_eq!(Schedule::from_duration_str("120").unwrap().interval_seconds(), 120);
}

#[test]
fn schedule_parsing_trims_lowercases_and_reports() {
    assert_eq!(Schedule::from_duration_str("  10M ").unwrap().interval_seconds(), 600);
    assert_eq!(
        Schedule::from_duration_str("xm").unwrap_err(),
        "Invalid minutes: invalid digit found in string"
    );
    assert_eq!(
        Schedule::from_duration_str("s").unwrap_err(),
        "Invalid seconds: cannot parse integer from empty string"
    );
    assert_eq!(
        Schedule::from_duration_str("12x").unwrap_err(),
        "Invalid number: invalid digit found in string"
    );
    assert_eq!(
        Schedule::from_duration_str("99999999999999999999h").unwrap_err(),
        "Invalid hours: number too large to fit in target type"
    );
}

#[test]
fn checked_schedule_refuses_overflow() {
    assert!(Schedule::checked_from_duration_str("18446744073709551615h").is_none());
    let ok = Schedule::checked_from_duration_str("3h").unwrap().unwrap();
    assert_eq!(ok.interval_seconds(), 10800);
}

#[test]
fn test_schedule_creation() {
    assert_eq!(Schedule::every_seconds(45).interval_seconds(), 45);
    assert_eq!(Schedule::every_minutes(10).interval_seconds(), 600);
    assert_eq!(Schedule::every_hours(1).interval_seconds(), 3600);
    assert_eq!(Schedule::default().interval_seconds(), 300);
}

#[test]
fn test_scheduler_creation() {
    let scheduler = Scheduler::new(300);
    assert_eq!(scheduler.interval_seconds(), 300);
    assert!(!scheduler.is_running());
}

#[test]
fn test_scheduler_handle() {
    let scheduler = Scheduler::new(60);
    let handle = scheduler.stop_handle();
    assert!(!handle.is_running());
}

#[test]
fn handle_shares_the_run_flag() {
    let scheduler = Scheduler::new(60);
    let handle = scheduler.stop_handle();
    scheduler.mark_running();
    assert!(handle.is_running());
    handle.stop();
    assert!(!scheduler.is_running());
}

#[test]
fn test_daemon_creation() {
    let daemon = DaemonService::new(300);
    assert!(daemon.pid_file().contains("daemon.pid"));
}

#[test]
fn daemon_files_live_under_config_dir() {
    let daemon = DaemonService::in_config_dir("/home/u/.config", 60);
    assert_eq!(daemon.pid_file(), "/home/u/.config/multigit/daemon.pid");
    assert_eq!(daemon.log_file(), Some("/home/u/.config/multigit/daemon.log".to_string()));
    assert_eq!(daemon.interval_seconds(), 60);
}

#[test]
fn test_daemon_status_not_running() {
    let daemon = DaemonService::new(300);
    let status = daemon.status(Ok(None)).unwrap();
    assert!(!status.running);
    assert!(status.pid.is_none());
}

#[test]
fn test_daemon_status_check() {
    let daemon = DaemonService::new(300);
    let result = daemon.status(Err(MultiGitError::Daemon("Failed to read PID file".to_string())));
    let _ = result;
    let running = daemon.status(Ok(Some(42))).unwrap();
    assert!(running.running);
    assert_eq!(running.pid, Some(42));
}

#[test]
fn pid_file_contents() {
    assert_eq!(DaemonService::parse_pid(" 1234\n").unwrap(), 1234);
    assert_eq!(
        DaemonService::parse_pid("abc").unwrap_err(),
        MultiGitError::Daemon("Invalid PID in file: invalid digit found in string".to_string())
    );
    assert!(DaemonService::parse_pid("4294967296").is_err());
}

#[test]
fn start_and_stop_prechecks() {
    assert!(DaemonService::check_can_start(false).is_ok());
    assert_eq!(
        DaemonService::check_can_start(true).unwrap_err(),
        MultiGitError::Daemon("Daemon is already running".to_string())
    );
    assert_eq!(
        DaemonService::check_can_stop(false).unwrap_err(),
        MultiGitError::Daemon("Daemon is not running".to_string())
    );
}

#[test]
fn unit_suffix_scales_the_count() {
    for n in [0u64, 1, 7, 45, 1000] {
        let s = Schedule::from_duration_str(&format!("{n}s")).unwrap().interval_seconds();
        let m = Schedule::from_duration_str(&format!("{n}m")).unwrap().interval_seconds();
        let h = Schedule::from_duration_str(&format!("{n}h")).unwrap().interval_seconds();
        let bare = Schedule::from_duration_str(&format!("{n}")).unwrap().interval_seconds();
        assert_eq!(s, Schedule::every_seconds(n).interval_seconds());
        assert_eq!(m, Schedule::every_minutes(n).interval_seconds());
        assert_eq!(h, Schedule::every_hours(n).interval_seconds());
        assert_eq!(bare, s);
    }
}
