//! The daemon's files and the decisions around starting, stopping and probing it.
use vstd::prelude::*;

use crate::engine::config::{path_join, path_join_spec, user_config_base};
use crate::error::MultiGitError;
use crate::text::{
    concat2, decimal_spec, int_error_message, lemma_read_decimal, owned, parse_u32, parse_unsigned_spec,
    trim, trim_spec,
};

verus! {

/// The background sync service: where its PID and log files are, and how often it syncs.
pub struct DaemonService {
    pid_file: String,
    log_file: Option<String>,
    interval_seconds: u64,
}

/// What is known of the daemon.
#[derive(Debug, Clone)]
pub struct DaemonStatus {
    /// Whether the daemon process is alive.
    pub running: bool,
    /// Its process ID, when alive.
    pub pid: Option<u32>,
    /// Where it writes its log.
    pub log_file: Option<String>,
}

/// The directory under `config_dir` that holds the daemon's files.
pub open spec fn daemon_dir(config_dir: Seq<char>) -> Seq<char> {
    path_join_spec(config_dir, "multigit"@)
}

/// What a PID file holding `content` gives: the trimmed text read as a `u32`, or
/// `Invalid PID in file: <reason>`.
pub open spec fn pid_spec(content: Seq<char>) -> Result<u32, Seq<char>> {
    match parse_unsigned_spec(trim_spec(content), u32::MAX as int) {
        Ok(v) => Ok(v as u32),
        Err(k) => Err("Invalid PID in file: "@ + int_error_message(k)),
    }
}

/// A PID file holds the decimal text of the daemon's process ID; reading it back gives
/// that ID.
pub proof fn law_pid_file_round_trip(pid: u32)
    ensures
        pid_spec(decimal_spec(pid as nat)) == Ok::<u32, Seq<char>>(pid),
{
    lemma_read_decimal(pid as nat, u32::MAX as int);
}

/// A daemon error whose message is `msg`.
pub open spec fn daemon_error(e: MultiGitError, msg: Seq<char>) -> bool {
    e is Daemon && e->Daemon_0@ == msg
}

impl DaemonService {
    /// The PID file.
    pub closed spec fn pid_path(&self) -> Seq<char> {
        self.pid_file@
    }

    /// The log file, if any.
    pub closed spec fn log_path(&self) -> Option<Seq<char>> {
        match self.log_file {
            Some(p) => Some(p@),
            None => None,
        }
    }

    /// The interval between syncs, in seconds.
    pub closed spec fn interval(&self) -> u64 {
        self.interval_seconds
    }

    /// A service that keeps `daemon.pid` and `daemon.log` under `multigit` in
    /// `config_dir`.
    pub fn in_config_dir(config_dir: &str, interval_seconds: u64) -> (r: Self)
        ensures
            r.pid_path() == path_join_spec(daemon_dir(config_dir@), "daemon.pid"@),
            r.log_path() == Some(path_join_spec(daemon_dir(config_dir@), "daemon.log"@)),
            r.interval() == interval_seconds,
    {
        let dir = path_join(config_dir, "multigit");
        let pid_file = path_join(dir.as_str(), "daemon.pid");
        let log_file = path_join(dir.as_str(), "daemon.log");
        DaemonService { pid_file, log_file: Some(log_file), interval_seconds }
    }

    /// A service whose files live in the user's configuration directory, or under
    /// `.multigit` where there is none.
    pub fn new(interval_seconds: u64) -> (r: Self)
        ensures
            exists|config_dir: Seq<char>|
                r.pid_path() == path_join_spec(daemon_dir(config_dir), "daemon.pid"@)
                    && r.log_path() == Some(path_join_spec(daemon_dir(config_dir), "daemon.log"@)),
            r.interval() == interval_seconds,
    {
        let base = match user_config_base() {
            Some(b) => b,
            None => owned(".multigit"),
        };
        Self::in_config_dir(base.as_str(), interval_seconds)
    }

    /// The PID file.
    pub fn pid_file(&self) -> (r: &str)
        ensures
            r@ == self.pid_path(),
    {
        self.pid_file.as_str()
    }

    /// The log file, if any.
    pub fn log_file(&self) -> (r: Option<String>)
        ensures
            match r {
                Some(p) => self.log_path() == Some(p@),
                None => self.log_path() is None,
            },
    {
        match &self.log_file {
            Some(p) => Some(p.clone()),
            None => None,
        }
    }

    /// The interval between syncs, in seconds.
    pub fn interval_seconds(&self) -> (r: u64)
        ensures
            r == self.interval(),
    {
        self.interval_seconds
    }

    /// The status, given whether the daemon's process was found alive and with which PID
    /// (`probe`), or why it could not be probed.
    pub fn status(&self, probe: Result<Option<u32>, MultiGitError>) -> (r: Result<
        DaemonStatus,
        MultiGitError,
    >)
        ensures
            match probe {
                Err(e) => r == Err::<DaemonStatus, MultiGitError>(e),
                Ok(pid) => r matches Ok(st) && st.running == (pid is Some) && st.pid == pid
                    && match st.log_file {
                    Some(p) => self.log_path() == Some(p@),
                    None => self.log_path() is None,
                },
            },
    {
        match probe {
            Err(e) => Err(e),
            Ok(pid) => Ok(
                DaemonStatus { running: pid.is_some(), pid, log_file: self.log_file() },
            ),
        }
    }

    /// Reads the PID that a PID file holds.
    pub fn parse_pid(content: &str) -> (r: Result<u32, MultiGitError>)
        ensures
            match pid_spec(content@) {
                Ok(v) => r == Ok::<u32, MultiGitError>(v),
                Err(m) => r is Err && daemon_error(r->Err_0, m),
            },
    {
        match parse_u32(trim(content)) {
            Ok(v) => Ok(v),
            Err(k) => {
                let m = k.message();
                Err(MultiGitError::Daemon(concat2("Invalid PID in file: ", m.as_str())))
            },
        }
    }

    /// A daemon may start only when none is running.
    pub fn check_can_start(running: bool) -> (r: Result<(), MultiGitError>)
        ensures
            r is Ok <==> !running,
            r matches Err(e) ==> daemon_error(e, "Daemon is already running"@),
    {
        if running {
            Err(MultiGitError::Daemon(owned("Daemon is already running")))
        } else {
            Ok(())
        }
    }

    /// A daemon may be stopped only when one is running.
    pub fn check_can_stop(running: bool) -> (r: Result<(), MultiGitError>)
        ensures
            r is Ok <==> running,
            r matches Err(e) ==> daemon_error(e, "Daemon is not running"@),
    {
        if running {
            Ok(())
        } else {
            Err(MultiGitError::Daemon(owned("Daemon is not running")))
        }
    }
}

} // verus!
