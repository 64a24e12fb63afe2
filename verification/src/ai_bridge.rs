//! The Python sidecar that serves the AI features: where it is installed,
//! how it is started, how its health is polled, and how it is stopped.
//!
//! The bridge decides; its caller runs the processes, the HTTP requests and
//! the waits.

use crate::platform::{command_view, is_unix, Platform, ProcessCommand};
use crate::text::{decimal, decimal_string, join2, join3};
use vstd::prelude::*;

verus! {

/// Port the Python sidecar listens on.
pub const SIDECAR_PORT: u16 = 8321;

/// Maximum health check attempts: 30 × 500ms = 15s budget.
pub const HEALTH_MAX_RETRIES: u32 = 30;

/// Delay between health check attempts, in milliseconds.
pub const HEALTH_RETRY_INTERVAL_MS: u64 = 500;

/// How many parent directories of the executable are searched for the
/// sidecar.
pub const SIDECAR_SEARCH_DEPTH: usize = 6;

/// The sidecar's directory, searched from level `i` up: the position of the
/// nearest directory that holds it, or why there is none. `found[j]` tells
/// whether the `j`-th ancestor of the executable (its parent being the
/// 0-th) holds an `ai-service` directory.
pub open spec fn search_from(found: Seq<bool>, i: int) -> Result<int, Seq<char>>
    decreases SIDECAR_SEARCH_DEPTH - i,
{
    if i >= SIDECAR_SEARCH_DEPTH {
        Err("ai-service directory not found in any parent of executable"@)
    } else if found[i] {
        Ok(i)
    } else if i + 1 >= found.len() {
        Err("Could not find ai-service directory in any parent"@)
    } else {
        search_from(found, i + 1)
    }
}

/// Where the sidecar directory is found, given which ancestors of the
/// executable hold it.
pub open spec fn sidecar_dir(found: Seq<bool>) -> Result<int, Seq<char>> {
    if found.len() == 0 {
        Err("No parent dir for executable"@)
    } else {
        search_from(found, 0)
    }
}

/// The sidecar directory found is the nearest ancestor, within six levels,
/// that holds it; one is found whenever such an ancestor exists.
pub proof fn law_sidecar_dir_is_nearest(found: Seq<bool>)
    ensures
        sidecar_dir(found) matches Ok(k) ==> 0 <= k < SIDECAR_SEARCH_DEPTH && k < found.len() && found[k]
            && forall|j: int| 0 <= j < k ==> !#[trigger] found[j],
        (exists|j: int| 0 <= j < SIDECAR_SEARCH_DEPTH && j < found.len() && #[trigger] found[j])
            ==> sidecar_dir(found) is Ok,
{
    if found.len() > 0 {
        lemma_search_from(found, 0);
    }
}

proof fn lemma_search_from(found: Seq<bool>, i: int)
    requires
        0 <= i < found.len(),
        i <= SIDECAR_SEARCH_DEPTH,
    ensures
        search_from(found, i) matches Ok(k) ==> i <= k < SIDECAR_SEARCH_DEPTH && k < found.len() && found[k]
            && forall|j: int| i <= j < k ==> !#[trigger] found[j],
        (exists|j: int| i <= j < SIDECAR_SEARCH_DEPTH && j < found.len() && #[trigger] found[j])
            ==> search_from(found, i) is Ok,
    decreases SIDECAR_SEARCH_DEPTH - i,
{
    if i < SIDECAR_SEARCH_DEPTH && !found[i] && i + 1 < found.len() {
        lemma_search_from(found, i + 1);
        if exists|j: int| i <= j < SIDECAR_SEARCH_DEPTH && j < found.len() && #[trigger] found[j] {
            let j = choose|j: int| i <= j < SIDECAR_SEARCH_DEPTH && j < found.len() && #[trigger] found[j];
            assert(j != i);
        }
    } else if i < SIDECAR_SEARCH_DEPTH && !found[i] {
        if exists|j: int| i <= j < SIDECAR_SEARCH_DEPTH && j < found.len() && #[trigger] found[j] {
            let j = choose|j: int| i <= j < SIDECAR_SEARCH_DEPTH && j < found.len() && #[trigger] found[j];
            assert(j != i);
        }
    }
}

/// The outcome of one health request to the sidecar.
#[derive(Debug)]
pub enum HealthReply {
    /// The request failed (the sidecar is unavailable); the description of
    /// the failure.
    Unreachable(String),
    /// The sidecar answered with this HTTP status (its code, and its code
    /// with its reason phrase).
    Status { code: u16, display: String },
}

/// Whether an HTTP status code reports success (200 to 299).
pub open spec fn status_is_success(code: u16) -> bool {
    200 <= code < 300
}

/// The next step of the health poll that follows the sidecar's start.
#[derive(Clone, Copy, Debug, PartialEq, Eq, Structural)]
pub enum PollStep {
    /// The sidecar is healthy: stop polling.
    Healthy,
    /// Wait the retry interval, then make attempt `next_attempt`.
    Retry { next_attempt: u32 },
    /// Wait the retry interval, then stop: the sidecar never became healthy.
    GiveUp,
}

/// The step that follows attempt `attempt` of the health poll.
pub open spec fn poll_step(attempt: u32, healthy: bool) -> PollStep {
    if healthy {
        PollStep::Healthy
    } else if attempt < HEALTH_MAX_RETRIES {
        PollStep::Retry { next_attempt: (attempt + 1) as u32 }
    } else {
        PollStep::GiveUp
    }
}

/// How a health poll that starts at attempt `attempt` runs on the replies
/// `replies` (`true` for healthy): the number of requests it makes, and
/// whether it ends on a healthy reply. It stops when the replies run out.
pub open spec fn poll_run(attempt: u32, replies: Seq<bool>) -> (int, bool)
    decreases replies.len(),
{
    if replies.len() == 0 {
        (0, false)
    } else {
        match poll_step(attempt, replies[0]) {
            PollStep::Healthy => (1, true),
            PollStep::GiveUp => (1, false),
            PollStep::Retry { next_attempt } => {
                let rest = poll_run(next_attempt, replies.drop_first());
                (rest.0 + 1, rest.1)
            },
        }
    }
}

/// The sidecar integration: the process id of the running sidecar (0 when
/// none runs), and whether a start was planned whose process id is not
/// recorded yet.
#[derive(Debug)]
pub struct AiBridge {
    sidecar_pid: u32,
    starting: bool,
}

impl AiBridge {
    /// The process id of the running sidecar, 0 when none.
    pub closed spec fn pid(&self) -> u32 {
        self.sidecar_pid
    }

    /// Whether a start is under way: planned, with no process id recorded
    /// since.
    pub closed spec fn starting(&self) -> bool {
        self.starting
    }

    /// A bridge with no sidecar started yet.
    pub fn new() -> (r: AiBridge)
        ensures
            r.pid() == 0,
            !r.starting(),
    {
        AiBridge { sidecar_pid: 0, starting: false }
    }

    /// The process id of the running sidecar, 0 when none.
    pub fn sidecar_pid(&self) -> (r: u32)
        ensures
            r == self.pid(),
    {
        self.sidecar_pid
    }

    /// Records the process id of the sidecar that was just spawned, or 0
    /// once it has exited or could not be spawned; either ends the start
    /// under way.
    pub fn record_pid(&mut self, pid: u32)
        ensures
            final(self).pid() == pid,
            !final(self).starting(),
    {
        self.sidecar_pid = pid;
        self.starting = false;
    }

    /// Resolves the sidecar directory by walking up from the executable:
    /// `has_service[j]` tells whether the `j`-th ancestor of the executable
    /// (its parent being the 0-th) holds an `ai-service` directory; the
    /// result is the position of the nearest one, searched six levels up.
    pub fn resolve_sidecar_dir(has_service: &Vec<bool>) -> (r: Result<usize, String>)
        ensures
            match sidecar_dir(has_service@) {
                Ok(k) => r matches Ok(rk) && rk == k,
                Err(m) => r matches Err(rm) && rm@ == m,
            },
    {
        if has_service.len() == 0 {
            return Err(String::from_str("No parent dir for executable"));
        }
        let mut i: usize = 0;
        while i < SIDECAR_SEARCH_DEPTH
            invariant
                i <= SIDECAR_SEARCH_DEPTH,
                i < has_service.len(),
                sidecar_dir(has_service@) == search_from(has_service@, i as int),
            decreases SIDECAR_SEARCH_DEPTH - i,
        {
            if has_service[i] {
                return Ok(i);
            }
            if i + 1 >= has_service.len() {
                return Err(String::from_str("Could not find ai-service directory in any parent"));
            }
            i = i + 1;
        }
        Err(String::from_str("ai-service directory not found in any parent of executable"))
    }

    /// The command that starts the sidecar, run in its directory:
    /// `python -m uvicorn main:app`.
    pub fn sidecar_command() -> (r: ProcessCommand)
        ensures
            command_view(r) == ("python"@, seq!["-m"@, "uvicorn"@, "main:app"@]),
    {
        let mut args: Vec<String> = Vec::new();
        args.push(String::from_str("-m"));
        args.push(String::from_str("uvicorn"));
        args.push(String::from_str("main:app"));
        let r = ProcessCommand { program: String::from_str("python"), args };
        assert(command_view(r).1 =~= seq!["-m"@, "uvicorn"@, "main:app"@]);
        r
    }

    /// The URL of the sidecar's health endpoint.
    pub fn health_url() -> (r: String)
        ensures
            r@ == "http://127.0.0.1:"@ + decimal(SIDECAR_PORT as nat) + "/health"@,
    {
        let port = decimal_string(SIDECAR_PORT as u64);
        join3("http://127.0.0.1:", port.as_str(), "/health")
    }

    /// Spawns the Python sidecar (idempotent): while a sidecar runs or a
    /// start is under way nothing is started (`Ok(None)`); otherwise its
    /// directory is found (see `resolve_sidecar_dir`), the start is marked
    /// as under way, and the plan names the command to run there and the
    /// health endpoint to poll.
    pub fn spawn_sidecar(&mut self, has_service: &Vec<bool>) -> (r: Result<Option<SpawnPlan>, String>)
        ensures
            old(self).pid() != 0 || old(self).starting() ==> (r matches Ok(None)) && final(self).pid()
                == old(self).pid() && final(self).starting() == old(self).starting(),
            old(self).pid() == 0 && !old(self).starting() ==> match sidecar_dir(has_service@) {
                Ok(k) => r matches Ok(Some(p)) && p.dir_index == k && command_view(p.command) == (
                    "python"@,
                    seq!["-m"@, "uvicorn"@, "main:app"@],
                ) && p.health_url@ == "http://127.0.0.1:"@ + decimal(SIDECAR_PORT as nat)
                    + "/health"@ && final(self).starting() && final(self).pid() == 0,
                Err(m) => r matches Err(rm) && rm@ == m && !final(self).starting()
                    && final(self).pid() == 0,
            },
    {
        if self.sidecar_pid != 0 || self.starting {
            return Ok(None);
        }
        let dir_index = AiBridge::resolve_sidecar_dir(has_service)?;
        self.starting = true;
        Ok(
            Some(
                SpawnPlan {
                    dir_index,
                    command: AiBridge::sidecar_command(),
                    health_url: AiBridge::health_url(),
                },
            ),
        )
    }

    /// The step of the startup health poll after attempt `attempt` (counted
    /// from 1): stop on a healthy reply, retry up to the maximum number of
    /// attempts, then give up.
    pub fn health_poll_step(attempt: u32, healthy: bool) -> (r: PollStep)
        ensures
            r == poll_step(attempt, healthy),
    {
        if healthy {
            PollStep::Healthy
        } else if attempt < HEALTH_MAX_RETRIES {
            PollStep::Retry { next_attempt: attempt + 1 }
        } else {
            PollStep::GiveUp
        }
    }

    /// The verdict on a request to the sidecar's health endpoint: `Ok` when
    /// it answered with a success status, after which its JSON body is the
    /// answer.
    pub fn sidecar_health(reply: &HealthReply) -> (r: Result<(), String>)
        ensures
            match reply {
                HealthReply::Unreachable(_) => r matches Err(m) && m@ == "Sidecar unavailable"@,
                HealthReply::Status { code, display } => if status_is_success(*code) {
                    r is Ok
                } else {
                    r matches Err(m) && m@ == "Sidecar returned status "@ + display@
                },
            },
    {
        match reply {
            HealthReply::Unreachable(_) => Err(String::from_str("Sidecar unavailable")),
            HealthReply::Status { code, display } => {
                if 200 <= *code && *code < 300 {
                    Ok(())
                } else {
                    Err(join2("Sidecar returned status ", display.as_str()))
                }
            },
        }
    }

    /// The message when the health answer is not valid JSON.
    pub fn health_parse_error(e: &str) -> (r: String)
        ensures
            r@ == "Failed to parse sidecar response: "@ + e@,
    {
        join2("Failed to parse sidecar response: ", e)
    }

    /// Kills the sidecar process on cleanup: the command to run, `None` when
    /// no sidecar was started or the platform found no way to kill it.
    pub fn stop_sidecar(&self, platform: Platform) -> (r: Option<ProcessCommand>)
        ensures
            match stop_command(self.pid(), platform) {
                Some(c) => r matches Some(rc) && command_view(rc) == c,
                None => r is None,
            },
    {
        let pid = self.sidecar_pid;
        if pid == 0 {
            return None;
        }
        let pid_text = decimal_string(pid as u64);
        let mut args: Vec<String> = Vec::new();
        if platform == Platform::Windows {
            args.push(String::from_str("/PID"));
            args.push(pid_text);
            args.push(String::from_str("/F"));
            let r = ProcessCommand { program: String::from_str("taskkill"), args };
            assert(command_view(r).1 =~= stop_command(self.pid(), platform).unwrap().1);
            Some(r)
        } else if platform == Platform::Other {
            None
        } else {
            args.push(pid_text);
            let r = ProcessCommand { program: String::from_str("kill"), args };
            assert(command_view(r).1 =~= stop_command(self.pid(), platform).unwrap().1);
            Some(r)
        }
    }
}

/// What starting the sidecar runs: the command, in the directory found (its
/// position among the executable's ancestors), and the health endpoint to
/// poll afterwards.
#[derive(Debug)]
pub struct SpawnPlan {
    pub dir_index: usize,
    pub command: ProcessCommand,
    pub health_url: String,
}

/// The command that stops the sidecar with process id `pid`: `kill` on
/// Unix, `taskkill` on Windows; nothing when no sidecar runs.
pub open spec fn stop_command(pid: u32, platform: Platform) -> Option<(Seq<char>, Seq<Seq<char>>)> {
    if pid == 0 {
        None
    } else if platform == Platform::Windows {
        Some(("taskkill"@, seq!["/PID"@, decimal(pid as nat), "/F"@]))
    } else if is_unix(platform) {
        Some(("kill"@, seq![decimal(pid as nat)]))
    } else {
        None
    }
}

} // verus!
