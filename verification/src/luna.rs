//! One-shot calls on the system's service bus, through its command-line tool. A call that does
//! not answer must not hold up its caller for long: its process is ended.
use vstd::prelude::*;

use crate::text::join3;

verus! {

pub const LUNA_SEND_PUB: &'static str = "/usr/bin/luna-send-pub";

/// How long a call may take, in milliseconds.
pub const CALL_TIMEOUT_MS: u64 = 800;

/// How long to wait between two looks at a call, in milliseconds.
pub const POLL_MS: u64 = 10;

pub const UNAVAILABLE: &'static str = "luna-send-pub unavailable";

pub const TIMED_OUT: &'static str = "luna-send-pub timed out after 800ms";

pub const EXITED: &'static str = "luna-send-pub exited ";

/// Whether the tool can be run: it is a file that someone may execute.
pub fn available(is_file: bool, mode: u32) -> (r: bool)
    ensures
        r == (is_file && mode & 0o111 != 0),
{
    is_file && mode & 0o111 != 0
}

/// The arguments of a call: one reply, then the service and what it is sent.
pub fn call_args(uri: &str, payload: &str) -> (r: Vec<String>)
    ensures
        r@.len() == 4,
        r@[0]@ == "-n"@,
        r@[1]@ == "1"@,
        r@[2]@ == uri@,
        r@[3]@ == payload@,
{
    let mut args: Vec<String> = Vec::new();
    args.push("-n".to_owned());
    args.push("1".to_owned());
    args.push(uri.to_owned());
    args.push(payload.to_owned());
    args
}

/// How the tool's process stands.
#[derive(Debug)]
pub enum ProcessState {
    Running,
    Succeeded,
    /// It ended otherwise, as the text says.
    Exited(String),
}

/// What to do after a look at the process.
#[derive(Debug)]
pub enum CallStep {
    Done,
    /// The call failed, with the reason.
    Failed(String),
    /// End the process, wait for it to be gone, and fail with the reason.
    KillAndFail(String),
    /// Look again after this many milliseconds.
    Wait(u64),
}

/// A call that was started at `started`, in milliseconds.
#[derive(Clone, Copy, Debug, PartialEq, Eq, Structural)]
pub struct Call {
    pub started: u64,
}

impl Call {
    /// Decides after a look at the process at `now`.
    pub fn poll(&self, state: ProcessState, now: u64) -> (r: CallStep)
        requires
            self.started <= u64::MAX - CALL_TIMEOUT_MS,
        ensures
            match state {
                ProcessState::Succeeded => r is Done,
                ProcessState::Exited(status) => r matches CallStep::Failed(why) && why@ == EXITED@
                    + status@,
                ProcessState::Running => if now >= self.started + CALL_TIMEOUT_MS {
                    r matches CallStep::KillAndFail(why) && why@ == TIMED_OUT@
                } else {
                    r == CallStep::Wait(POLL_MS)
                },
            },
    {
        match state {
            ProcessState::Succeeded => CallStep::Done,
            ProcessState::Exited(status) => {
                let why = join3(EXITED, status.as_str(), "");
                proof {
                    reveal_strlit("");
                    assert(why@ =~= EXITED@ + status@);
                }
                CallStep::Failed(why)
            },
            ProcessState::Running => if now >= self.started + CALL_TIMEOUT_MS {
                CallStep::KillAndFail(TIMED_OUT.to_owned())
            } else {
                CallStep::Wait(POLL_MS)
            },
        }
    }
}

} // verus!
