use vstd::prelude::*;
use vstd::string::*;

verus! {

/// What polling a running command found.
#[derive(Debug)]
pub enum ProcessPoll {
    /// The command has exited.
    Exited,
    /// The command is still running.
    Running,
    /// Its state could not be read; the system's message.
    Failed(String),
}

/// What to do next while waiting for a command.
#[derive(Debug)]
pub enum WaitStep {
    /// Collect the command's output.
    Collect,
    /// Sleep briefly and poll again.
    Sleep,
    /// Stop the command and fail with this message.
    Abandon(String),
}

/// The view of a wait step: `None` for collecting, `Some(None)` for sleeping, and the
/// message when the command is abandoned.
pub open spec fn wait_step_view(s: WaitStep) -> Option<Option<Seq<char>>> {
    match s {
        WaitStep::Collect => None,
        WaitStep::Sleep => Some(None),
        WaitStep::Abandon(m) => Some(Some(m@)),
    }
}

/// The step after a poll at `now` for a command that must finish by `deadline`
/// (milliseconds): collect once it has exited; sleep while it runs and time is left; once
/// time is up, abandon it saying it "timed out after <timeout_secs> seconds"; abandon it
/// when its state cannot be read.
pub open spec fn wait_step_spec(
    operation: Seq<char>,
    poll: ProcessPoll,
    now: u64,
    deadline: u64,
    timeout_secs: Seq<char>,
) -> Option<Option<Seq<char>>> {
    match poll {
        ProcessPoll::Exited => None,
        ProcessPoll::Running => if now < deadline {
            Some(None)
        } else {
            Some(Some(operation + " timed out after "@ + timeout_secs + " seconds"@))
        },
        ProcessPoll::Failed(e) => Some(Some("could not monitor "@ + operation + ": "@ + e@)),
    }
}

/// Decides the next step of waiting for a command, as [`wait_step_spec`] says;
/// `timeout_secs` is the limit as it is to be printed.
pub fn next_wait_step(operation: &str, poll: ProcessPoll, now_ms: u64, deadline_ms: u64, timeout_secs: &str) -> (r: WaitStep)
    ensures
        wait_step_view(r) == wait_step_spec(operation@, poll, now_ms, deadline_ms, timeout_secs@),
{
    match poll {
        ProcessPoll::Exited => WaitStep::Collect,
        ProcessPoll::Running => {
            if now_ms < deadline_ms {
                WaitStep::Sleep
            } else {
                let mut m = operation.to_owned();
                m.append(" timed out after ");
                m.append(timeout_secs);
                m.append(" seconds");
                WaitStep::Abandon(m)
            }
        },
        ProcessPoll::Failed(e) => {
            let mut m = "could not monitor ".to_owned();
            m.append(operation);
            m.append(": ");
            m.append(e.as_str());
            WaitStep::Abandon(m)
        },
    }
}

/// A command is never waited for past its deadline: once time is up, a running command is
/// abandoned rather than slept on.
pub proof fn lemma_no_wait_past_deadline(operation: Seq<char>, now: u64, deadline: u64, secs: Seq<char>)
    requires
        now >= deadline,
    ensures
        wait_step_spec(operation, ProcessPoll::Running, now, deadline, secs) matches Some(Some(_)),
{
}

} // verus!
