//! The background task that keeps one service announced.
//!
//! The task runs in rounds. In each round it looks for a message first. On a
//! message it ends; else it announces the service, sleeps, and starts the
//! next round.

use vstd::prelude::*;

verus! {

/// What a caller needs to run the background task that keeps a service
/// announced: the gateway, the service and its port.
#[derive(Debug, Clone, PartialEq, Eq)]
pub struct AnnounceTask {
    pub url: String,
    pub service: String,
    pub port: u16,
}

/// A message to the background task of a service.
#[derive(Debug, Clone, Copy, PartialEq, Eq, Structural)]
pub enum AnnounceMessage {
    /// The task is to end.
    STOP,
}

/// What the background task of a service does next.
#[derive(Debug, Clone, Copy, PartialEq, Eq, Structural)]
pub enum TaskStep {
    /// The task ends, and sends nothing more.
    Stop,
    /// The task announces the service, repeating a failed attempt after
    /// `retry_secs` seconds, then sleeps for `pause_secs` seconds and looks
    /// for a message again.
    Announce { retry_secs: u64, pause_secs: u64 },
}

/// The seconds between two attempts of a background task to announce.
pub const ANNOUNCE_RETRY_PERIOD: u64 = 1;

/// The seconds between two announcements of a service. A gateway forgets a
/// service two minutes after its last announcement.
pub const REANNOUNCE_PERIOD: u64 = 60;

/// What a background task does after it has looked for a message: it ends on
/// any message, and announces once more where there is none.
pub open spec fn task_decision(message: Option<AnnounceMessage>) -> TaskStep {
    match message {
        Some(_) => TaskStep::Stop,
        None => TaskStep::Announce {
            retry_secs: ANNOUNCE_RETRY_PERIOD,
            pause_secs: REANNOUNCE_PERIOD,
        },
    }
}

impl AnnounceTask {
    /// Decides what the background task does next, from what it found when
    /// it looked for a message. It looks before every announcement, so a
    /// message ends it before it sends anything more.
    pub fn next_step(message: Option<AnnounceMessage>) -> (step: TaskStep)
        ensures
            step == task_decision(message),
    {
        match message {
            Some(_) => TaskStep::Stop,
            None => TaskStep::Announce {
                retry_secs: ANNOUNCE_RETRY_PERIOD,
                pause_secs: REANNOUNCE_PERIOD,
            },
        }
    }
}

/// The steps that a background task takes over what it finds each time it
/// looks for a message.
pub open spec fn task_steps(found: Seq<Option<AnnounceMessage>>) -> Seq<TaskStep> {
    found.map_values(|message: Option<AnnounceMessage>| task_decision(message))
}

/// The message that an accepted stop hands out ends the task that receives
/// it: the task announces nothing after it has seen the message.
pub proof fn lemma_stop_message_ends_task(message: AnnounceMessage)
    ensures
        task_decision(Some(message)) == TaskStep::Stop,
{
}

/// A background task announces once each time it finds no message, and ends
/// the first time it finds one, without another announcement.
pub proof fn lemma_task_ends_at_first_message(found: Seq<Option<AnnounceMessage>>, first: int)
    requires
        0 <= first < found.len(),
        found[first] is Some,
        forall|i: int| 0 <= i < first ==> #[trigger] found[i] is None,
    ensures
        task_steps(found)[first] == TaskStep::Stop,
        forall|i: int|
            0 <= i < first ==> #[trigger] task_steps(found)[i] == (TaskStep::Announce {
                retry_secs: ANNOUNCE_RETRY_PERIOD,
                pause_secs: REANNOUNCE_PERIOD,
            }),
{
    assert forall|i: int| 0 <= i < first implies #[trigger] task_steps(found)[i]
        == (TaskStep::Announce {
        retry_secs: ANNOUNCE_RETRY_PERIOD,
        pause_secs: REANNOUNCE_PERIOD,
    }) by {
        assert(found[i] is None);
    }
}

} // verus!
