use crate::json::Json;
use crate::session_io;
use crate::session_io::Subscription;
use crate::stream;
use crate::stream::{can_inspect_chat, IoStream};
use vstd::prelude::*;

verus! {

/// What is to be done next for a client that follows a session.
#[derive(PartialEq, Eq, Structural, Clone, Copy, Debug)]
pub enum FollowTask {
    /// Wait for a tick, an event, or the end of either side.
    Wait,
    /// Check that the client may still see the session. The check comes once for the round, and
    /// once before each batch.
    Authorize { batch: bool },
    /// Read the next batch of stored events, and send what the client sees of them.
    ReadBatch,
    /// Send the snapshots of open drafts.
    SendSnapshots,
    /// Send the update of a draft that came.
    SendUpdate,
    /// Tell the client that the connection remembers too much, and end.
    Reset,
    End,
}

/// What came of a task.
pub enum FollowInput {
    /// The client or the session's source is gone, or something cannot be read.
    Gone,
    Tick,
    /// An event came, with the update of a draft where it holds one.
    Event(Option<Json>),
    Access(bool),
    /// A batch of this size was read and sent.
    Batch(usize),
    SnapshotsSent,
    UpdateSent,
}

/// A client that follows a session.
pub struct Following {
    pub stream: IoStream,
    /// Whether the client sees drafts at all.
    pub drafts: bool,
    pub task: FollowTask,
    /// Whether the round was begun by a tick.
    pub ticked: bool,
    /// The update that the round is about.
    pub update: Option<Json>,
}

/// How a round begins: with a reset where the connection remembers too much.
pub open spec fn round_start(full: bool) -> FollowTask {
    if full {
        FollowTask::Reset
    } else {
        FollowTask::Wait
    }
}

/// What follows once the stored events are all sent: the drafts, where the client sees them.
pub open spec fn after_gap(drafts: bool, snapshots: bool, update: bool, full: bool) -> FollowTask {
    if !drafts {
        round_start(full)
    } else if snapshots {
        FollowTask::SendSnapshots
    } else if update {
        FollowTask::SendUpdate
    } else {
        round_start(full)
    }
}

impl Following {
    pub open spec fn full(self) -> bool {
        self.stream.seen@.len() > session_io::IO_HISTORY_LIMIT || self.stream.terminal_roots@.len()
            > session_io::IO_HISTORY_LIMIT
    }

    /// The task that follows the present one. What cannot come of it ends the connection.
    pub open spec fn task_after(self, input: FollowInput) -> FollowTask {
        match (self.task, input) {
            (FollowTask::Wait, FollowInput::Tick) => FollowTask::Authorize { batch: false },
            (FollowTask::Wait, FollowInput::Event(_)) => FollowTask::Authorize { batch: false },
            (FollowTask::Authorize { batch }, FollowInput::Access(allowed)) => if !allowed {
                FollowTask::End
            } else if batch {
                FollowTask::ReadBatch
            } else {
                FollowTask::Authorize { batch: true }
            },
            (FollowTask::ReadBatch, FollowInput::Batch(count)) => if count
                >= session_io::IO_BATCH_SIZE {
                FollowTask::Authorize { batch: true }
            } else {
                after_gap(
                    self.drafts,
                    self.stream.first || self.ticked,
                    self.update is Some,
                    self.full(),
                )
            },
            (FollowTask::SendSnapshots, FollowInput::SnapshotsSent) => if self.update is Some {
                FollowTask::SendUpdate
            } else {
                round_start(self.full())
            },
            (FollowTask::SendUpdate, FollowInput::UpdateSent) => round_start(self.full()),
            _ => FollowTask::End,
        }
    }

    pub fn open(session: String, after: u64, preferences: &Subscription) -> (r: Following)
        ensures
            r.stream.session == session,
            r.stream.after == after,
            r.stream.first,
            r.stream.seen@ == Map::<Seq<char>, u64>::empty(),
            r.stream.terminal_roots@ == Set::<Seq<char>>::empty(),
            r.drafts == stream::follows_drafts(*preferences),
            r.task == FollowTask::Wait,
            r.update is None,
    {
        Following {
            stream: IoStream::open(session, after),
            drafts: can_inspect_chat(preferences),
            task: FollowTask::Wait,
            ticked: false,
            update: None,
        }
    }

    fn begin_round(&self) -> (r: FollowTask)
        ensures
            r == round_start(self.full()),
    {
        if self.stream.history_is_full() {
            FollowTask::Reset
        } else {
            FollowTask::Wait
        }
    }

    /// Goes on to the task that follows.
    pub fn advance(&mut self, input: FollowInput)
        ensures
            final(self).task == old(self).task_after(input),
            final(self).drafts == old(self).drafts,
            final(self).stream == (if input is SnapshotsSent {
                IoStream { first: false, ..old(self).stream }
            } else {
                old(self).stream
            }),
            match input {
                FollowInput::Tick => final(self).ticked && final(self).update is None,
                FollowInput::Event(update) => !final(self).ticked && final(self).update == update,
                _ => final(self).ticked == old(self).ticked && final(self).update == old(
                    self,
                ).update,
            },
    {
        match input {
            FollowInput::Gone => {
                self.task = FollowTask::End;
            },
            FollowInput::Tick => {
                self.ticked = true;
                self.update = None;
                self.task =
                if self.task == FollowTask::Wait {
                    FollowTask::Authorize { batch: false }
                } else {
                    FollowTask::End
                };
            },
            FollowInput::Event(update) => {
                self.ticked = false;
                self.update = update;
                self.task =
                if self.task == FollowTask::Wait {
                    FollowTask::Authorize { batch: false }
                } else {
                    FollowTask::End
                };
            },
            FollowInput::Access(allowed) => {
                self.task =
                match self.task {
                    FollowTask::Authorize { batch } => if !allowed {
                        FollowTask::End
                    } else if batch {
                        FollowTask::ReadBatch
                    } else {
                        FollowTask::Authorize { batch: true }
                    },
                    _ => FollowTask::End,
                };
            },
            FollowInput::Batch(count) => {
                self.task =
                if self.task != FollowTask::ReadBatch {
                    FollowTask::End
                } else if !IoStream::is_drained(count) {
                    FollowTask::Authorize { batch: true }
                } else if !self.drafts {
                    self.begin_round()
                } else if self.stream.wants_snapshots(self.ticked) {
                    FollowTask::SendSnapshots
                } else if self.update.is_some() {
                    FollowTask::SendUpdate
                } else {
                    self.begin_round()
                };
            },
            FollowInput::SnapshotsSent => {
                self.task =
                if self.task != FollowTask::SendSnapshots {
                    FollowTask::End
                } else if self.update.is_some() {
                    FollowTask::SendUpdate
                } else {
                    self.begin_round()
                };
                self.stream.snapshots_done();
            },
            FollowInput::UpdateSent => {
                self.task =
                if self.task == FollowTask::SendUpdate {
                    self.begin_round()
                } else {
                    FollowTask::End
                };
            },
        }
    }
}

/// Stored events are read only right after the client was found to be allowed, and nothing follows
/// where it is not.
pub proof fn law_every_batch_is_authorized(following: Following, input: FollowInput)
    ensures
        following.task_after(input) == FollowTask::ReadBatch ==> following.task
            == (FollowTask::Authorize { batch: true }) && input == FollowInput::Access(true),
        input == FollowInput::Access(false) ==> following.task_after(input) == FollowTask::End,
{
}

/// Drafts are sent only once the stored events before them are all sent, and never to a client that
/// does not see drafts.
pub proof fn law_drafts_come_after_the_stored_events(following: Following, input: FollowInput)
    requires
        following.task_after(input) == FollowTask::SendSnapshots || following.task_after(input)
            == FollowTask::SendUpdate,
    ensures
        following.task == FollowTask::SendSnapshots || (following.drafts && following.task
            == FollowTask::ReadBatch && (input matches FollowInput::Batch(count) && count
            < session_io::IO_BATCH_SIZE)),
{
}

/// A connection that is over stays over, and one that remembers too much waits for nothing more.
pub proof fn law_a_following_ends_for_good(following: Following, input: FollowInput)
    ensures
        following.task == FollowTask::End || following.task == FollowTask::Reset
            ==> following.task_after(input) == FollowTask::End,
        following.task_after(input) == FollowTask::Wait ==> !following.full(),
{
}

/// Whatever wakes a connection, it asks first whether it may go on, asks again before each batch, and
/// ends where it may not.
pub proof fn law_connections_ask_before_they_read(following: Following, event: Option<Json>)
    ensures
        following.task == FollowTask::Wait ==> {
            &&& following.task_after(FollowInput::Tick) == (FollowTask::Authorize { batch: false })
            &&& following.task_after(FollowInput::Event(event)) == (FollowTask::Authorize {
                batch: false,
            })
            &&& following.task_after(FollowInput::Gone) == FollowTask::End
        },
        following.task is Authorize ==> following.task_after(FollowInput::Access(false))
            == FollowTask::End,
        following.task == (FollowTask::Authorize { batch: false }) ==> following.task_after(
            FollowInput::Access(true),
        ) == (FollowTask::Authorize { batch: true }),
        following.task == (FollowTask::Authorize { batch: true }) ==> following.task_after(
            FollowInput::Access(true),
        ) == FollowTask::ReadBatch,
{
}

/// A full batch is followed by another one. Behind the last one come the snapshots where the stream
/// is new or the clock woke it, then the update that woke it, and then it waits; a connection that
/// shows no drafts waits at once, and one that remembers too much starts anew in place of waiting.
pub proof fn law_rounds_end_behind_the_last_batch(following: Following, count: usize)
    ensures
        ({
            let crowded = following.stream.seen@.len() > 4096
                || following.stream.terminal_roots@.len() > 4096;
            let rest = if crowded {
                FollowTask::Reset
            } else {
                FollowTask::Wait
            };
            let snapshots = following.stream.first || following.ticked;
            &&& following.task == FollowTask::ReadBatch ==> {
                let next = following.task_after(FollowInput::Batch(count));
                &&& count >= 256 ==> next == (FollowTask::Authorize { batch: true })
                &&& count < 256 && !following.drafts ==> next == rest
                &&& count < 256 && following.drafts && snapshots ==> next
                    == FollowTask::SendSnapshots
                &&& count < 256 && following.drafts && !snapshots && following.update is Some
                    ==> next == FollowTask::SendUpdate
                &&& count < 256 && following.drafts && !snapshots && following.update is None
                    ==> next == rest
            }
            &&& following.task == FollowTask::SendSnapshots ==> following.task_after(
                FollowInput::SnapshotsSent,
            ) == if following.update is Some {
                FollowTask::SendUpdate
            } else {
                rest
            }
            &&& following.task == FollowTask::SendUpdate ==> following.task_after(
                FollowInput::UpdateSent,
            ) == rest
        }),
{
}

} // verus!
