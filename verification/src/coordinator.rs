//! The playback queue coordinator: the one piece of real state in the bot.
//!
//! A [`Coordinator`] owns the FIFO list of pending tracks for a single voice
//! session together with the "completion listener" slot.  Callers (the
//! command handler and the playback engine's completion callback) drive it
//! with plain values: the presence of a session handle and the outcome the
//! stream locator reported for the head track.  The coordinator decides what
//! happens — pop, start, announce, finish, or ignore — and hands the action
//! back as a value for the unverified runtime to carry out.  All suspension
//! (network lookups, audio submission, message delivery) therefore happens
//! outside the lock that the runtime wraps around this value.

use vstd::prelude::*;

use crate::data::{SessionHandle, Song, StreamHandle};

use std::collections::VecDeque;

verus! {

/// What the stream locator reported for the search query built from one
/// track: a playable stream, or no match at all.
#[derive(Clone, Debug, PartialEq)]
pub enum Resolution {
    Found(StreamHandle),
    NoMatch,
}

/// Why a play request could not start playback.
#[derive(Clone, Copy, Debug, PartialEq, Eq)]
pub enum StartError {
    /// No voice-session handle is available; checked before any dequeue, so
    /// the queue is left untouched.
    NotInSession,
    /// Nothing is queued; a no-op, not a failure requiring recovery.
    EmptyQueue,
    /// The stream locator found no match for the popped track.  The track is
    /// already consumed; the rest of the queue stays usable.
    ResolutionFailed,
}

/// A successfully started turn: the track that was popped and the stream the
/// runtime must submit to the playback engine, announcing the track as now
/// playing.
#[derive(Clone, Debug, PartialEq)]
pub struct Started {
    pub track: Song,
    pub stream: StreamHandle,
}

/// What a completion event led to.
#[derive(Clone, Debug, PartialEq)]
pub enum CompletionOutcome {
    /// The listener had already been detached (manual stop); nothing changed.
    Ignored,
    /// The queue was empty: announce "queue finished" exactly once and attend
    /// to no further events.
    Finished,
    /// The next track was popped and is to be submitted and announced.
    Advanced(Started),
    /// The next track was popped but its stream could not be resolved; the
    /// track is lost and the failure is surfaced, with no automatic retry.
    AdvanceFailed(Song),
}

/// The queue coordinator for one voice session.
///
/// Insertion order is playback order; no reordering and no deduplication.
/// The `listening` flag models the completion-listener slot: a single
/// replaceable registration, never an accumulating list.
pub struct Coordinator {
    queue: VecDeque<Song>,
    listener: bool,
}

impl Coordinator {
    /// The pending tracks, head first: the abstract state of the queue.
    pub closed spec fn pending(self) -> Seq<Song> {
        self.queue@
    }

    /// Whether a completion listener is currently attached.
    pub closed spec fn listening(self) -> bool {
        self.listener
    }

    /// A fresh coordinator: empty queue, no listener.
    pub fn new() -> (coordinator: Coordinator)
        ensures
            coordinator.pending() == Seq::<Song>::empty(),
            !coordinator.listening(),
    {
        Coordinator { queue: VecDeque::new(), listener: false }
    }

    /// Appends `tracks` to the tail of the queue, preserving their order.
    pub fn enqueue_many(&mut self, tracks: Vec<Song>)
        ensures
            final(self).pending() == old(self).pending() + tracks@,
            final(self).listening() == old(self).listening(),
    {
        let ghost full = tracks@;
        let mut rest = tracks;
        while rest.len() > 0
            invariant
                self.queue@ + rest@ == old(self).queue@ + full,
                self.listener == old(self).listener,
            decreases rest.len(),
        {
            let track = rest.remove(0);
            self.queue.push_back(track);
            proof {
                assert(self.queue@ + rest@ =~= old(self).queue@ + full);
            }
        }
        proof {
            assert(self.queue@ =~= self.queue@ + rest@);
        }
    }

    /// Appends a single track to the tail of the queue.
    pub fn enqueue_one(&mut self, track: Song)
        ensures
            final(self).pending() == old(self).pending().push(track),
            final(self).listening() == old(self).listening(),
    {
        self.queue.push_back(track);
    }

    /// Number of pending tracks.
    pub fn len(&self) -> (n: usize)
        ensures
            n == self.pending().len(),
    {
        self.queue.len()
    }

    /// Whether no track is pending.
    pub fn is_empty(&self) -> (empty: bool)
        ensures
            empty == (self.pending().len() == 0),
    {
        self.queue.len() == 0
    }

    /// Whether a completion listener is attached.
    pub fn is_listening(&self) -> (listening: bool)
        ensures
            listening == self.listening(),
    {
        self.listener
    }

    /// The head track, if any: the one the next play request or completion
    /// event would pop.  The runtime uses it to build the search query before
    /// taking the lock again.
    pub fn peek_next(&self) -> (head: Option<&Song>)
        ensures
            match head {
                Some(track) => self.pending().len() > 0 && *track == self.pending()[0],
                None => self.pending().len() == 0,
            },
    {
        if self.queue.len() > 0 {
            Some(&self.queue[0])
        } else {
            None
        }
    }

    /// Detaches the completion listener, as a manual stop or skip does.  The
    /// queue is not consulted and not changed; a completion event arriving
    /// afterwards is ignored.
    pub fn detach_listener(&mut self)
        ensures
            final(self).pending() == old(self).pending(),
            !final(self).listening(),
    {
        self.listener = false;
    }

    /// Starts (or resumes) queue-driven playback: pops the head track, pairs
    /// it with the stream the locator resolved for it, and (re)attaches the
    /// completion listener.
    ///
    /// `session` is the voice-session handle, if the bot holds one; it is
    /// checked before any dequeue, so a failed start never drops a track.
    /// `resolution` is the stream locator's outcome for the head track;
    /// it is ignored when no session is present or nothing is queued.
    pub fn start_or_resume(
        &mut self,
        session: Option<&SessionHandle>,
        resolution: Resolution,
    ) -> (started: Result<Started, StartError>)
        ensures
            // With no session handle the request is rejected before any
            // dequeue: the queue and the listener slot are untouched.
            session is None ==> ({
                &&& started == Err::<Started, StartError>(StartError::NotInSession)
                &&& *final(self) == *old(self)
            }),
            // An empty queue is reported as such; nothing is popped, nothing
            // is submitted, nothing is announced.
            session is Some && old(self).pending().len() == 0 ==> ({
                &&& started == Err::<Started, StartError>(StartError::EmptyQueue)
                &&& final(self).pending() == old(self).pending()
                &&& final(self).listening() == old(self).listening()
            }),
            // A failed resolution has already consumed the head track; the
            // failure is surfaced and the remaining order is preserved, with
            // no automatic retry and no announcement for the lost track.
            session is Some && old(self).pending().len() > 0 && resolution is NoMatch ==> ({
                &&& started == Err::<Started, StartError>(StartError::ResolutionFailed)
                &&& final(self).pending() == old(self).pending().drop_first()
                &&& final(self).listening() == old(self).listening()
            }),
            // Success: the head track and its stream are handed back for
            // submission and announcement, and the listener is (re)attached —
            // replaced, never accumulated.
            session is Some && old(self).pending().len() > 0 ==> (resolution matches
                Resolution::Found(stream) ==> ({
                &&& started == Ok::<Started, StartError>(
                    (Started { track: old(self).pending()[0], stream }),
                )
                &&& final(self).pending() == old(self).pending().drop_first()
                &&& final(self).listening()
            })),
            // Whenever a track is popped for playback the queue shrinks by
            // exactly one, whether or not the resolution succeeded.
            session is Some && old(self).pending().len() > 0 ==> final(self).pending().len()
                == old(self).pending().len() - 1,
    {
        if session.is_none() {
            return Err(StartError::NotInSession);
        }
        match self.queue.pop_front() {
            None => Err(StartError::EmptyQueue),
            Some(track) => match resolution {
                Resolution::Found(stream) => {
                    self.listener = true;
                    Ok(Started { track, stream })
                },
                Resolution::NoMatch => Err(StartError::ResolutionFailed),
            },
        }
    }

    /// Reacts to a "track finished" event from the playback engine.
    ///
    /// With the listener detached the event is a stale leftover of a manual
    /// stop and does nothing.  Otherwise, an empty queue ends the run with a
    /// single "queue finished" announcement and no re-registration, and a
    /// non-empty queue is advanced: the head track is popped and handed back
    /// for submission and announcement, paired with `resolution`, the stream
    /// locator's outcome for it.
    ///
    /// A failed advance drops only that track and is surfaced, never skipped
    /// over silently: there is no automatic retry, and the queue stays usable
    /// — a later play request picks up from the next track.
    pub fn on_completion_event(&mut self, resolution: Resolution) -> (outcome: CompletionOutcome)
        ensures
            // A completion event after the listener was detached is a no-op:
            // the queue is not mutated and nothing is announced.
            !old(self).listening() ==> ({
                &&& outcome == CompletionOutcome::Ignored
                &&& *final(self) == *old(self)
            }),
            // Draining the queue announces "queue finished" exactly once: the
            // listener is dropped, so later stray events are ignored.
            old(self).listening() && old(self).pending().len() == 0 ==> ({
                &&& outcome == CompletionOutcome::Finished
                &&& final(self).pending() == old(self).pending()
                &&& !final(self).listening()
            }),
            // Advancing pops exactly the head track; the rest keeps its
            // order and the listener stays attached for the next event.
            old(self).listening() && old(self).pending().len() > 0 ==> ({
                &&& final(self).pending() == old(self).pending().drop_first()
                &&& final(self).listening()
                &&& final(self).pending().len() == old(self).pending().len() - 1
            }),
            // With a resolved stream the popped track is to be submitted and
            // announced as now playing.
            old(self).listening() && old(self).pending().len() > 0 ==> (resolution matches
                Resolution::Found(stream) ==> outcome == CompletionOutcome::Advanced(
                (Started { track: old(self).pending()[0], stream }),
            )),
            // With no match the popped track is lost and the failure is
            // surfaced; no announcement, no automatic retry.
            old(self).listening() && old(self).pending().len() > 0 && resolution is NoMatch
                ==> outcome == CompletionOutcome::AdvanceFailed(old(self).pending()[0]),
    {
        if !self.listener {
            return CompletionOutcome::Ignored;
        }
        match self.queue.pop_front() {
            None => {
                self.listener = false;
                CompletionOutcome::Finished
            },
            Some(track) => match resolution {
                Resolution::Found(stream) => CompletionOutcome::Advanced(
                    Started { track, stream },
                ),
                Resolution::NoMatch => CompletionOutcome::AdvanceFailed(track),
            },
        }
    }
}

/// The queue contents after bulk enqueues of `batches`, in order, onto a
/// queue already holding `q` — each step is exactly what
/// [`Coordinator::enqueue_many`] ensures.
pub open spec fn enqueue_all(q: Seq<Song>, batches: Seq<Seq<Song>>) -> Seq<Song>
    decreases batches.len(),
{
    if batches.len() == 0 {
        q
    } else {
        enqueue_all(q + batches.first(), batches.drop_first())
    }
}

/// The concatenation of `batches` into one sequence, keeping both the order
/// of the batches and the order inside each batch.
pub open spec fn concat_batches(batches: Seq<Seq<Song>>) -> Seq<Song>
    decreases batches.len(),
{
    if batches.len() == 0 {
        Seq::<Song>::empty()
    } else {
        batches.first() + concat_batches(batches.drop_first())
    }
}

/// FIFO, enqueue half: any sequence of bulk enqueues leaves the queue
/// holding what it held before followed by the concatenation of the batches
/// in enqueue order — no reordering, no deduplication.  In particular a
/// coordinator that started empty holds exactly `concat_batches(batches)`.
pub proof fn lemma_enqueue_order(q: Seq<Song>, batches: Seq<Seq<Song>>)
    ensures
        enqueue_all(q, batches) == q + concat_batches(batches),
    decreases batches.len(),
{
    if batches.len() == 0 {
        assert(q + concat_batches(batches) =~= q);
    } else {
        lemma_enqueue_order(q + batches.first(), batches.drop_first());
        assert((q + batches.first()) + concat_batches(batches.drop_first()) =~= q + (
        batches.first() + concat_batches(batches.drop_first())));
    }
}

/// FIFO, pop half: every pop for playback removes the head and keeps the
/// rest in order, so after `k` pops of a queue that held `q` the queue holds
/// `q.skip(k)`, and the track popped next is `q[k]` — the popped order is
/// exactly the enqueued order.
pub proof fn lemma_pop_order(q: Seq<Song>, k: int)
    requires
        0 <= k < q.len(),
    ensures
        q.skip(k)[0] == q[k],
        q.skip(k).drop_first() == q.skip(k + 1),
        q.skip(0) == q,
{
    assert(q.skip(k).drop_first() =~= q.skip(k + 1));
    assert(q.skip(0) =~= q);
}

} // verus!
