//! The peripheral session manager: the public-facing coordinator that owns
//! the reader handle, the detection channel, and the lifecycle of the two
//! background loops (polling and distribution).
//!
//! The manager is the only component allowed to create or tear down a
//! detection session. Callers serialize all access through one exclusion
//! boundary (a mutex around the manager); under that boundary every
//! transition here is a plain, verified state change. The background loops
//! themselves live with the runtime: the polling loop calls
//! [`RFIDManager::poll_tick`] with each sample, the distribution loop calls
//! [`RFIDManager::distribute_step`] and hands each returned event to the
//! subscriber. Task lifetimes are modeled by explicit task counts so that
//! "no leaked background work" is a provable statement, not a hope.

use vstd::prelude::*;

use crate::channel::{EventChannel, EVENT_CHANNEL_CAPACITY};
use crate::errors::Error;
use crate::payment::{dec_str, PaymentResultDetails};
use crate::reader::{extract_card_number_spec, RFIDReader};
use crate::DetectionEvent;

verus! {

/// The payload of one detection as the presentation layer receives it: the
/// raw identifier and its two derived parts.
#[derive(Clone, Debug)]
pub struct RfidDataCacheForEvent {
    pub raw: String,
    pub main: String,
    pub sub: String,
}

/// Read-only snapshot of the manager: whether a reader handle exists and
/// whether a detection session is active.
#[derive(Clone, Copy, Debug, PartialEq, Eq, Structural)]
pub struct RfidStatus {
    pub initialized: bool,
    pub polling: bool,
}

impl RfidStatus {
    /// The short readiness label the presentation layer shows.
    pub fn label(&self) -> (r: String)
        ensures
            self.initialized ==> r@ == "ready"@,
            !self.initialized ==> r@ == "not_initialized"@,
    {
        if self.initialized {
            String::from_str("ready")
        } else {
            String::from_str("not_initialized")
        }
    }
}

/// What one polling iteration did with its sample.
pub enum PollStatus {
    /// The session is no longer running: the loop must exit now.
    Stopped,
    /// No card was presented this iteration.
    Idle,
    /// The detection was queued for distribution.
    Sent,
    /// The queue was full; the newest event was dropped, as documented.
    Dropped,
}

/// The session manager.
pub struct RFIDManager {
    reader: Option<RFIDReader>,
    running: bool,
    channel: Option<EventChannel>,
    polling_tasks: u32,
    distribution_tasks: u32,
}

impl RFIDManager {
    /// Whether a reader handle exists.
    pub closed spec fn initialized_spec(&self) -> bool {
        self.reader is Some
    }

    /// Whether a detection session is active.
    pub closed spec fn polling_spec(&self) -> bool {
        self.running
    }

    /// The reader handle, if any.
    pub closed spec fn reader_spec(&self) -> Option<RFIDReader> {
        self.reader
    }

    /// Whether a detection channel (and with it a distribution loop) exists.
    pub closed spec fn has_channel(&self) -> bool {
        self.channel is Some
    }

    /// Whether the channel's producer side is open.
    pub closed spec fn producer_alive(&self) -> bool {
        match self.channel {
            Some(c) => c.producer_alive(),
            None => false,
        }
    }

    /// Events queued for distribution, oldest first.
    pub closed spec fn queued(&self) -> Seq<DetectionEvent> {
        match self.channel {
            Some(c) => c.queued(),
            None => Seq::empty(),
        }
    }

    /// Every event the current session accepted, oldest first.
    pub closed spec fn accepted(&self) -> Seq<DetectionEvent> {
        match self.channel {
            Some(c) => c.accepted(),
            None => Seq::empty(),
        }
    }

    /// Every event the current session delivered to the subscriber.
    pub closed spec fn delivered(&self) -> Seq<DetectionEvent> {
        match self.channel {
            Some(c) => c.delivered(),
            None => Seq::empty(),
        }
    }

    /// How many polling loops are alive.
    pub closed spec fn polling_task_count(&self) -> u32 {
        self.polling_tasks
    }

    /// How many distribution loops are alive.
    pub closed spec fn distribution_task_count(&self) -> u32 {
        self.distribution_tasks
    }

    /// The manager's invariants: a session runs only with a reader; the
    /// producer handle exists exactly while the session runs; exactly one
    /// polling loop is alive while running and none otherwise; exactly one
    /// distribution loop is alive while a channel exists and none otherwise.
    pub closed spec fn well_formed(&self) -> bool {
        &&& self.running ==> self.reader is Some
        &&& self.running ==> self.channel is Some
        &&& (match self.channel {
            Some(c) => c.well_formed() && c.capacity() == EVENT_CHANNEL_CAPACITY
                && c.producer_alive() == self.running,
            None => true,
        })
        &&& self.polling_tasks == (if self.running {
            1u32
        } else {
            0u32
        })
        &&& self.distribution_tasks == (if self.channel is Some {
            1u32
        } else {
            0u32
        })
    }

    /// What `stop_polling` does to the state: a no-op when no session runs;
    /// otherwise it clears the running flag, closes the producer side of the
    /// channel (leaving queued events for the drain), and ends the polling
    /// loop. The reader handle and the distribution loop are untouched.
    pub closed spec fn stop_transition(pre: RFIDManager, post: RFIDManager) -> bool {
        if pre.running {
            &&& post.reader == pre.reader
            &&& post.running == false
            &&& post.polling_tasks == 0
            &&& post.distribution_tasks == pre.distribution_tasks
            &&& (match (pre.channel, post.channel) {
                (Some(c0), Some(c1)) => c1 == c0.with_closed_producer(),
                (None, None) => true,
                _ => false,
            })
        } else {
            post == pre
        }
    }

    /// What `start_detection` does to the state: a no-op while already
    /// polling and a no-op (failing) without a reader; otherwise it brings a
    /// fresh, empty, open channel and one loop of each kind alive.
    pub closed spec fn start_transition(pre: RFIDManager, post: RFIDManager) -> bool {
        if pre.running {
            post == pre
        } else if pre.reader is None {
            post == pre
        } else {
            &&& post.reader == pre.reader
            &&& post.running == true
            &&& post.polling_tasks == 1
            &&& post.distribution_tasks == 1
            &&& (match post.channel {
                Some(c) => c.well_formed() && c.capacity() == EVENT_CHANNEL_CAPACITY
                    && c.producer_alive() && c.queued() =~= Seq::<DetectionEvent>::empty()
                    && c.accepted() =~= Seq::<DetectionEvent>::empty() && c.delivered() =~= Seq::<
                    DetectionEvent,
                >::empty(),
                None => false,
            })
        }
    }

    /// A fresh manager: no reader, no session, no background work.
    pub fn new() -> (r: RFIDManager)
        ensures
            r.well_formed(),
            !r.initialized_spec(),
            !r.polling_spec(),
            !r.has_channel(),
            r.polling_task_count() == 0,
            r.distribution_task_count() == 0,
    {
        RFIDManager {
            reader: None,
            running: false,
            channel: None,
            polling_tasks: 0,
            distribution_tasks: 0,
        }
    }

    /// Construct a reader handle for the given port, perform the device
    /// handshake, and store the handle. Idempotent: a later call replaces
    /// the previous handle (the replacement happens on handshake success;
    /// the simulated handshake always succeeds). No effect on the session.
    pub fn initialize(&mut self, port: &str, baud: u32) -> (r: Result<(), Error>)
        requires
            old(self).well_formed(),
        ensures
            final(self).well_formed(),
            r is Ok,
            final(self).initialized_spec(),
            (match final(self).reader_spec() {
                Some(rd) => rd.port_name_spec() == port@ && rd.baud_rate_spec() == baud,
                None => false,
            }),
            final(self).polling_spec() == old(self).polling_spec(),
            final(self).has_channel() == old(self).has_channel(),
            final(self).queued() == old(self).queued(),
            final(self).accepted() == old(self).accepted(),
            final(self).delivered() == old(self).delivered(),
            final(self).producer_alive() == old(self).producer_alive(),
            final(self).polling_task_count() == old(self).polling_task_count(),
            final(self).distribution_task_count() == old(self).distribution_task_count(),
    {
        let mut reader = RFIDReader::new(port, baud);
        let handshake = reader.init_port();
        match handshake {
            Ok(_) => {
                self.reader = Some(reader);
                Ok(())
            },
            Err(e) => Err(e),
        }
    }

    /// Begin a detection session. Requires an initialized reader; fails with
    /// [`Error::NotInitialized`] otherwise. Idempotent while already polling:
    /// a second call succeeds and changes nothing, so no second pair of
    /// loops can ever be spawned. Otherwise a fresh bounded channel is
    /// allocated — each session gets its own conduit to the subscriber — and
    /// one polling loop and one distribution loop come alive.
    pub fn start_detection(&mut self) -> (r: Result<(), Error>)
        requires
            old(self).well_formed(),
        ensures
            final(self).well_formed(),
            Self::start_transition(*old(self), *final(self)),
            old(self).polling_spec() ==> r is Ok && *final(self) == *old(self),
            !old(self).polling_spec() && !old(self).initialized_spec() ==> r == Err::<(), Error>(
                Error::NotInitialized,
            ) && *final(self) == *old(self),
            final(self).initialized_spec() == old(self).initialized_spec(),
            !old(self).polling_spec() && old(self).initialized_spec() ==> {
                &&& r is Ok
                &&& final(self).polling_spec()
                &&& final(self).reader_spec() == old(self).reader_spec()
                &&& final(self).has_channel()
                &&& final(self).producer_alive()
                &&& final(self).queued() =~= Seq::<DetectionEvent>::empty()
                &&& final(self).accepted() =~= Seq::<DetectionEvent>::empty()
                &&& final(self).delivered() =~= Seq::<DetectionEvent>::empty()
                &&& final(self).polling_task_count() == 1
                &&& final(self).distribution_task_count() == 1
            },
            r is Err ==> r == Err::<(), Error>(Error::NotInitialized),
    {
        if self.running {
            return Ok(());
        }
        if self.reader.is_none() {
            return Err(Error::NotInitialized);
        }
        self.channel = Some(EventChannel::new(EVENT_CHANNEL_CAPACITY));
        self.running = true;
        self.polling_tasks = 1;
        self.distribution_tasks = 1;
        Ok(())
    }

    /// Whether a detection session is active right now.
    pub fn is_polling(&self) -> (r: bool)
        ensures
            r == self.polling_spec(),
    {
        self.running
    }

    /// End the detection session. Idempotent: with no session running this
    /// succeeds and changes nothing. Otherwise the running flag falls first
    /// (so the polling loop's next check observes it), the stored producer
    /// handle is dropped (closing the channel, so the distribution loop ends
    /// once it has drained), and the polling loop is cancelled as a backstop.
    /// When this returns, no polling loop is alive and the reader handle
    /// remains — only detection stops, not initialization.
    pub fn stop_polling(&mut self) -> (r: Result<(), Error>)
        requires
            old(self).well_formed(),
        ensures
            final(self).well_formed(),
            r is Ok,
            Self::stop_transition(*old(self), *final(self)),
            !final(self).polling_spec(),
            final(self).polling_task_count() == 0,
            final(self).initialized_spec() == old(self).initialized_spec(),
            final(self).reader_spec() == old(self).reader_spec(),
            final(self).has_channel() == old(self).has_channel(),
            !final(self).producer_alive(),
            final(self).queued() == old(self).queued(),
            final(self).accepted() == old(self).accepted(),
            final(self).delivered() == old(self).delivered(),
            final(self).distribution_task_count() == old(self).distribution_task_count(),
    {
        if !self.running {
            return Ok(());
        }
        self.running = false;
        match &mut self.channel {
            Some(ch) => ch.close_producer(),
            None => {},
        }
        self.polling_tasks = 0;
        Ok(())
    }

    /// How many background loops are alive: polling loops, then
    /// distribution loops. Lets a harness assert that nothing leaked.
    pub fn task_counts(&self) -> (r: (u32, u32))
        ensures
            r.0 == self.polling_task_count(),
            r.1 == self.distribution_task_count(),
    {
        (self.polling_tasks, self.distribution_tasks)
    }

    /// Read-only snapshot of the manager.
    pub fn status(&self) -> (r: RfidStatus)
        ensures
            r.initialized == self.initialized_spec(),
            r.polling == self.polling_spec(),
    {
        RfidStatus { initialized: self.reader.is_some(), polling: self.running }
    }

    /// One iteration of the polling loop, fed with the sample the driver
    /// read (or `None` when no card was presented). Returns what happened:
    /// the loop must exit on [`PollStatus::Stopped`]. A full queue drops the
    /// newest event rather than blocking — the loop never deadlocks behind a
    /// slow consumer.
    pub fn poll_tick(&mut self, sample: Option<DetectionEvent>) -> (r: PollStatus)
        requires
            old(self).well_formed(),
        ensures
            final(self).well_formed(),
            final(self).reader_spec() == old(self).reader_spec(),
            final(self).initialized_spec() == old(self).initialized_spec(),
            final(self).polling_spec() == old(self).polling_spec(),
            final(self).polling_task_count() == old(self).polling_task_count(),
            final(self).distribution_task_count() == old(self).distribution_task_count(),
            final(self).has_channel() == old(self).has_channel(),
            final(self).producer_alive() == old(self).producer_alive(),
            final(self).delivered() == old(self).delivered(),
            !old(self).polling_spec() ==> r is Stopped && *final(self) == *old(self),
            old(self).polling_spec() && sample is None ==> r is Idle && *final(self) == *old(self),
            old(self).polling_spec() && sample is Some ==> {
                if old(self).queued().len() < EVENT_CHANNEL_CAPACITY {
                    &&& r is Sent
                    &&& final(self).queued() == old(self).queued().push(sample->0)
                    &&& final(self).accepted() == old(self).accepted().push(sample->0)
                } else {
                    &&& r is Dropped
                    &&& final(self).queued() == old(self).queued()
                    &&& final(self).accepted() == old(self).accepted()
                }
            },
    {
        if !self.running {
            return PollStatus::Stopped;
        }
        match sample {
            None => PollStatus::Idle,
            Some(event) => {
                match &mut self.channel {
                    Some(ch) => {
                        if ch.push(event) {
                            PollStatus::Sent
                        } else {
                            PollStatus::Dropped
                        }
                    },
                    None => {
                        proof {
                            assert(false);
                        }
                        PollStatus::Stopped
                    },
                }
            },
        }
    }

    /// One iteration of the distribution loop: take the oldest queued event
    /// for the subscriber, if any. With the queue momentarily empty but the
    /// producer still alive, nothing happens — the loop must keep waiting.
    /// With the queue empty and the producer gone, the drain is complete:
    /// the channel is torn down and the distribution loop ends.
    pub fn distribute_step(&mut self) -> (r: Option<DetectionEvent>)
        requires
            old(self).well_formed(),
        ensures
            final(self).well_formed(),
            final(self).reader_spec() == old(self).reader_spec(),
            final(self).initialized_spec() == old(self).initialized_spec(),
            final(self).polling_spec() == old(self).polling_spec(),
            final(self).polling_task_count() == old(self).polling_task_count(),
            !old(self).has_channel() ==> r is None && *final(self) == *old(self),
            old(self).has_channel() && old(self).queued().len() > 0 ==> {
                &&& r == Some(old(self).queued()[0])
                &&& final(self).has_channel()
                &&& final(self).queued() == old(self).queued().drop_first()
                &&& final(self).accepted() == old(self).accepted()
                &&& final(self).delivered() == old(self).delivered().push(old(self).queued()[0])
                &&& final(self).producer_alive() == old(self).producer_alive()
                &&& final(self).distribution_task_count() == old(self).distribution_task_count()
            },
            old(self).has_channel() && old(self).queued().len() == 0 && old(self).producer_alive()
                ==> r is None && *final(self) == *old(self),
            old(self).has_channel() && old(self).queued().len() == 0 && !old(self).producer_alive()
                ==> r is None && !final(self).has_channel()
                && final(self).distribution_task_count() == 0,
    {
        if self.channel.is_none() {
            return None;
        }
        let popped = match &mut self.channel {
            Some(ch) => ch.pop(),
            None => None,
        };
        match popped {
            Some(event) => Some(event),
            None => {
                let alive = match &self.channel {
                    Some(ch) => ch.is_producer_alive(),
                    None => true,
                };
                if !alive {
                    self.channel = None;
                    self.distribution_tasks = 0;
                }
                None
            },
        }
    }

    /// Run one payment round-trip. Independent of the polling state: it may
    /// be invoked whether or not detection is active, and it never touches
    /// the session. Fails with [`Error::NotInitialized`] when no reader
    /// handle exists; with a reader present the simulated payment system
    /// accepts every deduction.
    pub fn process_payment(&mut self, card_data: &str, amount: u64) -> (r: Result<
        PaymentResultDetails,
        Error,
    >)
        requires
            old(self).well_formed(),
        ensures
            final(self).well_formed(),
            final(self).polling_spec() == old(self).polling_spec(),
            final(self).initialized_spec() == old(self).initialized_spec(),
            final(self).reader_spec() == old(self).reader_spec(),
            final(self).has_channel() == old(self).has_channel(),
            final(self).queued() == old(self).queued(),
            final(self).accepted() == old(self).accepted(),
            final(self).delivered() == old(self).delivered(),
            final(self).polling_task_count() == old(self).polling_task_count(),
            final(self).distribution_task_count() == old(self).distribution_task_count(),
            !old(self).initialized_spec() ==> r == Err::<PaymentResultDetails, Error>(
                Error::NotInitialized,
            ),
            old(self).initialized_spec() ==> r is Ok && ({
                let d = r->Ok_0;
                &&& d.success == true
                &&& d.message@ == "Payment processed successfully"@
                &&& d.amount_paid == amount
                &&& d.balance_after == 95000
                &&& d.card_no@ == extract_card_number_spec(card_data@)
                &&& d.gate_name@ == "SIMULATED_GATE"@
                &&& d.transaction_id@.len() > 4
                &&& d.transaction_id@.take(4) =~= "TXN_"@
                &&& (exists|n: u64| d.transaction_id@ == "TXN_"@ + #[trigger] dec_str(n as int))
                &&& d.timestamp@.len() >= 25
                &&& (exists|i: int| 0 <= i < d.timestamp@.len() && #[trigger] d.timestamp@[i]
                    == 'T')
            }),
    {
        match &mut self.reader {
            Some(reader) => reader.process_payment(card_data, amount),
            None => Err(Error::NotInitialized),
        }
    }
}

/// One lifecycle call as an abstract step: a `start_detection` or a
/// `stop_polling`.
#[derive(Clone, Copy, Debug, PartialEq, Eq, Structural)]
pub enum SessionOp {
    Start,
    Stop,
}

/// The state change one lifecycle call makes, as `start_detection` and
/// `stop_polling` promise it in their contracts.
pub open spec fn session_op_transition(pre: RFIDManager, post: RFIDManager, op: SessionOp) -> bool {
    match op {
        SessionOp::Start => RFIDManager::start_transition(pre, post),
        SessionOp::Stop => RFIDManager::stop_transition(pre, post),
    }
}

/// `m1` is reachable from `m0` by making the lifecycle calls `ops`, in order.
pub open spec fn runs_ops(m0: RFIDManager, ops: Seq<SessionOp>, m1: RFIDManager) -> bool
    decreases ops.len(),
{
    if ops.len() == 0 {
        m1 == m0
    } else {
        exists|mid: RFIDManager|
            #[trigger] session_op_transition(m0, mid, ops[0]) && runs_ops(mid, ops.drop_first(), m1)
    }
}

/// One lifecycle call keeps the invariants and the reader handle, and leaves
/// the session polling exactly when the call was a start on a manager that
/// was polling already or could start (reader present); a stop always leaves
/// it stopped, with no polling loop alive.
pub proof fn lemma_op_preserves(pre: RFIDManager, post: RFIDManager, op: SessionOp)
    requires
        pre.well_formed(),
        session_op_transition(pre, post, op),
    ensures
        post.well_formed(),
        post.reader_spec() == pre.reader_spec(),
        post.initialized_spec() == pre.initialized_spec(),
        post.polling_spec() == (match op {
            SessionOp::Start => pre.polling_spec() || pre.initialized_spec(),
            SessionOp::Stop => false,
        }),
        !post.polling_spec() ==> post.polling_task_count() == 0,
{
    match op {
        SessionOp::Start => {},
        SessionOp::Stop => {
            if pre.running {
                match (pre.channel, post.channel) {
                    (Some(c0), Some(c1)) => {
                        crate::channel::lemma_with_closed_producer(c0);
                    },
                    _ => {},
                }
            }
        },
    }
}

/// After any sequence of start/stop calls on an initialized manager, the
/// session is polling exactly when the most recent call was a start not yet
/// followed by a stop; and whenever it is not polling, no polling loop is
/// alive.
pub proof fn lemma_polling_tracks_last_op(m0: RFIDManager, ops: Seq<SessionOp>, m1: RFIDManager)
    requires
        m0.well_formed(),
        m0.initialized_spec(),
        ops.len() > 0,
        runs_ops(m0, ops, m1),
    ensures
        m1.well_formed(),
        m1.initialized_spec(),
        m1.polling_spec() == (ops.last() == SessionOp::Start),
        !m1.polling_spec() ==> m1.polling_task_count() == 0,
    decreases ops.len(),
{
    let mid = choose|mid: RFIDManager|
        #[trigger] session_op_transition(m0, mid, ops[0]) && runs_ops(mid, ops.drop_first(), m1);
    lemma_op_preserves(m0, mid, ops[0]);
    if ops.len() == 1 {
        assert(m1 == mid);
        assert(ops.last() == ops[0]);
    } else {
        lemma_polling_tracks_last_op(mid, ops.drop_first(), m1);
        assert(ops.drop_first().last() == ops.last());
    }
}

/// Task accounting: under the manager's invariants, exactly one polling loop
/// is alive while a session runs and none otherwise, and exactly one
/// distribution loop is alive while a channel exists and none otherwise. In
/// particular, once polling has stopped and the drain has completed, no
/// background task remains alive — nothing leaks.
pub proof fn lemma_task_accounting(m: &RFIDManager)
    requires
        m.well_formed(),
    ensures
        m.polling_task_count() == (if m.polling_spec() {
            1u32
        } else {
            0u32
        }),
        m.distribution_task_count() == (if m.has_channel() {
            1u32
        } else {
            0u32
        }),
        !m.polling_spec() && !m.has_channel() ==> m.polling_task_count() == 0
            && m.distribution_task_count() == 0,
{
}

/// Stopping is idempotent: a second stop right after a first one changes
/// nothing. Both calls succeed by `stop_polling`'s contract; this lemma adds
/// that the second transition is the identity, so the states are identical.
pub proof fn lemma_stop_idempotent(m0: RFIDManager, m1: RFIDManager, m2: RFIDManager)
    requires
        RFIDManager::stop_transition(m0, m1),
        RFIDManager::stop_transition(m1, m2),
    ensures
        m2 == m1,
{
}

/// Starting is idempotent while already polling: by `start_detection`'s
/// contract a second start succeeds and leaves the state untouched, and by
/// the invariants exactly one polling loop and one distribution loop exist
/// — never two pairs.
pub proof fn lemma_start_idempotent(m: &RFIDManager)
    requires
        m.well_formed(),
        m.polling_spec(),
    ensures
        m.polling_task_count() == 1,
        m.distribution_task_count() == 1,
{
}

/// Detection events reach the subscriber in the order they were produced:
/// at every point of a session, what the distribution loop has handed out is
/// exactly the oldest accepted events, in acceptance order; and once the
/// queue is drained, every accepted event has been handed out, exactly once.
pub proof fn lemma_session_fifo(m: &RFIDManager)
    requires
        m.well_formed(),
    ensures
        m.delivered() =~= m.accepted().take(m.delivered().len() as int),
        m.accepted().len() == m.delivered().len() + m.queued().len(),
        m.queued().len() == 0 ==> m.delivered() =~= m.accepted(),
{
    match m.channel {
        Some(c) => crate::channel::lemma_fifo_delivery(&c),
        None => {},
    }
}

} // verus!
