//! The benchmark's shared state: the metrics window drained by the reporter
//! and the single-fire shutdown latch that serializes teardown.

use vstd::prelude::*;
use vstd::string::*;
use crate::text::stream_label;
use crate::text::stream_label_spec;

verus! {

/// `x + 1` with the wrap-around of a 64-bit counter, as a hardware
/// fetch-and-add performs it.
pub open spec fn wrap_inc(x: u64) -> u64 {
    if x == u64::MAX {
        0u64
    } else {
        (x + 1) as u64
    }
}

/// `x + y` with the wrap-around of a 64-bit counter.
pub open spec fn wrap_sum(x: u64, y: u64) -> u64 {
    if x + y > u64::MAX {
        (x + y - 0x1_0000_0000_0000_0000) as u64
    } else {
        (x + y) as u64
    }
}

/// What a stream consumer observed on one read of its stream.
pub enum StreamEvent {
    /// A message arrived; it is counted.
    Message,
    /// The stream ended although the server promises an unbounded stream.
    Closed,
    /// The read failed.
    Failed,
}

/// One summary record per reporting window, as the reporter emits it.
pub struct Report {
    /// Cumulative number of completed connection attempts, never reset.
    pub number_of_streams: u64,
    /// Messages counted in the window that was just drained.
    pub pongs_received: u64,
    /// Mean connection-setup time over the drained window, 0 when the
    /// window saw no connections.
    pub avg_connection_time: u64,
    /// Connection attempts counted in the drained window.
    pub connections: u64,
}

/// The state shared by every worker, the reporter and the signal listener:
/// the target address, the metrics counters, and the shutdown latch.
pub struct Bench {
    /// The address every worker connects to.
    pub address: String,
    /// Monotonic count of completed connection attempts; never reset.
    pub number_of_streams: u64,
    /// Connection attempts since the last drain.
    pub connections_since_last_report: u64,
    /// Total connection-setup microseconds since the last drain.
    pub connection_time_since_last_report: u64,
    /// Messages received since the last drain.
    pub pongs_received_since_last_report: u64,
    /// The single-fire latch: set at most once, never cleared.
    pub is_shutting_down: bool,
    /// The reason of the one `fail` call that won the latch, if any.
    pub failure_reason: Option<String>,
}

/// One `fail` call as a transition: the latch is left set, the caller wins
/// exactly when it found the latch clear, and the metrics are untouched.
pub open spec fn fail_step(pre: Bench, post: Bench, wins: bool) -> bool {
    &&& post.is_shutting_down == true
    &&& wins == !pre.is_shutting_down
    &&& post.number_of_streams == pre.number_of_streams
    &&& post.connections_since_last_report == pre.connections_since_last_report
    &&& post.connection_time_since_last_report == pre.connection_time_since_last_report
    &&& post.pongs_received_since_last_report == pre.pongs_received_since_last_report
    &&& post.address == pre.address
}

/// How many of a sequence of `fail` calls won the latch.
pub open spec fn count_wins(wins: Seq<bool>) -> int
    decreases wins.len(),
{
    if wins.len() == 0 {
        0
    } else {
        count_wins(wins.drop_last()) + if wins.last() {
            1int
        } else {
            0int
        }
    }
}

impl Bench {
    /// Fresh shared state: all counters zero, latch clear, no reason yet.
    pub fn new(address: String) -> (b: Bench)
        ensures
            b.address@ == address@,
            b.number_of_streams == 0,
            b.connections_since_last_report == 0,
            b.connection_time_since_last_report == 0,
            b.pongs_received_since_last_report == 0,
            !b.is_shutting_down,
            b.failure_reason is None,
    {
        Bench {
            address,
            number_of_streams: 0,
            connections_since_last_report: 0,
            connection_time_since_last_report: 0,
            pongs_received_since_last_report: 0,
            is_shutting_down: false,
            failure_reason: None,
        }
    }

    /// Count one received message. Cheap, touches nothing else.
    pub fn add_pong(&mut self)
        ensures
            final(self).pongs_received_since_last_report == wrap_inc(
                old(self).pongs_received_since_last_report,
            ),
            final(self).number_of_streams == old(self).number_of_streams,
            final(self).connections_since_last_report == old(self).connections_since_last_report,
            final(self).connection_time_since_last_report == old(
                self,
            ).connection_time_since_last_report,
            final(self).is_shutting_down == old(self).is_shutting_down,
            final(self).address == old(self).address,
            final(self).failure_reason == old(self).failure_reason,
    {
        self.pongs_received_since_last_report = self.pongs_received_since_last_report.wrapping_add(
            1,
        );
    }

    /// Book-keeping of one completed connection attempt: the setup time in
    /// microseconds is accumulated, the window's connection count and the monotonic stream
    /// count each grow by one. Recorded unconditionally, as the worker loop
    /// does, whether or not the stream later fails.
    pub fn add_connection(&mut self, elapsed_micros: u64)
        ensures
            final(self).connection_time_since_last_report == wrap_sum(
                old(self).connection_time_since_last_report,
                elapsed_micros,
            ),
            final(self).connections_since_last_report == wrap_inc(
                old(self).connections_since_last_report,
            ),
            final(self).number_of_streams == wrap_inc(old(self).number_of_streams),
            final(self).pongs_received_since_last_report == old(
                self,
            ).pongs_received_since_last_report,
            final(self).is_shutting_down == old(self).is_shutting_down,
            final(self).address == old(self).address,
            final(self).failure_reason == old(self).failure_reason,
    {
        self.connection_time_since_last_report =
        self.connection_time_since_last_report.wrapping_add(elapsed_micros);
        self.connections_since_last_report = self.connections_since_last_report.wrapping_add(1);
        self.number_of_streams = self.number_of_streams.wrapping_add(1);
    }

    /// Drain the window: the three window counters are read and reset,
    /// the monotonic stream count is read and kept, and the summary holds
    /// the drained values with the window's mean setup time — defined as 0
    /// when the window saw no connections, so the drain never faults.
    pub fn report_and_reset(&mut self) -> (r: Report)
        ensures
            r.number_of_streams == old(self).number_of_streams,
            r.pongs_received == old(self).pongs_received_since_last_report,
            r.connections == old(self).connections_since_last_report,
            r.avg_connection_time == (if old(self).connections_since_last_report > 0 {
                old(self).connection_time_since_last_report
                    / old(self).connections_since_last_report
            } else {
                0u64
            }),
            final(self).number_of_streams == old(self).number_of_streams,
            final(self).connections_since_last_report == 0,
            final(self).connection_time_since_last_report == 0,
            final(self).pongs_received_since_last_report == 0,
            final(self).is_shutting_down == old(self).is_shutting_down,
            final(self).address == old(self).address,
            final(self).failure_reason == old(self).failure_reason,
    {
        let number_of_streams = self.number_of_streams;
        let pongs_received = self.pongs_received_since_last_report;
        let connections = self.connections_since_last_report;
        let connection_time = self.connection_time_since_last_report;
        self.pongs_received_since_last_report = 0;
        self.connections_since_last_report = 0;
        self.connection_time_since_last_report = 0;
        let avg_connection_time = if connections > 0 {
            connection_time / connections
        } else {
            0
        };
        Report { number_of_streams, pongs_received, avg_connection_time, connections }
    }

    /// Trip the shutdown latch. The caller wins — and alone must run the
    /// teardown sequence — exactly when it found the latch clear; the
    /// winner's reason is recorded, every later reason is discarded.
    pub fn fail(&mut self, stream_id: &str) -> (wins: bool)
        ensures
            fail_step(*old(self), *final(self), wins),
            wins ==> (final(self).failure_reason matches Some(r) && r@ == stream_id@),
            !wins ==> final(self).failure_reason == old(self).failure_reason,
    {
        let wins = !self.is_shutting_down;
        self.is_shutting_down = true;
        if wins {
            self.failure_reason = Some(String::from_str(stream_id));
        }
        wins
    }

    /// One worker-loop turn after its setup attempt. A failed setup trips
    /// the latch, with a label naming the lane's current attempt as the
    /// reason; win or lose, the worker then records the attempt — its
    /// setup time, the window's connection count and the monotonic stream
    /// count — unconditionally, and keeps looping.
    pub fn connection_loop_turn(&mut self, idx: u64, setup_ok: bool, elapsed_micros: u64) -> (wins:
        Option<bool>)
        ensures
            final(self).connection_time_since_last_report == wrap_sum(
                old(self).connection_time_since_last_report,
                elapsed_micros,
            ),
            final(self).connections_since_last_report == wrap_inc(
                old(self).connections_since_last_report,
            ),
            final(self).number_of_streams == wrap_inc(old(self).number_of_streams),
            final(self).pongs_received_since_last_report == old(
                self,
            ).pongs_received_since_last_report,
            final(self).address == old(self).address,
            final(self).is_shutting_down == (old(self).is_shutting_down || !setup_ok),
            setup_ok ==> wins is None && final(self).failure_reason == old(self).failure_reason,
            !setup_ok ==> wins == Some(!old(self).is_shutting_down),
            !setup_ok && !old(self).is_shutting_down ==> (final(self).failure_reason matches Some(r)
                && r@ == stream_label_spec(idx as int)),
            !setup_ok && old(self).is_shutting_down ==> final(self).failure_reason == old(
                self,
            ).failure_reason,
    {
        let wins = if setup_ok {
            None
        } else {
            let label = stream_label(idx);
            Some(self.fail(label.as_str()))
        };
        self.add_connection(elapsed_micros);
        wins
    }

    /// Every read of the stream ends in one of two transitions: a message
    /// is counted, or the latch is tripped with this stream's id. `wins`
    /// reports, for the latter, whether this call won the latch.
    pub fn on_stream_event(&mut self, event: StreamEvent, stream_id: &str) -> (wins: Option<bool>)
        ensures
            match event {
                StreamEvent::Message => {
                    &&& wins is None
                    &&& final(self).pongs_received_since_last_report == wrap_inc(
                        old(self).pongs_received_since_last_report,
                    )
                    &&& final(self).number_of_streams == old(self).number_of_streams
                    &&& final(self).connections_since_last_report == old(
                        self,
                    ).connections_since_last_report
                    &&& final(self).connection_time_since_last_report == old(
                        self,
                    ).connection_time_since_last_report
                    &&& final(self).is_shutting_down == old(self).is_shutting_down
                    &&& final(self).failure_reason == old(self).failure_reason
                },
                _ => {
                    &&& wins == Some(!old(self).is_shutting_down)
                    &&& fail_step(*old(self), *final(self), !old(self).is_shutting_down)
                },
            },
    {
        match event {
            StreamEvent::Message => {
                self.add_pong();
                None
            },
            _ => Some(self.fail(stream_id)),
        }
    }
}

/// Of a run of `fail` calls that starts with the latch clear, exactly one
/// wins: the single-fire guarantee of the shutdown coordinator. `states`
/// is the chain of latch states the calls pass through, `wins[i]` whether
/// the call from `states[i]` to `states[i + 1]` won.
pub proof fn lemma_fail_single_fire(states: Seq<Bench>, wins: Seq<bool>)
    requires
        wins.len() >= 1,
        states.len() == wins.len() + 1,
        !states[0].is_shutting_down,
        forall|i: int| 0 <= i < wins.len() ==> fail_step(states[i], states[i + 1], wins[i]),
    ensures
        count_wins(wins) == 1,
{
    assert forall|i: int| 1 <= i < wins.len() implies !wins[i] by {
        assert(fail_step(states[i - 1], states[i], wins[i - 1]));
        assert(fail_step(states[i], states[i + 1], wins[i]));
    }
    assert(wins[0]);
    lemma_count_wins_first_only(wins);
}

/// Once the latch is already set, no call of a run of `fail` calls wins.
pub proof fn lemma_fail_none_after_first(states: Seq<Bench>, wins: Seq<bool>)
    requires
        states.len() == wins.len() + 1,
        states[0].is_shutting_down,
        forall|i: int| 0 <= i < wins.len() ==> fail_step(states[i], states[i + 1], wins[i]),
    ensures
        count_wins(wins) == 0,
{
    assert forall|i: int| 0 <= i < wins.len() implies !wins[i] by {
        if i == 0 {
        } else {
            assert(fail_step(states[i - 1], states[i], wins[i - 1]));
        }
    }
    lemma_count_wins_none(wins);
}

proof fn lemma_count_wins_first_only(wins: Seq<bool>)
    requires
        wins.len() >= 1,
        wins[0],
        forall|i: int| 1 <= i < wins.len() ==> !wins[i],
    ensures
        count_wins(wins) == 1,
    decreases wins.len(),
{
    if wins.len() == 1 {
        assert(count_wins(wins.drop_last()) == 0);
    } else {
        lemma_count_wins_first_only(wins.drop_last());
    }
}

proof fn lemma_count_wins_none(wins: Seq<bool>)
    requires
        forall|i: int| 0 <= i < wins.len() ==> !wins[i],
    ensures
        count_wins(wins) == 0,
    decreases wins.len(),
{
    if wins.len() > 0 {
        lemma_count_wins_none(wins.drop_last());
    }
}

} // verus!
