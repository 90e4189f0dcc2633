//! Pacing and counting for the data streams.
//!
//! The send and receive loops themselves perform I/O; what they decide at
//! each turn is computed here. A caller feeds the elapsed time of a monotonic
//! clock and the outcome of each read or write, and receives what to do next.

use vstd::prelude::*;
use vstd::arithmetic::div_mod::lemma_div_is_ordered;
use vstd::arithmetic::mul::lemma_mul_inequality;
use crate::args::{ArgsClient, MAX_BUFFER_LEN, clamp_len};

verus! {

/// Which half of the data transfer one side of a stream performs.
#[derive(Debug, Clone, Copy, PartialEq, Eq, Structural)]
pub enum Role {
    /// Run the send loop.
    Send,
    /// Run the receive loop.
    Receive,
}

/// The client's half of a stream: it sends on upload, receives on download.
pub open spec fn client_role_spec(revert: bool) -> Role {
    if revert {
        Role::Receive
    } else {
        Role::Send
    }
}

/// The server's half of a stream: the complement of the client's.
pub open spec fn server_role_spec(revert: bool) -> Role {
    if revert {
        Role::Send
    } else {
        Role::Receive
    }
}

/// Client and server of one data stream always take complementary halves:
/// one sends and the other receives.
pub proof fn lemma_roles_complementary(revert: bool)
    ensures
        client_role_spec(revert) != server_role_spec(revert),
        client_role_spec(revert) is Send <==> server_role_spec(revert) is Receive,
{
}

/// Nanoseconds in one second.
pub const NANOS_PER_SEC: u64 = 1000000000;

/// Progress snapshot of one send or receive loop.
#[derive(Debug, Clone, Copy, PartialEq, Eq, Structural)]
pub struct Update {
    /// Time since the loop started, in nanoseconds.
    pub elapsed_ns: u64,
    /// Buffers that the linear model expects to be sent by now.
    pub pktcount_expected: u128,
    /// Buffers sent or reads completed so far.
    pub pktcount: u128,
}

/// Whole seconds in a duration given in nanoseconds.
pub open spec fn secs_of(ns: u64) -> int {
    ns as int / NANOS_PER_SEC as int
}

/// Buffers expected after `elapsed_ns` of a `time`-second test whose whole
/// budget is `total`, by linear interpolation.
pub open spec fn expected_spec(total: u64, elapsed_ns: u64, time: u64) -> int {
    if time == 0 {
        0
    } else {
        (total as int * elapsed_ns as int) / (time as int * NANOS_PER_SEC as int)
    }
}

/// Linear model of the buffers sent by `elapsed_ns`.
pub fn expected_packets(total: u64, elapsed_ns: u64, time: u64) -> (r: u128)
    ensures
        r == expected_spec(total, elapsed_ns, time),
        elapsed_ns as int <= time as int * NANOS_PER_SEC as int ==> r <= total,
{
    if time == 0 {
        return 0;
    }
    proof {
        assert(total as int * elapsed_ns as int <= u64::MAX as int * u64::MAX as int)
            by (nonlinear_arith)
            requires
                0 <= total as int <= u64::MAX as int,
                0 <= elapsed_ns as int <= u64::MAX as int,
        ;
        assert(time as int * NANOS_PER_SEC as int <= u64::MAX as int * NANOS_PER_SEC as int)
            by (nonlinear_arith)
            requires
                0 <= time as int <= u64::MAX as int,
        ;
    }
    let num: u128 = (total as u128) * (elapsed_ns as u128);
    let den: u128 = (time as u128) * (NANOS_PER_SEC as u128);
    let r = num / den;
    proof {
        let d = time as int * NANOS_PER_SEC as int;
        if elapsed_ns as int <= d {
            assert(total as int * elapsed_ns as int <= total as int * d) by (nonlinear_arith)
                requires
                    0 <= total as int,
                    elapsed_ns as int <= d,
            ;
            assert((total as int * elapsed_ns as int) / d <= (total as int * d) / d)
                by (nonlinear_arith)
                requires
                    total as int * elapsed_ns as int <= total as int * d,
                    d > 0,
            ;
            assert((total as int * d) / d == total as int) by (nonlinear_arith)
                requires
                    d > 0,
            ;
        }
    }
    r
}

/// The linear model never decreases as time passes.
pub proof fn lemma_expected_monotonic(total: u64, e1: u64, e2: u64, time: u64)
    requires
        e1 <= e2,
    ensures
        expected_spec(total, e1, time) <= expected_spec(total, e2, time),
{
    if time != 0 {
        lemma_mul_inequality(e1 as int, e2 as int, total as int);
        assert(total as int * e1 as int <= total as int * e2 as int) by (nonlinear_arith)
            requires
                e1 as int * total as int <= e2 as int * total as int,
        ;
        lemma_div_is_ordered(
            total as int * e1 as int,
            total as int * e2 as int,
            time as int * NANOS_PER_SEC as int,
        );
    }
}

/// The buffer sent on a data stream: `len` bytes, byte `i` holding `i % 255`.
pub fn make_buffer(len: u64) -> (r: Vec<u8>)
    requires
        len <= MAX_BUFFER_LEN,
    ensures
        r@.len() == len,
        forall|i: int| 0 <= i < len ==> r@[i] == (i % 255) as u8,
{
    let mut buffer: Vec<u8> = Vec::new();
    let mut i: u64 = 0;
    while i < len
        invariant
            i <= len,
            buffer@.len() == i,
            forall|j: int| 0 <= j < i ==> buffer@[j] == (j % 255) as u8,
        decreases len - i,
    {
        buffer.push((i % 255) as u8);
        i = i + 1;
    }
    buffer
}

/// What the send loop does next.
#[derive(Debug, Clone, Copy, PartialEq, Eq, Structural)]
pub enum SendAction {
    /// Write one full buffer.
    Write,
    /// Ahead of the target rate: pause briefly, then tick again.
    Wait,
    /// The test duration has passed.
    Stop,
}

/// Outcome of one turn of the send loop.
#[derive(Debug, Clone, Copy, PartialEq, Eq, Structural)]
pub struct SendTick {
    /// A progress snapshot, at most once per whole second.
    pub report: Option<Update>,
    /// What to do next.
    pub action: SendAction,
}

/// State of the send loop of one data stream.
pub struct Sender {
    /// Configured duration in seconds.
    pub time: u64,
    /// Target bandwidth in bits per second, 0 meaning unlimited.
    pub bandwidth: u64,
    /// Buffers to send over the whole test.
    pub total_packets: u64,
    /// Buffer length in bytes.
    pub bufferlen: u64,
    /// Current progress.
    pub update: Update,
    /// Whole second of the last progress snapshot.
    pub prev_secs: u64,
    /// The last tick allowed one write.
    pub write_ready: bool,
}

impl Sender {
    /// The sender's invariant: snapshots trail the clock, the expected
    /// count follows the linear model, and a throttled sender is never ahead
    /// of that model nor beyond its budget.
    pub open spec fn wf(&self) -> bool {
        &&& self.prev_secs <= secs_of(self.update.elapsed_ns)
        &&& self.update.pktcount_expected == expected_spec(
            self.total_packets,
            self.update.elapsed_ns,
            self.time,
        )
        &&& self.bandwidth > 0 ==> self.update.pktcount <= self.update.pktcount_expected
        &&& self.bandwidth > 0 ==> self.update.pktcount <= self.total_packets
        &&& self.write_ready && self.bandwidth > 0 ==> self.update.pktcount
            < self.update.pktcount_expected
        &&& self.write_ready && self.bandwidth > 0 ==> self.update.pktcount
            < self.total_packets
    }

    /// A sender for the test `args`, with nothing sent yet.
    pub fn new(args: &ArgsClient) -> (r: Sender)
        requires
            args.totalpackets_spec() <= u64::MAX,
        ensures
            r.wf(),
            r.time == args.time,
            r.bandwidth == args.bandwidth_spec(),
            r.total_packets == args.totalpackets_spec(),
            r.bufferlen == clamp_len(args.len),
            r.update == (Update { elapsed_ns: 0, pktcount_expected: 0, pktcount: 0 }),
            r.prev_secs == 0,
            !r.write_ready,
    {
        Sender {
            time: args.time,
            bandwidth: args.get_bandwidth(),
            total_packets: args.get_totalpackets(),
            bufferlen: args.get_bufferlen(),
            update: Update { elapsed_ns: 0, pktcount_expected: 0, pktcount: 0 },
            prev_secs: 0,
            write_ready: false,
        }
    }

    /// One turn of the send loop at `elapsed_ns` on a monotonic clock.
    pub fn tick(&mut self, elapsed_ns: u64) -> (r: SendTick)
        requires
            old(self).wf(),
            old(self).update.elapsed_ns <= elapsed_ns,
        ensures
            final(self).wf(),
            final(self).time == old(self).time,
            final(self).bandwidth == old(self).bandwidth,
            final(self).total_packets == old(self).total_packets,
            final(self).bufferlen == old(self).bufferlen,
            final(self).update == (Update {
                elapsed_ns,
                pktcount_expected: expected_spec(
                    old(self).total_packets,
                    elapsed_ns,
                    old(self).time,
                ) as u128,
                pktcount: old(self).update.pktcount,
            }),
            secs_of(elapsed_ns) != old(self).prev_secs ==> r.report == Some(final(self).update)
                && final(self).prev_secs == secs_of(elapsed_ns),
            secs_of(elapsed_ns) == old(self).prev_secs ==> r.report.is_none()
                && final(self).prev_secs == old(self).prev_secs,
            r.report matches Some(u) ==> secs_of(u.elapsed_ns) > old(self).prev_secs,
            r.action == (if secs_of(elapsed_ns) >= old(self).time {
                SendAction::Stop
            } else if old(self).bandwidth > 0 && old(self).update.pktcount
                >= final(self).update.pktcount_expected {
                SendAction::Wait
            } else {
                SendAction::Write
            }),
            final(self).write_ready == (r.action == SendAction::Write),
    {
        proof {
            lemma_expected_monotonic(
                self.total_packets,
                self.update.elapsed_ns,
                elapsed_ns,
                self.time,
            );
        }
        let expected = expected_packets(self.total_packets, elapsed_ns, self.time);
        self.update.elapsed_ns = elapsed_ns;
        self.update.pktcount_expected = expected;
        let secs = elapsed_ns / NANOS_PER_SEC;
        let report = if secs != self.prev_secs {
            self.prev_secs = secs;
            Some(self.update)
        } else {
            None
        };
        let action = if secs >= self.time {
            SendAction::Stop
        } else if self.bandwidth > 0 && self.update.pktcount >= expected {
            SendAction::Wait
        } else {
            SendAction::Write
        };
        proof {
            if secs < self.time {
                assert(elapsed_ns as int <= self.time as int * NANOS_PER_SEC as int)
                    by (nonlinear_arith)
                    requires
                        (elapsed_ns as int / NANOS_PER_SEC as int) < self.time as int,
                        NANOS_PER_SEC as int > 0,
                ;
            }
        }
        self.write_ready = action == SendAction::Write;
        SendTick { report, action }
    }

    /// Records the outcome of the write that the last tick allowed, `len`
    /// bytes of one buffer. A short or empty write means that the peer
    /// closed the stream: the loop stops and `false` is returned. A full
    /// write counts as one buffer sent.
    pub fn written(&mut self, len: usize) -> (r: bool)
        requires
            old(self).wf(),
            old(self).write_ready,
        ensures
            final(self).wf(),
            !final(self).write_ready,
            r == (len as int >= old(self).bufferlen),
            final(self).time == old(self).time,
            final(self).bandwidth == old(self).bandwidth,
            final(self).total_packets == old(self).total_packets,
            final(self).bufferlen == old(self).bufferlen,
            final(self).prev_secs == old(self).prev_secs,
            final(self).update.elapsed_ns == old(self).update.elapsed_ns,
            final(self).update.pktcount_expected == old(self).update.pktcount_expected,
            final(self).update.pktcount == (if r && old(self).update.pktcount
                < u128::MAX {
                old(self).update.pktcount + 1
            } else {
                old(self).update.pktcount as int
            }),
    {
        self.write_ready = false;
        if (len as u64) < self.bufferlen {
            return false;
        }
        if self.update.pktcount < u128::MAX {
            self.update.pktcount = self.update.pktcount + 1;
        }
        true
    }
}

/// State of the receive loop of one data stream.
pub struct Receiver {
    /// Buffer length in bytes.
    pub bufferlen: u64,
    /// Current progress.
    pub update: Update,
    /// Whole second of the last progress snapshot.
    pub prev_secs: u64,
}

impl Receiver {
    /// The receiver's invariant: snapshots trail the clock.
    pub open spec fn wf(&self) -> bool {
        self.prev_secs <= secs_of(self.update.elapsed_ns)
    }

    /// A receiver for the test `args`, with nothing received yet.
    pub fn new(args: &ArgsClient) -> (r: Receiver)
        ensures
            r.wf(),
            r.bufferlen == clamp_len(args.len),
            r.update == (Update { elapsed_ns: 0, pktcount_expected: 0, pktcount: 0 }),
            r.prev_secs == 0,
    {
        Receiver {
            bufferlen: args.get_bufferlen(),
            update: Update { elapsed_ns: 0, pktcount_expected: 0, pktcount: 0 },
            prev_secs: 0,
        }
    }

    /// One turn of the receive loop at `elapsed_ns` on a monotonic clock;
    /// returns a progress snapshot at most once per whole second.
    pub fn tick(&mut self, elapsed_ns: u64) -> (r: Option<Update>)
        requires
            old(self).wf(),
            old(self).update.elapsed_ns <= elapsed_ns,
        ensures
            final(self).wf(),
            final(self).bufferlen == old(self).bufferlen,
            final(self).update == (Update { elapsed_ns, ..old(self).update }),
            secs_of(elapsed_ns) != old(self).prev_secs ==> r == Some(final(self).update)
                && final(self).prev_secs == secs_of(elapsed_ns),
            secs_of(elapsed_ns) == old(self).prev_secs ==> r.is_none()
                && final(self).prev_secs == old(self).prev_secs,
            r matches Some(u) ==> secs_of(u.elapsed_ns) > old(self).prev_secs,
    {
        self.update.elapsed_ns = elapsed_ns;
        let secs = elapsed_ns / NANOS_PER_SEC;
        if secs != self.prev_secs {
            self.prev_secs = secs;
            Some(self.update)
        } else {
            None
        }
    }

    /// Records one read of `len` bytes. A read of zero bytes is the end of
    /// the stream: the loop stops and `false` is returned. Any other read
    /// counts as one unit.
    pub fn received(&mut self, len: usize) -> (r: bool)
        requires
            old(self).wf(),
        ensures
            final(self).wf(),
            r == (len > 0),
            final(self).bufferlen == old(self).bufferlen,
            final(self).prev_secs == old(self).prev_secs,
            final(self).update.elapsed_ns == old(self).update.elapsed_ns,
            final(self).update.pktcount_expected == old(self).update.pktcount_expected,
            final(self).update.pktcount == (if len > 0 && old(self).update.pktcount
                < u128::MAX {
                old(self).update.pktcount + 1
            } else {
                old(self).update.pktcount as int
            }),
    {
        if len == 0 {
            return false;
        }
        if self.update.pktcount < u128::MAX {
            self.update.pktcount = self.update.pktcount + 1;
        }
        true
    }
}

} // verus!
