//! Test configuration exchanged between client and server.

use vstd::prelude::*;

verus! {

/// Smallest buffer length used on a data stream, in bytes.
pub const MIN_BUFFER_LEN: u64 = 10;

/// Largest buffer length used on a data stream, in bytes.
pub const MAX_BUFFER_LEN: u64 = 10000000;

/// The buffer length actually used for a configured one.
pub open spec fn clamp_len(len: u64) -> u64 {
    if len < MIN_BUFFER_LEN {
        MIN_BUFFER_LEN
    } else if len > MAX_BUFFER_LEN {
        MAX_BUFFER_LEN
    } else {
        len
    }
}

/// Number of buffers that a throttled test sends over its whole duration.
pub open spec fn packet_budget(time: u64, bandwidth: u64, len: u64) -> int {
    (time as int * bandwidth as int) / (8 * clamp_len(len) as int)
}

/// Configuration of one throughput test, as chosen by the client.
#[derive(Debug, Clone, PartialEq, Default)]
pub struct ArgsClient {
    /// Server address.
    pub hostname: String,
    /// Server control port.
    pub port: u16,
    /// Use the datagram transport instead of the stream transport.
    pub udp: bool,
    /// Download instead of upload.
    pub revert: bool,
    /// DSCP value to set in the IP header.
    pub dscp: Option<i32>,
    /// Packet mark.
    pub mark: Option<i32>,
    /// Local address to bind.
    pub bind: Option<String>,
    /// Target bandwidth in bits per second; none means unlimited.
    pub bandwidth: Option<u64>,
    /// Number of parallel data streams.
    pub parallel: u32,
    /// Configured buffer length in bytes.
    pub len: u64,
    /// Test duration in seconds.
    pub time: u64,
    /// Show the results in a viewer.
    pub view: bool,
}

/// Configuration of a server.
#[derive(Debug, Clone, PartialEq, Default)]
pub struct ArgsServer {
    /// Local address to bind.
    pub bind: Option<String>,
    /// Control port.
    pub port: u16,
}

/// The two modes of the program.
#[derive(Debug)]
pub enum Subcommand {
    /// Connect to a server and run a test.
    Client(ArgsClient),
    /// Accept tests from clients.
    Server(ArgsServer),
}

/// Top-level command line.
#[derive(Debug)]
pub struct Args {
    pub subcommand: Subcommand,
}

impl ArgsClient {
    /// Target bandwidth in bits per second as a number, 0 meaning unlimited.
    pub open spec fn bandwidth_spec(&self) -> u64 {
        match self.bandwidth {
            Some(b) => b,
            None => 0,
        }
    }

    /// Number of buffers to send over the whole test; 0 when unthrottled.
    pub open spec fn totalpackets_spec(&self) -> int {
        packet_budget(self.time, self.bandwidth_spec(), self.len)
    }

    /// Returns the test bandwidth, 0 when none was set.
    pub fn get_bandwidth(&self) -> (r: u64)
        ensures
            r == self.bandwidth_spec(),
    {
        match self.bandwidth {
            Some(b) => b,
            None => 0,
        }
    }

    /// Returns the buffer length, clamped to the accepted range.
    pub fn get_bufferlen(&self) -> (r: u64)
        ensures
            r == clamp_len(self.len),
            MIN_BUFFER_LEN <= r <= MAX_BUFFER_LEN,
    {
        let len = if self.len < MAX_BUFFER_LEN { self.len } else { MAX_BUFFER_LEN };
        if len > MIN_BUFFER_LEN { len } else { MIN_BUFFER_LEN }
    }

    /// Returns the number of buffers to send over the whole test.
    pub fn get_totalpackets(&self) -> (r: u64)
        requires
            self.totalpackets_spec() <= u64::MAX,
        ensures
            r == self.totalpackets_spec(),
            self.bandwidth_spec() == 0 ==> r == 0,
    {
        let bandwidth = self.get_bandwidth();
        let bufferlen = self.get_bufferlen();
        proof {
            assert(self.time as int * bandwidth as int <= u64::MAX as int * u64::MAX as int)
                by (nonlinear_arith)
                requires
                    self.time as int <= u64::MAX as int,
                    bandwidth as int <= u64::MAX as int,
                    self.time as int >= 0,
                    bandwidth as int >= 0,
            ;
        }
        let product: u128 = (self.time as u128) * (bandwidth as u128);
        let q: u128 = product / (8 * bufferlen as u128);
        q as u64
    }
}

} // verus!
