//! Client side of the negotiation: the coordinator that takes a test from
//! its hello to the end of its streams, and the decisions of each stream.

use vstd::prelude::*;
use crate::args::ArgsClient;
use crate::error::SpeedError;
use crate::message::Message;
use crate::pktgenerator::{Role, client_role_spec};

verus! {

/// Phases of a client run.
#[derive(Debug, Clone, Copy, PartialEq, Eq, Structural)]
pub enum Phase {
    /// Nothing sent yet.
    Idle,
    /// The hello is sent; waiting for the server's reply.
    HelloSent,
    /// The server handed out a test id.
    Negotiated,
    /// The data streams are running.
    StreamsRunning,
    /// Every stream has finished, or the negotiation failed.
    Completed,
}

/// Negotiation state of one client run.
pub struct Coordinator {
    /// Number of parallel data streams to open.
    pub parallel: u32,
    /// Current phase.
    pub phase: Phase,
    /// The negotiated test id, once known.
    pub testid: Option<u32>,
    /// Streams that have finished, successfully or not.
    pub finished: u32,
}

impl Coordinator {
    /// The coordinator's invariant.
    pub open spec fn wf(&self) -> bool {
        &&& self.finished <= self.parallel
        &&& (self.phase is Negotiated || self.phase is StreamsRunning) ==> self.testid.is_some()
        &&& self.phase is StreamsRunning ==> self.finished < self.parallel
    }

    /// A coordinator for the test `args`, before anything is sent.
    pub fn new(args: &ArgsClient) -> (r: Coordinator)
        ensures
            r.wf(),
            r.parallel == args.parallel,
            r.phase == Phase::Idle,
            r.testid.is_none(),
            r.finished == 0,
    {
        Coordinator { parallel: args.parallel, phase: Phase::Idle, testid: None, finished: 0 }
    }

    /// The hello has been sent.
    pub fn hello_sent(&mut self)
        requires
            old(self).wf(),
            old(self).phase == Phase::Idle,
        ensures
            final(self).wf(),
            final(self).phase == Phase::HelloSent,
            final(self).parallel == old(self).parallel,
            final(self).testid == old(self).testid,
            final(self).finished == old(self).finished,
    {
        self.phase = Phase::HelloSent;
    }

    /// Takes the server's reply to the hello. Only a server hello carries
    /// on, with its test id; any other message ends the run.
    pub fn on_reply(&mut self, msg: &Message) -> (r: Result<u32, SpeedError>)
        requires
            old(self).wf(),
            old(self).phase == Phase::HelloSent,
        ensures
            final(self).wf(),
            final(self).parallel == old(self).parallel,
            final(self).finished == old(self).finished,
            *msg matches Message::ServerHello(id) ==> r == Ok::<u32, SpeedError>(id)
                && final(self).phase == Phase::Negotiated && final(self).testid == Some(id),
            !(*msg is ServerHello) ==> r == Err::<u32, SpeedError>(SpeedError::ProtocolViolation)
                && final(self).phase == Phase::Completed && final(self).testid
                == old(self).testid,
    {
        match msg {
            Message::ServerHello(testid) => {
                self.phase = Phase::Negotiated;
                self.testid = Some(*testid);
                Ok(*testid)
            },
            _ => {
                self.phase = Phase::Completed;
                Err(SpeedError::ProtocolViolation)
            },
        }
    }

    /// Starts the data streams: returns one stream per parallel connection,
    /// numbered from 0, all of the negotiated test.
    pub fn start_streams(&mut self, args: &ArgsClient) -> (r: Vec<Stream>)
        requires
            old(self).wf(),
            old(self).phase == Phase::Negotiated,
        ensures
            final(self).wf(),
            final(self).parallel == old(self).parallel,
            final(self).testid == old(self).testid,
            final(self).finished == old(self).finished,
            r@.len() == old(self).parallel,
            forall|i: int|
                0 <= i < r@.len() ==> r@[i].testid == old(self).testid.unwrap()
                    && r@[i].streamid == i && r@[i].revert == args.revert,
            final(self).phase == (if old(self).parallel > old(self).finished {
                Phase::StreamsRunning
            } else {
                Phase::Completed
            }),
    {
        let testid = match self.testid {
            Some(t) => t,
            None => 0,
        };
        let mut streams: Vec<Stream> = Vec::new();
        let mut i: u32 = 0;
        while i < self.parallel
            invariant
                i <= self.parallel,
                self.testid == Some(testid),
                streams@.len() == i,
                forall|j: int|
                    0 <= j < i ==> streams@[j].testid == testid && streams@[j].streamid == j
                        && streams@[j].revert == args.revert,
            decreases self.parallel - i,
        {
            streams.push(Stream::new(args, testid, i));
            i = i + 1;
        }
        self.phase = if self.parallel > self.finished {
            Phase::StreamsRunning
        } else {
            Phase::Completed
        };
        streams
    }

    /// One stream has finished, whatever its outcome. The run completes
    /// when the last one does.
    pub fn stream_finished(&mut self)
        requires
            old(self).wf(),
            old(self).phase == Phase::StreamsRunning,
        ensures
            final(self).wf(),
            final(self).parallel == old(self).parallel,
            final(self).testid == old(self).testid,
            final(self).finished == old(self).finished + 1,
            final(self).phase == (if final(self).finished == final(self).parallel {
                Phase::Completed
            } else {
                Phase::StreamsRunning
            }),
    {
        self.finished = self.finished + 1;
        if self.finished == self.parallel {
            self.phase = Phase::Completed;
        }
    }
}

/// One data stream of a client.
#[derive(Debug, Clone, Copy, PartialEq, Eq, Structural)]
pub struct Stream {
    /// The negotiated test.
    pub testid: u32,
    /// Number of this stream within the test.
    pub streamid: u32,
    /// The test downloads instead of uploading.
    pub revert: bool,
}

impl Stream {
    /// Stream `streamid` of test `testid`, configured by `args`.
    pub fn new(args: &ArgsClient, testid: u32, streamid: u32) -> (r: Stream)
        ensures
            r.testid == testid,
            r.streamid == streamid,
            r.revert == args.revert,
    {
        Stream { testid, streamid, revert: args.revert }
    }

    /// The announcement that opens the data connection.
    pub fn hello(&self) -> (r: Message)
        ensures
            r == Message::ClientStreamHello(self.testid, self.streamid),
    {
        Message::ClientStreamHello(self.testid, self.streamid)
    }

    /// The client's half of the transfer: it sends on upload and receives
    /// on download.
    pub fn role(&self) -> (r: Role)
        ensures
            r == client_role_spec(self.revert),
    {
        if self.revert {
            Role::Receive
        } else {
            Role::Send
        }
    }
}

} // verus!
