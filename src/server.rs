//! Server side of the negotiation: the registry of tests and the decisions
//! taken on each accepted connection.
//!
//! A server is meant to be shared between connection handlers behind one
//! reader/writer lock: `register` takes the write side, `lookup` the read
//! side, and neither is held across socket I/O.

use vstd::prelude::*;
use crate::args::{ArgsClient, ArgsServer};
use crate::error::SpeedError;
use crate::message::Message;
use crate::pktgenerator::{Role, server_role_spec};

verus! {

/// A negotiated test.
pub struct Speedtest {
    /// Configuration that the client sent.
    pub config: ArgsClient,
}

impl Speedtest {
    /// A test with configuration `config`.
    pub fn new(config: ArgsClient) -> (r: Speedtest)
        ensures
            r.config == config,
    {
        Speedtest { config }
    }
}

/// What a new connection asks for, by its first message.
#[derive(Debug)]
pub enum Request {
    /// A control connection that negotiates a new test.
    Hello(ArgsClient),
    /// A data connection of the given test.
    Stream(u32),
}

/// A server's registry of tests. Test ids are handed out in order from 0
/// and never reused: the id of a test is its index.
pub struct Server {
    speedtests: Vec<Speedtest>,
    args: ArgsServer,
}

/// One successful negotiation: `after` holds `before` and a test with
/// configuration `config` under the next id, `id`.
pub open spec fn hello_step(
    before: Seq<Speedtest>,
    after: Seq<Speedtest>,
    config: ArgsClient,
    id: u32,
) -> bool {
    &&& id == before.len()
    &&& after == before.push(Speedtest { config })
}

impl Server {
    /// The tests negotiated so far, by id.
    pub closed spec fn tests(&self) -> Seq<Speedtest> {
        self.speedtests@
    }

    /// The server's own configuration.
    pub closed spec fn args_spec(&self) -> ArgsServer {
        self.args
    }

    /// Every test has an id.
    pub open spec fn wf(&self) -> bool {
        self.tests().len() <= u32::MAX
    }

    /// A server with configuration `args` and no test yet.
    pub fn new(args: ArgsServer) -> (r: Result<Server, SpeedError>)
        ensures
            r matches Ok(s) && s.wf() && s.tests().len() == 0 && s.args_spec() == args,
    {
        Ok(Server { speedtests: Vec::new(), args })
    }

    /// The server's own configuration.
    pub fn args(&self) -> (r: &ArgsServer)
        ensures
            *r == self.args_spec(),
    {
        &self.args
    }

    /// Id that the next negotiation will receive.
    pub fn next_testid(&self) -> (r: u32)
        requires
            self.wf(),
        ensures
            r == self.tests().len(),
    {
        self.speedtests.len() as u32
    }

    /// Registers a test with configuration `config` under the next id and
    /// returns that id. Ids run out only after `u32::MAX` tests.
    pub fn register(&mut self, config: ArgsClient) -> (r: Result<u32, SpeedError>)
        requires
            old(self).wf(),
        ensures
            final(self).wf(),
            final(self).args_spec() == old(self).args_spec(),
            old(self).tests().len() < u32::MAX ==> (r matches Ok(id) && hello_step(
                old(self).tests(),
                final(self).tests(),
                config,
                id,
            )),
            old(self).tests().len() == u32::MAX ==> r == Err::<u32, SpeedError>(
                SpeedError::TestIdsExhausted,
            ) && final(self).tests() == old(self).tests(),
    {
        if self.speedtests.len() >= 4294967295 {
            return Err(SpeedError::TestIdsExhausted);
        }
        let testid = self.speedtests.len() as u32;
        self.speedtests.push(Speedtest::new(config));
        Ok(testid)
    }

    /// The configuration of test `testid`, or `UnknownTest` for an id that
    /// was never handed out.
    pub fn lookup(&self, testid: u32) -> (r: Result<&ArgsClient, SpeedError>)
        ensures
            testid < self.tests().len() ==> (r matches Ok(c) && *c == self.tests()[
                testid as int
            ].config),
            testid >= self.tests().len() ==> r == Err::<&ArgsClient, SpeedError>(
                SpeedError::UnknownTest(testid),
            ),
    {
        if (testid as usize) < self.speedtests.len() {
            Ok(&self.speedtests[testid as usize].config)
        } else {
            Err(SpeedError::UnknownTest(testid))
        }
    }
}

/// Reads the first message of a new connection: a hello negotiates a test,
/// a stream hello opens a data stream; anything else is refused.
pub fn classify_request(msg: Message) -> (r: Result<Request, SpeedError>)
    ensures
        msg matches Message::ClientHello(c) ==> (r matches Ok(Request::Hello(d)) && d == c),
        msg matches Message::ClientStreamHello(t, _) ==> r matches Ok(Request::Stream(u))
            && u == t,
        !(msg is ClientHello || msg is ClientStreamHello) ==> r == Err::<Request, SpeedError>(
            SpeedError::ProtocolViolation,
        ),
{
    match msg {
        Message::ClientHello(config) => Ok(Request::Hello(config)),
        Message::ClientStreamHello(testid, _streamid) => Ok(Request::Stream(testid)),
        _ => Err(SpeedError::ProtocolViolation),
    }
}

/// After replying to a hello, the server accepts only the start of the
/// test on that connection.
pub fn check_start_test(msg: &Message) -> (r: Result<(), SpeedError>)
    ensures
        r is Ok <==> *msg is ClientStartTest,
        r is Err ==> r == Err::<(), SpeedError>(SpeedError::ProtocolViolation),
{
    match msg {
        Message::ClientStartTest => Ok(()),
        _ => Err(SpeedError::ProtocolViolation),
    }
}

/// The server's half of a data stream: it sends when the client
/// downloads, and receives when the client uploads.
pub fn server_role(config: &ArgsClient) -> (r: Role)
    ensures
        r == server_role_spec(config.revert),
{
    if config.revert {
        Role::Send
    } else {
        Role::Receive
    }
}

/// Test ids are unique and without gaps: starting from a server with no
/// test, `n` successive negotiations receive exactly the ids `0..n`, each
/// once, and the registry then holds `n` tests.
pub proof fn lemma_ids_consecutive(
    states: Seq<Seq<Speedtest>>,
    configs: Seq<ArgsClient>,
    ids: Seq<u32>,
)
    requires
        states.len() == ids.len() + 1,
        configs.len() == ids.len(),
        states[0].len() == 0,
        forall|i: int|
            0 <= i < ids.len() ==> #[trigger] hello_step(
                states[i],
                states[i + 1],
                configs[i],
                ids[i],
            ),
    ensures
        forall|i: int| 0 <= i < ids.len() ==> ids[i] == i,
        forall|i: int, j: int| 0 <= i < j < ids.len() ==> ids[i] != ids[j],
        states.last().len() == ids.len(),
    decreases ids.len(),
{
    if ids.len() > 0 {
        let k = ids.len() - 1;
        lemma_ids_consecutive(states.drop_last(), configs.drop_last(), ids.drop_last());
        assert(hello_step(states[k], states[k + 1], configs[k], ids[k]));
        assert(states.drop_last().last() == states[k]);
        assert forall|i: int| 0 <= i < ids.len() implies ids[i] == i by {
            if i < k {
                assert(ids.drop_last()[i] == ids[i]);
            }
        }
    }
}

} // verus!
