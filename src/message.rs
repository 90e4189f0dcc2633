//! Control messages and their framing.
//!
//! A frame is an encoded message followed by one sentinel byte that the
//! encoding never produces. A receiver peeks at most a lookahead window of
//! bytes, finds the sentinel there, consumes exactly the frame and strips
//! the sentinel. A frame that does not fit in the window is refused.

use vstd::prelude::*;
use crate::args::ArgsClient;
use crate::error::SpeedError;

verus! {

/// Byte that ends every frame.
pub const SENTINEL: u8 = 0;

/// Most bytes a receiver looks at to find the end of a frame.
pub const WINDOW_LEN: usize = 4096;

/// Messages exchanged between client and server.
#[derive(Debug, Clone, PartialEq)]
pub enum Message {
    /// First message of the client on the control connection: the test
    /// configuration.
    ClientHello(ArgsClient),
    /// Reply of the server: the id of the new test.
    ServerHello(u32),
    /// First message on a data connection: test id and stream id.
    ClientStreamHello(u32, u32),
    /// The server accepted a data stream.
    ServerStreamHello,
    /// The client asks the server to start the test.
    ClientStartTest,
    /// Progress of the server; reserved.
    ServerTestUpdate,
}

/// Sending and receiving whole messages on a connection.
pub trait MessageIO {
    /// Writes one framed message.
    fn sendmsg(&mut self, msg: &Message) -> Result<(), SpeedError>;

    /// Reads one framed message.
    fn recvmsg(&mut self) -> Result<Message, SpeedError>;
}

/// No byte of `s` is the sentinel.
pub open spec fn sentinel_free(s: Seq<u8>) -> bool {
    forall|i: int| 0 <= i < s.len() ==> s[i] != SENTINEL
}

/// The frame that carries `payload`.
pub open spec fn frame_of(payload: Seq<u8>) -> Seq<u8> {
    payload.push(SENTINEL)
}

/// `n` is the length of the first frame in `peeked`: its last byte is the
/// first sentinel.
pub open spec fn is_frame_len(peeked: Seq<u8>, n: int) -> bool {
    &&& 0 < n <= peeked.len()
    &&& peeked[n - 1] == SENTINEL
    &&& sentinel_free(peeked.take(n - 1))
}

/// What a receiver makes of the bytes it peeked.
pub open spec fn frame_len_spec(peeked: Seq<u8>) -> Result<int, SpeedError> {
    if peeked.len() == 0 {
        Err(SpeedError::ConnectionClosed)
    } else if sentinel_free(peeked) {
        Err(SpeedError::Framing)
    } else {
        Ok(choose|n: int| is_frame_len(peeked, n))
    }
}

/// Frames `payload`: its bytes followed by the sentinel.
pub fn encode_frame(payload: &[u8]) -> (r: Vec<u8>)
    ensures
        r@ == frame_of(payload@),
{
    let mut r: Vec<u8> = Vec::new();
    let mut i: usize = 0;
    while i < payload.len()
        invariant
            i <= payload@.len(),
            r@ == payload@.take(i as int),
        decreases payload@.len() - i,
    {
        r.push(payload[i]);
        i = i + 1;
        proof {
            assert(r@ =~= payload@.take(i as int));
        }
    }
    proof {
        assert(payload@.take(i as int) =~= payload@);
    }
    r.push(SENTINEL);
    r
}

/// Length of the first frame in the bytes `peeked` from a connection, that
/// is, how many bytes to consume. No bytes at all means that the peer closed
/// the connection; bytes without a sentinel are a framing error.
pub fn frame_len(peeked: &[u8]) -> (r: Result<usize, SpeedError>)
    ensures
        peeked@.len() == 0 ==> r == Err::<usize, SpeedError>(SpeedError::ConnectionClosed),
        peeked@.len() > 0 && sentinel_free(peeked@) ==> r == Err::<usize, SpeedError>(
            SpeedError::Framing,
        ),
        !sentinel_free(peeked@) ==> (r matches Ok(n) && is_frame_len(peeked@, n as int)),
        r matches Ok(n) ==> frame_len_spec(peeked@) == Ok::<int, SpeedError>(n as int),
        r matches Err(e) ==> frame_len_spec(peeked@) == Err::<int, SpeedError>(e),
{
    if peeked.len() == 0 {
        return Err(SpeedError::ConnectionClosed);
    }
    let mut i: usize = 0;
    while i < peeked.len()
        invariant
            i <= peeked@.len(),
            sentinel_free(peeked@.take(i as int)),
        decreases peeked@.len() - i,
    {
        if peeked[i] == SENTINEL {
            proof {
                lemma_frame_len_unique(peeked@, i as int + 1);
            }
            return Ok(i + 1);
        }
        i = i + 1;
        proof {
            assert forall|j: int| 0 <= j < i implies peeked@.take(i as int)[j] != SENTINEL by {
                if j < i - 1 {
                    assert(peeked@.take(i - 1)[j] == peeked@[j]);
                }
            }
        }
    }
    proof {
        assert(peeked@.take(i as int) =~= peeked@);
    }
    Err(SpeedError::Framing)
}

/// A frame length is determined by the bytes: only the first sentinel ends
/// a frame.
pub proof fn lemma_frame_len_unique(peeked: Seq<u8>, n: int)
    requires
        is_frame_len(peeked, n),
    ensures
        !sentinel_free(peeked),
        frame_len_spec(peeked) == Ok::<int, SpeedError>(n),
{
    assert(peeked[n - 1] == SENTINEL);
    let m = choose|m: int| is_frame_len(peeked, m);
    assert(is_frame_len(peeked, m));
    if m < n {
        assert(peeked.take(n - 1)[m - 1] == peeked[m - 1]);
    } else if n < m {
        assert(peeked.take(m - 1)[n - 1] == peeked[n - 1]);
    }
}

/// The payload of a frame that was read whole: the bytes before the
/// sentinel.
pub fn frame_payload(frame: &[u8]) -> (r: Vec<u8>)
    requires
        frame@.len() > 0,
    ensures
        r@ == frame@.drop_last(),
{
    let n = frame.len() - 1;
    let mut r: Vec<u8> = Vec::new();
    let mut i: usize = 0;
    while i < n
        invariant
            n == frame@.len() - 1,
            i <= n,
            r@ == frame@.take(i as int),
        decreases n - i,
    {
        r.push(frame[i]);
        i = i + 1;
        proof {
            assert(r@ =~= frame@.take(i as int));
        }
    }
    proof {
        assert(frame@.take(i as int) =~= frame@.drop_last());
    }
    r
}

/// Framing round trip: when the frame of a sentinel-free payload fits in the
/// lookahead window, a receiver that peeks it finds exactly that frame, and
/// stripping the sentinel gives the payload back.
pub proof fn lemma_frame_round_trip(payload: Seq<u8>, peeked: Seq<u8>)
    requires
        sentinel_free(payload),
        payload.len() + 1 <= WINDOW_LEN,
        frame_of(payload).len() <= peeked.len(),
        peeked.take(frame_of(payload).len() as int) == frame_of(payload),
    ensures
        frame_len_spec(peeked) == Ok::<int, SpeedError>(payload.len() as int + 1),
        peeked.take(payload.len() as int + 1).drop_last() == payload,
{
    let f = frame_of(payload);
    let n: int = payload.len() as int + 1;
    assert(peeked[n - 1] == f[n - 1]);
    assert(peeked.take(n - 1) =~= payload) by {
        assert forall|j: int| 0 <= j < n - 1 implies peeked.take(n - 1)[j] == payload[j] by {
            assert(peeked[j] == f[j]);
        }
    }
    lemma_frame_len_unique(peeked, n);
    assert(peeked.take(n).drop_last() =~= payload);
}

/// Framing bound: when the frame of a sentinel-free payload is longer than
/// the lookahead window, every window of it that a receiver can peek fails
/// with a framing error; nothing of it is parsed.
pub proof fn lemma_oversized_frame_refused(payload: Seq<u8>, peeked: Seq<u8>)
    requires
        sentinel_free(payload),
        frame_of(payload).len() > WINDOW_LEN,
        0 < peeked.len() <= WINDOW_LEN,
        peeked == frame_of(payload).take(peeked.len() as int),
    ensures
        frame_len_spec(peeked) == Err::<int, SpeedError>(SpeedError::Framing),
{
    assert forall|i: int| 0 <= i < peeked.len() implies peeked[i] != SENTINEL by {
        assert(peeked[i] == frame_of(payload)[i]);
        assert(frame_of(payload)[i] == payload[i]);
    }
}

} // verus!
