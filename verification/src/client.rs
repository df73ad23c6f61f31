//! RPC client: turns a one-way publish transport into correlated calls.
//!
//! The client assigns correlation ids from a wrapping 32-bit counter, frames
//! outbound calls through the codec, registers their callbacks in the
//! correlation table, and processes inbound frames from the reserved
//! response topic by decoding them and dispatching to the matched pending
//! call. The transport itself (connect, publish, timers, closing the socket)
//! lives outside: each method here returns the action the transport must
//! perform, and the inbound handler is fed the raw bytes the transport
//! delivered. Callers that share one client across threads must serialize
//! access to it; no method blocks.
use crate::codec;
use crate::keepalive::KeepAlive;
use crate::table::CorrelationTable;
use vstd::prelude::*;

verus! {

/// The well-known topic on which correlated responses arrive, distinct from
/// every application topic.
pub const RESPONSE_TOPIC: &'static str = "$r";

/// A protocol violation seen on the inbound path. Every variant is fatal for
/// the connection: the handler answers it by closing, never by replying.
#[derive(Clone, Copy, Debug, PartialEq, Eq, Structural)]
pub enum ProtocolViolation {
    /// The frame could not be decoded.
    Malformed(codec::DecodeError),
    /// The frame decoded, but no pending call is registered under its
    /// correlation id: a late, duplicate, or forged response.
    UnknownCorrelationId,
}

/// What the transport must do for one outbound call: publish `frame` on
/// `topic` with at-most-once delivery, and, when `rearm_at` is set, re-arm
/// the keep-alive timer for that moment.
pub struct RequestAction {
    /// The application topic the call goes out on.
    pub topic: String,
    /// The encoded frame to publish.
    pub frame: Vec<u8>,
    /// The correlation id assigned to this call.
    pub msg_id: u32,
    /// When the next keep-alive ping is due, if keep-alive is enabled.
    pub rearm_at: Option<u64>,
}

/// The outcome of one inbound frame on the response topic.
pub enum Inbound<T> {
    /// The frame matched the pending call: invoke this callback with this
    /// payload as its success result.
    Deliver(T, Vec<u8>),
    /// The frame violated the protocol: close the underlying connection.
    Close(ProtocolViolation),
}

/// The correlation id assigned after `counter`: the next value of the
/// 32-bit counter, wrapping silently.
pub open spec fn next_id(counter: u32) -> u32 {
    if counter == u32::MAX {
        0
    } else {
        (counter + 1) as u32
    }
}

/// The value of the counter after `n` assignments starting from `start`.
pub open spec fn nth_id(start: u32, n: nat) -> u32
    decreases n,
{
    if n == 0 {
        start
    } else {
        next_id(nth_id(start, (n - 1) as nat))
    }
}

/// Absent a wrap, the counter after `n` assignments is `start + n`.
proof fn lemma_nth_id_value(start: u32, n: nat)
    requires
        start + n <= u32::MAX,
    ensures
        nth_id(start, n) == start + n,
    decreases n,
{
    if n > 0 {
        lemma_nth_id_value(start, (n - 1) as nat);
    }
}

/// Law: correlation ids do not collide while the counter has not wrapped.
/// Any two of the ids assigned by a run of calls — the i-th and j-th
/// assignments after the counter stood at `start` — differ, so every
/// outstanding call is matched to exactly one pending entry.
pub proof fn lemma_distinct_correlation_ids(start: u32, i: nat, j: nat)
    requires
        i < j,
        start + j <= u32::MAX,
    ensures
        nth_id(start, i) != nth_id(start, j),
{
    lemma_nth_id_value(start, i);
    lemma_nth_id_value(start, j);
}

/// Per-connection client state: the id counter, the keep-alive schedule, and
/// the correlation table. Generic in the callback type `T` it registers for
/// pending calls.
pub struct RPCClient<T> {
    msg_id: u32,
    keep_alive: KeepAlive,
    pending: CorrelationTable<T>,
}

impl<T> RPCClient<T> {
    /// The current value of the correlation-id counter: the id most recently
    /// assigned, zero before the first call.
    pub closed spec fn counter(&self) -> u32 {
        self.msg_id
    }

    /// The configured keep-alive interval in seconds, zero meaning disabled.
    pub closed spec fn keep_alive_interval(&self) -> u16 {
        self.keep_alive.interval()
    }

    /// The pending calls: which callback each outstanding id belongs to.
    pub closed spec fn pending_calls(&self) -> Map<u32, T> {
        self.pending@
    }

    /// A fresh client: counter at zero, keep-alive disabled, nobody waiting.
    pub fn new() -> (c: Self)
        ensures
            c.counter() == 0,
            c.keep_alive_interval() == 0,
            c.pending_calls() == Map::<u32, T>::empty(),
    {
        RPCClient { msg_id: 0, keep_alive: KeepAlive::new(0), pending: CorrelationTable::new() }
    }

    /// Adopts the keep-alive interval and computes the first ping deadline.
    /// The transport-level handshake, the last-will payload, the close and
    /// connect callbacks, and installing the response-topic handler are the
    /// transport owner's part; after it, every frame received on
    /// [`RESPONSE_TOPIC`] must be fed to [`Self::handle_response`].
    pub fn connect(&mut self, keep_alive_s: u16, now_s: u64) -> (r: Option<u64>)
        requires
            now_s + keep_alive_s <= u64::MAX,
        ensures
            final(self).counter() == old(self).counter(),
            final(self).pending_calls() == old(self).pending_calls(),
            final(self).keep_alive_interval() == keep_alive_s,
            keep_alive_s == 0 ==> r is None,
            keep_alive_s > 0 ==> (r matches Some(deadline) && deadline == now_s + keep_alive_s),
    {
        self.keep_alive = KeepAlive::new(keep_alive_s);
        self.keep_alive.arm(now_s)
    }

    /// Issues one call: assigns the next correlation id, encodes the frame,
    /// registers `callback` under the id, and returns what the transport
    /// must publish, together with the opportunistic keep-alive re-arm. A
    /// payload the compressor cannot take is refused whole: nothing is
    /// registered, nothing is to be published, and the callback comes back
    /// with the error so the caller can deliver the failure to it.
    pub fn request(&mut self, topic: String, msg: Vec<u8>, callback: T, timeout_s: u8, now_s: u64)
        -> (r: Result<RequestAction, (codec::EncodeError, T)>)
        requires
            now_s + old(self).keep_alive_interval() <= u64::MAX,
        ensures
            final(self).keep_alive_interval() == old(self).keep_alive_interval(),
            msg@.len() <= codec::MAX_PAYLOAD_LEN ==> (r matches Ok(action) && {
                &&& action.msg_id == next_id(old(self).counter())
                &&& final(self).counter() == action.msg_id
                &&& action.frame@ == codec::encode_spec(action.msg_id, timeout_s, msg@)
                &&& action.topic@ == topic@
                &&& final(self).pending_calls() == old(self).pending_calls().insert(
                    action.msg_id,
                    callback,
                )
                &&& (old(self).keep_alive_interval() == 0 ==> action.rearm_at is None)
                &&& (old(self).keep_alive_interval() > 0 ==> (action.rearm_at matches Some(deadline)
                    && deadline == now_s + old(self).keep_alive_interval()))
            }),
            msg@.len() > codec::MAX_PAYLOAD_LEN ==> (r matches Err(refused)
                && refused.0 == codec::EncodeError::PayloadTooLarge
                && refused.1 == callback
                && final(self).counter() == old(self).counter()
                && final(self).pending_calls() == old(self).pending_calls()),
    {
        let rearm_at = self.keep_alive.arm(now_s);
        let msg_id = if self.msg_id == u32::MAX {
            0
        } else {
            self.msg_id + 1
        };
        let frame = match codec::encode(msg_id, timeout_s, &msg) {
            Ok(frame) => frame,
            Err(e) => {
                return Err((e, callback));
            },
        };
        self.msg_id = msg_id;
        self.pending.insert(msg_id, callback);
        Ok(RequestAction { topic, frame, msg_id, rearm_at })
    }

    /// Processes one inbound frame from the response topic: decodes it,
    /// takes the pending call its correlation id names, and says what to do.
    /// A frame that does not decode, and a frame whose id nobody is waiting
    /// for, are protocol violations that close the connection; otherwise the
    /// matched callback is to be invoked, exactly once, with the decoded
    /// payload as its success result.
    pub fn handle_response(&mut self, raw: &Vec<u8>) -> (r: Inbound<T>)
        ensures
            final(self).counter() == old(self).counter(),
            final(self).keep_alive_interval() == old(self).keep_alive_interval(),
            forall|id: u32, payload: Seq<u8>| #[trigger]
                codec::decodes_to(raw@, id, payload) ==> {
                    &&& (old(self).pending_calls().contains_key(id) ==> (r matches
                        Inbound::Deliver(callback, delivered)
                        && callback == old(self).pending_calls()[id]
                        && delivered@ == payload
                        && final(self).pending_calls() == old(self).pending_calls().remove(id)))
                    &&& (!old(self).pending_calls().contains_key(id) ==> (r matches
                        Inbound::Close(violation)
                        && violation == ProtocolViolation::UnknownCorrelationId
                        && final(self).pending_calls() == old(self).pending_calls()))
                },
            raw@.len() < 6 ==> (r matches Inbound::Close(violation) && violation
                == ProtocolViolation::Malformed(codec::DecodeError::FrameTooShort)),
            raw@.len() >= 6 && codec::compression_bits(raw@[0]) != codec::COMPRESS_NONE
                && codec::compression_bits(raw@[0]) != codec::COMPRESS_BLOCK ==> (r matches
                Inbound::Close(violation) && violation == ProtocolViolation::Malformed(
                codec::DecodeError::UnsupportedCompression,
            )),
            r matches Inbound::Close(ProtocolViolation::Malformed(e)) ==> (
                final(self).pending_calls() == old(self).pending_calls() && (e
                == codec::DecodeError::DecompressionFailure ==> !(exists|payload: Seq<u8>|
                raw@.skip(6) == codec::block_compress(payload)))),
    {
        match codec::decode(raw) {
            Err(e) => Inbound::Close(ProtocolViolation::Malformed(e)),
            Ok((msg_id, payload)) => match self.pending.take(msg_id) {
                Some(callback) => Inbound::Deliver(callback, payload),
                None => {
                    proof {
                        assert(old(self).pending_calls().remove(msg_id)
                            =~= old(self).pending_calls());
                    }
                    Inbound::Close(ProtocolViolation::UnknownCorrelationId)
                },
            },
        }
    }

    /// Withdraws the pending call registered under `id`, if any: the caller
    /// uses this when the publish step of a call fails after registration,
    /// so the failure can be delivered to the callback instead of leaving an
    /// orphaned entry behind.
    pub fn abort_pending(&mut self, id: u32) -> (r: Option<T>)
        ensures
            final(self).counter() == old(self).counter(),
            final(self).keep_alive_interval() == old(self).keep_alive_interval(),
            final(self).pending_calls() == old(self).pending_calls().remove(id),
            r matches Some(callback) ==> (old(self).pending_calls().contains_key(id) && callback
                == old(self).pending_calls()[id]),
            r is None ==> !old(self).pending_calls().contains_key(id),
    {
        self.pending.take(id)
    }

    /// The keep-alive interval adopted at connect time, in seconds.
    pub fn keep_alive_secs(&self) -> (r: u16)
        ensures
            r == self.keep_alive_interval(),
    {
        self.keep_alive.interval_secs()
    }

    /// How many calls are outstanding.
    pub fn pending_len(&self) -> (n: usize)
        ensures
            n == self.pending_calls().len(),
    {
        self.pending.len()
    }

    /// The next moment a keep-alive ping is due, from the schedule adopted
    /// at connect time: see [`KeepAlive::arm`]. Fed to the transport's timer
    /// both periodically and at the start of every call.
    pub fn ping(&self, now_s: u64) -> (r: Option<u64>)
        requires
            now_s + self.keep_alive_interval() <= u64::MAX,
        ensures
            self.keep_alive_interval() == 0 ==> r is None,
            self.keep_alive_interval() > 0 ==> (r matches Some(deadline) && deadline == now_s
                + self.keep_alive_interval()),
    {
        self.keep_alive.arm(now_s)
    }
}

} // verus!
