use vstd::bytes::{
    lemma_auto_spec_u64_to_from_le_bytes, spec_u64_from_le_bytes, spec_u64_to_le_bytes,
    u64_from_le_bytes, u64_to_le_bytes,
};
use vstd::prelude::*;
use vstd::string::StringSliceAdditionalSpecFns;
use vstd::utf8::{decode_utf8, encode_utf8, encode_utf8_decode_utf8, encode_utf8_valid_utf8, valid_utf8};

use crate::error::{ErrorKind, RabcError};
use crate::text::{decimal, decimal_text};

verus! {

/// The largest payload, in bytes, that a new codec lets through: 1 MiB.
pub const DEFAULT_MAX_DATA_SIZE: usize = 1048576;

/// How the 8-byte length prefix of a frame orders its bytes.
#[derive(Clone, Copy, Debug, PartialEq, Eq, Structural)]
pub enum ByteOrder {
    Little,
    Big,
}

/// `s` back to front.
pub open spec fn reversed(s: Seq<u8>) -> Seq<u8> {
    Seq::new(s.len(), |i: int| s[s.len() - 1 - i])
}

/// The 8 bytes that carry the length `n`.
pub open spec fn prefix_bytes(n: u64, order: ByteOrder) -> Seq<u8> {
    match order {
        ByteOrder::Little => spec_u64_to_le_bytes(n),
        ByteOrder::Big => reversed(spec_u64_to_le_bytes(n)),
    }
}

/// The length that the 8 bytes `b` carry.
pub open spec fn prefix_value(b: Seq<u8>, order: ByteOrder) -> u64 {
    match order {
        ByteOrder::Little => spec_u64_from_le_bytes(b),
        ByteOrder::Big => spec_u64_from_le_bytes(reversed(b)),
    }
}

/// One frame on the wire: the payload's length, then the payload.
pub open spec fn frame_bytes(payload: Seq<u8>, order: ByteOrder) -> Seq<u8> {
    prefix_bytes(payload.len() as u64, order) + payload
}

/// The advice that closes both size-guard messages.
pub open spec fn size_advice() -> Seq<char> {
    " bytes, please change the limitation by set_ipc_max_size()"@
}

/// The message when a payload to send is larger than `max`.
pub open spec fn send_too_big_msg(max: usize) -> Seq<char> {
    "Specified data exceeded the max size "@ + decimal(max as nat) + size_advice()
}

/// The message when a received prefix is at or over `max`.
pub open spec fn recv_too_big_msg(max: usize) -> Seq<char> {
    "Received data exceeded the max size "@ + decimal(max as nat) + size_advice()
}

/// The message when the stream fails while the prefix is awaited.
pub open spec fn prefix_lost_msg(reason: Seq<char>) -> Seq<char> {
    "Failed to receive data size: "@ + reason
}

/// The message of an I/O failure anywhere else.
pub open spec fn io_failure_msg(reason: Seq<char>) -> Seq<char> {
    "std::io::Error: "@ + reason
}

/// The message when a payload is not UTF-8.
pub open spec fn not_utf8_msg(reason: Seq<char>) -> Seq<char> {
    "std::string::FromUtf8Error: "@ + reason
}

/// What `recv` makes of a stream that holds exactly the bytes `s` and then
/// ends: a text, or the kind of error. A stream that ends inside the prefix
/// means the peer hung up; one that ends inside the payload is an I/O fault.
pub open spec fn recv_outcome(s: Seq<u8>, max: usize, order: ByteOrder) -> Result<Seq<char>, ErrorKind> {
    if s.len() < 8 {
        Err(ErrorKind::IpcConnectionError)
    } else if prefix_value(s.take(8), order) >= max {
        Err(ErrorKind::ExceededIpcMaxSize)
    } else if s.len() - 8 < prefix_value(s.take(8), order) {
        Err(ErrorKind::Bug)
    } else if !valid_utf8(s.subrange(8, 8 + prefix_value(s.take(8), order))) {
        Err(ErrorKind::Bug)
    } else {
        Ok(decode_utf8(s.subrange(8, 8 + prefix_value(s.take(8), order))))
    }
}

/// Relies on `u16::to_ne_bytes`: the two bytes of `x` in the machine's
/// order, which is either little- or big-endian.
#[verifier::external_body]
fn u16_native_bytes(x: u16) -> (r: [u8; 2])
    ensures
        r@ == seq![(x % 256) as u8, (x / 256) as u8] || r@ == seq![(x / 256) as u8, (x % 256) as u8],
{
    x.to_ne_bytes()
}

/// Relies on `String::from_utf8`: it succeeds exactly on valid UTF-8 and
/// then holds the decoded characters; the error is handed on as its text.
#[verifier::external_body]
fn string_from_utf8(b: Vec<u8>) -> (r: Result<String, String>)
    ensures
        r is Ok <==> valid_utf8(b@),
        r matches Ok(s) ==> s@ == decode_utf8(b@),
{
    String::from_utf8(b).map_err(|e| e.to_string())
}

/// The byte order of the machine this runs on.
pub fn native_byte_order() -> ByteOrder {
    byte_order_of(u16_native_bytes(1))
}

/// The byte order in which `b` holds the integer 1.
pub fn byte_order_of(b: [u8; 2]) -> (r: ByteOrder)
    ensures
        b@ == seq![1u8, 0u8] ==> r == ByteOrder::Little,
        b@ == seq![0u8, 1u8] ==> r == ByteOrder::Big,
{
    if b[0] == 1 {
        ByteOrder::Little
    } else {
        ByteOrder::Big
    }
}

/// The 8 bytes that carry `n`.
pub fn encode_prefix(n: u64, order: ByteOrder) -> (r: Vec<u8>)
    ensures
        r@ == prefix_bytes(n, order),
{
    let le = u64_to_le_bytes(n);
    match order {
        ByteOrder::Little => le,
        ByteOrder::Big => {
            let mut out: Vec<u8> = Vec::new();
            let mut i: usize = 0;
            while i < 8
                invariant
                    le@.len() == 8,
                    0 <= i <= 8,
                    out@ =~= reversed(le@).take(i as int),
                decreases 8 - i,
            {
                out.push(le[7 - i]);
                i = i + 1;
            }
            assert(out@ =~= reversed(le@));
            out
        }
    }
}

/// The length that the 8 bytes `b` carry.
pub fn decode_prefix(b: &[u8; 8], order: ByteOrder) -> (r: u64)
    ensures
        r == prefix_value(b@, order),
{
    let s = b.as_slice();
    match order {
        ByteOrder::Little => u64_from_le_bytes(s),
        ByteOrder::Big => {
            let mut rev: Vec<u8> = Vec::new();
            let mut i: usize = 0;
            while i < 8
                invariant
                    s@ == b@,
                    s@.len() == 8,
                    0 <= i <= 8,
                    rev@ =~= reversed(s@).take(i as int),
                decreases 8 - i,
            {
                rev.push(s[7 - i]);
                i = i + 1;
            }
            assert(rev@ =~= reversed(b@));
            u64_from_le_bytes(rev.as_slice())
        }
    }
}

/// The error for a stream that failed, or ended, before a whole length
/// prefix came: the peer hung up.
pub fn prefix_lost(reason: &str) -> (r: RabcError)
    ensures
        r@ == (ErrorKind::IpcConnectionError, prefix_lost_msg(reason@)),
{
    RabcError::new(ErrorKind::IpcConnectionError, String::from_str("Failed to receive data size: ").concat(reason))
}

/// The error for any other failure of the stream.
pub fn io_failure(reason: &str) -> (r: RabcError)
    ensures
        r@ == (ErrorKind::Bug, io_failure_msg(reason@)),
{
    RabcError::new(ErrorKind::Bug, String::from_str("std::io::Error: ").concat(reason))
}

/// The framing rules of one connection: the size guard and the order of the
/// prefix bytes.
#[derive(Debug)]
pub struct FrameCodec {
    max_size: usize,
    order: ByteOrder,
}

impl View for FrameCodec {
    /// The size guard, and the byte order of the prefix.
    type V = (usize, ByteOrder);

    closed spec fn view(&self) -> (usize, ByteOrder) {
        (self.max_size, self.order)
    }
}

impl FrameCodec {
    /// A codec with the default size guard, in the machine's byte order.
    pub fn new() -> (r: Self)
        ensures
            r@.0 == DEFAULT_MAX_DATA_SIZE,
    {
        Self { max_size: DEFAULT_MAX_DATA_SIZE, order: native_byte_order() }
    }

    /// A codec with the default size guard and the given byte order.
    pub fn with_byte_order(order: ByteOrder) -> (r: Self)
        ensures
            r@ == (DEFAULT_MAX_DATA_SIZE, order),
    {
        Self { max_size: DEFAULT_MAX_DATA_SIZE, order }
    }

    /// Sets the size guard; later frames are held to it.
    pub fn set_ipc_max_size(&mut self, max_size: usize)
        ensures
            final(self)@ == (max_size, old(self)@.1),
    {
        self.max_size = max_size;
    }

    /// The size guard.
    pub fn get_ipc_max_size(&self) -> (r: usize)
        ensures
            r == self@.0,
    {
        self.max_size
    }

    /// The byte order of the prefix.
    pub fn byte_order(&self) -> (r: ByteOrder)
        ensures
            r == self@.1,
    {
        self.order
    }

    /// The bytes to write for `data`: its length prefix, then its UTF-8
    /// bytes. A payload longer than the guard is refused, and then nothing
    /// is produced to write.
    pub fn encode(&self, data: &str) -> (r: Result<Vec<u8>, RabcError>)
        ensures
            r is Ok <==> data.spec_bytes().len() <= self@.0,
            r matches Ok(b) ==> b@ == frame_bytes(data.spec_bytes(), self@.1),
            r matches Err(e) ==> e@ == (ErrorKind::ExceededIpcMaxSize, send_too_big_msg(self@.0)),
    {
        let len = data.len();
        if len > self.max_size {
            return Err(self.too_big(false));
        }
        let payload = data.as_bytes();
        let mut out = encode_prefix(len as u64, self.order);
        let ghost head = out@;
        let mut i: usize = 0;
        while i < payload.len()
            invariant
                payload@ == data.spec_bytes(),
                0 <= i <= payload@.len(),
                out@ =~= head + payload@.take(i as int),
            decreases payload@.len() - i,
        {
            out.push(payload[i]);
            i = i + 1;
        }
        assert(payload@.take(payload@.len() as int) =~= payload@);
        Ok(out)
    }

    /// The payload length that a received prefix announces. A length at or
    /// over the guard is taken for garbage and refused, so that no payload
    /// of that size is ever read.
    pub fn payload_len(&self, prefix: &[u8; 8]) -> (r: Result<usize, RabcError>)
        ensures
            r is Ok <==> prefix_value(prefix@, self@.1) < self@.0,
            r matches Ok(n) ==> n == prefix_value(prefix@, self@.1),
            r matches Err(e) ==> e@ == (ErrorKind::ExceededIpcMaxSize, recv_too_big_msg(self@.0)),
    {
        let n = decode_prefix(prefix, self.order);
        if n >= self.max_size as u64 {
            Err(self.too_big(true))
        } else {
            Ok(n as usize)
        }
    }

    /// The text of a received payload; one that is not UTF-8 is a `Bug`.
    pub fn decode_payload(&self, data: Vec<u8>) -> (r: Result<String, RabcError>)
        ensures
            r is Ok <==> valid_utf8(data@),
            r matches Ok(s) ==> s@ == decode_utf8(data@),
            r matches Err(e) ==> e@.0 == ErrorKind::Bug && exists|reason: Seq<char>|
                e@.1 == #[trigger] not_utf8_msg(reason),
    {
        match string_from_utf8(data) {
            Ok(s) => Ok(s),
            Err(reason) => {
                let e = RabcError::new(
                    ErrorKind::Bug,
                    String::from_str("std::string::FromUtf8Error: ").concat(reason.as_str()),
                );
                assert(e@.1 == not_utf8_msg(reason@));
                Err(e)
            },
        }
    }

    /// Receives one frame from a stream that holds exactly `stream` and then
    /// ends, as `recv` does on a socket: the prefix, the size guard, the
    /// payload, the UTF-8 check, in that order.
    pub fn decode_frame(&self, stream: &[u8]) -> (r: Result<String, RabcError>)
        ensures
            match recv_outcome(stream@, self@.0, self@.1) {
                Ok(t) => r matches Ok(s) && s@ == t,
                Err(k) => r matches Err(e) && e@.0 == k,
            },
    {
        if stream.len() < 8 {
            return Err(prefix_lost("end of stream"));
        }
        let mut prefix: [u8; 8] = [0u8; 8];
        let mut i: usize = 0;
        while i < 8
            invariant
                stream@.len() >= 8,
                0 <= i <= 8,
                prefix@.len() == 8,
                forall|j: int| 0 <= j < i ==> prefix@[j] == stream@[j],
            decreases 8 - i,
        {
            prefix[i] = stream[i];
            i = i + 1;
        }
        assert(prefix@ =~= stream@.take(8));
        let n = self.payload_len(&prefix)?;
        if stream.len() - 8 < n {
            return Err(io_failure("failed to fill whole buffer"));
        }
        let mut data: Vec<u8> = Vec::new();
        let mut k: usize = 0;
        while k < n
            invariant
                8 + n <= stream@.len(),
                stream@.len() == stream.len(),
                0 <= k <= n,
                data@ =~= stream@.subrange(8, 8 + k as int),
            decreases n - k,
        {
            data.push(stream[8 + k]);
            k = k + 1;
        }
        self.decode_payload(data)
    }

    fn too_big(&self, received: bool) -> (r: RabcError)
        ensures
            r@ == (ErrorKind::ExceededIpcMaxSize, if received {
                recv_too_big_msg(self@.0)
            } else {
                send_too_big_msg(self@.0)
            }),
    {
        let head = if received {
            String::from_str("Received data exceeded the max size ")
        } else {
            String::from_str("Specified data exceeded the max size ")
        };
        let msg = head.concat(decimal_text(self.max_size as u64).as_str()).concat(
            " bytes, please change the limitation by set_ipc_max_size()",
        );
        RabcError::new(ErrorKind::ExceededIpcMaxSize, msg)
    }
}

/// Decoding a prefix gives back the length it was encoded from.
pub proof fn lemma_prefix_round_trip(n: u64, order: ByteOrder)
    ensures
        prefix_bytes(n, order).len() == 8,
        prefix_value(prefix_bytes(n, order), order) == n,
{
    lemma_auto_spec_u64_to_from_le_bytes();
    let le = spec_u64_to_le_bytes(n);
    assert(reversed(reversed(le)) =~= le);
}

/// A text that the sending end accepts and that stays below the receiving
/// end's guard is received unchanged, byte for byte, when both ends order
/// the prefix alike (as two ends on one machine do).
pub proof fn lemma_frame_round_trip(
    t: Seq<char>,
    sender: (usize, ByteOrder),
    receiver: (usize, ByteOrder),
)
    requires
        sender.1 == receiver.1,
        encode_utf8(t).len() <= sender.0,
        encode_utf8(t).len() < receiver.0,
    ensures
        recv_outcome(frame_bytes(encode_utf8(t), sender.1), receiver.0, receiver.1) == Ok::<Seq<char>, ErrorKind>(t),
{
    let order = sender.1;
    let p = encode_utf8(t);
    let f = frame_bytes(p, order);
    lemma_prefix_round_trip(p.len() as u64, order);
    assert(f.take(8) =~= prefix_bytes(p.len() as u64, order));
    assert(f.subrange(8, 8 + p.len() as int) =~= p);
    encode_utf8_valid_utf8(t);
    encode_utf8_decode_utf8(t);
}

/// A text exactly as long as the guard is accepted for sending, but an end
/// with the same guard and byte order refuses it on receipt: the prefix
/// announces the guard itself.
pub proof fn lemma_guard_length_refused_on_receipt(t: Seq<char>, codec: (usize, ByteOrder))
    requires
        encode_utf8(t).len() == codec.0,
    ensures
        encode_utf8(t).len() <= codec.0,
        recv_outcome(frame_bytes(encode_utf8(t), codec.1), codec.0, codec.1) == Err::<Seq<char>, ErrorKind>(ErrorKind::ExceededIpcMaxSize),
{
    let p = encode_utf8(t);
    let f = frame_bytes(p, codec.1);
    lemma_prefix_round_trip(p.len() as u64, codec.1);
    assert(f.take(8) =~= prefix_bytes(p.len() as u64, codec.1));
}

/// A prefix that announces the guard or more is refused whatever follows
/// it, so that no payload of that size is read.
pub proof fn lemma_oversized_prefix_refused(s: Seq<u8>, max: usize, order: ByteOrder)
    requires
        s.len() >= 8,
        prefix_value(s.take(8), order) >= max,
    ensures
        recv_outcome(s, max, order) == Err::<Seq<char>, ErrorKind>(ErrorKind::ExceededIpcMaxSize),
{
}

/// A stream that ends before a whole prefix means the peer hung up, which
/// is told apart from every other fault.
pub proof fn lemma_closed_stream_is_connection_error(s: Seq<u8>, max: usize, order: ByteOrder)
    requires
        s.len() < 8,
    ensures
        recv_outcome(s, max, order) == Err::<Seq<char>, ErrorKind>(ErrorKind::IpcConnectionError),
{
}

} // verus!
