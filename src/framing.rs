//! The framing of DNS messages on a DoQ stream: each message goes with a two-octet
//! length in network byte order, and travels with its ID set to zero.

use vstd::prelude::*;

use crate::message::{be16, header_id, with_id, Message, HEADER_LEN};

verus! {

/// What can go wrong when a message is framed or read from a stream.
#[derive(Clone, Copy, Debug, PartialEq, Eq, Structural)]
pub enum DoqStreamError {
    /// The stream ended before a whole frame was read.
    UnexpectedEof,
    /// The bytes of a frame do not hold a DNS message.
    Serialization,
    /// The message is longer than a two-octet length can give.
    MessageTooLarge,
    /// A message was received with an ID other than zero.
    QuicMessageIdNot0(u16),
}

/// The ALPN token that selects DoQ in the QUIC handshake: "doq".
pub const DOQ_ALPN: [u8; 3] = [0x64, 0x6f, 0x71];

/// The length of the longest message that a frame can carry.
pub const MAX_MESSAGE_LEN: usize = 65535;

/// The length of a frame's length prefix.
pub const PREFIX_LEN: usize = 2;

/// The two octets that give `n` in network byte order.
pub open spec fn length_prefix(n: nat) -> Seq<u8> {
    seq![(n / 256) as u8, (n % 256) as u8]
}

/// A message in wire form behind its length prefix.
pub open spec fn frame_of(payload: Seq<u8>) -> Seq<u8> {
    length_prefix(payload.len()) + payload
}

/// What goes on the wire for the message `m`: its frame, with the ID set to zero,
/// or `MessageTooLarge` where no length prefix can give its length.
pub open spec fn sent_frame(m: Seq<u8>) -> Result<Seq<u8>, DoqStreamError> {
    if m.len() > MAX_MESSAGE_LEN {
        Err(DoqStreamError::MessageTooLarge)
    } else {
        Ok(frame_of(with_id(m, 0)))
    }
}

/// What a frame's payload gives: the message, or the reason it is refused.
pub open spec fn received_message(payload: Seq<u8>) -> Result<Seq<u8>, DoqStreamError> {
    if payload.len() < HEADER_LEN {
        Err(DoqStreamError::Serialization)
    } else if header_id(payload) != 0 {
        Err(DoqStreamError::QuicMessageIdNot0(header_id(payload) as u16))
    } else {
        Ok(payload)
    }
}

/// The length of the frame at the start of `inbound`, as its prefix gives it.
pub open spec fn frame_len(inbound: Seq<u8>) -> nat {
    (PREFIX_LEN + be16(inbound[0], inbound[1])) as nat
}

/// Whether `inbound` holds a whole frame at its start.
pub open spec fn holds_frame(inbound: Seq<u8>) -> bool {
    inbound.len() >= PREFIX_LEN && inbound.len() >= frame_len(inbound)
}

/// What reading one frame gives from a stream whose bytes, until it ends, are
/// `inbound`.
pub open spec fn received_frame(inbound: Seq<u8>) -> Result<Seq<u8>, DoqStreamError> {
    if !holds_frame(inbound) {
        Err(DoqStreamError::UnexpectedEof)
    } else {
        received_message(inbound.subrange(PREFIX_LEN as int, frame_len(inbound) as int))
    }
}

/// The length prefix of `n` reads back as `n`.
proof fn lemma_length_prefix_round_trip(n: nat)
    requires
        n <= MAX_MESSAGE_LEN,
    ensures
        be16(length_prefix(n)[0], length_prefix(n)[1]) == n,
{
    assert(n / 256 < 256 && n % 256 < 256) by (nonlinear_arith)
        requires
            n <= 65535,
    ;
    assert(n == (n / 256) * 256 + n % 256) by (nonlinear_arith);
}

/// A message that a frame can carry, framed and read back from a stream that may
/// go on with more bytes, comes back with its ID set to zero and all else kept;
/// the frame is read to its end and no further.
pub proof fn lemma_frame_round_trip(m: Seq<u8>, rest: Seq<u8>)
    requires
        HEADER_LEN <= m.len() <= MAX_MESSAGE_LEN,
    ensures
        sent_frame(m) matches Ok(frame) && received_frame(frame + rest) == Ok::<_, DoqStreamError>(
            with_id(m, 0),
        ) && frame_len(frame + rest) == frame.len(),
{
    let w = with_id(m, 0);
    let frame = frame_of(w);
    let inbound = frame + rest;
    lemma_length_prefix_round_trip(w.len());
    assert(inbound[0] == frame[0] && inbound[1] == frame[1]);
    assert(frame_len(inbound) == frame.len());
    assert(inbound.subrange(PREFIX_LEN as int, frame_len(inbound) as int) =~= w);
    assert(header_id(w) == 0);
}

/// On the wire, the two octets that follow the length prefix, the message ID, are
/// zero.
pub proof fn lemma_sent_id_is_zero(m: Seq<u8>)
    requires
        HEADER_LEN <= m.len() <= MAX_MESSAGE_LEN,
    ensures
        sent_frame(m) matches Ok(frame) && frame.len() == PREFIX_LEN + m.len() && frame[2] == 0
            && frame[3] == 0,
{
}

/// A message longer than a length prefix can give is refused, and nothing is sent.
pub proof fn lemma_oversized_message_is_refused(m: Seq<u8>)
    requires
        m.len() > MAX_MESSAGE_LEN,
    ensures
        sent_frame(m) == Err::<Seq<u8>, _>(DoqStreamError::MessageTooLarge),
{
}

/// A stream that ends before the length prefix, or before as many bytes as the
/// prefix gives, yields `UnexpectedEof`.
pub proof fn lemma_short_stream_is_eof(inbound: Seq<u8>)
    requires
        inbound.len() < PREFIX_LEN || inbound.len() < frame_len(inbound),
    ensures
        received_frame(inbound) == Err::<Seq<u8>, _>(DoqStreamError::UnexpectedEof),
{
}

/// A whole frame that carries a DNS message with an ID other than zero is refused
/// with that ID.
pub proof fn lemma_nonzero_id_is_refused(inbound: Seq<u8>)
    requires
        holds_frame(inbound),
        frame_len(inbound) >= PREFIX_LEN + HEADER_LEN,
        header_id(inbound.subrange(PREFIX_LEN as int, frame_len(inbound) as int)) != 0,
    ensures
        ({
            let id = header_id(inbound.subrange(PREFIX_LEN as int, frame_len(inbound) as int));
            &&& id <= 0xffff
            &&& received_frame(inbound) == Err::<Seq<u8>, _>(
                DoqStreamError::QuicMessageIdNot0(id as u16),
            )
        }),
{
}

/// Frames a message to be sent: sets its ID to zero and puts its length, in
/// network byte order, in front of it. Fails with `MessageTooLarge`, and gives
/// nothing to send, when the message is longer than `MAX_MESSAGE_LEN`.
pub fn frame_message(message: Message) -> (r: Result<Vec<u8>, DoqStreamError>)
    ensures
        r is Ok <==> message@.len() <= MAX_MESSAGE_LEN,
        r matches Ok(frame) ==> sent_frame(message@) == Ok::<_, DoqStreamError>(frame@),
        r matches Err(e) ==> sent_frame(message@) == Err::<Seq<u8>, _>(e),
{
    let ghost original = message@;
    let mut message = message;
    message.set_id(0);
    let mut bytes = message.into_vec();
    let len = bytes.len();
    if len > MAX_MESSAGE_LEN {
        return Err(DoqStreamError::MessageTooLarge);
    }
    let mut frame: Vec<u8> = Vec::with_capacity(PREFIX_LEN + len);
    frame.push((len / 256) as u8);
    frame.push((len % 256) as u8);
    frame.append(&mut bytes);
    assert(frame@ =~= frame_of(with_id(original, 0)));
    Ok(frame)
}

/// The payload length that a frame's prefix gives, in network byte order.
pub fn frame_length(prefix: &[u8; 2]) -> (r: usize)
    ensures
        r == be16(prefix@[0], prefix@[1]),
{
    prefix[0] as usize * 256 + prefix[1] as usize
}

/// Takes the payload of a received frame: the message it holds, which must have
/// its ID set to zero.
pub fn decode_message(payload: &[u8]) -> (r: Result<Message, DoqStreamError>)
    ensures
        r matches Ok(m) ==> received_message(payload@) == Ok::<_, DoqStreamError>(m@),
        r matches Err(e) ==> received_message(payload@) == Err::<Seq<u8>, _>(e),
{
    let message = match Message::from_vec(payload) {
        Ok(m) => m,
        Err(e) => return Err(e),
    };
    let id = message.id();
    if id != 0 {
        return Err(DoqStreamError::QuicMessageIdNot0(id));
    }
    Ok(message)
}

/// Reads one frame from the start of `inbound`, all that a stream holds until it
/// ends: the message it carries and the number of bytes the frame takes. Fails
/// with `UnexpectedEof` when the stream ends before the whole frame.
pub fn read_frame(inbound: &[u8]) -> (r: Result<(Message, usize), DoqStreamError>)
    ensures
        r matches Ok((m, n)) ==> received_frame(inbound@) == Ok::<_, DoqStreamError>(m@) && n
            == frame_len(inbound@),
        r matches Err(e) ==> received_frame(inbound@) == Err::<Seq<u8>, _>(e),
{
    if inbound.len() < PREFIX_LEN {
        return Err(DoqStreamError::UnexpectedEof);
    }
    let len = frame_length(&[inbound[0], inbound[1]]);
    if inbound.len() - PREFIX_LEN < len {
        return Err(DoqStreamError::UnexpectedEof);
    }
    let end = PREFIX_LEN + len;
    let mut payload: Vec<u8> = Vec::with_capacity(len);
    let mut i: usize = PREFIX_LEN;
    while i < end
        invariant
            PREFIX_LEN <= i <= end,
            end <= inbound@.len(),
            payload@ == inbound@.subrange(PREFIX_LEN as int, i as int),
        decreases end - i,
    {
        payload.push(inbound[i]);
        i = i + 1;
    }
    match decode_message(payload.as_slice()) {
        Ok(m) => Ok((m, end)),
        Err(e) => Err(e),
    }
}

} // verus!
