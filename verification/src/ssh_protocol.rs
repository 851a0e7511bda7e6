//! The messages that client and server exchange, and how they are framed.
//!
//! A message is four bytes that hold the length of its payload, most significant
//! byte first, and then the payload.

use vstd::prelude::*;
use vstd::slice::{slice_subrange, slice_to_vec};

use crate::error::SyncError;
use crate::record::{HostId, Record, RecordIdx, RecordStatus};

verus! {

/// The largest payload, in bytes, that is sent or accepted.
pub const MAX_MESSAGE_SIZE: usize = 64 * 1024 * 1024;

/// What a client asks of a server.
#[derive(Clone, Debug)]
pub enum Request {
    Status,
    Push { records: Vec<Record> },
    Fetch { host: HostId, tag: String, start: RecordIdx, count: u64 },
    BuildRemote,
    Goodbye,
}

/// What a server answers.
#[derive(Clone, Debug)]
pub enum Response {
    Status { status: RecordStatus },
    PushOk,
    Records { records: Vec<Record> },
    BuildOk,
    Error { message: String },
}

/// The number that four bytes hold, the first the most significant.
pub open spec fn be_value(bytes: Seq<u8>) -> nat {
    (bytes[0] * 0x100_0000 + bytes[1] * 0x1_0000 + bytes[2] * 0x100 + bytes[3]) as nat
}

/// The four bytes that hold a number below two to the power of thirty-two.
pub open spec fn be_bytes(n: nat) -> Seq<u8> {
    seq![
        (n / 0x100_0000) as u8,
        (n / 0x1_0000 % 0x100) as u8,
        (n / 0x100 % 0x100) as u8,
        (n % 0x100) as u8,
    ]
}

/// The bytes of the message with a payload.
pub open spec fn frame(payload: Seq<u8>) -> Seq<u8> {
    be_bytes(payload.len()) + payload
}

/// The bytes of the messages with some payloads, one after the other.
pub open spec fn frames(payloads: Seq<Seq<u8>>) -> Seq<u8>
    decreases payloads.len(),
{
    if payloads.len() == 0 {
        Seq::empty()
    } else {
        frame(payloads.first()) + frames(payloads.drop_first())
    }
}

/// The payload length that the head of a message announces, where it is accepted.
pub open spec fn announced(header: Seq<u8>) -> Result<nat, SyncError> {
    if be_value(header) > MAX_MESSAGE_SIZE {
        Err(SyncError::MessageTooLarge { len: be_value(header) as usize })
    } else {
        Ok(be_value(header))
    }
}

/// The payload of the message at the front of some input, and the input after it.
pub open spec fn unframe(input: Seq<u8>) -> Result<(Seq<u8>, Seq<u8>), SyncError> {
    if input.len() < 4 {
        Err(SyncError::Truncated)
    } else {
        match announced(input.take(4)) {
            Err(e) => Err(e),
            Ok(len) => if input.len() < 4 + len {
                Err(SyncError::Truncated)
            } else {
                Ok((input.subrange(4, 4 + len as int), input.skip(4 + len as int)))
            },
        }
    }
}

/// The payloads of the first `count` messages of some input, and the input after them.
pub open spec fn unframe_many(input: Seq<u8>, count: nat) -> Result<
    (Seq<Seq<u8>>, Seq<u8>),
    SyncError,
>
    decreases count,
{
    if count == 0 {
        Ok((Seq::empty(), input))
    } else {
        match unframe(input) {
            Err(e) => Err(e),
            Ok((payload, rest)) => match unframe_many(rest, (count - 1) as nat) {
                Err(e) => Err(e),
                Ok((payloads, end)) => Ok((seq![payload] + payloads, end)),
            },
        }
    }
}

/// The bytes that are sent for a payload, where it may be sent.
pub open spec fn sent(payload: Seq<u8>) -> Result<Seq<u8>, SyncError> {
    if payload.len() > MAX_MESSAGE_SIZE {
        Err(SyncError::MessageTooLargeToSend { len: payload.len() as usize })
    } else {
        Ok(frame(payload))
    }
}

/// The number of payload bytes that follow the four bytes at the head of a message.
pub fn message_length(header: [u8; 4]) -> (r: Result<usize, SyncError>)
    ensures
        announced(header@) matches Ok(len) ==> r matches Ok(n) && n == len,
        announced(header@) matches Err(e) ==> r == Err::<usize, SyncError>(e),
{
    let len: usize = header[0] as usize * 0x100_0000 + header[1] as usize * 0x1_0000
        + header[2] as usize * 0x100 + header[3] as usize;
    if len > MAX_MESSAGE_SIZE {
        Err(SyncError::MessageTooLarge { len })
    } else {
        Ok(len)
    }
}

/// Reads the message at the front of some input: its payload, and how many bytes
/// of the input it takes.
pub fn read_message(input: &[u8]) -> (r: Result<(Vec<u8>, usize), SyncError>)
    ensures
        unframe(input@) matches Ok((payload, rest)) ==> r matches Ok((read, taken)) && read@
            == payload && taken == 4 + payload.len() && taken <= input@.len() && input@.skip(
            taken as int,
        ) == rest,
        unframe(input@) matches Err(e) ==> r == Err::<(Vec<u8>, usize), SyncError>(e),
{
    if input.len() < 4 {
        return Err(SyncError::Truncated);
    }
    let header: [u8; 4] = [input[0], input[1], input[2], input[3]];
    assert(header@ =~= input@.take(4));
    match message_length(header) {
        Err(e) => Err(e),
        Ok(len) => {
            if input.len() - 4 < len {
                Err(SyncError::Truncated)
            } else {
                Ok((slice_to_vec(slice_subrange(input, 4, 4 + len)), 4 + len))
            }
        },
    }
}

/// Writes the message with a payload.
pub fn write_message(payload: &[u8]) -> (r: Result<Vec<u8>, SyncError>)
    ensures
        sent(payload@) matches Ok(bytes) ==> r matches Ok(written) && written@ == bytes,
        sent(payload@) matches Err(e) ==> r == Err::<Vec<u8>, SyncError>(e),
{
    let len: usize = payload.len();
    if len > MAX_MESSAGE_SIZE {
        return Err(SyncError::MessageTooLargeToSend { len });
    }
    let mut written: Vec<u8> = Vec::with_capacity(4 + len);
    written.push((len / 0x100_0000) as u8);
    written.push((len / 0x1_0000 % 0x100) as u8);
    written.push((len / 0x100 % 0x100) as u8);
    written.push((len % 0x100) as u8);
    written.extend_from_slice(payload);
    assert(written@ =~= frame(payload@));
    Ok(written)
}

/// The four bytes of a length give the length back.
proof fn lemma_be_value_of_be_bytes(n: nat)
    requires
        n < 0x1_0000_0000,
    ensures
        be_bytes(n).len() == 4,
        be_value(be_bytes(n)) == n,
{
    let upper = n / 0x1_0000;
    let lower = n % 0x1_0000;
    assert(n / 0x100_0000 == upper / 0x100);
    assert(n / 0x100 % 0x100 == lower / 0x100);
    assert(n % 0x100 == lower % 0x100);
}

/// Four bytes are those of the number that they hold.
proof fn lemma_be_bytes_of_be_value(bytes: Seq<u8>)
    requires
        bytes.len() == 4,
    ensures
        be_bytes(be_value(bytes)) == bytes,
{
    let n = be_value(bytes);
    let upper = bytes[0] * 0x100 + bytes[1];
    let lower = bytes[2] * 0x100 + bytes[3];
    assert(n == upper * 0x1_0000 + lower);
    assert(n / 0x100_0000 == bytes[0]);
    assert(n / 0x1_0000 == upper);
    assert(upper % 0x100 == bytes[1]);
    assert(n / 0x100 == upper * 0x100 + bytes[2]);
    assert((upper * 0x100 + bytes[2]) % 0x100 == bytes[2]);
    assert(n % 0x100 == bytes[3]);
    assert(be_bytes(n) =~= bytes);
}

/// What is read is what was written, whatever follows it on the stream.
pub proof fn law_read_gives_back_what_was_written(payload: Seq<u8>, rest: Seq<u8>)
    requires
        sent(payload) is Ok,
    ensures
        unframe(sent(payload)->Ok_0 + rest) == Ok::<(Seq<u8>, Seq<u8>), SyncError>(
            (payload, rest),
        ),
{
    let input = frame(payload) + rest;
    lemma_be_value_of_be_bytes(payload.len());
    assert(input.take(4) =~= be_bytes(payload.len()));
    assert(input.subrange(4, 4 + payload.len() as int) =~= payload);
    assert(input.skip(4 + payload.len() as int) =~= rest);
}

/// What was read is what would be written: no two inputs hold the same message
/// differently.
pub proof fn law_write_gives_back_what_was_read(input: Seq<u8>)
    ensures
        unframe(input) matches Ok((payload, rest)) ==> sent(payload) matches Ok(bytes) && bytes
            + rest == input,
{
    if let Ok((payload, rest)) = unframe(input) {
        lemma_be_bytes_of_be_value(input.take(4));
        assert(frame(payload) + rest =~= input);
    }
}

/// A message is read as it was written, for every way of turning messages into
/// payloads that can be undone for it, whatever follows on the stream.
pub proof fn law_message_round_trip<M>(
    message: M,
    encode: spec_fn(M) -> Seq<u8>,
    decode: spec_fn(Seq<u8>) -> Option<M>,
    rest: Seq<u8>,
)
    requires
        sent(encode(message)) is Ok,
        decode(encode(message)) == Some(message),
    ensures
        unframe(sent(encode(message))->Ok_0 + rest) matches Ok((payload, end)) && decode(payload)
            == Some(message) && end == rest,
{
    law_read_gives_back_what_was_written(encode(message), rest);
}

/// The first of some messages stands before the others and what follows them.
proof fn lemma_first_frame_stands_in_front(payloads: Seq<Seq<u8>>, rest: Seq<u8>)
    requires
        payloads.len() > 0,
    ensures
        frames(payloads) + rest == frame(payloads.first()) + (frames(payloads.drop_first()) + rest),
{
    let front = frame(payloads.first());
    let others = frames(payloads.drop_first());
    assert(front + others + rest =~= front + (others + rest));
}

/// Messages written one after the other are read one after the other, in their
/// order, and what follows them is left.
#[verifier::spinoff_prover]
pub proof fn law_messages_are_read_in_order(payloads: Seq<Seq<u8>>, rest: Seq<u8>)
    requires
        forall|i: int| 0 <= i < payloads.len() ==> sent(#[trigger] payloads[i]) is Ok,
    ensures
        unframe_many(frames(payloads) + rest, payloads.len()) == Ok::<
            (Seq<Seq<u8>>, Seq<u8>),
            SyncError,
        >((payloads, rest)),
    decreases payloads.len(),
{
    if payloads.len() == 0 {
        assert(frames(payloads) + rest =~= rest);
        assert(payloads =~= Seq::empty());
    } else {
        let after = payloads.drop_first();
        assert(sent(payloads[0]) is Ok);
        assert forall|i: int| 0 <= i < after.len() implies sent(#[trigger] after[i]) is Ok by {
            assert(after[i] == payloads[i + 1]);
        }
        law_messages_are_read_in_order(after, rest);
        law_read_gives_back_what_was_written(payloads.first(), frames(after) + rest);
        lemma_first_frame_stands_in_front(payloads, rest);
        assert(seq![payloads.first()] + after =~= payloads);
    }
}

/// A message that breaks off is recognised as such, wherever it does.
pub proof fn law_broken_off_message_is_truncated(payload: Seq<u8>, have: nat)
    requires
        sent(payload) is Ok,
        have < frame(payload).len(),
    ensures
        unframe(frame(payload).take(have as int)) == Err::<(Seq<u8>, Seq<u8>), SyncError>(
            SyncError::Truncated,
        ),
{
    lemma_be_value_of_be_bytes(payload.len());
    let input = frame(payload).take(have as int);
    if have >= 4 {
        assert(input.take(4) =~= be_bytes(payload.len()));
    }
}

/// The limits of the two sides agree: a payload that may not be sent would not be
/// accepted either, from its first four bytes on, and one that may be sent would.
pub proof fn law_limits_agree(payload: Seq<u8>, rest: Seq<u8>)
    requires
        payload.len() < 0x1_0000_0000,
    ensures
        sent(payload) is Err <==> unframe(be_bytes(payload.len()) + rest) == Err::<
            (Seq<u8>, Seq<u8>),
            SyncError,
        >(SyncError::MessageTooLarge { len: payload.len() as usize }),
{
    lemma_be_value_of_be_bytes(payload.len());
    assert((be_bytes(payload.len()) + rest).take(4) =~= be_bytes(payload.len()));
}

} // verus!
