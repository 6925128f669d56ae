//! The messages of the Sway / i3 IPC protocol: a magic word, the length of the
//! payload and the message type, both in the machine's byte order, and the
//! payload.

use vstd::prelude::*;

verus! {

pub const IPC_SUBSCRIBE: u32 = 2;

pub const IPC_GET_TREE: u32 = 4;

/// The payload that subscribes to `window` events: `["window"]`.
pub fn subscribe_payload() -> (r: Vec<u8>)
    ensures
        r@ == seq![91u8, 34, 119, 105, 110, 100, 111, 119, 34, 93],
{
    let payload: Vec<u8> = vec![91, 34, 119, 105, 110, 100, 111, 119, 34, 93];
    assert(payload@ =~= seq![91u8, 34, 119, 105, 110, 100, 111, 119, 34, 93]);
    payload
}

/// Upper bound on an IPC payload we are willing to buffer. Real `GET_TREE`
/// payloads are well under a few megabytes; anything larger indicates a
/// corrupt stream and must not translate into an unbounded allocation.
pub const MAX_PAYLOAD_BYTES: u32 = 16_777_216;

/// Bytes in the header of a message.
pub const HEADER_BYTES: usize = 14;

/// The order in which the bytes of a number stand.
#[derive(Debug, Clone, Copy, PartialEq, Eq, Structural)]
pub enum ByteOrder {
    Little,
    Big,
}

/// What is wrong with a message.
#[derive(Debug, Clone, Copy, PartialEq, Eq, Structural)]
pub enum FrameError {
    /// The length of a payload to be sent does not fit the header.
    PayloadTooLong,
    /// The header does not begin with the magic word.
    BadMagic,
    /// The header announces more than is worth buffering.
    PayloadTooLarge,
}

/// `i3-ipc`.
pub open spec fn magic() -> Seq<u8> {
    seq![105u8, 51, 45, 105, 112, 99]
}

/// The four bytes of a number.
pub open spec fn four_bytes(order: ByteOrder, n: u32) -> Seq<u8> {
    let b0 = (n % 256) as u8;
    let b1 = (n / 256 % 256) as u8;
    let b2 = (n / 65536 % 256) as u8;
    let b3 = (n / 16777216) as u8;
    match order {
        ByteOrder::Little => seq![b0, b1, b2, b3],
        ByteOrder::Big => seq![b3, b2, b1, b0],
    }
}

/// The number that four bytes stand for.
pub open spec fn number(order: ByteOrder, bytes: Seq<u8>) -> int {
    match order {
        ByteOrder::Little => bytes[0] + bytes[1] * 256 + bytes[2] * 65536 + bytes[3] * 16777216,
        ByteOrder::Big => bytes[3] + bytes[2] * 256 + bytes[1] * 65536 + bytes[0] * 16777216,
    }
}

/// A whole message.
pub open spec fn framed(order: ByteOrder, msg_type: u32, payload: Seq<u8>) -> Seq<u8> {
    magic() + four_bytes(order, payload.len() as u32) + four_bytes(order, msg_type) + payload
}

/// What a header announces: the message type and the length of the payload.
pub open spec fn announced(order: ByteOrder, header: Seq<u8>) -> Result<(int, int), FrameError> {
    let length = number(order, header.subrange(6, 10));
    if header.take(6) != magic() {
        Err(FrameError::BadMagic)
    } else if length > MAX_PAYLOAD_BYTES {
        Err(FrameError::PayloadTooLarge)
    } else {
        Ok((number(order, header.subrange(10, 14)), length))
    }
}

/// `u32::to_ne_bytes`: the four bytes of the number, in the machine's order.
#[verifier::external_body]
fn native_bytes(n: u32) -> (r: [u8; 4])
    ensures
        r@ == four_bytes(ByteOrder::Little, n) || r@ == four_bytes(ByteOrder::Big, n),
{
    n.to_ne_bytes()
}

/// The byte order of the machine, by how it writes the number one.
fn native_order(one: [u8; 4]) -> (r: ByteOrder)
    requires
        one@ == four_bytes(ByteOrder::Little, 1) || one@ == four_bytes(ByteOrder::Big, 1),
    ensures
        one@ == four_bytes(r, 1),
{
    if one[0] == 1 {
        ByteOrder::Little
    } else {
        ByteOrder::Big
    }
}

fn push_number(order: ByteOrder, n: u32, out: &mut Vec<u8>)
    ensures
        final(out)@ == old(out)@ + four_bytes(order, n),
{
    let b0: u8 = (n % 256) as u8;
    let b1: u8 = (n / 256 % 256) as u8;
    let b2: u8 = (n / 65536 % 256) as u8;
    let b3: u8 = (n / 16777216) as u8;
    match order {
        ByteOrder::Little => {
            out.push(b0);
            out.push(b1);
            out.push(b2);
            out.push(b3);
        },
        ByteOrder::Big => {
            out.push(b3);
            out.push(b2);
            out.push(b1);
            out.push(b0);
        },
    }
    assert(out@ =~= old(out)@ + four_bytes(order, n));
}

fn read_number(order: ByteOrder, header: &[u8], at: usize) -> (r: u32)
    requires
        at + 4 <= header@.len(),
    ensures
        r == number(order, header@.subrange(at as int, at + 4)),
{
    let total: usize = header.len();
    let x0: u32 = header[at] as u32;
    let x1: u32 = header[at + 1] as u32;
    let x2: u32 = header[at + 2] as u32;
    let x3: u32 = header[at + 3] as u32;
    match order {
        ByteOrder::Little => x0 + x1 * 256 + x2 * 65536 + x3 * 16777216,
        ByteOrder::Big => x3 + x2 * 256 + x1 * 65536 + x0 * 16777216,
    }
}

/// A whole message in the given byte order.
pub fn encode_message(order: ByteOrder, msg_type: u32, payload: &[u8]) -> (r: Result<
    Vec<u8>,
    FrameError,
>)
    ensures
        match r {
            Ok(message) => payload@.len() <= u32::MAX && message@ == framed(
                order,
                msg_type,
                payload@,
            ),
            Err(e) => payload@.len() > u32::MAX && e == FrameError::PayloadTooLong,
        },
{
    let length: usize = payload.len();
    if length as u64 > u32::MAX as u64 {
        return Err(FrameError::PayloadTooLong);
    }
    let mut out: Vec<u8> = vec![105, 51, 45, 105, 112, 99];
    assert(out@ =~= magic());
    push_number(order, length as u32, &mut out);
    push_number(order, msg_type, &mut out);
    let ghost header = out@;
    let mut i: usize = 0;
    while i < length
        invariant
            i <= length,
            length == payload@.len(),
            out@ == header + payload@.take(i as int),
        decreases length - i,
    {
        out.push(payload[i]);
        assert(out@ =~= header + payload@.take(i + 1));
        i += 1;
    }
    assert(payload@.take(i as int) =~= payload@);
    Ok(out)
}

/// What a header in the given byte order announces: the message type and the
/// length of the payload.
pub fn decode_header(order: ByteOrder, header: &[u8; 14]) -> (r: Result<(u32, u32), FrameError>)
    ensures
        match r {
            Ok((msg_type, length)) => announced(order, header@) == Ok::<(int, int), FrameError>(
                (msg_type as int, length as int),
            ),
            Err(e) => announced(order, header@) == Err::<(int, int), FrameError>(e),
        },
{
    let magic_ok: bool = header[0] == 105 && header[1] == 51 && header[2] == 45 && header[3] == 105
        && header[4] == 112 && header[5] == 99;
    if !magic_ok {
        assert(header@.take(6) != magic()) by {
            if header@.take(6) == magic() {
                assert(forall|i: int| 0 <= i < 6 ==> header@[i] == header@.take(6)[i]);
            }
        }
        return Err(FrameError::BadMagic);
    }
    assert(header@.take(6) =~= magic());
    let length: u32 = read_number(order, header.as_slice(), 6);
    let msg_type: u32 = read_number(order, header.as_slice(), 10);
    if length > MAX_PAYLOAD_BYTES {
        return Err(FrameError::PayloadTooLarge);
    }
    Ok((msg_type, length))
}

/// A whole message, in the machine's byte order.
pub fn send_msg(msg_type: u32, payload: &[u8]) -> (r: Result<Vec<u8>, FrameError>)
    ensures
        r is Err <==> payload@.len() > u32::MAX,
        r matches Err(e) ==> e == FrameError::PayloadTooLong,
        r matches Ok(message) ==> exists|order: ByteOrder|
            message@ == #[trigger] framed(order, msg_type, payload@),
{
    encode_message(native_order(native_bytes(1)), msg_type, payload)
}

/// What a header announces, in the machine's byte order.
pub fn read_header(header: &[u8; 14]) -> (r: Result<(u32, u32), FrameError>)
    ensures
        exists|order: ByteOrder|
            (#[trigger] announced(order, header@)) == (match r {
                Ok((msg_type, length)) => Ok::<(int, int), FrameError>(
                    (msg_type as int, length as int),
                ),
                Err(e) => Err::<(int, int), FrameError>(e),
            }),
{
    let order: ByteOrder = native_order(native_bytes(1));
    let r: Result<(u32, u32), FrameError> = decode_header(order, header);
    assert(announced(order, header@) == (match r {
        Ok((msg_type, length)) => Ok::<(int, int), FrameError>((msg_type as int, length as int)),
        Err(e) => Err::<(int, int), FrameError>(e),
    }));
    r
}

/// Four bytes stand for the number that they were made from.
proof fn lemma_number_reads_back(order: ByteOrder, n: u32)
    ensures
        number(order, four_bytes(order, n)) == n,
{
    let m = n as int;
    assert(m == m % 256 + m / 256 % 256 * 256 + m / 65536 % 256 * 65536 + m / 16777216 * 16777216);
}

/// The header of a message announces what the message was made from, unless
/// the payload is more than is worth buffering.
pub proof fn law_messages_read_back(order: ByteOrder, msg_type: u32, payload: Seq<u8>)
    requires
        payload.len() <= u32::MAX,
    ensures
        announced(order, framed(order, msg_type, payload).take(14)) == (if payload.len()
            > MAX_PAYLOAD_BYTES {
            Err::<(int, int), FrameError>(FrameError::PayloadTooLarge)
        } else {
            Ok::<(int, int), FrameError>((msg_type as int, payload.len() as int))
        }),
        framed(order, msg_type, payload).skip(14) == payload,
{
    let message = framed(order, msg_type, payload);
    let header = message.take(14);
    lemma_number_reads_back(order, msg_type);
    lemma_number_reads_back(order, payload.len() as u32);
    assert(header.take(6) =~= magic());
    assert(header.subrange(6, 10) =~= four_bytes(order, payload.len() as u32));
    assert(header.subrange(10, 14) =~= four_bytes(order, msg_type));
    assert(message.skip(14) =~= payload);
}

/// A number is written in four bytes, the least significant one first or last as
/// the order has it, and the two orders are each other's reverse.
pub proof fn law_byte_orders(n: u32, bytes: Seq<u8>)
    requires
        bytes.len() == 4,
    ensures
        four_bytes(ByteOrder::Little, n).len() == 4,
        four_bytes(ByteOrder::Little, n)[0] == n as int % 256,
        four_bytes(ByteOrder::Big, n) == four_bytes(ByteOrder::Little, n).reverse(),
        number(ByteOrder::Little, four_bytes(ByteOrder::Little, n)) == n,
        number(ByteOrder::Little, bytes) == number(ByteOrder::Big, bytes.reverse()),
        number(ByteOrder::Little, bytes) == bytes[0] + 256 * (bytes[1] + 256 * (bytes[2] + 256
            * bytes[3])),
{
    lemma_number_reads_back(ByteOrder::Little, n);
    assert(four_bytes(ByteOrder::Big, n) =~= four_bytes(ByteOrder::Little, n).reverse());
}

/// A message begins with the six letters `i3-ipc`, then come the length of the
/// payload and the type in four bytes each, and then the payload.
pub proof fn law_layout_of_messages(order: ByteOrder, msg_type: u32, payload: Seq<u8>)
    requires
        payload.len() <= u32::MAX,
    ensures
        ({
            let message = framed(order, msg_type, payload);
            &&& message.len() == 14 + payload.len()
            &&& message[0] == 0x69 && message[1] == 0x33 && message[2] == 0x2d && message[3] == 0x69
                && message[4] == 0x70 && message[5] == 0x63
            &&& number(order, message.subrange(6, 10)) == payload.len()
            &&& number(order, message.subrange(10, 14)) == msg_type
            &&& message.skip(14) == payload
        }),
{
    let message = framed(order, msg_type, payload);
    lemma_number_reads_back(order, msg_type);
    lemma_number_reads_back(order, payload.len() as u32);
    assert(message.subrange(6, 10) =~= four_bytes(order, payload.len() as u32));
    assert(message.subrange(10, 14) =~= four_bytes(order, msg_type));
    assert(message.skip(14) =~= payload);
}

/// A header is accepted exactly where it begins with the magic word and announces
/// no more than 16 MiB; a wrong word is complained of first.
pub proof fn law_headers_are_checked(order: ByteOrder, header: Seq<u8>)
    requires
        header.len() == 14,
    ensures
        ({
            let word = header[0] == 0x69 && header[1] == 0x33 && header[2] == 0x2d && header[3]
                == 0x69 && header[4] == 0x70 && header[5] == 0x63;
            let length = number(order, header.subrange(6, 10));
            &&& !word <==> announced(order, header) == Err::<(int, int), FrameError>(
                FrameError::BadMagic,
            )
            &&& word && length > 16 * 1024 * 1024 <==> announced(order, header) == Err::<
                (int, int),
                FrameError,
            >(FrameError::PayloadTooLarge)
            &&& word && length <= 16 * 1024 * 1024 <==> announced(order, header) is Ok
            &&& announced(order, header) matches Ok((msg_type, announced_length)) ==> msg_type
                == number(order, header.subrange(10, 14)) && announced_length == length
        }),
{
    if header.take(6) == magic() {
        assert(forall|i: int| 0 <= i < 6 ==> header[i] == header.take(6)[i]);
    } else if header[0] == 0x69 && header[1] == 0x33 && header[2] == 0x2d && header[3] == 0x69
        && header[4] == 0x70 && header[5] == 0x63 {
        assert(header.take(6) =~= magic());
    }
}

} // verus!
