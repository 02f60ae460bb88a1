//! The wire format of one message.
//!
//! A frame is the four magic bytes, the command name and the payload.  The
//! command name travels as a length-prefixed region that holds a serialized
//! string (its byte length, then its UTF-8 bytes); the payload travels as a
//! length-prefixed block of bytes.  All lengths are variable-length integers.
//!
//! Readers never read to the end of a stream: each step asks for an exact
//! number of bytes, and a claimed length bounds the read that follows it.

use crate::varint::{
    encode_varint, lemma_varint_extends, lemma_varint_roundtrip, parse_varint, varint_size, VarInt,
};
use crate::wire::{append, copy_range, Parsed, Read};
use vstd::prelude::*;
use vstd::slice::slice_subrange;
use vstd::utf8::{decode_utf8, encode_utf8, valid_utf8};

verus! {

/// The marker that starts every frame.
pub const MAGIC_BYTES: [u8; 4] = [0xd9, 0xef, 0xb6, 0x7d];

/// The magic bytes as a sequence.
pub open spec fn magic() -> Seq<u8> {
    seq![0xd9u8, 0xefu8, 0xb6u8, 0x7du8]
}

/// A block: the length of `content` as a variable-length integer, then
/// `content`.
pub open spec fn block_bytes(content: Seq<u8>) -> Seq<u8> {
    encode_varint(content.len() as u64) + content
}

/// A serialized string: the block of its UTF-8 bytes.
pub open spec fn string_bytes(s: Seq<char>) -> Seq<u8> {
    block_bytes(encode_utf8(s))
}

/// The part of a frame that precedes the payload: the magic bytes and the
/// region that holds the command name.
pub open spec fn header_bytes(command: Seq<char>) -> Seq<u8> {
    magic() + block_bytes(string_bytes(command))
}

/// A whole frame.
pub open spec fn frame_bytes(command: Seq<char>, payload: Seq<u8>) -> Seq<u8> {
    header_bytes(command) + block_bytes(payload)
}

/// A command and a payload can be framed when every length that the frame
/// states fits its 64-bit prefix.
pub open spec fn frameable(command: Seq<char>, payload: Seq<u8>) -> bool {
    &&& string_bytes(command).len() <= u64::MAX
    &&& payload.len() <= u64::MAX
}

/// Reading a block from the front of `s`: the length, then exactly that
/// many bytes.
pub open spec fn parse_block(s: Seq<u8>) -> Parsed<Seq<u8>> {
    match parse_varint(s) {
        Parsed::Done { value, consumed } => {
            if s.len() - consumed < value {
                Parsed::Incomplete { needed: (value - (s.len() - consumed)) as nat }
            } else {
                Parsed::Done {
                    value: s.subrange(consumed as int, consumed + value),
                    consumed: (consumed + value) as nat,
                }
            }
        },
        Parsed::Incomplete { needed } => Parsed::Incomplete { needed },
        Parsed::Malformed => Parsed::Malformed,
    }
}

/// The string that a region holds, if the region is exactly one serialized
/// string.
pub open spec fn parse_string_region(region: Seq<u8>) -> Option<Seq<char>> {
    match parse_block(region) {
        Parsed::Done { value, consumed } => {
            if consumed == region.len() && valid_utf8(value) {
                Some(decode_utf8(value))
            } else {
                None
            }
        },
        _ => None,
    }
}

/// Reading the magic bytes and the command name from the front of `s`.
pub open spec fn parse_command(s: Seq<u8>) -> Parsed<Seq<char>> {
    if s.len() < 4 {
        Parsed::Incomplete { needed: (4 - s.len()) as nat }
    } else if s.subrange(0, 4) != magic() {
        Parsed::Malformed
    } else {
        match parse_block(s.skip(4)) {
            Parsed::Done { value, consumed } => match parse_string_region(value) {
                Some(command) => Parsed::Done { value: command, consumed: (4 + consumed) as nat },
                None => Parsed::Malformed,
            },
            Parsed::Incomplete { needed } => Parsed::Incomplete { needed },
            Parsed::Malformed => Parsed::Malformed,
        }
    }
}

/// Reading a whole frame from the front of `s`.
pub open spec fn parse_frame(s: Seq<u8>) -> Parsed<(Seq<char>, Seq<u8>)> {
    match parse_command(s) {
        Parsed::Done { value: command, consumed: head } => match parse_block(s.skip(head as int)) {
            Parsed::Done { value: payload, consumed } => Parsed::Done {
                value: (command, payload),
                consumed: (head + consumed) as nat,
            },
            Parsed::Incomplete { needed } => Parsed::Incomplete { needed },
            Parsed::Malformed => Parsed::Malformed,
        },
        Parsed::Incomplete { needed } => Parsed::Incomplete { needed },
        Parsed::Malformed => Parsed::Malformed,
    }
}

/// A block that was read took at least its length prefix and no more bytes
/// than there are.
pub proof fn lemma_block_bounds(s: Seq<u8>)
    ensures
        parse_block(s) matches Parsed::Done { value, consumed } ==> 1 <= consumed <= s.len()
            && value.len() + 1 <= consumed,
{
}

/// A command that was read took the magic bytes and its region, and no more
/// bytes than there are.
pub proof fn lemma_command_bounds(s: Seq<u8>)
    ensures
        parse_command(s) matches Parsed::Done { value, consumed } ==> 5 <= consumed <= s.len(),
{
    if s.len() >= 4 {
        lemma_block_bounds(s.skip(4));
    }
}

/// The block reader never changes its mind when more bytes arrive.
pub proof fn lemma_block_extends(s: Seq<u8>, more: Seq<u8>)
    ensures
        match parse_block(s) {
            Parsed::Done { value, consumed } => parse_block(s + more) == (Parsed::Done {
                value,
                consumed,
            }),
            Parsed::Malformed => parse_block(s + more) == Parsed::<Seq<u8>>::Malformed,
            Parsed::Incomplete { needed } => 1 <= needed && (more.len() < needed ==> parse_block(
                s + more,
            ) == (Parsed::<Seq<u8>>::Incomplete { needed: (needed - more.len()) as nat })),
        },
{
    lemma_varint_extends(s, more);
    let t = s + more;
    if let Parsed::Done { value, consumed } = parse_varint(s) {
        if s.len() - consumed >= value {
            assert(t.subrange(consumed as int, consumed + value) =~= s.subrange(
                consumed as int,
                consumed + value,
            ));
        }
    }
}

/// The command reader never changes its mind when more bytes arrive: a
/// command that was read stays read, a malformed header stays malformed,
/// and a reader that asked for `needed` bytes and got fewer asks for the
/// rest.
pub proof fn lemma_command_extends(s: Seq<u8>, more: Seq<u8>)
    ensures
        match parse_command(s) {
            Parsed::Done { value, consumed } => parse_command(s + more) == (Parsed::Done {
                value,
                consumed,
            }),
            Parsed::Malformed => parse_command(s + more) == Parsed::<Seq<char>>::Malformed,
            Parsed::Incomplete { needed } => 1 <= needed && (more.len() < needed
                ==> parse_command(s + more) == (Parsed::<Seq<char>>::Incomplete {
                needed: (needed - more.len()) as nat,
            })),
        },
{
    let t = s + more;
    if s.len() >= 4 {
        assert(t.subrange(0, 4) =~= s.subrange(0, 4));
        assert(t.skip(4) =~= s.skip(4) + more);
        lemma_block_extends(s.skip(4), more);
    }
}

/// A block is read back as its content, whatever follows it.
pub proof fn lemma_block_roundtrip(content: Seq<u8>, rest: Seq<u8>)
    requires
        content.len() <= u64::MAX,
    ensures
        block_bytes(content).len() == varint_size(content.len() as u64) + content.len(),
        parse_block(block_bytes(content) + rest) == (Parsed::Done {
            value: content,
            consumed: block_bytes(content).len(),
        }),
{
    let n = content.len() as u64;
    let s = block_bytes(content) + rest;
    lemma_varint_roundtrip(n, content + rest);
    assert(s =~= encode_varint(n) + (content + rest));
    let k = varint_size(n);
    assert(s.subrange(k as int, k + n) =~= content);
}

/// The region of a command name holds that name.
pub proof fn lemma_string_region_roundtrip(command: Seq<char>)
    requires
        encode_utf8(command).len() <= u64::MAX,
    ensures
        parse_string_region(string_bytes(command)) == Some(command),
{
    let utf8 = encode_utf8(command);
    lemma_block_roundtrip(utf8, Seq::empty());
    assert(string_bytes(command) + Seq::<u8>::empty() =~= string_bytes(command));
    vstd::utf8::encode_utf8_valid_utf8(command);
    vstd::utf8::encode_utf8_decode_utf8(command);
}

/// Reading the header of a frame gives the command, whatever follows.
pub proof fn lemma_header_roundtrip(command: Seq<char>, rest: Seq<u8>)
    requires
        string_bytes(command).len() <= u64::MAX,
    ensures
        parse_command(header_bytes(command) + rest) == (Parsed::Done {
            value: command,
            consumed: header_bytes(command).len(),
        }),
{
    let region = string_bytes(command);
    let s = header_bytes(command) + rest;
    assert(encode_utf8(command).len() <= region.len());
    lemma_string_region_roundtrip(command);
    lemma_block_roundtrip(region, rest);
    assert(s.subrange(0, 4) =~= magic());
    assert(s.skip(4) =~= block_bytes(region) + rest);
}

/// Encoding a command and a payload and then decoding the frame yields the
/// same command and the same payload, and consumes exactly the frame.
pub proof fn lemma_frame_roundtrip(command: Seq<char>, payload: Seq<u8>, rest: Seq<u8>)
    requires
        frameable(command, payload),
    ensures
        parse_frame(frame_bytes(command, payload) + rest) == (Parsed::Done {
            value: (command, payload),
            consumed: frame_bytes(command, payload).len(),
        }),
{
    let head = header_bytes(command);
    let s = frame_bytes(command, payload) + rest;
    assert(s =~= head + (block_bytes(payload) + rest));
    lemma_header_roundtrip(command, block_bytes(payload) + rest);
    lemma_block_roundtrip(payload, rest);
    assert(s.skip(head.len() as int) =~= block_bytes(payload) + rest);
}

/// Every block has one encoding only: the bytes that the reader took are the
/// bytes that the writer writes for the content that was read.
pub proof fn lemma_block_canonical(s: Seq<u8>)
    ensures
        parse_block(s) matches Parsed::Done { value, consumed } ==> consumed <= s.len()
            && value.len() <= u64::MAX && s.subrange(0, consumed as int) == block_bytes(value),
{
    crate::varint::lemma_varint_canonical(s);
    if let Parsed::Done { value, consumed } = parse_block(s) {
        if let Parsed::Done { value: n, consumed: k } = parse_varint(s) {
            assert(s.subrange(0, consumed as int) =~= s.subrange(0, k as int) + value);
        }
    }
}

/// Every frame has one encoding only: the bytes that the reader took are the
/// bytes that the writer writes for the command and the payload that were
/// read.  Together with the round trip this makes reading and writing
/// inverse to each other.
pub proof fn lemma_frame_canonical(s: Seq<u8>)
    ensures
        parse_frame(s) matches Parsed::Done { value, consumed } ==> consumed <= s.len()
            && frameable(value.0, value.1) && s.subrange(0, consumed as int) == frame_bytes(
            value.0,
            value.1,
        ),
{
    if let Parsed::Done { value, consumed } = parse_frame(s) {
        let (command, payload) = value;
        let tail = s.skip(4);
        lemma_block_canonical(tail);
        if let Parsed::Done { value: region, consumed: r } = parse_block(tail) {
            lemma_block_canonical(region);
            if let Parsed::Done { value: utf8, consumed: u } = parse_block(region) {
                vstd::utf8::decode_utf8_encode_utf8(utf8);
                assert(region.subrange(0, region.len() as int) =~= region);
                assert(string_bytes(command) == region);
                let head: nat = 4 + r;
                let body = s.skip(head as int);
                lemma_block_canonical(body);
                if let Parsed::Done { value: p, consumed: b } = parse_block(body) {
                    assert(s.subrange(0, 4) == magic());
                    assert(tail.subrange(0, r as int) =~= s.subrange(4, head as int));
                    assert(body.subrange(0, b as int) =~= s.subrange(
                        head as int,
                        (head + b) as int,
                    ));
                    assert(s.subrange(0, consumed as int) =~= s.subrange(0, 4) + s.subrange(
                        4,
                        head as int,
                    ) + s.subrange(head as int, (head + b) as int));
                }
            }
        }
    }
}

/// A frame whose first four bytes are not the magic bytes is malformed,
/// whatever else it holds.
pub proof fn lemma_magic_mismatch(s: Seq<u8>)
    requires
        s.len() >= 4,
        s.subrange(0, 4) != magic(),
    ensures
        parse_command(s) == Parsed::<Seq<char>>::Malformed,
        parse_frame(s) == Parsed::<(Seq<char>, Seq<u8>)>::Malformed,
{
}

/// Appends the block of `content` to `out`.
pub fn write_block(out: &mut Vec<u8>, content: &[u8])
    ensures
        final(out)@ == old(out)@ + block_bytes(content@),
{
    let ghost before = out@;
    let _ = VarInt(content.len() as u64).encode(out);
    append(out, content);
    assert(out@ =~= before + block_bytes(content@));
}

/// The frame that carries `payload` under the name `command`.
pub fn encode_frame(command: &str, payload: &[u8]) -> (frame: Vec<u8>)
    ensures
        frame@ == frame_bytes(command@, payload@),
{
    let mut name_buffer: Vec<u8> = Vec::new();
    write_block(&mut name_buffer, command.as_bytes());
    assert(name_buffer@ =~= string_bytes(command@));

    let mut frame: Vec<u8> = Vec::new();
    append(&mut frame, MAGIC_BYTES.as_slice());
    assert(frame@ =~= magic());
    write_block(&mut frame, name_buffer.as_slice());
    write_block(&mut frame, payload);
    assert(frame@ =~= frame_bytes(command@, payload@));
    frame
}

/// Reads a block from the front of `bytes`.
pub fn read_block(bytes: &[u8]) -> (r: Read<Vec<u8>>)
    ensures
        r.stands_for(parse_block(bytes@)),
{
    match VarInt::decode(bytes) {
        Read::Done { value, consumed } => {
            let have: usize = bytes.len() - consumed;
            if (have as u64) < value {
                Read::Incomplete { needed: value - have as u64 }
            } else {
                let end: usize = consumed + value as usize;
                Read::Done { value: copy_range(bytes, consumed, end), consumed: end }
            }
        },
        Read::Incomplete { needed } => Read::Incomplete { needed },
        Read::Malformed => Read::Malformed,
    }
}

/// Turns bytes into a `String` when they are valid UTF-8.  Stands for
/// `String::from_utf8`, which accepts exactly the valid encodings and gives
/// the string that they encode.
#[verifier::external_body]
pub(crate) fn string_from_utf8(bytes: Vec<u8>) -> (r: Option<String>)
    ensures
        r.is_some() == valid_utf8(bytes@),
        r matches Some(s) ==> s@ == decode_utf8(bytes@),
{
    match String::from_utf8(bytes) {
        Ok(s) => Some(s),
        Err(_) => None,
    }
}

/// Reads the string that `region` holds, if it holds exactly one.
pub fn read_string_region(region: &[u8]) -> (r: Option<String>)
    ensures
        r.is_some() == parse_string_region(region@).is_some(),
        r matches Some(s) ==> parse_string_region(region@) == Some(s@),
{
    match read_block(region) {
        Read::Done { value, consumed } => {
            if consumed == region.len() {
                string_from_utf8(value)
            } else {
                None
            }
        },
        _ => None,
    }
}

/// Reads the magic bytes and the command name from the front of `bytes`.
pub fn read_command(bytes: &[u8]) -> (r: Read<String>)
    ensures
        r.stands_for(parse_command(bytes@)),
{
    if bytes.len() < 4 {
        return Read::Incomplete { needed: (4 - bytes.len()) as u64 };
    }
    if bytes[0] != MAGIC_BYTES[0] || bytes[1] != MAGIC_BYTES[1] || bytes[2] != MAGIC_BYTES[2]
        || bytes[3] != MAGIC_BYTES[3] {
        assert(bytes@.subrange(0, 4) != magic()) by {
            let m = bytes@.subrange(0, 4);
            assert(m[0] == bytes[0] && m[1] == bytes[1] && m[2] == bytes[2] && m[3] == bytes[3]);
        }
        return Read::Malformed;
    }
    assert(bytes@.subrange(0, 4) =~= magic());
    let tail = slice_subrange(bytes, 4, bytes.len());
    assert(tail@ =~= bytes@.skip(4));
    match read_block(tail) {
        Read::Done { value, consumed } => match read_string_region(value.as_slice()) {
            Some(command) => Read::Done { value: command, consumed: 4 + consumed },
            None => Read::Malformed,
        },
        Read::Incomplete { needed } => Read::Incomplete { needed },
        Read::Malformed => Read::Malformed,
    }
}

/// Reads a whole frame from the front of `bytes`: the command and the
/// payload.
pub fn read_frame(bytes: &[u8]) -> (r: Read<(String, Vec<u8>)>)
    ensures
        r.stands_for(parse_frame(bytes@)),
{
    match read_command(bytes) {
        Read::Done { value: command, consumed: head } => {
            proof {
                lemma_command_bounds(bytes@);
            }
            let tail = slice_subrange(bytes, head, bytes.len());
            assert(tail@ =~= bytes@.skip(head as int));
            match read_block(tail) {
                Read::Done { value: payload, consumed } => {
                    proof {
                        lemma_block_bounds(tail@);
                    }
                    Read::Done { value: (command, payload), consumed: head + consumed }
                },
                Read::Incomplete { needed } => Read::Incomplete { needed },
                Read::Malformed => Read::Malformed,
            }
        },
        Read::Incomplete { needed } => Read::Incomplete { needed },
        Read::Malformed => Read::Malformed,
    }
}

} // verus!
