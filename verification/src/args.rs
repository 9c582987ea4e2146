//! Command-line arguments on their way to the runtime, which keeps them for
//! the `$test$plusargs` and `$value$plusargs` lookups of the simulated design.
//!
//! The runtime takes each argument as a null-terminated byte buffer. A zero
//! byte inside an argument would end it early there, so such an argument is
//! refused rather than cut short.

use vstd::prelude::*;
use vstd::utf8::*;

verus! {

/// An argument that cannot be written as a null-terminated buffer.
#[derive(Copy, Clone, Debug, PartialEq, Eq, Structural)]
pub struct EncodingError {
    /// Index of the first argument that holds a zero byte.
    pub argument: usize,
    /// Offset of the first zero byte within that argument's UTF-8 bytes.
    pub position: usize,
}

/// No byte of `bytes` is zero.
pub open spec fn nul_free(bytes: Seq<u8>) -> bool {
    forall|i: int| 0 <= i < bytes.len() ==> bytes[i] != 0
}

/// The first zero byte of `bytes` is at `position`.
pub open spec fn first_nul_at(bytes: Seq<u8>, position: int) -> bool {
    &&& 0 <= position < bytes.len()
    &&& bytes[position] == 0
    &&& forall|i: int| 0 <= i < position ==> bytes[i] != 0
}

/// Whether `text` can be written as a null-terminated buffer: its UTF-8
/// bytes hold no zero.
pub open spec fn encodable(text: Seq<char>) -> bool {
    nul_free(encode_utf8(text))
}

/// The buffer that stands for `text`: its UTF-8 bytes, then the terminator.
pub open spec fn encoded(text: Seq<char>) -> Seq<u8> {
    encode_utf8(text).push(0u8)
}

/// Which bytes of a scalar's UTF-8 encoding can be zero: the single byte of
/// the scalar zero, and no other.
proof fn lemma_scalar_bytes(scalar: u32)
    by (bit_vector)
    requires
        scalar <= 0x10FFFF,
    ensures
        scalar <= 0x7F ==> (leading_byte_width_1(scalar) == 0 <==> scalar == 0),
        leading_byte_width_2(scalar) != 0,
        leading_byte_width_3(scalar) != 0,
        leading_byte_width_4(scalar) != 0,
        last_continuation_byte(scalar) != 0,
        second_last_continuation_byte(scalar) != 0,
        third_last_continuation_byte(scalar) != 0,
{
}

/// The UTF-8 encoding of one character holds a zero byte exactly when the
/// character is the null character.
proof fn lemma_char_nul_free(c: char)
    ensures
        nul_free(encode_scalar(c as u32)) <==> c != '\0',
{
    let scalar = c as u32;
    char_is_scalar(c);
    lemma_scalar_bytes(scalar);
    let bytes = encode_scalar(scalar);
    if c == '\0' {
        assert(bytes[0] == 0);
    }
}

/// No zero byte in two runs of bytes put together means none in either.
proof fn lemma_nul_free_concat(front: Seq<u8>, back: Seq<u8>)
    ensures
        nul_free(front + back) <==> nul_free(front) && nul_free(back),
{
    let whole = front + back;
    if nul_free(whole) {
        assert forall|i: int| 0 <= i < front.len() implies front[i] != 0 by {
            assert(whole[i] == front[i]);
        }
        assert forall|i: int| 0 <= i < back.len() implies back[i] != 0 by {
            assert(whole[front.len() + i] == back[i]);
        }
    }
}

/// Text can be written as a null-terminated buffer exactly when none of its
/// characters is the null character.
pub proof fn lemma_encodable_iff_no_nul_char(text: Seq<char>)
    ensures
        encodable(text) <==> forall|i: int| 0 <= i < text.len() ==> text[i] != '\0',
    decreases text.len(),
{
    if text.len() > 0 {
        let rest = text.drop_first();
        lemma_encodable_iff_no_nul_char(rest);
        lemma_char_nul_free(text[0]);
        lemma_nul_free_concat(encode_scalar(text[0] as u32), encode_utf8(rest));
        assert forall|i: int| 0 < i < text.len() implies text[i] == rest[i - 1] by {}
    }
}

/// The buffer written for an encodable text is one byte longer than the
/// text's UTF-8 bytes, and its terminator is the only zero byte in it: a
/// reader that stops at the first zero reads the text in full.
pub proof fn lemma_encoded_is_terminated(text: Seq<char>)
    requires
        encodable(text),
    ensures
        encoded(text).len() == encode_utf8(text).len() + 1,
        first_nul_at(encoded(text), encode_utf8(text).len() as int),
        encoded(text).take(encode_utf8(text).len() as int) == encode_utf8(text),
{
}

/// Writes one argument as a null-terminated buffer, or reports the offset of
/// its first zero byte.
fn encode_argument(text: &str) -> (result: Result<Vec<u8>, usize>)
    ensures
        result matches Ok(buffer) ==> encodable(text@) && buffer@ == encoded(text@),
        result matches Err(position) ==> first_nul_at(encode_utf8(text@), position as int),
{
    let bytes = text.as_bytes();
    let mut buffer: Vec<u8> = Vec::new();
    let mut at: usize = 0;
    while at < bytes.len()
        invariant
            at <= bytes.len(),
            bytes@ == encode_utf8(text@),
            buffer@ == bytes@.take(at as int),
            forall|i: int| 0 <= i < at ==> bytes@[i] != 0,
        decreases bytes.len() - at,
    {
        let byte: u8 = bytes[at];
        if byte == 0 {
            return Err(at);
        }
        buffer.push(byte);
        at += 1;
    }
    buffer.push(0);
    Ok(buffer)
}

/// Record the command-line arguments: returns, for each argument in order,
/// the null-terminated buffer to hand to the runtime.
///
/// Either every argument is written or none is. An argument with a zero byte
/// among its UTF-8 bytes is refused with the place of the first such byte,
/// and then no buffer is handed out, so nothing can reach the runtime in
/// part.
pub fn command_args(args: Vec<String>) -> (result: Result<Vec<Vec<u8>>, EncodingError>)
    ensures
        result is Ok <==> forall|i: int| 0 <= i < args.len() ==> encodable(#[trigger] args[i]@),
        result matches Ok(buffers) ==> buffers.len() == args.len() && forall|i: int|
            0 <= i < args.len() ==> (#[trigger] buffers[i])@ == encoded(args[i]@),
        result matches Err(e) ==> e.argument < args.len() && first_nul_at(
            encode_utf8(args[e.argument as int]@),
            e.position as int,
        ) && forall|i: int| 0 <= i < e.argument ==> encodable(#[trigger] args[i]@),
{
    let mut buffers: Vec<Vec<u8>> = Vec::new();
    let mut next: usize = 0;
    while next < args.len()
        invariant
            next <= args.len(),
            buffers.len() == next,
            forall|i: int| 0 <= i < next ==> encodable(#[trigger] args[i]@),
            forall|i: int| 0 <= i < next ==> (#[trigger] buffers[i])@ == encoded(args[i]@),
        decreases args.len() - next,
    {
        match encode_argument(args[next].as_str()) {
            Ok(buffer) => {
                buffers.push(buffer);
            },
            Err(position) => {
                return Err(EncodingError { argument: next, position });
            },
        }
        next += 1;
    }
    Ok(buffers)
}

} // verus!
