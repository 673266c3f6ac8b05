//! Text as it crosses the boundary: the bytes of a string followed by one
//! zero byte, with no zero byte before that.

use vstd::prelude::*;
use vstd::utf8::encode_utf8;

verus! {

/// The bytes that a string is made of.
pub open spec fn bytes_of(text: Seq<char>) -> Seq<u8> {
    encode_utf8(text)
}

/// Whether a zero byte occurs among the bytes.
pub open spec fn has_nul(bytes: Seq<u8>) -> bool {
    exists|i: int| 0 <= i < bytes.len() && bytes[i] == 0u8
}

/// Whether a string can be held in a terminated buffer: only if none of its
/// bytes is zero, since a reader takes the first zero byte for the end.
pub open spec fn can_cross(text: Seq<char>) -> bool {
    !has_nul(bytes_of(text))
}

/// The buffer that holds the bytes: the bytes, then the terminator.
pub open spec fn terminated(bytes: Seq<u8>) -> Seq<u8> {
    bytes.push(0u8)
}

/// Whether a buffer is a terminated text: it ends in a zero byte and holds no
/// other.
pub open spec fn is_terminated(buffer: Seq<u8>) -> bool {
    &&& buffer.len() > 0
    &&& buffer.last() == 0u8
    &&& !has_nul(buffer.drop_last())
}

/// The bytes that a terminated buffer holds, without the terminator.
pub open spec fn content(buffer: Seq<u8>) -> Seq<u8> {
    buffer.drop_last()
}

/// The bytes with every zero byte left out, the others in their order.
pub open spec fn without_nul(bytes: Seq<u8>) -> Seq<u8> {
    bytes.filter(|b: u8| b != 0u8)
}

/// The buffer in which a diagnostic crosses the boundary: the bytes of the
/// text without its zero bytes, then the terminator. For a text that can
/// cross, that is the text itself, terminated.
pub open spec fn diagnostic_buffer(text: Seq<char>) -> Seq<u8> {
    terminated(without_nul(bytes_of(text)))
}

/// Leaving the zero bytes out of bytes with one more byte at the end keeps
/// that byte unless it is zero.
pub proof fn lemma_without_nul_push(bytes: Seq<u8>, last: u8)
    ensures
        without_nul(bytes.push(last)) == if last != 0u8 {
            without_nul(bytes).push(last)
        } else {
            without_nul(bytes)
        },
{
    reveal(Seq::filter);
    assert(bytes.push(last).drop_last() =~= bytes);
}

/// What is left holds no zero byte and is no longer than the bytes; bytes
/// without a zero byte are left as they are.
pub proof fn lemma_without_nul(bytes: Seq<u8>)
    ensures
        !has_nul(without_nul(bytes)),
        without_nul(bytes).len() <= bytes.len(),
        !has_nul(bytes) ==> without_nul(bytes) == bytes,
    decreases bytes.len(),
{
    if bytes.len() == 0 {
        reveal(Seq::filter);
        assert(without_nul(bytes) =~= bytes);
    } else {
        let front = bytes.drop_last();
        lemma_without_nul(front);
        lemma_without_nul_push(front, bytes.last());
        assert(front.push(bytes.last()) =~= bytes);
        if !has_nul(bytes) {
            assert(!has_nul(front)) by {
                if has_nul(front) {
                    let i = choose|i: int| 0 <= i < front.len() && front[i] == 0u8;
                    assert(bytes[i] == 0u8);
                }
            }
            assert(bytes[bytes.len() - 1] != 0u8);
        }
    }
}

/// The diagnostic buffer of any text is a terminated text, and for a text
/// that can cross it holds the text's own bytes.
pub proof fn lemma_diagnostic_buffer(text: Seq<char>)
    ensures
        is_terminated(diagnostic_buffer(text)),
        can_cross(text) ==> diagnostic_buffer(text) == terminated(bytes_of(text)),
{
    lemma_without_nul(bytes_of(text));
    lemma_content_of_terminated(without_nul(bytes_of(text)));
}

/// Terminating bytes gives a buffer one longer whose content is those bytes
/// again; it is a terminated text if the bytes hold no zero.
pub proof fn lemma_content_of_terminated(bytes: Seq<u8>)
    ensures
        content(terminated(bytes)) == bytes,
        terminated(bytes).len() == bytes.len() + 1,
        !has_nul(bytes) ==> is_terminated(terminated(bytes)),
{
    assert(terminated(bytes).drop_last() =~= bytes);
}

/// A text that is not empty has at least one byte.
pub proof fn lemma_bytes_of_nonempty(text: Seq<char>)
    requires
        text.len() > 0,
    ensures
        bytes_of(text).len() > 0,
{
    let first = vstd::utf8::encode_scalar(text[0] as u32);
    assert(first.len() > 0);
    assert(bytes_of(text) == first + encode_utf8(text.drop_first()));
}

/// Two byte strings have the same terminated buffer only if they are the
/// same.
pub proof fn lemma_terminated_injective(a: Seq<u8>, b: Seq<u8>)
    ensures
        terminated(a) == terminated(b) <==> a == b,
{
    if terminated(a) == terminated(b) {
        lemma_content_of_terminated(a);
        lemma_content_of_terminated(b);
        assert(content(terminated(a)) == content(terminated(b)));
    }
}

/// Says whether a zero byte occurs among the bytes.
pub fn contains_nul(bytes: &[u8]) -> (found: bool)
    ensures
        found == has_nul(bytes@),
{
    let mut i: usize = 0;
    while i < bytes.len()
        invariant
            i <= bytes.len(),
            forall|j: int| 0 <= j < i ==> bytes@[j] != 0u8,
        decreases bytes.len() - i,
    {
        if bytes[i] == 0 {
            return true;
        }
        i += 1;
    }
    false
}

/// Copies a string into a fresh terminated buffer. A string with a zero byte
/// has no such buffer and is left out.
pub fn terminate(text: &str) -> (buffer: Vec<u8>)
    requires
        can_cross(text@),
    ensures
        buffer@ == terminated(bytes_of(text@)),
        is_terminated(buffer@),
{
    let bytes = text.as_bytes();
    let mut buffer: Vec<u8> = Vec::new();
    let mut i: usize = 0;
    while i < bytes.len()
        invariant
            i <= bytes.len(),
            buffer@ == bytes@.take(i as int),
        decreases bytes.len() - i,
    {
        buffer.push(bytes[i]);
        assert(bytes@.take(i + 1) =~= bytes@.take(i as int).push(bytes@[i as int]));
        i += 1;
    }
    assert(bytes@.take(bytes.len() as int) =~= bytes@);
    buffer.push(0);
    proof {
        lemma_content_of_terminated(bytes@);
    }
    buffer
}

/// Copies a diagnostic into a fresh terminated buffer, whatever the text
/// holds: a zero byte in it is left out, since a reader would take it for the
/// end. A text without one is copied as it is.
pub fn terminate_diagnostic(text: &str) -> (buffer: Vec<u8>)
    ensures
        buffer@ == diagnostic_buffer(text@),
        is_terminated(buffer@),
        can_cross(text@) ==> buffer@ == terminated(bytes_of(text@)),
{
    let bytes = text.as_bytes();
    let mut buffer: Vec<u8> = Vec::new();
    let mut i: usize = 0;
    proof {
        lemma_without_nul(bytes@.take(0));
    }
    while i < bytes.len()
        invariant
            i <= bytes.len(),
            buffer@ == without_nul(bytes@.take(i as int)),
        decreases bytes.len() - i,
    {
        proof {
            lemma_without_nul_push(bytes@.take(i as int), bytes@[i as int]);
            assert(bytes@.take(i + 1) =~= bytes@.take(i as int).push(bytes@[i as int]));
        }
        if bytes[i] != 0 {
            buffer.push(bytes[i]);
        }
        i += 1;
    }
    assert(bytes@.take(bytes.len() as int) =~= bytes@);
    buffer.push(0);
    proof {
        lemma_diagnostic_buffer(text@);
    }
    buffer
}

/// Copies a string into a fresh terminated buffer if it can be held in one:
/// `None` exactly for a string with a zero byte.
pub fn try_terminate(text: &str) -> (buffer: Option<Vec<u8>>)
    ensures
        can_cross(text@) <==> buffer is Some,
        buffer matches Some(b) ==> b@ == terminated(bytes_of(text@)) && is_terminated(b@),
{
    if contains_nul(text.as_bytes()) {
        None
    } else {
        Some(terminate(text))
    }
}

} // verus!
