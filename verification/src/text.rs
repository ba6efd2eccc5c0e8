//! Text held in fixed-size byte buffers: the bytes before the first NUL.

use vstd::prelude::*;

verus! {

/// `n` is where the text of `bytes` ends: no NUL before it, and either a NUL
/// at it or the end of the buffer.
pub open spec fn is_text_end(bytes: Seq<u8>, n: int) -> bool {
    &&& 0 <= n <= bytes.len()
    &&& forall|i: int| 0 <= i < n ==> bytes[i] != 0
    &&& n < bytes.len() ==> bytes[n] == 0
}

/// The length of the text of `bytes`.
pub open spec fn text_end(bytes: Seq<u8>) -> int {
    choose|n: int| is_text_end(bytes, n)
}

/// The text of `bytes`: everything before the first NUL, the whole buffer
/// where it holds none. Bytes after the terminator are not part of it.
pub open spec fn text_of(bytes: Seq<u8>) -> Seq<u8> {
    bytes.take(text_end(bytes))
}

/// A buffer has exactly one text end.
pub proof fn lemma_text_end_unique(bytes: Seq<u8>, n: int, m: int)
    requires
        is_text_end(bytes, n),
        is_text_end(bytes, m),
    ensures
        n == m,
{
    if n < m {
        assert(bytes[n] != 0);
    } else if m < n {
        assert(bytes[m] != 0);
    }
}

/// Whatever position meets `is_text_end` is `text_end`.
pub proof fn lemma_text_end_is(bytes: Seq<u8>, n: int)
    requires
        is_text_end(bytes, n),
    ensures
        text_end(bytes) == n,
        text_of(bytes) == bytes.take(n),
{
    lemma_text_end_unique(bytes, n, text_end(bytes));
}

/// The number of bytes before the first NUL of `bytes`.
pub fn text_len(bytes: &[u8]) -> (n: usize)
    ensures
        is_text_end(bytes@, n as int),
        n == text_end(bytes@),
{
    let mut i: usize = 0;
    while i < bytes.len() && bytes[i] != 0
        invariant
            i <= bytes.len(),
            forall|j: int| 0 <= j < i ==> bytes@[j] != 0,
        decreases bytes.len() - i,
    {
        i += 1;
    }
    proof {
        lemma_text_end_is(bytes@, i as int);
    }
    i
}

/// Whether the text of `bytes` is exactly `text`.
///
/// A buffer whose text is not valid UTF-8 never equals a valid `text`, so
/// comparing bytes gives the same answer as decoding first and treating a
/// failed decode as the empty string, for every non-empty valid `text`.
pub fn matches(bytes: &[u8], text: &[u8]) -> (b: bool)
    ensures
        b == (text_of(bytes@) == text@),
{
    let n: usize = text_len(bytes);
    if n != text.len() {
        return false;
    }
    let mut i: usize = 0;
    while i < n
        invariant
            i <= n,
            n == text.len(),
            n <= bytes.len(),
            text_of(bytes@) == bytes@.take(n as int),
            forall|j: int| 0 <= j < i ==> bytes@[j] == text@[j],
        decreases n - i,
    {
        if bytes[i] != text[i] {
            assert(text_of(bytes@)[i as int] != text@[i as int]);
            return false;
        }
        i += 1;
    }
    assert(text_of(bytes@) =~= text@);
    true
}

} // verus!
