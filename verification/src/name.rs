//! Decoding of the fixed-capacity, null-padded name buffers carried by
//! snapshot records: the name is the bytes up to (not including) the first
//! zero byte, each interpreted as a single-byte character. Bytes beyond the
//! terminator are undefined and are never included.

use vstd::prelude::*;

verus! {

/// Relies on `String::push`: appends the given character to the end of the
/// string.
pub assume_specification[ String::push ](s: &mut String, c: char)
    ensures
        final(s)@ == old(s)@.push(c),
;

/// The number of bytes before the first zero byte, or the whole length if
/// no byte is zero.
pub open spec fn terminated_len(buf: Seq<u8>) -> int
    decreases buf.len(),
{
    if buf.len() == 0 {
        0
    } else if buf[0] == 0 {
        0
    } else {
        1 + terminated_len(buf.subrange(1, buf.len() as int))
    }
}

/// `terminated_len` marks the first zero byte: everything before it is
/// non-zero, and it only falls short of the buffer's length when the byte
/// there is zero.
pub proof fn lemma_terminated_len(buf: Seq<u8>)
    ensures
        0 <= terminated_len(buf) <= buf.len(),
        forall|k: int| 0 <= k < terminated_len(buf) ==> buf[k] != 0,
        terminated_len(buf) < buf.len() ==> buf[terminated_len(buf)] == 0,
    decreases buf.len(),
{
    if buf.len() > 0 && buf[0] != 0 {
        let tail = buf.subrange(1, buf.len() as int);
        lemma_terminated_len(tail);
        assert forall|k: int| 0 <= k < terminated_len(buf) implies buf[k] != 0 by {
            if k >= 1 {
                assert(buf[k] == tail[k - 1]);
            }
        }
    }
}

/// What a fixed-capacity, null-padded buffer decodes to: the bytes before
/// the first zero, each read as the single-byte character with that value.
pub open spec fn decode_spec(buf: Seq<u8>) -> Seq<char> {
    buf.take(terminated_len(buf)).map(|i: int, b: u8| b as char)
}

/// Law: the decoded name contains exactly the bytes before the first zero,
/// in order — never the terminator, never any byte after it.
pub proof fn lemma_decode_chars(buf: Seq<u8>)
    ensures
        decode_spec(buf).len() == terminated_len(buf),
        forall|k: int| 0 <= k < decode_spec(buf).len() ==> decode_spec(buf)[k] == buf[k] as char,
        forall|k: int| 0 <= k < decode_spec(buf).len() ==> buf[k] != 0,
{
    lemma_terminated_len(buf);
}

/// Decode one record's name buffer.
pub fn decode_name(buf: &Vec<u8>) -> (s: String)
    ensures
        s@ == decode_spec(buf@),
{
    let ghost n = terminated_len(buf@);
    proof {
        lemma_terminated_len(buf@);
    }
    let mut s = String::new();
    let mut i: usize = 0;
    while i < buf.len() && buf[i] != 0
        invariant
            0 <= i <= buf@.len(),
            forall|k: int| 0 <= k < i ==> buf@[k] != 0,
            i <= n,
            n == terminated_len(buf@),
            0 <= n <= buf@.len(),
            forall|k: int| 0 <= k < n ==> buf@[k] != 0,
            n < buf@.len() ==> buf@[n] == 0,
            s@ == buf@.take(i as int).map(|j: int, b: u8| b as char),
        decreases buf@.len() - i,
    {
        let b = buf[i];
        s.push(b as char);
        proof {
            assert(buf@.take((i + 1) as int) =~= buf@.take(i as int).push(buf@[i as int]));
            assert(s@ =~= buf@.take((i + 1) as int).map(|j: int, b: u8| b as char));
        }
        i = i + 1;
        proof {
            if i > n {
                assert(buf@[n] != 0);
            }
        }
    }
    proof {
        if i < buf@.len() {
            assert(buf@[i as int] == 0);
            assert(i >= n) by {
                if i < n {
                    assert(buf@[i as int] != 0);
                }
            }
        } else {
            assert(n == buf@.len()) by {
                if n < buf@.len() {
                    assert(buf@[n] == 0);
                }
            }
        }
        assert(i == n);
    }
    s
}

} // verus!
