//! Decoding of the backend's package-name buffers: the bytes up to the
//! first terminator, turned into text with lossy replacement so that a
//! malformed buffer never surfaces as an error.

use vstd::prelude::*;

verus! {

/// The bytes of `s` before its first zero byte: the whole of `s` when no
/// byte is zero.
pub open spec fn nul_prefix(s: Seq<u8>) -> Seq<u8>
    decreases s.len(),
{
    if s.len() == 0 {
        s
    } else if s[0] == 0 {
        Seq::empty()
    } else {
        seq![s[0]] + nul_prefix(s.drop_first())
    }
}

/// Every byte of `s` is plain ASCII.
pub open spec fn ascii_only(s: Seq<u8>) -> bool {
    forall|q: int| 0 <= q < s.len() ==> s[q] < 128
}

proof fn lemma_nul_prefix_subrange(s: Seq<u8>, k: int)
    requires
        0 <= k <= s.len(),
        forall|q: int| 0 <= q < k ==> s[q] != 0,
        k < s.len() ==> s[k] == 0,
    ensures
        nul_prefix(s) == s.subrange(0, k),
    decreases s.len(),
{
    if s.len() == 0 {
        assert(s.subrange(0, k) =~= s);
    } else if k == 0 {
        assert(s[0] == 0);
        assert(s.subrange(0, 0) =~= Seq::<u8>::empty());
    } else {
        assert(s[0] != 0);
        let d = s.drop_first();
        assert(forall|q: int| 0 <= q < k - 1 ==> d[q] == s[q + 1] && d[q] != 0);
        assert(k - 1 < d.len() ==> d[k - 1] == s[k] && d[k - 1] == 0);
        lemma_nul_prefix_subrange(d, k - 1);
        assert(nul_prefix(s) =~= s.subrange(0, k));
    }
}

/// Copy out the bytes before the first zero byte, as a C-style string scan
/// would, reading no further than the terminator.
pub fn nul_terminated_prefix(bytes: &Vec<u8>) -> (r: Vec<u8>)
    ensures
        r@ == nul_prefix(bytes@),
{
    let mut out: Vec<u8> = Vec::new();
    let mut i: usize = 0;
    while i < bytes.len()
        invariant
            i <= bytes@.len(),
            out@ == bytes@.subrange(0, i as int),
            forall|q: int| 0 <= q < i ==> bytes@[q] != 0,
        decreases bytes@.len() - i,
    {
        let b = bytes[i];
        if b == 0 {
            proof {
                lemma_nul_prefix_subrange(bytes@, i as int);
            }
            return out;
        }
        out.push(b);
        proof {
            assert(out@ =~= bytes@.subrange(0, i + 1));
        }
        i += 1;
    }
    proof {
        lemma_nul_prefix_subrange(bytes@, bytes@.len() as int);
        assert(bytes@.subrange(0, bytes@.len() as int) =~= bytes@);
    }
    out
}

/// What `String::from_utf8_lossy` decodes a byte sequence to.
pub uninterp spec fn lossy_utf8(bytes: Seq<u8>) -> Seq<char>;

/// Relies on `String::from_utf8_lossy` of std: the decoding is a function
/// of the bytes alone, an empty input decodes to the empty string,
/// pure-ASCII input decodes byte for byte, and invalid sequences are
/// replaced rather than reported, so decoding never fails.
#[verifier::external_body]
pub(crate) fn lossy_decode(bytes: &Vec<u8>) -> (r: String)
    ensures
        r@ == lossy_utf8(bytes@),
        bytes@.len() == 0 ==> r@.len() == 0,
        ascii_only(bytes@) ==> r@ == bytes@.map_values(|b: u8| b as char),
{
    String::from_utf8_lossy(bytes.as_slice()).into_owned()
}

} // verus!
