//! Key-encryption-key normalization.
//!
//! A canonical key is exactly 32 bytes (AES-256). Brokers sometimes answer
//! with a textual wrapping instead: a base64 string, possibly surrounded by
//! whitespace. `normalize` accepts a canonical key unchanged, unwraps a
//! textual one, and rejects everything else with both lengths reported.

use vstd::prelude::*;

use crate::error::Error;
use base64::Engine;

verus! {

/// The whitespace bytes trimmed from a textual key wrapping: space, tab,
/// line feed, form feed, carriage return.
pub open spec fn is_ascii_space(b: u8) -> bool {
    b == 0x20 || b == 0x09 || b == 0x0a || b == 0x0c || b == 0x0d
}

fn byte_is_space(b: u8) -> (r: bool)
    ensures
        r == is_ascii_space(b),
{
    b == 0x20 || b == 0x09 || b == 0x0a || b == 0x0c || b == 0x0d
}

/// The sequence with its leading whitespace removed.
pub open spec fn trim_front(s: Seq<u8>) -> Seq<u8>
    decreases s.len(),
{
    if s.len() > 0 && is_ascii_space(s.first()) {
        trim_front(s.drop_first())
    } else {
        s
    }
}

/// The sequence with its trailing whitespace removed.
pub open spec fn trim_back(s: Seq<u8>) -> Seq<u8>
    decreases s.len(),
{
    if s.len() > 0 && is_ascii_space(s.last()) {
        trim_back(s.drop_last())
    } else {
        s
    }
}

/// The sequence with whitespace removed from both ends.
pub open spec fn trim_spaces(s: Seq<u8>) -> Seq<u8> {
    trim_back(trim_front(s))
}

/// What the standard base64 engine decodes a byte string to, or `None`
/// where the string is not valid base64.
pub uninterp spec fn b64_decode_of(s: Seq<u8>) -> Option<Seq<u8>>;

/// Relies on base64's `general_purpose::STANDARD` engine `decode`: the
/// outcome is a function of the input bytes alone.
#[verifier::external_body]
fn b64_decode(s: &Vec<u8>) -> (r: Option<Vec<u8>>)
    ensures
        match r {
            Some(d) => b64_decode_of(s@) == Some(d@),
            None => b64_decode_of(s@) is None,
        },
{
    base64::engine::general_purpose::STANDARD.decode(s.as_slice()).ok()
}

fn trim_whitespace(v: &Vec<u8>) -> (t: Vec<u8>)
    ensures
        t@ == trim_spaces(v@),
{
    let len = v.len();
    let mut start: usize = 0;
    proof {
        assert(v@.skip(0) =~= v@);
    }
    while start < len && byte_is_space(v[start])
        invariant
            len == v@.len(),
            start <= len,
            trim_front(v@) == trim_front(v@.skip(start as int)),
        decreases len - start,
    {
        proof {
            assert(v@.skip(start as int).drop_first() =~= v@.skip(start as int + 1));
        }
        start = start + 1;
    }
    proof {
        if start < len {
            assert(trim_front(v@.skip(start as int)) == v@.skip(start as int));
        } else {
            assert(v@.skip(start as int) =~= Seq::<u8>::empty());
        }
        assert(trim_front(v@) == v@.skip(start as int));
        assert(v@.skip(start as int) =~= v@.subrange(start as int, len as int));
    }
    let mut end: usize = len;
    while end > start && byte_is_space(v[end - 1])
        invariant
            len == v@.len(),
            start <= end <= len,
            trim_back(v@.subrange(start as int, len as int)) == trim_back(
                v@.subrange(start as int, end as int),
            ),
        decreases end,
    {
        proof {
            assert(v@.subrange(start as int, end as int).drop_last() =~= v@.subrange(
                start as int,
                end as int - 1,
            ));
        }
        end = end - 1;
    }
    proof {
        if end > start {
            assert(trim_back(v@.subrange(start as int, end as int)) == v@.subrange(
                start as int,
                end as int,
            ));
        } else {
            assert(v@.subrange(start as int, end as int) =~= Seq::<u8>::empty());
        }
        assert(trim_spaces(v@) == v@.subrange(start as int, end as int));
    }
    let mut t: Vec<u8> = Vec::new();
    let mut i: usize = start;
    proof {
        assert(Seq::<u8>::empty() =~= v@.subrange(start as int, start as int));
    }
    while i < end
        invariant
            start <= i <= end <= v@.len(),
            t@ == v@.subrange(start as int, i as int),
        decreases end - i,
    {
        t.push(v[i]);
        proof {
            assert(t@ =~= v@.subrange(start as int, i as int + 1));
        }
        i = i + 1;
    }
    t
}

/// The canonical form of a fetched key: a 32-byte buffer is already
/// canonical; anything else is read as text, trimmed, and base64-decoded,
/// and accepted only if exactly 32 bytes come out.
pub open spec fn normalize_spec(k: Seq<u8>) -> Option<Seq<u8>> {
    if k.len() == 32 {
        Some(k)
    } else {
        match b64_decode_of(trim_spaces(k)) {
            Some(d) => if d.len() == 32 {
                Some(d)
            } else {
                None
            },
            None => None,
        }
    }
}

/// The decoded length reported on a rejected key: `None` where the base64
/// decode itself failed.
pub open spec fn rejected_decoded_len(k: Seq<u8>) -> Option<usize> {
    match b64_decode_of(trim_spaces(k)) {
        Some(d) => Some(d.len() as usize),
        None => None,
    }
}

/// Bring a fetched key into canonical 32-byte form, or reject it with the
/// original and decoded lengths. A buffer already 32 bytes long comes
/// back unchanged.
pub fn normalize(key: Vec<u8>) -> (r: Result<Vec<u8>, Error>)
    ensures
        key@.len() == 32 ==> (r matches Ok(v) && v@ == key@),
        match r {
            Ok(v) => normalize_spec(key@) == Some(v@),
            Err(e) => normalize_spec(key@) is None && (e == (Error::KeyValidation {
                original_len: key@.len() as usize,
                decoded_len: rejected_decoded_len(key@),
            })),
        },
{
    if key.len() == 32 {
        return Ok(key);
    }
    let original_len = key.len();
    let trimmed = trim_whitespace(&key);
    match b64_decode(&trimmed) {
        Some(d) => {
            if d.len() == 32 {
                Ok(d)
            } else {
                Err(Error::KeyValidation { original_len, decoded_len: Some(d.len()) })
            }
        },
        None => Err(Error::KeyValidation { original_len, decoded_len: None }),
    }
}

proof fn lemma_trim_front_ws_prefix(pre: Seq<u8>, rest: Seq<u8>)
    requires
        forall|i: int| 0 <= i < pre.len() ==> is_ascii_space(pre[i]),
    ensures
        trim_front(pre + rest) == trim_front(rest),
    decreases pre.len(),
{
    if pre.len() == 0 {
        assert(pre + rest =~= rest);
    } else {
        assert((pre + rest).first() == pre[0]);
        assert((pre + rest).drop_first() =~= pre.drop_first() + rest);
        lemma_trim_front_ws_prefix(pre.drop_first(), rest);
    }
}

proof fn lemma_trim_back_ws_suffix(mid: Seq<u8>, post: Seq<u8>)
    requires
        forall|i: int| 0 <= i < post.len() ==> is_ascii_space(post[i]),
        mid.len() > 0,
        !is_ascii_space(mid.last()),
    ensures
        trim_back(mid + post) == mid,
    decreases post.len(),
{
    if post.len() == 0 {
        assert(mid + post =~= mid);
    } else {
        assert((mid + post).last() == post.last());
        assert((mid + post).drop_last() =~= mid + post.drop_last());
        lemma_trim_back_ws_suffix(mid, post.drop_last());
    }
}

/// A key that reaches the client as a base64 encoding of 32 bytes, with
/// arbitrary whitespace around it, normalizes to exactly those 32 bytes.
/// (An encoding of 32 bytes is a nonempty string of base64 alphabet
/// characters, so it carries no whitespace of its own; and at 44
/// characters it never makes the wrapped buffer itself 32 bytes long —
/// both facts stand here as hypotheses, since the decoder is opaque to
/// the proof.)
pub proof fn lemma_normalize_recovers_wrapped_key(
    kek: Seq<u8>,
    enc: Seq<u8>,
    pre: Seq<u8>,
    post: Seq<u8>,
)
    requires
        kek.len() == 32,
        b64_decode_of(enc) == Some(kek),
        enc.len() > 0,
        !is_ascii_space(enc.first()),
        !is_ascii_space(enc.last()),
        forall|i: int| 0 <= i < pre.len() ==> is_ascii_space(pre[i]),
        forall|i: int| 0 <= i < post.len() ==> is_ascii_space(post[i]),
        pre.len() + enc.len() + post.len() != 32,
    ensures
        normalize_spec(pre + enc + post) == Some(kek),
{
    let full = pre + enc + post;
    assert(full =~= pre + (enc + post));
    lemma_trim_front_ws_prefix(pre, enc + post);
    assert((enc + post).first() == enc.first());
    assert(trim_front(enc + post) == enc + post);
    lemma_trim_back_ws_suffix(enc, post);
    assert(trim_spaces(full) == enc);
}

} // verus!
