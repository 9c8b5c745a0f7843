//! Resource references.
//!
//! A broker resource is addressed as `repository/type/tag`; a leading path
//! separator is stripped before parsing. The module also builds the URI
//! forms the broker understands: `kbs:///...` for the attested channel and
//! `{broker}/kbs/v0/resource/...` for the plain one.

use vstd::prelude::*;
use vstd::string::StrSliceExecFns;
use vstd::string::StringExecFns;

use crate::error::Error;

verus! {

/// A structured resource locator.
pub struct ResourceIdentifier {
    pub repository: String,
    pub resource_type: String,
    pub tag: String,
}

/// The reference with at most one leading `/` removed.
pub open spec fn strip_leading_separator(s: Seq<char>) -> Seq<char> {
    if s.len() > 0 && s[0] == '/' {
        s.drop_first()
    } else {
        s
    }
}

/// The first index at or after `from` holding `/`, or the length if none.
pub open spec fn first_slash_from(s: Seq<char>, from: int) -> int
    decreases s.len() - from when 0 <= from <= s.len()
{
    if from >= s.len() {
        s.len() as int
    } else if s[from] == '/' {
        from
    } else {
        first_slash_from(s, from + 1)
    }
}

/// The parse of a reference: after stripping the leading separator, the
/// text must hold exactly two `/`, each segment nonempty; the result is
/// `(repository, type, tag)`.
pub open spec fn parse_reference_spec(s: Seq<char>) -> Option<(Seq<char>, Seq<char>, Seq<char>)> {
    let t = strip_leading_separator(s);
    let i = first_slash_from(t, 0);
    let j = if i < t.len() {
        first_slash_from(t, i + 1)
    } else {
        t.len() as int
    };
    let k = if j < t.len() {
        first_slash_from(t, j + 1)
    } else {
        t.len() as int
    };
    if 0 < i && i < t.len() && i + 1 < j && j < t.len() && j + 1 < t.len() && k == t.len() {
        Some((t.subrange(0, i), t.subrange(i + 1, j), t.subrange(j + 1, t.len() as int)))
    } else {
        None
    }
}

fn find_slash(s: &str, from: usize, len: usize) -> (r: usize)
    requires
        len == s@.len(),
        from <= len,
    ensures
        r == first_slash_from(s@, from as int),
        from <= r <= len,
{
    let mut i: usize = from;
    while i < len && s.get_char(i) != '/'
        invariant
            len == s@.len(),
            from <= i <= len,
            first_slash_from(s@, from as int) == first_slash_from(s@, i as int),
        decreases len - i,
    {
        i = i + 1;
    }
    i
}

/// The reference with at most one leading `/` removed.
pub fn strip_separator<'a>(s: &'a str) -> (t: &'a str)
    ensures
        t@ == strip_leading_separator(s@),
{
    let n = s.unicode_len();
    if n > 0 && s.get_char(0) == '/' {
        let t = s.substring_char(1, n);
        proof {
            assert(t@ =~= s@.drop_first());
        }
        t
    } else {
        s
    }
}

fn malformed() -> (e: Error)
    ensures
        (e matches Error::Protocol(m) && m@
            == "malformed resource reference, expected repository/type/tag"@),
{
    Error::Protocol(String::from_str("malformed resource reference, expected repository/type/tag"))
}

/// Parse a textual reference into its three segments, rejecting any other
/// shape as a protocol error.
pub fn parse_reference(s: &str) -> (r: Result<ResourceIdentifier, Error>)
    ensures
        match r {
            Ok(id) => parse_reference_spec(s@) == Some(
                (id.repository@, id.resource_type@, id.tag@),
            ),
            Err(e) => parse_reference_spec(s@) is None && (e matches Error::Protocol(m)
                && m@ == "malformed resource reference, expected repository/type/tag"@),
        },
{
    let t = strip_separator(s);
    let len = t.unicode_len();
    let i = find_slash(t, 0, len);
    if i == 0 || i == len {
        return Err(malformed());
    }
    let j = find_slash(t, i + 1, len);
    if j == i + 1 || j == len {
        return Err(malformed());
    }
    let k = find_slash(t, j + 1, len);
    if k != len || j + 1 == len {
        return Err(malformed());
    }
    let repository = String::from_str(t.substring_char(0, i));
    let resource_type = String::from_str(t.substring_char(i + 1, j));
    let tag = String::from_str(t.substring_char(j + 1, len));
    Ok(ResourceIdentifier { repository, resource_type, tag })
}

/// A reference parses to the same identifier whether or not it carries a
/// leading separator.
pub proof fn lemma_leading_separator_irrelevant(s: Seq<char>)
    requires
        s.len() > 0 ==> s[0] != '/',
    ensures
        parse_reference_spec(seq!['/'] + s) == parse_reference_spec(s),
{
    let w = seq!['/'] + s;
    assert(w[0] == '/');
    assert(w.drop_first() =~= s);
    assert(strip_leading_separator(w) == s);
    assert(strip_leading_separator(s) == s);
}

/// The `kbs:///...` form handed to the attested trust channel.
pub fn attested_resource_uri(reference: &str) -> (u: String)
    ensures
        u@ == "kbs:///"@ + strip_leading_separator(reference@),
{
    let mut u = String::from_str("kbs:///");
    u.append(strip_separator(reference));
    u
}

/// The broker address with a `http://` or `https://` scheme prefix
/// removed, leaving the host form the attested URI carries.
pub open spec fn strip_scheme(s: Seq<char>) -> Seq<char> {
    if crate::text::spec_starts_with(s, "http://"@) {
        s.skip("http://"@.len() as int)
    } else if crate::text::spec_starts_with(s, "https://"@) {
        s.skip("https://"@.len() as int)
    } else {
        s
    }
}

/// The host part of a broker address.
pub fn broker_host<'a>(broker: &'a str) -> (h: &'a str)
    ensures
        h@ == strip_scheme(broker@),
{
    let n = broker.unicode_len();
    if crate::text::starts_with_str(broker, "http://") {
        let p = "http://".unicode_len();
        let h = broker.substring_char(p, n);
        proof {
            assert(h@ =~= broker@.skip("http://"@.len() as int));
        }
        h
    } else if crate::text::starts_with_str(broker, "https://") {
        let p = "https://".unicode_len();
        let h = broker.substring_char(p, n);
        proof {
            assert(h@ =~= broker@.skip("https://"@.len() as int));
        }
        h
    } else {
        broker
    }
}

/// The full `kbs://{host}/{reference}` URI used when the broker address
/// and the resource path are configured separately.
pub fn full_resource_uri(broker: &str, reference: &str) -> (u: String)
    ensures
        u@ == "kbs://"@ + strip_scheme(broker@) + "/"@ + strip_leading_separator(reference@),
{
    let mut u = String::from_str("kbs://");
    u.append(broker_host(broker));
    u.append("/");
    u.append(strip_separator(reference));
    u
}

} // verus!
