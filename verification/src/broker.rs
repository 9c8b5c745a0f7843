//! Key-broker client planning.
//!
//! One closed set of trust modes — attested, attested with a cached
//! session, unauthenticated — shares the reference parsing, the URL
//! forms and the key normalization. The functions here decide what the
//! transport must do; the transport reports back plain values.

use vstd::prelude::*;
use vstd::string::StrSliceExecFns;
use vstd::string::StringExecFns;

use crate::error::Error;
use crate::resource::{parse_reference, parse_reference_spec, strip_leading_separator, strip_separator};

verus! {

/// How a fetch is trusted.
#[derive(Debug, Clone, Copy, PartialEq, Eq, Structural)]
pub enum TrustMode {
    /// Hardware evidence is presented on a fresh trust channel per call.
    Attested,
    /// As `Attested`, but one session is created lazily and reused.
    CachedAttested,
    /// A plain read; no evidence is presented.
    Unauthenticated,
}

/// Seconds a registration assertion stays valid: two hours.
pub const ASSERTION_LIFETIME_SECS: u64 = 7200;

/// The broker address with at most one trailing `/` removed.
pub open spec fn strip_trailing_slash(s: Seq<char>) -> Seq<char> {
    if s.len() > 0 && s.last() == '/' {
        s.drop_last()
    } else {
        s
    }
}

/// The deterministic resource URL:
/// `{broker}/kbs/v0/resource/{reference}`.
pub open spec fn resource_url_spec(broker: Seq<char>, reference: Seq<char>) -> Seq<char> {
    strip_trailing_slash(broker) + "/kbs/v0/resource/"@ + strip_leading_separator(reference)
}

/// Build the deterministic resource URL under the broker address.
pub fn resource_url(broker: &str, reference: &str) -> (u: String)
    ensures
        u@ == resource_url_spec(broker@, reference@),
{
    let n = broker.unicode_len();
    let base = if n > 0 && broker.get_char(n - 1) == '/' {
        let b = broker.substring_char(0, n - 1);
        proof {
            assert(b@ =~= broker@.drop_last());
        }
        b
    } else {
        broker
    };
    let mut u = String::from_str(base);
    u.append("/kbs/v0/resource/");
    u.append(strip_separator(reference));
    u
}

/// What the transport must do for one fetch.
#[derive(Debug)]
pub enum FetchPlan {
    /// Open (or reuse) an attested trust channel to the broker and ask it
    /// for `resource_uri`.
    Attested { resource_uri: String, reuse_session: bool },
    /// Issue a plain read of `url` and accept only a success status.
    Unauthenticated { url: String },
}

/// Decide one fetch: validate the reference, then lay out what the
/// configured trust mode requires. A reference that does not parse is a
/// protocol error in every mode.
pub fn plan_fetch(mode: TrustMode, broker: &str, reference: &str) -> (r: Result<FetchPlan, Error>)
    ensures
        match r {
            Ok(p) => parse_reference_spec(reference@) is Some && match mode {
                TrustMode::Attested => (p matches FetchPlan::Attested { resource_uri, reuse_session }
                    && resource_uri@ == "kbs:///"@ + strip_leading_separator(reference@)
                    && reuse_session == false),
                TrustMode::CachedAttested => (p matches FetchPlan::Attested {
                    resource_uri,
                    reuse_session,
                } && resource_uri@ == "kbs:///"@ + strip_leading_separator(reference@)
                    && reuse_session == true),
                TrustMode::Unauthenticated => (p matches FetchPlan::Unauthenticated { url } && url@
                    == resource_url_spec(broker@, reference@)),
            },
            Err(e) => parse_reference_spec(reference@) is None && (e matches Error::Protocol(_)),
        },
{
    let parsed = parse_reference(reference);
    match parsed {
        Ok(_) => {},
        Err(e) => {
            return Err(e);
        },
    }
    match mode {
        TrustMode::Attested => Ok(
            FetchPlan::Attested {
                resource_uri: crate::resource::attested_resource_uri(reference),
                reuse_session: false,
            },
        ),
        TrustMode::CachedAttested => Ok(
            FetchPlan::Attested {
                resource_uri: crate::resource::attested_resource_uri(reference),
                reuse_session: true,
            },
        ),
        TrustMode::Unauthenticated => Ok(
            FetchPlan::Unauthenticated { url: resource_url(broker, reference) },
        ),
    }
}

/// A broker address is demanded before any trusted fetch; running
/// without one configured is a configuration error.
pub fn require_broker(broker: &Option<String>) -> (r: Result<&String, Error>)
    ensures
        match r {
            Ok(b) => broker is Some && b@ == broker->0@,
            Err(e) => broker is None && (e matches Error::Configuration(m) && m@
                == "broker address is required for encrypted images"@),
        },
{
    match broker {
        Some(b) => Ok(b),
        None => Err(
            Error::Configuration(String::from_str("broker address is required for encrypted images")),
        ),
    }
}

/// A broker answer passes only with a success status (2xx); anything
/// else is a protocol error.
pub fn check_status(status: u16) -> (r: Result<(), Error>)
    ensures
        match r {
            Ok(_) => 200 <= status < 300,
            Err(e) => !(200 <= status < 300) && (e matches Error::Protocol(m) && m@
                == "broker returned non-success status"@),
        },
{
    if 200 <= status && status < 300 {
        Ok(())
    } else {
        Err(Error::Protocol(String::from_str("broker returned non-success status")))
    }
}

/// What the transport must do for one key registration: an authenticated
/// octet-stream write of the raw key to the resource URL, bearing an
/// assertion signed for a bounded lifetime.
pub struct RegistrationPlan {
    pub url: String,
    pub assertion_lifetime_secs: u64,
    pub content_type: String,
}

/// Lay out a key registration. No attestation is involved: trust rests
/// on broker-side recognition of the signing key.
pub fn plan_registration(broker: &str, reference: &str) -> (p: RegistrationPlan)
    ensures
        p.url@ == resource_url_spec(broker@, reference@),
        p.assertion_lifetime_secs == ASSERTION_LIFETIME_SECS,
        p.content_type@ == "application/octet-stream"@,
{
    RegistrationPlan {
        url: resource_url(broker, reference),
        assertion_lifetime_secs: ASSERTION_LIFETIME_SECS,
        content_type: String::from_str("application/octet-stream"),
    }
}

/// The explicit holder for the cached trust session: created lazily,
/// invalidated only by an explicit call, owned by the composition root.
pub struct SessionHolder {
    pub established: bool,
}

impl SessionHolder {
    /// A holder with no session yet.
    pub fn new() -> (s: SessionHolder)
        ensures
            !s.established,
    {
        SessionHolder { established: false }
    }

    /// Whether a fetch under `mode` must open a new trust channel:
    /// always for per-call attestation, only on the first use for the
    /// cached mode, never for the unauthenticated one.
    pub fn must_create(&self, mode: TrustMode) -> (r: bool)
        ensures
            r == match mode {
                TrustMode::Attested => true,
                TrustMode::CachedAttested => !self.established,
                TrustMode::Unauthenticated => false,
            },
    {
        match mode {
            TrustMode::Attested => true,
            TrustMode::CachedAttested => !self.established,
            TrustMode::Unauthenticated => false,
        }
    }

    /// Record that the transport opened a session.
    pub fn note_established(&mut self)
        ensures
            final(self).established,
    {
        self.established = true;
    }

    /// Drop the cached session, forcing the next cached fetch to open a
    /// fresh one.
    pub fn invalidate(&mut self)
        ensures
            !final(self).established,
    {
        self.established = false;
    }
}

} // verus!
