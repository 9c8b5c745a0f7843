//! Decryption-path selection and pull planning.
//!
//! One path is selected per image, once: a plain WASM image has its first
//! layer blob fetched directly; every other combination goes through the
//! layered pull, with diff-ids derived from the image configuration (or
//! synthesized when it has none) and a delegation token attached when the
//! layers are encrypted.

use vstd::prelude::*;
use vstd::string::StrSliceExecFns;
use vstd::string::StringExecFns;

use crate::error::Error;
use crate::manifest::{classify, spec_is_encrypted, spec_is_wasm, ImageManifestView, LayerDescriptor};
use crate::text::{spec_starts_with, starts_with_str};

verus! {

/// The two ways an image is materialized.
#[derive(Debug, Clone, Copy, PartialEq, Eq, Structural)]
pub enum PullPath {
    DirectBlob,
    LayeredPull,
}

/// The fixed ceiling on per-layer fetch concurrency handed to the
/// external pulling component.
pub const MAX_LAYER_CONCURRENCY: usize = 4;

/// The opaque token that tells the pulling component to delegate layer
/// decryption to the external key provider.
pub open spec fn delegation_token() -> Seq<char> {
    "provider:attestation-agent"@
}

/// The direct path is taken exactly for a plain WASM image.
pub fn select_path(c: &crate::manifest::Classification) -> (p: PullPath)
    ensures
        (p == PullPath::DirectBlob) <==> (c.is_wasm && !c.is_encrypted),
{
    if c.is_wasm && !c.is_encrypted {
        PullPath::DirectBlob
    } else {
        PullPath::LayeredPull
    }
}

/// A digest with its `sha256:` prefix removed.
pub open spec fn strip_digest_prefix(d: Seq<char>) -> Seq<char> {
    if spec_starts_with(d, "sha256:"@) {
        d.skip("sha256:"@.len() as int)
    } else {
        d
    }
}

/// The file a directly fetched blob is written to:
/// `{digest-without-prefix}.wasm`.
pub fn direct_blob_filename(digest: &str) -> (f: String)
    ensures
        f@ == strip_digest_prefix(digest@) + ".wasm"@,
{
    let n = digest.unicode_len();
    let stem = if starts_with_str(digest, "sha256:") {
        let p = "sha256:".unicode_len();
        let s = digest.substring_char(p, n);
        proof {
            assert(s@ =~= digest@.skip("sha256:"@.len() as int));
        }
        s
    } else {
        digest
    };
    let mut f = String::from_str(stem);
    f.append(".wasm");
    f
}

/// What the image configuration's rootfs section lists as diff-ids, or
/// `None` where the configuration does not parse.
pub uninterp spec fn config_diff_ids_of(c: Seq<u8>) -> Option<Seq<Seq<char>>>;

/// Relies on oci_spec's `ImageConfiguration::from_reader` and its rootfs
/// `diff_ids` accessor: the parse is a function of the configuration
/// bytes alone.
#[verifier::external_body]
fn parse_config_diff_ids(config: &Vec<u8>) -> (r: Option<Vec<String>>)
    ensures
        match r {
            Some(ids) => config_diff_ids_of(config@) == Some(ids.deep_view()),
            None => config_diff_ids_of(config@) is None,
        },
{
    match oci_spec::image::ImageConfiguration::from_reader(config.as_slice()) {
        Ok(c) => Some(c.rootfs().diff_ids().clone()),
        Err(_) => None,
    }
}

/// The diff-id list handed to the layered pull. A configuration that does
/// not parse counts as an empty default. When the effective list is empty
/// and layers exist, one placeholder is synthesized per layer: the
/// layer's own digest when not encrypted, or an empty placeholder
/// (skipping integrity verification) when encrypted.
pub open spec fn derived_diff_ids_spec(
    parsed: Option<Seq<Seq<char>>>,
    layers: Seq<LayerDescriptor>,
    encrypted: bool,
) -> Seq<Seq<char>> {
    let effective = match parsed {
        Some(ids) => ids,
        None => Seq::<Seq<char>>::empty(),
    };
    if effective.len() == 0 && layers.len() > 0 {
        Seq::new(
            layers.len(),
            |i: int|
                if encrypted {
                    Seq::<char>::empty()
                } else {
                    layers[i].digest@
                },
        )
    } else {
        effective
    }
}

fn derive_diff_ids(
    parsed: Option<Vec<String>>,
    layers: &Vec<LayerDescriptor>,
    encrypted: bool,
) -> (ids: Vec<String>)
    ensures
        ids.deep_view() == derived_diff_ids_spec(
            match parsed {
                Some(p) => Some(p.deep_view()),
                None => None,
            },
            layers@,
            encrypted,
        ),
{
    let use_parsed = match &parsed {
        Some(p) => p.len() > 0,
        None => false,
    };
    if use_parsed {
        let ids = match parsed {
            Some(p) => p,
            None => Vec::new(),
        };
        return ids;
    }
    if layers.len() == 0 {
        let empty: Vec<String> = Vec::new();
        proof {
            assert(empty.deep_view() =~~= derived_diff_ids_spec(
                match parsed {
                    Some(p) => Some(p.deep_view()),
                    None => None,
                },
                layers@,
                encrypted,
            ));
        }
        return empty;
    }
    let n = layers.len();
    let mut ids: Vec<String> = Vec::new();
    let mut i: usize = 0;
    while i < n
        invariant
            n == layers@.len(),
            i <= n,
            ids@.len() == i,
            forall|j: int|
                0 <= j < i ==> #[trigger] ids@[j]@ == (if encrypted {
                    Seq::<char>::empty()
                } else {
                    layers@[j].digest@
                }),
        decreases n - i,
    {
        if encrypted {
            ids.push(String::new());
        } else {
            ids.push(layers[i].digest.clone());
        }
        i = i + 1;
    }
    proof {
        assert(ids.deep_view() =~~= derived_diff_ids_spec(
            match parsed {
                Some(p) => Some(p.deep_view()),
                None => None,
            },
            layers@,
            encrypted,
        ));
    }
    ids
}

/// A resolved plan: which path to take and everything the external
/// transport needs to follow it.
#[derive(Debug)]
pub enum PullDecision {
    /// Fetch the first layer's blob and write it under `filename` in
    /// layer storage.
    DirectBlob { filename: String },
    /// Pull every layer through the external component, with these
    /// diff-ids, this optional decryption-delegation token, and this
    /// concurrency ceiling.
    LayeredPull {
        diff_ids: Vec<String>,
        decrypt_config: Option<String>,
        max_layer_concurrency: usize,
    },
}

/// Decide how the image is materialized. The direct path demands at least
/// one layer; the layered path never fails: an unparsable configuration
/// falls back to the empty default.
pub fn plan_pull(m: &ImageManifestView, config: &Vec<u8>) -> (r: Result<PullDecision, Error>)
    ensures
        match r {
            Ok(d) => match d {
                PullDecision::DirectBlob { filename } => {
                    &&& spec_is_wasm(m) && !spec_is_encrypted(m)
                    &&& m.layers@.len() > 0
                    &&& filename@ == strip_digest_prefix(m.layers@[0].digest@) + ".wasm"@
                },
                PullDecision::LayeredPull { diff_ids, decrypt_config, max_layer_concurrency } => {
                    &&& !(spec_is_wasm(m) && !spec_is_encrypted(m))
                    &&& diff_ids.deep_view() == derived_diff_ids_spec(
                        config_diff_ids_of(config@),
                        m.layers@,
                        spec_is_encrypted(m),
                    )
                    &&& (spec_is_encrypted(m) ==> (decrypt_config matches Some(t) && t@
                        == delegation_token()))
                    &&& (!spec_is_encrypted(m) ==> decrypt_config is None)
                    &&& max_layer_concurrency == MAX_LAYER_CONCURRENCY
                },
            },
            Err(e) => {
                &&& spec_is_wasm(m) && !spec_is_encrypted(m)
                &&& m.layers@.len() == 0
                &&& (e matches Error::Pull(msg) && msg@ == "no layers found in WASM image"@)
            },
        },
{
    let c = classify(m);
    match select_path(&c) {
        PullPath::DirectBlob => {
            if m.layers.len() == 0 {
                return Err(Error::Pull(String::from_str("no layers found in WASM image")));
            }
            let filename = direct_blob_filename(m.layers[0].digest.as_str());
            Ok(PullDecision::DirectBlob { filename })
        },
        PullPath::LayeredPull => {
            let parsed = parse_config_diff_ids(config);
            let diff_ids = derive_diff_ids(parsed, &m.layers, c.is_encrypted);
            let decrypt_config = if c.is_encrypted {
                Some(String::from_str("provider:attestation-agent"))
            } else {
                None
            };
            Ok(
                PullDecision::LayeredPull {
                    diff_ids,
                    decrypt_config,
                    max_layer_concurrency: MAX_LAYER_CONCURRENCY,
                },
            )
        },
    }
}

/// The store path the runner works from after a layered pull: the first
/// layer's materialization. An empty answer from the puller is a pull
/// failure.
pub fn first_store_path(paths: &Vec<String>) -> (r: Result<String, Error>)
    ensures
        match r {
            Ok(p) => paths@.len() > 0 && p@ == paths@[0]@,
            Err(e) => paths@.len() == 0 && (e matches Error::Pull(msg) && msg@
                == "no layers found in image"@),
        },
{
    if paths.len() == 0 {
        return Err(Error::Pull(String::from_str("no layers found in image")));
    }
    Ok(paths[0].clone())
}

} // verus!
