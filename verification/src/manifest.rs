//! Manifest classification.
//!
//! Classification reads only media-type strings from the pulled manifest:
//! a WASM marker in the config or any layer media type flags a WASM
//! module, an encryption marker in any layer media type flags an
//! encrypted image. The two flags are independent.

use vstd::prelude::*;

use crate::text::{contains_str, spec_contains};

verus! {

/// One manifest layer: its media type and its content digest.
pub struct LayerDescriptor {
    pub media_type: String,
    pub digest: String,
}

/// The part of a pulled manifest that classification and path selection
/// read.
pub struct ImageManifestView {
    pub config_media_type: String,
    pub layers: Vec<LayerDescriptor>,
}

/// The two independent classification flags.
#[derive(Debug, Clone, Copy, PartialEq, Eq, Structural)]
pub struct Classification {
    pub is_wasm: bool,
    pub is_encrypted: bool,
}

/// The marker substring that flags a WASM media type.
pub open spec fn wasm_marker() -> Seq<char> {
    "wasm"@
}

/// The marker substring that flags an encrypted layer media type.
pub open spec fn encryption_marker() -> Seq<char> {
    "encrypted"@
}

/// The manifest describes a WASM module: the marker occurs in the config
/// media type or in some layer media type.
pub open spec fn spec_is_wasm(m: &ImageManifestView) -> bool {
    spec_contains(m.config_media_type@, wasm_marker()) || exists|i: int|
        0 <= i < m.layers@.len() && #[trigger] spec_contains(m.layers@[i].media_type@, wasm_marker())
}

/// Some layer media type carries the encryption marker.
pub open spec fn spec_is_encrypted(m: &ImageManifestView) -> bool {
    exists|i: int|
        0 <= i < m.layers@.len() && #[trigger] spec_contains(
            m.layers@[i].media_type@,
            encryption_marker(),
        )
}

/// Read the two flags off the manifest's media-type strings.
pub fn classify(m: &ImageManifestView) -> (c: Classification)
    ensures
        c.is_wasm == spec_is_wasm(m),
        c.is_encrypted == spec_is_encrypted(m),
{
    let mut is_wasm = contains_str(m.config_media_type.as_str(), "wasm");
    let mut is_encrypted = false;
    let n = m.layers.len();
    let mut i: usize = 0;
    while i < n
        invariant
            n == m.layers@.len(),
            i <= n,
            is_wasm == (spec_contains(m.config_media_type@, wasm_marker()) || exists|j: int|
                0 <= j < i && #[trigger] spec_contains(m.layers@[j].media_type@, wasm_marker())),
            is_encrypted == (exists|j: int|
                0 <= j < i && #[trigger] spec_contains(
                    m.layers@[j].media_type@,
                    encryption_marker(),
                )),
        decreases n - i,
    {
        let layer_wasm = contains_str(m.layers[i].media_type.as_str(), "wasm");
        let layer_enc = contains_str(m.layers[i].media_type.as_str(), "encrypted");
        proof {
            if layer_wasm {
                assert(spec_contains(m.layers@[i as int].media_type@, wasm_marker()));
            }
            if layer_enc {
                assert(spec_contains(m.layers@[i as int].media_type@, encryption_marker()));
            }
        }
        if layer_wasm {
            is_wasm = true;
        }
        if layer_enc {
            is_encrypted = true;
        }
        i = i + 1;
    }
    Classification { is_wasm, is_encrypted }
}

} // verus!
