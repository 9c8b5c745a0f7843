use tee_wasm_runner::error::Error;
use tee_wasm_runner::invoke::{build_invocation, interpret_exit};
use tee_wasm_runner::locate::{locate, StoreEntry};
use tee_wasm_runner::manifest::{classify, ImageManifestView, LayerDescriptor};
use tee_wasm_runner::pull::{
    direct_blob_filename, first_store_path, plan_pull, select_path, PullDecision, PullPath,
    MAX_LAYER_CONCURRENCY,
};

fn manifest(config_media_type: &str, layer_media_types: &[&str]) -> ImageManifestView {
    ImageManifestView {
        config_media_type: config_media_type.to_string(),
        layers: layer_media_types
            .iter()
            .enumerate()
            .map(|(i, mt)| LayerDescriptor {
                media_type: mt.to_string(),
                digest: format!("sha256:digest{}", i),
            })
            .collect(),
    }
}

const OCI_CONFIG: &str = "application/vnd.oci.image.config.v1+json";
const WASM_CONFIG: &str = "application/vnd.wasm.config.v1+json";
const OCI_LAYER: &str = "application/vnd.oci.image.layer.v1.tar+gzip";
const ENC_LAYER: &str = "application/vnd.oci.image.layer.v1.tar+gzip+encrypted";

#[test]
fn classify_reports_all_four_combinations() {
    let plain_wasm = classify(&manifest(WASM_CONFIG, &["application/wasm"]));
    assert!(plain_wasm.is_wasm && !plain_wasm.is_encrypted);

    let plain_oci = classify(&manifest(OCI_CONFIG, &[OCI_LAYER]));
    assert!(!plain_oci.is_wasm && !plain_oci.is_encrypted);

    let enc_oci = classify(&manifest(OCI_CONFIG, &[ENC_LAYER]));
    assert!(!enc_oci.is_wasm && enc_oci.is_encrypted);

    let enc_wasm = classify(&manifest(WASM_CONFIG, &[ENC_LAYER]));
    assert!(enc_wasm.is_wasm && enc_wasm.is_encrypted);
}

#[test]
fn classify_reads_layer_media_types_too() {
    let by_layer = classify(&manifest(OCI_CONFIG, &[OCI_LAYER, "application/wasm"]));
    assert!(by_layer.is_wasm && !by_layer.is_encrypted);
}

#[test]
fn direct_path_chosen_iff_plain_wasm() {
    let combos = [(false, false), (false, true), (true, false), (true, true)];
    for (is_wasm, is_encrypted) in combos {
        let c = tee_wasm_runner::manifest::Classification {
            is_wasm,
            is_encrypted,
        };
        let p = select_path(&c);
        if is_wasm && !is_encrypted {
            assert_eq!(p, PullPath::DirectBlob);
        } else {
            assert_eq!(p, PullPath::LayeredPull);
        }
    }
}

#[test]
fn digest_prefix_is_stripped_for_blob_filename() {
    assert_eq!(direct_blob_filename("sha256:abc123"), "abc123.wasm");
    assert_eq!(direct_blob_filename("abc123"), "abc123.wasm");
}

#[test]
fn plain_wasm_image_takes_direct_blob_path() {
    // One layer of application/wasm; the config blob plays no role here.
    let m = manifest(WASM_CONFIG, &["application/wasm"]);
    let d = plan_pull(&m, &b"not json".to_vec()).expect("direct path never fails with layers");
    match d {
        PullDecision::DirectBlob { filename } => {
            assert_eq!(filename, "digest0.wasm");
        }
        _ => panic!("plain WASM image must take the direct path"),
    }
}

#[test]
fn direct_path_demands_a_layer() {
    let m = manifest(WASM_CONFIG, &[]);
    let e = plan_pull(&m, &Vec::new()).expect_err("no layers to fetch");
    assert!(matches!(e, Error::Pull(_)));
}

#[test]
fn encrypted_image_takes_layered_path_with_delegation() {
    // Encrypted image with a minimal, unparsable config: diff-ids are
    // synthesized as empty placeholders and the delegation token is set.
    let m = manifest(OCI_CONFIG, &[ENC_LAYER, ENC_LAYER]);
    let d = plan_pull(&m, &b"{}".to_vec()).expect("layered path never fails");
    match d {
        PullDecision::LayeredPull {
            diff_ids,
            decrypt_config,
            max_layer_concurrency,
        } => {
            assert_eq!(diff_ids, vec![String::new(), String::new()]);
            assert_eq!(decrypt_config.as_deref(), Some("provider:attestation-agent"));
            assert_eq!(max_layer_concurrency, MAX_LAYER_CONCURRENCY);
        }
        _ => panic!("encrypted image must take the layered path"),
    }
}

#[test]
fn plain_oci_image_synthesizes_digest_placeholders() {
    let m = manifest(OCI_CONFIG, &[OCI_LAYER, OCI_LAYER]);
    let d = plan_pull(&m, &b"".to_vec()).expect("layered path never fails");
    match d {
        PullDecision::LayeredPull {
            diff_ids,
            decrypt_config,
            ..
        } => {
            assert_eq!(diff_ids, vec!["sha256:digest0", "sha256:digest1"]);
            assert!(decrypt_config.is_none());
        }
        _ => panic!("plain OCI image must take the layered path"),
    }
}

#[test]
fn parsed_configuration_diff_ids_are_kept() {
    let config = r#"{
        "architecture": "amd64",
        "os": "linux",
        "rootfs": { "type": "layers", "diff_ids": ["sha256:realdiff"] }
    }"#;
    let m = manifest(OCI_CONFIG, &[OCI_LAYER]);
    let d = plan_pull(&m, &config.as_bytes().to_vec()).expect("layered path never fails");
    match d {
        PullDecision::LayeredPull { diff_ids, .. } => {
            assert_eq!(diff_ids, vec!["sha256:realdiff"]);
        }
        _ => panic!("plain OCI image must take the layered path"),
    }
}

#[test]
fn first_store_path_takes_the_first_materialization() {
    let paths = vec!["/store/l0".to_string(), "/store/l1".to_string()];
    assert_eq!(first_store_path(&paths).expect("nonempty"), "/store/l0");
    let e = first_store_path(&Vec::new()).expect_err("empty answer is a pull failure");
    assert!(matches!(e, Error::Pull(_)));
}

fn entry(name: &str, is_file: bool) -> StoreEntry {
    StoreEntry {
        name: name.to_string(),
        is_file,
    }
}

#[test]
fn locate_prefers_default_filename() {
    let entries = vec![entry("other.wasm", true), entry("module.wasm", true)];
    assert_eq!(
        locate("/store", &entries).expect("default present"),
        "/store/module.wasm"
    );
}

#[test]
fn locate_falls_back_to_first_wasm_file() {
    let entries = vec![
        entry("readme.txt", true),
        entry("dir.wasm", false),
        entry("app.wasm", true),
        entry("later.wasm", true),
    ];
    assert_eq!(
        locate("/store", &entries).expect("extension fallback"),
        "/store/app.wasm"
    );
}

#[test]
fn locate_ignores_bare_extension_and_directories() {
    let entries = vec![entry(".wasm", true), entry("module.wasm", false)];
    let e = locate("/store/path", &entries).expect_err("nothing runnable");
    assert_eq!(e, Error::ArtifactNotFound("/store/path".to_string()));
}

#[test]
fn locate_joins_paths_with_one_separator() {
    let entries = vec![entry("module.wasm", true)];
    assert_eq!(
        locate("/store/", &entries).expect("default present"),
        "/store/module.wasm"
    );
}

#[test]
fn invocation_order_with_invoke_and_args() {
    let args = build_invocation(
        &Some("entry".to_string()),
        "/work",
        "/store/m.wasm",
        &vec!["a".to_string(), "b".to_string()],
    );
    assert_eq!(
        args,
        vec!["--invoke", "entry", "--dir", "/work", "/store/m.wasm", "a", "b"]
    );
}

#[test]
fn invocation_order_with_invoke_only() {
    let args = build_invocation(&Some("entry".to_string()), "/work", "/m.wasm", &Vec::new());
    assert_eq!(args, vec!["--invoke", "entry", "--dir", "/work", "/m.wasm"]);
}

#[test]
fn invocation_order_with_args_only() {
    let args = build_invocation(&None, "/work", "/m.wasm", &vec!["x".to_string()]);
    assert_eq!(args, vec!["--dir", "/work", "/m.wasm", "x"]);
}

#[test]
fn invocation_order_bare() {
    let args = build_invocation(&None, "/work", "/m.wasm", &Vec::new());
    assert_eq!(args, vec!["--dir", "/work", "/m.wasm"]);
}

#[test]
fn exit_status_interpretation() {
    assert!(interpret_exit(true, Some(0)).is_ok());
    assert_eq!(
        interpret_exit(false, Some(3)).expect_err("non-zero exit"),
        Error::ExecutionExit(Some(3))
    );
    assert_eq!(
        interpret_exit(false, None).expect_err("killed by signal"),
        Error::ExecutionExit(None)
    );
}
