use boot_core::code_reference::{ChecksumSource, ContractCodeReference, LocalArtifact};
use boot_core::error::BootError;
use boot_core::manifest::{local_name_of, manifest_hash};

fn reference(path: Option<&str>) -> ContractCodeReference<u32> {
    let mut r = ContractCodeReference::new();
    if let Some(p) = path {
        r.set_wasm_path(p.to_string());
    }
    r
}

#[test]
fn manifest_lookup_finds_hash_by_local_name() {
    let r = reference(Some("/x/artifacts"));
    let artifact = LocalArtifact::Manifest("abc123  my_contract.wasm\n".to_string());
    let sum = r.checksum(&"ns:my_contract".to_string(), &artifact).unwrap();
    assert_eq!(sum, "abc123");
}

#[test]
fn manifest_lookup_without_match_fails() {
    let r = reference(Some("/x/artifacts"));
    let artifact = LocalArtifact::Manifest("abc123  other.wasm\n".to_string());
    let res = r.checksum(&"ns:my_contract".to_string(), &artifact);
    assert!(matches!(res, Err(BootError::Checksum(_))));
}

#[test]
fn manifest_lookup_picks_the_matching_line() {
    let contents = "\n111  first.wasm\n222\tsecond.wasm\r\n333  third.wasm";
    assert_eq!(manifest_hash(contents, "second"), Some("222".to_string()));
    assert_eq!(manifest_hash(contents, "third"), Some("333".to_string()));
    assert_eq!(manifest_hash(contents, "fourth"), None);
    assert_eq!(manifest_hash("", "x"), None);
}

#[test]
fn manifest_lookup_takes_the_last_matching_line() {
    let contents = "h1  cw20.wasm\nh2  cw20_base.wasm\n";
    assert_eq!(manifest_hash(contents, "cw20"), Some("h2".to_string()));
    assert_eq!(manifest_hash(contents, "cw20_base"), Some("h2".to_string()));
}

#[test]
fn manifest_path_sits_beside_a_direct_binary_path() {
    let r = reference(Some("/p/artifacts/cw20.wasm"));
    match r.checksum_source(None).unwrap() {
        ChecksumSource::Manifest(m) => assert_eq!(m, "/p/artifacts/checksums.txt"),
        ChecksumSource::Binary(_) => panic!("expected a manifest"),
    }
    let r = reference(Some("artifacts.wasm"));
    match r.checksum_source(None).unwrap() {
        ChecksumSource::Manifest(m) => assert_eq!(m, "checksums.txt"),
        ChecksumSource::Binary(_) => panic!("expected a manifest"),
    }
}

#[test]
fn local_name_takes_segment_after_last_colon() {
    assert_eq!(local_name_of("a:b:c"), "c");
    assert_eq!(local_name_of("plain"), "plain");
    assert_eq!(local_name_of("trailing:"), "");
}

#[test]
fn binary_checksum_is_sha256_hex() {
    let r = reference(Some("c.wasm"));
    let artifact = LocalArtifact::Binary(b"hello".to_vec());
    let sum = r.checksum(&"c".to_string(), &artifact).unwrap();
    assert_eq!(sum, "2cf24dba5fb0a30e26e83b2ac5b9e29e1b161e5c1fa7425e73043362938b9824");
}

#[test]
fn binary_checksum_is_deterministic_and_content_sensitive() {
    let r = reference(Some("c.wasm"));
    let id = "c".to_string();
    let a = r.checksum(&id, &LocalArtifact::Binary(vec![1, 2, 3])).unwrap();
    let b = r.checksum(&id, &LocalArtifact::Binary(vec![1, 2, 3])).unwrap();
    let c = r.checksum(&id, &LocalArtifact::Binary(vec![1, 2, 4])).unwrap();
    assert_eq!(a, b);
    assert_ne!(a, c);
}

#[test]
fn wasm_path_kept_when_it_names_a_file() {
    let r = reference(Some("/tmp/x.wasm"));
    assert_eq!(r.get_wasm_code_path(None).unwrap(), "/tmp/x.wasm");
}

#[test]
fn wasm_path_resolved_under_artifacts_dir() {
    let r = reference(Some("cw20"));
    let dir = "/home/me/artifacts".to_string();
    assert_eq!(r.get_wasm_code_path(Some(&dir)).unwrap(), "/home/me/artifacts/cw20.wasm");
}

#[test]
fn wasm_path_without_artifacts_dir_is_config_error() {
    let r = reference(Some("cw20"));
    assert!(matches!(r.get_wasm_code_path(None), Err(BootError::Config(_))));
}

#[test]
fn wasm_path_without_location_is_capability_error() {
    let r = reference(None);
    assert!(matches!(r.get_wasm_code_path(None), Err(BootError::Capability(_))));
}

#[test]
fn checksum_source_uses_manifest_under_artifacts() {
    let r = reference(Some("cw20"));
    let dir = "/p/artifacts".to_string();
    match r.checksum_source(Some(&dir)).unwrap() {
        ChecksumSource::Manifest(m) => assert_eq!(m, "/p/artifacts/checksums.txt"),
        ChecksumSource::Binary(_) => panic!("expected a manifest"),
    }
    let r = reference(Some("/p/build/cw20.wasm"));
    match r.checksum_source(None).unwrap() {
        ChecksumSource::Binary(b) => assert_eq!(b, "/p/build/cw20.wasm"),
        ChecksumSource::Manifest(_) => panic!("expected a binary"),
    }
}

#[test]
fn endpoints_taken_once() {
    let mut r = reference(Some("a.wasm"));
    r.set_endpoints(7);
    assert_eq!(r.take_endpoints().unwrap(), 7);
    assert!(r.contract_endpoints.is_none());
    assert!(matches!(r.take_endpoints(), Err(BootError::Capability(_))));
    assert_eq!(r.wasm_code_path, Some("a.wasm".to_string()));
}

#[test]
fn simulated_upload_without_endpoints_is_capability_error() {
    let mut r = reference(Some("a.wasm"));
    assert!(matches!(r.take_endpoints(), Err(BootError::Capability(_))));
}

#[test]
fn remote_upload_without_path_is_capability_error() {
    let mut r: ContractCodeReference<u32> = ContractCodeReference::new();
    r.set_endpoints(1);
    assert!(matches!(r.get_wasm_code_path(None), Err(BootError::Capability(_))));
}

#[test]
fn duplicate_drops_endpoints() {
    let mut r = reference(Some("a.wasm"));
    r.set_endpoints(3);
    let d = r.duplicate();
    assert_eq!(d.wasm_code_path, Some("a.wasm".to_string()));
    assert!(d.contract_endpoints.is_none());
    assert_eq!(r.contract_endpoints, Some(3));
}
