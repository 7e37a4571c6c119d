use dicom_test_files::Error;
use dicom_test_files::digest::sha256_hex;
use dicom_test_files::engine::{Fetch, Step};
use dicom_test_files::registry::Registry;
use dicom_test_files::test_file::TestFile;

const ABC_SHA256: &str = "ba7816bf8f01cfea414140de5dae2223b00361a396177a9cb410ff61f20015ad";
const ROOT: &str = "/w/target/dicom_test_files";
const BASE: &str = "https://raw.githubusercontent.com/robyoung/dicom-test-files/master/data/";

fn liver_registry() -> Registry {
    Registry::new(vec![TestFile::none(
        "pydicom/liver.dcm".to_string(),
        ABC_SHA256.to_string(),
    )])
}

fn step_path(step: &Step) -> &str {
    match step {
        Step::Probe { path } => path,
        Step::Install { path, .. } => path,
        Step::Done { path } => path,
        _ => panic!("step carries no path"),
    }
}

#[test]
fn unregistered_name_fails_before_any_step() {
    let reg = liver_registry();
    let r = Fetch::start(&reg, ROOT, BASE, "pydicom/missing.dcm", true);
    assert!(matches!(r, Err(Error::NotFound)));
}

#[test]
fn fresh_fetch_of_uncompressed_asset() {
    let reg = liver_registry();
    let f = Fetch::start(&reg, ROOT, BASE, "pydicom/liver.dcm", true).unwrap();
    assert_eq!(step_path(&f.step), "/w/target/dicom_test_files/pydicom/liver.dcm");

    let f = f.on_probe(false);
    match &f.step {
        Step::Get { url } => assert_eq!(
            url,
            "https://raw.githubusercontent.com/robyoung/dicom-test-files/master/data/pydicom/liver.dcm"
        ),
        _ => panic!("expected a download step"),
    }

    let f = f.on_response(Ok(b"abc".to_vec()));
    match &f.step {
        Step::Install { path, bytes } => {
            assert_eq!(path, "/w/target/dicom_test_files/pydicom/liver.dcm");
            assert_eq!(bytes, b"abc");
        }
        _ => panic!("expected an install step"),
    }

    let f = f.on_installed(Ok(()));
    match &f.step {
        Step::Done { path } => {
            assert_eq!(path, "/w/target/dicom_test_files/pydicom/liver.dcm")
        }
        _ => panic!("expected the session to finish"),
    }
}

#[test]
fn cache_hit_finishes_without_a_download() {
    let reg = liver_registry();
    let f = Fetch::start(&reg, ROOT, BASE, "pydicom/liver.dcm", true).unwrap();
    let f = f.on_probe(true);
    match &f.step {
        Step::Done { path } => {
            assert_eq!(path, "/w/target/dicom_test_files/pydicom/liver.dcm")
        }
        _ => panic!("a cache hit must finish the session at once"),
    }
}

#[test]
fn repeated_sessions_resolve_the_same_path() {
    let reg = liver_registry();
    let f1 = Fetch::start(&reg, ROOT, BASE, "pydicom/liver.dcm", true).unwrap();
    let f2 = Fetch::start(&reg, ROOT, BASE, "pydicom/liver.dcm", true).unwrap();
    assert_eq!(step_path(&f1.step), step_path(&f2.step));
}

#[test]
fn tampered_download_is_rejected_with_invalid_hash() {
    let reg = liver_registry();
    let f = Fetch::start(&reg, ROOT, BASE, "pydicom/liver.dcm", true).unwrap();
    let f = f.on_probe(false).on_response(Ok(b"abX".to_vec()));
    match &f.step {
        Step::Fail { error } => assert!(matches!(error, Error::InvalidHash)),
        _ => panic!("corrupted bytes must fail, not install"),
    }
}

#[test]
fn transport_failure_carries_the_url() {
    let reg = liver_registry();
    let f = Fetch::start(&reg, ROOT, BASE, "pydicom/liver.dcm", true).unwrap();
    let f = f.on_probe(false).on_response(Err("connection refused".to_string()));
    match &f.step {
        Step::Fail { error } => match error {
            Error::Download(d) => assert_eq!(
                d,
                "Failed to download https://raw.githubusercontent.com/robyoung/dicom-test-files/master/data/pydicom/liver.dcm: connection refused"
            ),
            _ => panic!("expected a download error"),
        },
        _ => panic!("expected the session to fail"),
    }
}

#[test]
fn failed_install_surfaces_the_io_error() {
    let reg = liver_registry();
    let f = Fetch::start(&reg, ROOT, BASE, "pydicom/liver.dcm", true).unwrap();
    let f = f
        .on_probe(false)
        .on_response(Ok(b"abc".to_vec()))
        .on_installed(Err("permission denied".to_string()));
    match &f.step {
        Step::Fail { error } => match error {
            Error::Io(d) => assert_eq!(d, "permission denied"),
            _ => panic!("expected a filesystem error"),
        },
        _ => panic!("expected the session to fail"),
    }
}

#[test]
fn parallel_sessions_with_the_same_bytes_install_identical_content() {
    let reg = liver_registry();
    let a = Fetch::start(&reg, ROOT, BASE, "pydicom/liver.dcm", true).unwrap();
    let b = Fetch::start(&reg, ROOT, BASE, "pydicom/liver.dcm", true).unwrap();
    let a = a.on_probe(false).on_response(Ok(b"abc".to_vec()));
    let b = b.on_probe(false).on_response(Ok(b"abc".to_vec()));
    match (&a.step, &b.step) {
        (Step::Install { path: pa, bytes: ba }, Step::Install { path: pb, bytes: bb }) => {
            assert_eq!(pa, pb);
            assert_eq!(ba, bb);
        }
        _ => panic!("both sessions must reach an install step"),
    }
}

#[test]
fn fresh_fetch_of_zstd_asset_verifies_wire_bytes_and_installs_plain() {
    let plain = b"uncompressed DICOM payload, long enough to matter".to_vec();
    let wire = zstd::stream::encode_all(plain.as_slice(), 0).unwrap();
    assert_ne!(plain, wire);
    let hash = sha256_hex(&wire);

    let reg = Registry::new(vec![TestFile::zstd("WG04/REF/NM1_UNC".to_string(), hash)]);
    let f = Fetch::start(&reg, ROOT, BASE, "WG04/REF/NM1_UNC", true).unwrap();
    let f = f.on_probe(false);
    match &f.step {
        Step::Get { url } => assert_eq!(
            url,
            "https://raw.githubusercontent.com/robyoung/dicom-test-files/master/data/WG04/REF/NM1_UNC.zst"
        ),
        _ => panic!("expected a download step"),
    }

    let f = f.on_response(Ok(wire));
    match &f.step {
        Step::Install { path, bytes } => {
            assert_eq!(path, "/w/target/dicom_test_files/WG04/REF/NM1_UNC");
            assert_eq!(bytes, &plain);
        }
        _ => panic!("expected an install of the decompressed bytes"),
    }
}

#[test]
fn zstd_asset_without_zstd_support_is_refused() {
    let wire = zstd::stream::encode_all(&b"payload"[..], 0).unwrap();
    let hash = sha256_hex(&wire);
    let reg = Registry::new(vec![TestFile::zstd("WG04/REF/NM1_UNC".to_string(), hash)]);
    let f = Fetch::start(&reg, ROOT, BASE, "WG04/REF/NM1_UNC", false).unwrap();
    let f = f.on_probe(false).on_response(Ok(wire));
    match &f.step {
        Step::Fail { error } => assert!(matches!(error, Error::ZstdRequired)),
        _ => panic!("expected a refusal without zstd support"),
    }
}

#[test]
fn verified_bytes_that_are_not_a_zstd_frame_fail_with_io() {
    let wire = b"not a zstd frame".to_vec();
    let hash = sha256_hex(&wire);
    let reg = Registry::new(vec![TestFile::zstd("WG04/REF/NM1_UNC".to_string(), hash)]);
    let f = Fetch::start(&reg, ROOT, BASE, "WG04/REF/NM1_UNC", true).unwrap();
    let f = f.on_probe(false).on_response(Ok(wire));
    match &f.step {
        Step::Fail { error } => assert!(matches!(error, Error::Io(_))),
        _ => panic!("undecodable bytes must fail, not install"),
    }
}
