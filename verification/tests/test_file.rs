use dicom_test_files::test_file::{Compression, TestFile};

#[test]
fn new_keeps_all_fields() {
    let t = TestFile::new(
        "pydicom/liver.dcm".to_string(),
        Compression::Uncompressed,
        "aa00".to_string(),
    );
    assert_eq!(t.name, "pydicom/liver.dcm");
    assert!(matches!(t.compression, Compression::Uncompressed));
    assert_eq!(t.hash, "aa00");
}

#[test]
fn none_builds_uncompressed_entry() {
    let t = TestFile::none("pydicom/liver.dcm".to_string(), "bb11".to_string());
    assert_eq!(t.name, "pydicom/liver.dcm");
    assert!(matches!(t.compression, Compression::Uncompressed));
    assert_eq!(t.hash, "bb11");
}

#[test]
fn zstd_builds_compressed_entry() {
    let t = TestFile::zstd("WG04/REF/NM1_UNC".to_string(), "cc22".to_string());
    assert_eq!(t.name, "WG04/REF/NM1_UNC");
    assert!(matches!(t.compression, Compression::Zstd));
    assert_eq!(t.hash, "cc22");
}

#[test]
fn real_file_name_of_uncompressed_is_the_name() {
    let t = TestFile::none("pydicom/liver.dcm".to_string(), "aa".to_string());
    assert_eq!(t.real_file_name(), "pydicom/liver.dcm");
}

#[test]
fn real_file_name_of_zstd_has_suffix() {
    let t = TestFile::zstd("WG04/REF/NM1_UNC".to_string(), "aa".to_string());
    assert_eq!(t.real_file_name(), "WG04/REF/NM1_UNC.zst");
}

#[test]
fn clone_copies_the_entry() {
    let t = TestFile::zstd("a/b".to_string(), "00ff".to_string());
    let u = t.clone();
    assert_eq!(u.name, t.name);
    assert!(matches!(u.compression, Compression::Zstd));
    assert_eq!(u.hash, t.hash);
}
