use std::path::PathBuf;

use figshare_rs::upload::{path_without_filename_error, UploadSource, UploadSpec};

#[test]
fn path_upload_extracts_filename() {
    let spec = UploadSpec::from_path(PathBuf::from("/tmp/archive.tar.gz")).unwrap();
    assert_eq!(spec.filename, "archive.tar.gz");
}

#[test]
fn path_upload_rejects_missing_filename() {
    let error = UploadSpec::from_path(PathBuf::from("/")).unwrap_err();
    assert_eq!(error.kind(), std::io::ErrorKind::InvalidInput);
}

#[test]
fn missing_filename_error_has_stable_message() {
    let error = path_without_filename_error();
    assert_eq!(error.kind(), std::io::ErrorKind::InvalidInput);
    assert_eq!(error.to_string(), "path has no final file name segment");
}

#[test]
fn reader_upload_debug_hides_reader() {
    let spec = UploadSpec::from_reader("artifact.bin", std::io::Cursor::new(vec![1, 2, 3]), 3);

    match spec.source {
        UploadSource::Reader { content_length, .. } => assert_eq!(content_length, 3),
        UploadSource::Path(_) => panic!("expected reader source"),
    }
    let spec = UploadSpec::from_reader("artifact.bin", std::io::Cursor::new(vec![1, 2, 3]), 3);
    assert!(format!("{spec:?}").contains("artifact.bin"));
}

#[test]
fn path_upload_debug_shows_path_variant() {
    let spec = UploadSpec::from_path(PathBuf::from("/tmp/archive.tar.gz")).unwrap();

    match &spec.source {
        UploadSource::Path(path) => assert_eq!(path, &PathBuf::from("/tmp/archive.tar.gz")),
        UploadSource::Reader { .. } => panic!("expected path source"),
    }
    assert!(format!("{:?}", spec.source).contains("archive.tar.gz"));
}

#[test]
fn path_ending_in_parent_has_no_filename() {
    assert!(UploadSpec::from_path(PathBuf::from("/tmp/..")).is_err());
    assert!(UploadSpec::from_path(PathBuf::from("")).is_err());
    assert_eq!(UploadSpec::from_path(PathBuf::from("dir/name.txt/")).unwrap().filename, "name.txt");
}

#[test]
fn reader_source_reads_its_bytes_without_showing_them() {
    let spec = UploadSpec::from_reader("r.bin", std::io::Cursor::new(vec![7, 8, 9]), 3);
    let debug = format!("{spec:?}");
    assert!(!debug.contains("7, 8, 9"));
    match spec.source {
        UploadSource::Reader { mut reader, content_length } => {
            let mut buf = [0u8; 8];
            let n = reader.read(&mut buf).unwrap();
            assert_eq!(&buf[..n], &[7, 8, 9]);
            assert_eq!(content_length, 3);
        }
        UploadSource::Path(_) => panic!("expected reader source"),
    }
}

#[test]
fn path_upload_error_carries_the_missing_name_message() {
    let error = UploadSpec::from_path(PathBuf::from("/")).unwrap_err();
    assert_eq!(error.kind(), std::io::ErrorKind::InvalidInput);
    assert_eq!(error.to_string(), "path has no final file name segment");
}
