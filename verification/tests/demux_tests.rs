use chasm::demux::{demux_fields, UploadField};
use chasm::models::ChasmError;

fn scalar(name: &str, value: &[u8]) -> UploadField {
    UploadField { name: name.to_string(), filename: None, data: value.to_vec() }
}

fn file(filename: &str, data: &[u8]) -> UploadField {
    UploadField {
        name: "file".to_string(),
        filename: Some(filename.to_string()),
        data: data.to_vec(),
    }
}

#[test]
fn demux_classifies_named_fields() {
    let fields = vec![
        scalar("repo", b"r1"),
        scalar("access_token", b"t1"),
        scalar("postfolder", b"p1"),
        file("img.png", &[1, 2, 3]),
    ];
    let u = demux_fields(fields).unwrap();
    assert_eq!(u.repo.as_deref(), Some("r1"));
    assert_eq!(u.access_token.as_deref(), Some("t1"));
    assert_eq!(u.postfolder.as_deref(), Some("p1"));
    assert_eq!(u.local_path, None);
    assert_eq!(u.filename.as_deref(), Some("img.png"));
    assert_eq!(u.payload.as_deref(), Some(&[1u8, 2, 3][..]));
}

#[test]
fn demux_duplicate_field_last_wins() {
    let fields = vec![scalar("repo", b"a"), scalar("repo", b"b")];
    let u = demux_fields(fields).unwrap();
    assert_eq!(u.repo.as_deref(), Some("b"));
}

#[test]
fn demux_ignores_unrecognized_names() {
    let fields = vec![scalar("color", b"red"), scalar("repo", b"r")];
    let u = demux_fields(fields).unwrap();
    assert_eq!(u.repo.as_deref(), Some("r"));
    assert_eq!(u.access_token, None);
    assert_eq!(u.filename, None);
    assert_eq!(u.payload, None);
}

#[test]
fn demux_decodes_multibyte_text() {
    let fields = vec![scalar("postfolder", "caf\u{e9}".as_bytes())];
    let u = demux_fields(fields).unwrap();
    assert_eq!(u.postfolder.as_deref(), Some("caf\u{e9}"));
}

#[test]
fn demux_rejects_invalid_text_in_scalar() {
    let fields = vec![scalar("repo", &[0xff, 0xfe])];
    let e = demux_fields(fields).unwrap_err();
    match e {
        ChasmError::MalformedField { ref field } => assert_eq!(field, "repo"),
        other => panic!("unexpected error: {:?}", other),
    }
}

#[test]
fn demux_bad_field_aborts_whole_pass() {
    let fields = vec![
        scalar("repo", b"good"),
        scalar("postfolder", &[0x80]),
        scalar("access_token", b"late"),
    ];
    let e = demux_fields(fields).unwrap_err();
    assert!(matches!(e, ChasmError::MalformedField { .. }));
}

#[test]
fn demux_file_without_client_filename_fails() {
    let fields = vec![UploadField {
        name: "file".to_string(),
        filename: None,
        data: vec![1],
    }];
    let e = demux_fields(fields).unwrap_err();
    assert!(matches!(e, ChasmError::FilenameMissing));
}

#[test]
fn demux_last_file_field_wins() {
    let fields = vec![file("a.png", &[1]), file("b.png", &[2, 3])];
    let u = demux_fields(fields).unwrap();
    assert_eq!(u.filename.as_deref(), Some("b.png"));
    assert_eq!(u.payload.as_deref(), Some(&[2u8, 3][..]));
}

#[test]
fn error_descriptions_name_the_field() {
    let e = ChasmError::MalformedField { field: "repo".to_string() };
    assert_eq!(e.description(), "Malformed field: repo");
    assert_eq!(ChasmError::FilenameMissing.description(), "Filename missing");
    assert_eq!(ChasmError::PostfolderMissing.description(), "Postfolder missing");
    assert_eq!(ChasmError::ImageDataMissing.description(), "Image Data Missing");
    assert_eq!(ChasmError::RepoMissing.description(), "Repo Missing");
    assert_eq!(ChasmError::AccessTokenMissing.description(), "Access Token Missing");
    assert_eq!(ChasmError::InvalidCommitRequest.description(), "Invalid Commit Request");
    assert_eq!(ChasmError::InvalidCommitJSON.description(), "Invalid Commit JSON");
    let w = ChasmError::LocalWriteFailed { cause: "disk full".to_string() };
    assert_eq!(w.description(), "Local write failed: disk full");
}
