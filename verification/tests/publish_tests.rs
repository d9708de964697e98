use chasm::demux::UploadField;
use chasm::jsonfmt::commit_body;
use chasm::models::{
    ChasmError, CommitContent, CommitResponse, CommitResponseContent, ContentLocation,
    ContentPart, PostContent, Timestamp,
};
use chasm::paths::image_logical_path;
use chasm::publish::{
    commit_outcome, image_local_response, image_remote_response, local_outcome,
    plan_document_publish, plan_image_upload, LocalWriteEvent, StoreAction, TransportEvent,
};

fn ts() -> Timestamp {
    Timestamp { year: 2024, month: 1, day: 2, hour: 3, minute: 4, second: 5 }
}

fn scalar(name: &str, value: &[u8]) -> UploadField {
    UploadField { name: name.to_string(), filename: None, data: value.to_vec() }
}

fn file(filename: &str, data: &[u8]) -> UploadField {
    UploadField {
        name: "file".to_string(),
        filename: Some(filename.to_string()),
        data: data.to_vec(),
    }
}

fn post(location: ContentLocation) -> PostContent {
    PostContent {
        date: ts(),
        postfolder: "pf".to_string(),
        title: Some("T".to_string()),
        content: vec![ContentPart::Header { text: "A".to_string() }],
        location,
    }
}

#[test]
fn base64_content_of_image_payload() {
    let c = CommitContent::new_from_image("Add image".to_string(), b"abc".to_vec(), "p".to_string());
    assert_eq!(c.content, "YWJj");
    assert_eq!(c.message, "Add image");
    assert_eq!(c.path, "p");
}

#[test]
fn base64_content_of_document_text() {
    let c = CommitContent::new("m".to_string(), "hello".to_string(), "p".to_string());
    assert_eq!(c.content, "aGVsbG8=");
}

#[test]
fn commit_body_is_the_expected_json_object() {
    let c = CommitContent {
        message: "Add image".to_string(),
        content: "YWJj".to_string(),
        path: "content/p/img.png".to_string(),
    };
    assert_eq!(
        commit_body(&c),
        "{\"message\":\"Add image\",\"content\":\"YWJj\",\"path\":\"content/p/img.png\"}"
    );
}

#[test]
fn commit_body_escapes_quotes_backslashes_and_controls() {
    let c = CommitContent {
        message: "a\"b\\c\nd".to_string(),
        content: "X".to_string(),
        path: "p".to_string(),
    };
    assert_eq!(
        commit_body(&c),
        "{\"message\":\"a\\\"b\\\\c\\u000ad\",\"content\":\"X\",\"path\":\"p\"}"
    );
}

#[test]
fn traversal_filename_is_rewritten_to_confined_path() {
    let p = image_logical_path(&"p1".to_string(), &"../../etc/passwd".to_string());
    assert_eq!(p, "content/p1/....etcpasswd");
    let last = p.rsplit('/').next().unwrap();
    assert!(!last.contains('/') && last != ".." && last != ".");
    assert!(p.starts_with("content/p1/"));
}

#[test]
fn document_plan_for_local_destination_writes_rendered_bytes() {
    let req = post(ContentLocation::Local { path: "/srv/site".to_string() });
    let action = plan_document_publish(&req);
    match action {
        StoreAction::LocalWrite { path, bytes } => {
            assert_eq!(path, "/srv/site/content/pf/index.md");
            assert_eq!(
                String::from_utf8(bytes).unwrap(),
                "---\ntitle: \"T\"\ndate: 2024-01-02T03:04:05Z\n---\n## A\n\n"
            );
        }
        StoreAction::RemotePut { .. } => panic!("local request must never plan a transport call"),
    }
}

#[test]
fn document_plan_for_remote_destination_commits_rendered_document() {
    let req = post(ContentLocation::Github {
        repo: "user/site".to_string(),
        access_token: "tok".to_string(),
    });
    let action = plan_document_publish(&req);
    match action {
        StoreAction::RemotePut { url, access_token, body } => {
            assert_eq!(url, "https://api.github.com/repos/user/site/contents/content/pf/index.md");
            assert_eq!(access_token, "tok");
            let doc = "---\ntitle: \"T\"\ndate: 2024-01-02T03:04:05Z\n---\n## A\n\n";
            let expected = format!(
                "{{\"message\":\"Add post\",\"content\":\"{}\",\"path\":\"content/pf/index.md\"}}",
                base64::encode(doc)
            );
            assert_eq!(body, expected);
        }
        StoreAction::LocalWrite { .. } => panic!("remote request must never plan a file write"),
    }
}

#[test]
fn image_plan_for_local_destination() {
    let fields = vec![
        scalar("postfolder", b"p1"),
        scalar("local_path", b"/data"),
        file("img.png", &[9, 8, 7]),
    ];
    let plan = plan_image_upload(fields).unwrap();
    assert_eq!(plan.filename, "img.png");
    match plan.action {
        StoreAction::LocalWrite { path, bytes } => {
            assert_eq!(path, "/data/content/p1/img.png");
            assert_eq!(bytes, vec![9, 8, 7]);
        }
        StoreAction::RemotePut { .. } => panic!("local upload must never plan a transport call"),
    }
}

#[test]
fn image_plan_for_remote_destination() {
    let fields = vec![
        scalar("repo", b"u/r"),
        scalar("access_token", b"tk"),
        scalar("postfolder", b"p"),
        file("img.png", b"abc"),
    ];
    let plan = plan_image_upload(fields).unwrap();
    assert_eq!(plan.filename, "img.png");
    match plan.action {
        StoreAction::RemotePut { url, access_token, body } => {
            assert_eq!(url, "https://api.github.com/repos/u/r/contents/content/p/img.png");
            assert_eq!(access_token, "tk");
            assert_eq!(
                body,
                "{\"message\":\"Add image\",\"content\":\"YWJj\",\"path\":\"content/p/img.png\"}"
            );
        }
        StoreAction::LocalWrite { .. } => panic!("remote upload must never plan a file write"),
    }
}

#[test]
fn missing_file_field_fails_before_any_store() {
    let fields = vec![scalar("repo", b"r"), scalar("postfolder", b"p")];
    let e = plan_image_upload(fields).unwrap_err();
    assert!(matches!(e, ChasmError::FilenameMissing));
}

#[test]
fn empty_filename_fails() {
    let fields = vec![scalar("postfolder", b"p"), file("", &[1])];
    let e = plan_image_upload(fields).unwrap_err();
    assert!(matches!(e, ChasmError::FilenameMissing));
}

#[test]
fn missing_postfolder_fails() {
    let fields = vec![file("img.png", &[1])];
    let e = plan_image_upload(fields).unwrap_err();
    assert!(matches!(e, ChasmError::PostfolderMissing));
}

#[test]
fn empty_payload_fails() {
    let fields = vec![scalar("postfolder", b"p"), file("img.png", &[])];
    let e = plan_image_upload(fields).unwrap_err();
    assert!(matches!(e, ChasmError::ImageDataMissing));
}

#[test]
fn missing_repo_fails_for_remote_upload() {
    let fields = vec![scalar("postfolder", b"p"), file("i.png", &[1])];
    let e = plan_image_upload(fields).unwrap_err();
    assert!(matches!(e, ChasmError::RepoMissing));
}

#[test]
fn missing_access_token_fails_for_remote_upload() {
    let fields = vec![scalar("repo", b"u/r"), scalar("postfolder", b"p"), file("i.png", &[1])];
    let e = plan_image_upload(fields).unwrap_err();
    assert!(matches!(e, ChasmError::AccessTokenMissing));
}

#[test]
fn transport_failure_surfaces_unchanged() {
    let r = commit_outcome(TransportEvent::Failed);
    assert!(matches!(r, Err(ChasmError::InvalidCommitRequest)));
}

#[test]
fn malformed_transport_body_surfaces_as_json_error() {
    let r = commit_outcome(TransportEvent::BodyMalformed);
    assert!(matches!(r, Err(ChasmError::InvalidCommitJSON)));
}

#[test]
fn committed_transport_response_carries_public_url() {
    let r = commit_outcome(TransportEvent::Committed {
        download_url: "https://raw.example.org/f.png".to_string(),
    });
    let resp = r.unwrap();
    assert_eq!(resp.content.download_url, "https://raw.example.org/f.png");
}

#[test]
fn local_write_failure_wraps_cause() {
    let r = local_outcome(LocalWriteEvent::Failed { cause: "denied".to_string() });
    match r.unwrap_err() {
        ChasmError::LocalWriteFailed { cause } => assert_eq!(cause, "denied"),
        other => panic!("unexpected error: {:?}", other),
    }
}

#[test]
fn local_write_success_has_no_error() {
    assert!(local_outcome(LocalWriteEvent::Written).is_ok());
}

#[test]
fn local_image_success_has_no_public_url_and_echoes_filename() {
    let r = image_local_response("img.png".to_string());
    assert!(r.commit_response.is_none());
    assert_eq!(r.filename, "img.png");
}

#[test]
fn remote_image_success_carries_commit_response() {
    let resp = CommitResponse {
        content: CommitResponseContent { download_url: "https://x/y.png".to_string() },
    };
    let r = image_remote_response(resp, "y.png".to_string());
    assert_eq!(r.commit_response.unwrap().content.download_url, "https://x/y.png");
    assert_eq!(r.filename, "y.png");
}
