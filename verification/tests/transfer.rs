use figshare_rs::error::FigshareError;
use figshare_rs::model::{UploadPart, UploadPartStatus, UploadSession, UploadStatus};
use figshare_rs::json::to_json_text;
use figshare_rs::transfer::{file_upload_payload, link_file_payload};
use figshare_rs::transfer::{check_staged_length, finished_upload_outcome, part_ranges, HostedUpload, PartRange, UploadStage};

fn part(no: u64, start: u64, end: u64) -> UploadPart {
    UploadPart { part_no: no, start_offset: start, end_offset: end, status: UploadPartStatus::Pending, locked: false, extra: Vec::new() }
}

fn session(status: UploadStatus, parts: Vec<UploadPart>) -> UploadSession {
    UploadSession { token: "t".into(), name: "n".into(), size: 10, md5: None, status, parts, extra: Vec::new() }
}

#[test]
fn part_ranges_follow_the_session() {
    let s = session(UploadStatus::Pending, vec![part(1, 0, 4), part(2, 5, 9)]);
    assert_eq!(
        part_ranges(&s),
        vec![PartRange { part_no: 1, offset: 0, len: 5 }, PartRange { part_no: 2, offset: 5, len: 5 }]
    );
}

#[test]
fn aborted_uploads_are_errors() {
    match finished_upload_outcome(&session(UploadStatus::Aborted, vec![])) {
        Err(FigshareError::InvalidState(m)) => assert_eq!(m, "Figshare upload was aborted"),
        other => panic!("unexpected result: {other:?}"),
    }
    assert!(finished_upload_outcome(&session(UploadStatus::Completed, vec![])).is_ok());
}

#[test]
fn staged_length_must_match_declaration() {
    assert!(check_staged_length(5, 5).is_ok());
    match check_staged_length(3, 5) {
        Err(FigshareError::InvalidState(m)) => assert_eq!(m, "reader produced 3 bytes but 5 were declared"),
        other => panic!("unexpected result: {other:?}"),
    }
}

#[test]
fn hosted_upload_sends_parts_in_order() {
    let mut u = HostedUpload::new();
    let mut stages = vec![u.stage];
    u.step(true, 0);
    stages.push(u.stage);
    u.step(true, 2);
    stages.push(u.stage);
    while u.stage != UploadStage::Done {
        u.step(true, 0);
        stages.push(u.stage);
    }
    assert_eq!(
        stages,
        vec![
            UploadStage::Initiate,
            UploadStage::FetchSession,
            UploadStage::SendPart(0),
            UploadStage::SendPart(1),
            UploadStage::Complete,
            UploadStage::AwaitAssembly,
            UploadStage::FetchFile,
            UploadStage::Done,
        ]
    );
    assert!(!u.failed);
}

#[test]
fn failed_part_deletes_the_registered_file() {
    let mut u = HostedUpload::new();
    u.step(true, 0);
    u.step(true, 3);
    u.step(false, 0);
    assert_eq!(u.stage, UploadStage::DeleteFile);
    u.step(false, 0);
    assert_eq!(u.stage, UploadStage::Done);
    assert!(u.failed);

    let mut early = HostedUpload::new();
    early.step(false, 0);
    assert_eq!(early.stage, UploadStage::Done);
}

#[test]
fn upload_bodies_name_the_file() {
    assert_eq!(
        to_json_text(&file_upload_payload("a.bin", 12, "abc")),
        r#"{"name":"a.bin","size":12,"md5":"abc"}"#
    );
    assert_eq!(to_json_text(&link_file_payload("https://x.test/f")), r#"{"link":"https://x.test/f"}"#);
}
