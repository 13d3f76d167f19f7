use figshare_rs::error::FigshareError;
use figshare_rs::ids::FileId;
use figshare_rs::model::ArticleFile;
use figshare_rs::upload::{FileReplacePolicy, UploadSpec};
use figshare_rs::workflow::{validate_upload_filenames, PublishAction, PublishRun, Reconcile, ReconcileAction};

fn file(id: u64, name: &str) -> ArticleFile {
    ArticleFile {
        id: FileId(id),
        name: name.to_owned(),
        size: 1,
        is_link_only: None,
        download_url: None,
        status: None,
        viewer_type: None,
        preview_state: None,
        upload_url: None,
        upload_token: None,
        supplied_md5: None,
        computed_md5: None,
        extra: Vec::new(),
    }
}

fn names(list: &[&str]) -> Vec<String> {
    list.iter().map(|s| s.to_string()).collect()
}

#[test]
fn duplicate_filenames_are_rejected() {
    let uploads = vec![
        UploadSpec::from_reader("artifact.bin", std::io::Cursor::new(vec![1]), 1),
        UploadSpec::from_reader("artifact.bin", std::io::Cursor::new(vec![2]), 1),
    ];
    assert!(matches!(validate_upload_filenames(&uploads), Err(FigshareError::DuplicateUploadFilename { .. })));
}

#[test]
fn empty_filenames_are_rejected() {
    let uploads = vec![UploadSpec::from_reader("", std::io::Cursor::new(vec![1]), 1)];

    assert!(matches!(
        validate_upload_filenames(&uploads),
        Err(FigshareError::InvalidState(message)) if message == "upload filename cannot be empty"
    ));
}

#[test]
fn valid_filenames_come_back_in_order() {
    let uploads = vec![
        UploadSpec::from_reader("b.bin", std::io::Cursor::new(vec![1]), 1),
        UploadSpec::from_reader("a.bin", std::io::Cursor::new(vec![2]), 1),
    ];
    assert_eq!(validate_upload_filenames(&uploads).unwrap(), names(&["b.bin", "a.bin"]));
    let uploads = vec![
        UploadSpec::from_reader("x", std::io::Cursor::new(vec![1]), 1),
        UploadSpec::from_reader("x", std::io::Cursor::new(vec![1]), 1),
        UploadSpec::from_reader("", std::io::Cursor::new(vec![1]), 1),
    ];
    assert!(matches!(
        validate_upload_filenames(&uploads),
        Err(FigshareError::DuplicateUploadFilename { filename }) if filename == "x"
    ));
}

#[test]
fn keep_existing_policy_rejects_conflicts() {
    let existing = vec![file(1, "a.bin"), file(2, "b.bin")];
    match Reconcile::start(FileReplacePolicy::KeepExistingAndAdd, &existing, &names(&["c.bin", "b.bin"])) {
        Err(FigshareError::ConflictingDraftFile { filename }) => assert_eq!(filename, "b.bin"),
        _ => panic!("expected a conflict"),
    }
    assert!(Reconcile::start(FileReplacePolicy::UpsertByFilename, &existing, &names(&["b.bin"])).is_ok());
}

fn run_to_end(mut run: Reconcile, upload_results: &[bool]) -> Vec<ReconcileAction> {
    let mut actions = Vec::new();
    let mut next_file = 100;
    loop {
        let action = run.next_action();
        actions.push(action);
        match action {
            ReconcileAction::Upload(i) => {
                if upload_results[i] {
                    run.upload_succeeded(FileId(next_file));
                    next_file += 1;
                } else {
                    run.upload_failed();
                }
            }
            ReconcileAction::Cleanup(_) => run.cleanup_done(),
            ReconcileAction::DeleteExisting(_) => run.delete_done(),
            ReconcileAction::ListFiles | ReconcileAction::Fail => return actions,
        }
    }
}

#[test]
fn existing_files_are_deleted_only_after_every_upload() {
    let existing = vec![file(1, "a.bin"), file(2, "b.bin")];
    let run = Reconcile::start(FileReplacePolicy::ReplaceAll, &existing, &names(&["x", "y"])).unwrap();
    assert_eq!(
        run_to_end(run, &[true, true]),
        vec![
            ReconcileAction::Upload(0),
            ReconcileAction::Upload(1),
            ReconcileAction::DeleteExisting(FileId(1)),
            ReconcileAction::DeleteExisting(FileId(2)),
            ReconcileAction::ListFiles,
        ]
    );
}

#[test]
fn failed_upload_cleans_up_and_keeps_existing_files() {
    let existing = vec![file(1, "a.bin")];
    let run = Reconcile::start(FileReplacePolicy::ReplaceAll, &existing, &names(&["x", "y", "z"])).unwrap();
    assert_eq!(
        run_to_end(run, &[true, false, true]),
        vec![
            ReconcileAction::Upload(0),
            ReconcileAction::Upload(1),
            ReconcileAction::Cleanup(FileId(100)),
            ReconcileAction::Fail,
        ]
    );
}

#[test]
fn upsert_deletes_only_matching_names() {
    let existing = vec![file(1, "a.bin"), file(2, "b.bin"), file(3, "c.bin")];
    let run = Reconcile::start(FileReplacePolicy::UpsertByFilename, &existing, &names(&["c.bin", "a.bin"])).unwrap();
    assert_eq!(
        run_to_end(run, &[true, true]),
        vec![
            ReconcileAction::Upload(0),
            ReconcileAction::Upload(1),
            ReconcileAction::DeleteExisting(FileId(1)),
            ReconcileAction::DeleteExisting(FileId(3)),
            ReconcileAction::ListFiles,
        ]
    );
    let run = Reconcile::start(FileReplacePolicy::KeepExistingAndAdd, &existing, &names(&["d.bin"])).unwrap();
    assert_eq!(run_to_end(run, &[true]), vec![ReconcileAction::Upload(0), ReconcileAction::ListFiles]);
}

#[test]
fn new_draft_is_deleted_after_upload_failure() {
    let mut run = PublishRun::create_and_publish();
    assert_eq!(run.next_action(), PublishAction::Prepare);
    run.step(true);
    assert_eq!(run.next_action(), PublishAction::ReconcileFiles);
    run.step(false);
    assert_eq!(run.next_action(), PublishAction::DeleteDraft);
    run.step(true);
    assert_eq!(run.next_action(), PublishAction::Finish);
    assert!(run.failed);
}

#[test]
fn existing_article_is_never_deleted() {
    let mut run = PublishRun::publish_existing();
    run.step(true);
    run.step(true);
    run.step(false);
    assert_eq!(run.next_action(), PublishAction::Finish);
    assert!(run.failed);

    let mut run = PublishRun::publish_existing();
    for expected in [PublishAction::Prepare, PublishAction::ReconcileFiles, PublishAction::Publish, PublishAction::AwaitPublic]
    {
        assert_eq!(run.next_action(), expected);
        run.step(true);
    }
    assert_eq!(run.next_action(), PublishAction::Finish);
    assert!(!run.failed);
}
