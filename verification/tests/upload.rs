use drive_ocr::upload::{
    folder_query, folders_of, get_or_create_folder_id, guess_mime_from_file, mime_for_extension,
    plan_upload, upload_files, FolderWalk, Mime,
    RunAction, RunEvent, RunPhase, Upload, UploadRun, WalkAction, WalkError, WalkEvent, WalkPhase,
};

#[test]
fn guess_mime_from_file_by_extension() {
    assert_eq!(guess_mime_from_file("a.pdf"), Mime::ApplicationPdf);
    assert_eq!(guess_mime_from_file("a.txt"), Mime::TextPlain);
    assert_eq!(guess_mime_from_file("a.ogg"), Mime::ApplicationOctetStream);
}

#[test]
fn the_extension_is_taken_literally() {
    assert_eq!(guess_mime_from_file("a.PDF"), Mime::ApplicationOctetStream);
    assert_eq!(guess_mime_from_file("a"), Mime::ApplicationOctetStream);
    assert_eq!(guess_mime_from_file(".pdf"), Mime::ApplicationOctetStream);
    assert_eq!(guess_mime_from_file("dir.pdf/a"), Mime::ApplicationOctetStream);
    assert_eq!(guess_mime_from_file("/x/y/a.b.txt"), Mime::TextPlain);
    assert_eq!(mime_for_extension(Some("pdf")), Mime::ApplicationPdf);
    assert_eq!(mime_for_extension(Some("txt")), Mime::TextPlain);
    assert_eq!(mime_for_extension(Some("")), Mime::ApplicationOctetStream);
    assert_eq!(mime_for_extension(Some("pdf ")), Mime::ApplicationOctetStream);
    assert_eq!(mime_for_extension(None), Mime::ApplicationOctetStream);
}

#[test]
fn media_types_have_their_usual_names() {
    let pdf: mime::Mime = Mime::ApplicationPdf.essence().parse().unwrap();
    assert_eq!(pdf, mime::APPLICATION_PDF);
    let text: mime::Mime = Mime::TextPlain.essence().parse().unwrap();
    assert_eq!(text, mime::TEXT_PLAIN);
    let bytes: mime::Mime = Mime::ApplicationOctetStream.essence().parse().unwrap();
    assert_eq!(bytes, mime::APPLICATION_OCTET_STREAM);
}

#[test]
fn the_query_names_the_folder_and_its_parent() {
    assert_eq!(
        folder_query("Done", Some("root")),
        "name='Done' and mimeType='application/vnd.google-apps.folder'  and 'root' in parents"
    );
    assert_eq!(
        folder_query("Scans", None),
        "name='Scans' and mimeType='application/vnd.google-apps.folder' "
    );
    assert_eq!(
        folder_query("", Some("")),
        "name='' and mimeType='application/vnd.google-apps.folder'  and '' in parents"
    );
}

#[test]
fn the_upload_keeps_the_name_of_the_file() {
    assert_eq!(
        plan_upload("/tmp/job/ocr/scan.pdf", "/Scans/Done"),
        Upload {
            name: Some("scan.pdf".to_string()),
            full_path: "/Scans/Done/scan.pdf".to_string(),
            mime: Mime::ApplicationPdf,
        }
    );
    assert_eq!(
        plan_upload("/tmp/job/ocr/scan.txt", "Done"),
        Upload {
            name: Some("scan.txt".to_string()),
            full_path: "Done/scan.txt".to_string(),
            mime: Mime::TextPlain,
        }
    );
    assert_eq!(
        plan_upload("/", "/Scans/Done"),
        Upload {
            name: None,
            full_path: "/Scans/Done/?".to_string(),
            mime: Mime::ApplicationOctetStream,
        }
    );
}

#[test]
fn the_root_is_no_folder_of_a_path() {
    assert_eq!(folders_of("/Scans/Inbox/Done"), vec!["Scans", "Inbox", "Done"]);
    assert_eq!(folders_of("Scans/Done/"), vec!["Scans", "Done"]);
    assert_eq!(folders_of("/"), Vec::<String>::new());
    assert_eq!(folders_of(""), Vec::<String>::new());
    assert_eq!(folders_of("./a/../b"), vec![".", "a", "..", "b"]);
}

fn list(walk: FolderWalk, first: Option<Option<&str>>) -> (FolderWalk, WalkAction) {
    walk.step(WalkEvent::Listed { first: first.map(|id| id.map(String::from)) })
}

#[test]
fn the_walk_looks_each_folder_up_under_the_one_before() {
    let (walk, action) = get_or_create_folder_id("/Scans/Done");
    assert_eq!(walk.names, vec!["Scans", "Done"]);
    assert_eq!(
        action,
        WalkAction::List {
            query: "name='Scans' and mimeType='application/vnd.google-apps.folder'  and 'root' in parents"
                .to_string()
        }
    );
    let (walk, action) = list(walk, Some(Some("id-scans")));
    assert_eq!(walk.found, 1);
    assert_eq!(
        action,
        WalkAction::List {
            query:
                "name='Done' and mimeType='application/vnd.google-apps.folder'  and 'id-scans' in parents"
                    .to_string()
        }
    );
    let (walk, action) = list(walk, Some(Some("id-done")));
    assert_eq!(action, WalkAction::Finish(Ok("id-done".to_string())));
    assert_eq!(walk.phase, WalkPhase::Done);
    let (walk, action) = list(walk, Some(Some("id-other")));
    assert_eq!(action, WalkAction::Nothing);
    assert_eq!(walk.parent, Some("id-done".to_string()));
}

#[test]
fn a_missing_folder_is_created_under_the_one_before() {
    let (walk, _) = get_or_create_folder_id("Scans/Done");
    let (walk, action) = list(walk, None);
    assert_eq!(walk.phase, WalkPhase::Creating);
    assert_eq!(
        action,
        WalkAction::Create { name: "Scans".to_string(), parent: Some("root".to_string()) }
    );
    let (walk, action) = walk.step(WalkEvent::Created { id: Some("new-scans".to_string()) });
    assert_eq!(
        action,
        WalkAction::List {
            query:
                "name='Done' and mimeType='application/vnd.google-apps.folder'  and 'new-scans' in parents"
                    .to_string()
        }
    );
    let (walk, action) = list(walk, None);
    assert_eq!(
        action,
        WalkAction::Create { name: "Done".to_string(), parent: Some("new-scans".to_string()) }
    );
    let (_, action) = walk.step(WalkEvent::Created { id: Some("new-done".to_string()) });
    assert_eq!(action, WalkAction::Finish(Ok("new-done".to_string())));
}

#[test]
fn a_path_without_folders_is_the_root() {
    let (walk, action) = get_or_create_folder_id("/");
    assert_eq!(action, WalkAction::Finish(Ok("root".to_string())));
    assert_eq!(walk.phase, WalkPhase::Done);
}

#[test]
fn a_folder_without_identifier_is_searched_without_parent_and_fails_at_the_end() {
    let (walk, _) = get_or_create_folder_id("a/b");
    let (walk, action) = list(walk, Some(None));
    assert_eq!(
        action,
        WalkAction::List {
            query: "name='b' and mimeType='application/vnd.google-apps.folder' ".to_string()
        }
    );
    let (walk, action) = list(walk, None);
    assert_eq!(action, WalkAction::Create { name: "b".to_string(), parent: None });
    let (_, action) = walk.step(WalkEvent::Created { id: None });
    assert_eq!(action, WalkAction::Finish(Err(WalkError::NoFolderId)));
}

#[test]
fn a_failure_of_the_drive_ends_the_walk() {
    let (walk, _) = get_or_create_folder_id("a/b");
    let (walk, action) = walk.step(WalkEvent::ListFailed { cause: "timeout".to_string() });
    assert_eq!(action, WalkAction::Finish(Err(WalkError::ListFailed("timeout".to_string()))));
    assert_eq!(walk.phase, WalkPhase::Done);

    let (walk, _) = get_or_create_folder_id("a/b");
    let (walk, _) = list(walk, None);
    let (walk, action) = walk.step(WalkEvent::CreateFailed { cause: "quota".to_string() });
    assert_eq!(action, WalkAction::Finish(Err(WalkError::CreateFailed("quota".to_string()))));
    assert_eq!(walk.found, 0);
}

#[test]
fn events_out_of_turn_leave_the_walk_alone() {
    let (walk, _) = get_or_create_folder_id("a/b");
    let (walk, action) = walk.step(WalkEvent::Created { id: Some("x".to_string()) });
    assert_eq!(action, WalkAction::Nothing);
    assert_eq!(walk.found, 0);
    assert_eq!(walk.phase, WalkPhase::Listing);
    let (walk, _) = list(walk, None);
    let (walk, action) = list(walk, Some(Some("x")));
    assert_eq!(action, WalkAction::Nothing);
    assert_eq!(walk.phase, WalkPhase::Creating);
}

fn result_files() -> Vec<String> {
    vec!["/tmp/job/ocr/scan.pdf".to_string(), "/tmp/job/ocr/scan.txt".to_string()]
}

#[test]
fn files_are_uploaded_one_by_one_into_the_folder() {
    let (run, action) = upload_files(result_files(), "/Scans/Done".to_string());
    assert_eq!(action, RunAction::FindFolder { path: "/Scans/Done".to_string() });
    let (run, action) = run.step(RunEvent::FolderFound { id: "f1".to_string() });
    assert_eq!(
        action,
        RunAction::Send {
            file: "/tmp/job/ocr/scan.pdf".to_string(),
            upload: Upload {
                name: Some("scan.pdf".to_string()),
                full_path: "/Scans/Done/scan.pdf".to_string(),
                mime: Mime::ApplicationPdf,
            },
            folder_id: "f1".to_string(),
        }
    );
    let (run, action) = run.step(RunEvent::Sent);
    assert_eq!(run.sent, 1);
    assert_eq!(action, RunAction::FindFolder { path: "/Scans/Done".to_string() });
    let (run, action) = run.step(RunEvent::FolderFound { id: "f2".to_string() });
    assert_eq!(
        action,
        RunAction::Send {
            file: "/tmp/job/ocr/scan.txt".to_string(),
            upload: Upload {
                name: Some("scan.txt".to_string()),
                full_path: "/Scans/Done/scan.txt".to_string(),
                mime: Mime::TextPlain,
            },
            folder_id: "f2".to_string(),
        }
    );
    let (run, action) = run.step(RunEvent::Sent);
    assert_eq!(action, RunAction::Finish(Ok(())));
    assert_eq!(run.phase, RunPhase::Over);
    assert_eq!(run.sent, 2);
    let (run, action) = run.step(RunEvent::Sent);
    assert_eq!(action, RunAction::Nothing);
    assert_eq!(run.sent, 2);
}

#[test]
fn nothing_to_upload_is_done_at_once() {
    let (run, action) = upload_files(Vec::new(), "/Scans/Done".to_string());
    assert_eq!(action, RunAction::Finish(Ok(())));
    assert_eq!(run.phase, RunPhase::Over);
}

#[test]
fn the_first_failure_ends_the_upload() {
    let (run, _) = upload_files(result_files(), "Done".to_string());
    let (run, action) = run.step(RunEvent::FolderFailed { cause: "denied".to_string() });
    assert_eq!(action, RunAction::Finish(Err("denied".to_string())));
    assert_eq!(run.phase, RunPhase::Over);
    assert_eq!(run.sent, 0);

    let (run, _) = upload_files(result_files(), "Done".to_string());
    let (run, _) = run.step(RunEvent::FolderFound { id: "f".to_string() });
    let (run, _) = run.step(RunEvent::Sent);
    let (run, _) = run.step(RunEvent::FolderFound { id: "f".to_string() });
    let (run, action) = run.step(RunEvent::SendFailed { cause: "too large".to_string() });
    assert_eq!(action, RunAction::Finish(Err("too large".to_string())));
    assert_eq!(run.sent, 1);
    assert_eq!(run.step(RunEvent::Sent).1, RunAction::Nothing);
}

#[test]
fn events_out_of_turn_leave_the_upload_alone() {
    let (run, _) = upload_files(result_files(), "Done".to_string());
    let (run, action) = run.step(RunEvent::Sent);
    assert_eq!(action, RunAction::Nothing);
    assert_eq!(run.phase, RunPhase::Seeking);
    let (run, _) = run.step(RunEvent::FolderFound { id: "f".to_string() });
    let (run, action) = run.step(RunEvent::FolderFound { id: "g".to_string() });
    assert_eq!(action, RunAction::Nothing);
    assert_eq!(run.phase, RunPhase::Sending);
}
