use shirodl::errors::Error;
use shirodl::worker::on_existing_read;
use shirodl::worker::on_fetch;
use shirodl::worker::on_file_stat;
use shirodl::worker::on_folder_created;
use shirodl::worker::on_folder_stat;
use shirodl::worker::on_rename_io_result;
use shirodl::worker::on_rename_read;
use shirodl::worker::on_rename_stat;
use shirodl::worker::on_write_result;
use shirodl::worker::plan_rename;
use shirodl::worker::resolve_filename;
use shirodl::worker::DirStep;
use shirodl::worker::FetchOutcome;
use shirodl::worker::FetchResponse;
use shirodl::worker::FetchStep;
use shirodl::worker::FileStep;
use shirodl::worker::PathKind;
use shirodl::worker::ReadOutcome;
use shirodl::worker::RenameReadStep;
use shirodl::worker::RenameStep;

fn response(status: u16, content_type: Option<&str>, body: &[u8]) -> FetchOutcome {
    FetchOutcome::Response(FetchResponse {
        status,
        content_type: content_type.map(|c| c.to_string()),
        body: body.to_vec(),
    })
}

#[test]
fn resolve_filename_takes_the_last_url_segment() {
    let url = "https://avatars.githubusercontent.com/u/6939913?s=48&v=4".to_string();
    assert_eq!(resolve_filename(&url, &None).unwrap(), "6939913");
    let url = "https://example.com/a/b.png".to_string();
    assert_eq!(resolve_filename(&url, &None).unwrap(), "b.png");
}

#[test]
fn resolve_filename_prefers_the_explicit_name() {
    let url = "https://example.com/a/b.png".to_string();
    let r = resolve_filename(&url, &Some("custom.bin".to_string()));
    assert_eq!(r.unwrap(), "custom.bin");
}

#[test]
fn resolve_filename_rejects_a_malformed_url() {
    let url = "not a url".to_string();
    assert!(matches!(resolve_filename(&url, &None), Err(Error::UrlIllegal)));
    // even an explicit filename does not save an unparsable URL
    let r = resolve_filename(&url, &Some("x.bin".to_string()));
    assert!(matches!(r, Err(Error::UrlIllegal)));
}

#[test]
fn resolve_filename_rejects_an_empty_name() {
    let url = "https://example.com".to_string();
    let r = resolve_filename(&url, &None);
    match r {
        Err(e) => {
            assert!(matches!(e, Error::UrlCannotDownload));
            assert!(e.ignorable());
        }
        Ok(n) => panic!("unexpected name {n}"),
    }
    let url = "https://example.com/a".to_string();
    let r = resolve_filename(&url, &Some(String::new()));
    assert!(matches!(r, Err(Error::UrlCannotDownload)));
}

#[test]
fn folder_stat_decisions_follow_the_path_kind() {
    assert!(matches!(on_folder_stat(PathKind::Directory), DirStep::StatFile));
    assert!(matches!(on_folder_stat(PathKind::Missing), DirStep::CreateFolder));
    match on_folder_stat(PathKind::RegularFile) {
        DirStep::Fail(e) => {
            assert!(matches!(e, Error::FolderExistedAsFile));
            assert!(!e.ignorable());
        }
        _ => panic!("a file in the directory's place must be fatal"),
    }
    assert!(on_folder_created(true).is_ok());
    assert!(matches!(on_folder_created(false), Err(Error::FailedToCreateFolder)));
}

#[test]
fn file_stat_decisions_follow_the_path_kind_and_flag() {
    assert!(matches!(on_file_stat(PathKind::Missing, false), FileStep::Fetch));
    assert!(matches!(on_file_stat(PathKind::Missing, true), FileStep::Fetch));
    assert!(matches!(
        on_file_stat(PathKind::Directory, true),
        FileStep::Fail(Error::FileExistedAsFolder)
    ));
    assert!(matches!(on_file_stat(PathKind::RegularFile, true), FileStep::ReadExisting));
    match on_file_stat(PathKind::RegularFile, false) {
        FileStep::Fail(e) => {
            assert!(matches!(e, Error::FileExisted));
            assert!(!e.ignorable());
        }
        _ => panic!("an existing file without hash checking must stop the task"),
    }
}

#[test]
fn existing_read_digest_matches_the_reference_hash() {
    let bytes = vec![5u8, 6, 7];
    let d = on_existing_read(ReadOutcome::Content(bytes.clone())).unwrap();
    assert_eq!(d.as_slice(), blake3::hash(&bytes).as_bytes());
}

#[test]
fn existing_read_failures_are_classified() {
    let r = on_existing_read(ReadOutcome::OpenFailed("denied".to_string()));
    match r {
        Err(Error::IoError(m)) => assert_eq!(m, "denied"),
        _ => panic!("a failed open must be an io error"),
    }
    assert!(matches!(on_existing_read(ReadOutcome::ReadFailed), Err(Error::HashingError)));
}

#[test]
fn identical_remote_bytes_leave_the_task_satisfied() {
    let bytes = vec![1u8, 2, 3];
    let prior = on_existing_read(ReadOutcome::Content(bytes.clone())).unwrap();
    let r = on_fetch(response(200, Some("application/octet-stream"), &bytes), Some(prior), true);
    assert!(matches!(r, FetchStep::AlreadySatisfied));
}

#[test]
fn different_remote_bytes_are_a_conflict() {
    let prior = on_existing_read(ReadOutcome::Content(vec![1u8, 2, 3])).unwrap();
    let r = on_fetch(response(200, Some("application/octet-stream"), &[9u8, 9]), Some(prior), true);
    match r {
        FetchStep::Fail(e) => {
            assert!(matches!(e, Error::DifferentFileExisted));
            assert!(!e.ignorable());
        }
        _ => panic!("different content must be a conflict"),
    }
}

#[test]
fn status_404_is_resource_not_found() {
    let r = on_fetch(response(404, None, &[]), None, true);
    match r {
        FetchStep::Fail(e) => {
            assert!(matches!(e, Error::ResourceNotFound));
            assert!(!e.ignorable());
        }
        _ => panic!("404 must fail"),
    }
}

#[test]
fn other_non_200_statuses_carry_their_code() {
    let r = on_fetch(response(500, None, &[]), None, true);
    match r {
        FetchStep::Fail(e) => {
            assert!(matches!(e, Error::RequestNotOK(500)));
            assert!(!e.ignorable());
        }
        _ => panic!("500 must fail"),
    }
    assert!(matches!(
        on_fetch(response(301, None, &[]), None, true),
        FetchStep::Fail(Error::RequestNotOK(301))
    ));
}

#[test]
fn binary_filter_rejects_html_and_writes_nothing() {
    let r = on_fetch(response(200, Some("text/html; charset=utf-8"), &[1u8]), None, true);
    match r {
        FetchStep::Fail(e) => {
            assert!(matches!(e, Error::FileIsNotBinary));
            assert!(e.ignorable());
        }
        _ => panic!("html must be filtered, nothing written"),
    }
}

#[test]
fn binary_filter_rejects_javascript_exactly() {
    let r = on_fetch(response(200, Some("application/javascript"), &[1u8]), None, true);
    assert!(matches!(r, FetchStep::Fail(Error::FileIsNotBinary)));
    // only the exact type is compared, not a parameterized variant
    let r = on_fetch(response(200, Some("application/javascript; charset=utf-8"), &[1u8]), None, true);
    assert!(matches!(r, FetchStep::Write(_, _)));
}

#[test]
fn binary_filter_is_off_when_not_requested() {
    let r = on_fetch(response(200, Some("text/html"), &[1u8, 2]), None, false);
    match r {
        FetchStep::Write(body, ct) => {
            assert_eq!(body, vec![1u8, 2]);
            assert_eq!(ct.as_deref(), Some("text/html"));
        }
        _ => panic!("without the filter the body is written"),
    }
}

#[test]
fn transport_failures_wrap_their_message() {
    let r = on_fetch(FetchOutcome::Transport("connection refused".to_string()), None, true);
    match r {
        FetchStep::Fail(Error::HttpError(m)) => assert_eq!(m, "connection refused"),
        _ => panic!("a transport failure must be an http error"),
    }
}

#[test]
fn write_results_are_classified() {
    assert!(on_write_result(None).is_ok());
    match on_write_result(Some("disk full".to_string())) {
        Err(Error::IoError(m)) => assert_eq!(m, "disk full"),
        _ => panic!("a failed write must be an io error"),
    }
}

#[test]
fn auto_rename_appends_the_subtype_extension() {
    let plan = plan_rename(&"image".to_string(), &Some("image/png".to_string()), true);
    assert_eq!(plan.as_deref(), Some("image.png"));
    let plan = plan_rename(&"page".to_string(), &Some("text/html; charset=utf-8".to_string()), true);
    assert_eq!(plan.as_deref(), Some("page.html"));
}

#[test]
fn auto_rename_skips_names_with_an_extension() {
    assert_eq!(plan_rename(&"image.png".to_string(), &Some("image/png".to_string()), true), None);
    assert_eq!(plan_rename(&"image".to_string(), &Some("image/png".to_string()), false), None);
}

#[test]
fn auto_rename_without_a_content_type_keeps_the_name() {
    let plan = plan_rename(&"blob".to_string(), &None, true);
    assert_eq!(plan.as_deref(), Some("blob"));
}

#[test]
fn rename_to_a_missing_target_copies_then_removes() {
    let name = "image".to_string();
    let ct = Some("image/png".to_string());
    let body = vec![9u8, 9];
    let plan = plan_rename(&name, &ct, true);
    assert_eq!(plan.as_deref(), Some("image.png"));
    assert!(matches!(on_rename_stat(PathKind::Missing, &body), RenameStep::CopyToTarget));
    // the copy and the removal of the extension-less original both succeed
    assert!(on_rename_io_result(None).is_ok());
    assert!(on_rename_io_result(None).is_ok());
}

#[test]
fn rename_target_existing_as_directory_gives_up() {
    let body = vec![1u8];
    match on_rename_stat(PathKind::Directory, &body) {
        RenameStep::Fail(e) => {
            assert!(matches!(e, Error::FileExistedAsFolderWhenRename));
            assert!(e.ignorable());
        }
        _ => panic!("a directory at the rename target must give up"),
    }
}

#[test]
fn rename_target_with_equal_content_skips_the_copy() {
    let body = vec![3u8, 4, 5];
    let digest = match on_rename_stat(PathKind::RegularFile, &body) {
        RenameStep::CompareTarget(d) => d,
        _ => panic!("an existing file must be compared"),
    };
    assert_eq!(digest.as_slice(), blake3::hash(&body).as_bytes());
    let r = on_rename_read(ReadOutcome::Content(body), &digest);
    assert!(matches!(r, RenameReadStep::RemoveOriginal));
}

#[test]
fn rename_target_with_different_content_is_left_alone() {
    let body = vec![3u8, 4, 5];
    let digest = match on_rename_stat(PathKind::RegularFile, &body) {
        RenameStep::CompareTarget(d) => d,
        _ => panic!("an existing file must be compared"),
    };
    let r = on_rename_read(ReadOutcome::Content(vec![6u8]), &digest);
    match r {
        RenameReadStep::Fail(e) => {
            assert!(matches!(e, Error::DifferentFileExistedWhenRename));
            assert!(e.ignorable());
        }
        _ => panic!("different content at the rename target must fail"),
    }
}

#[test]
fn rename_read_failures_are_classified() {
    let digest = vec![0u8; 32];
    let r = on_rename_read(ReadOutcome::OpenFailed("gone".to_string()), &digest);
    match r {
        RenameReadStep::Fail(Error::IoErrorWhenRename(m)) => assert_eq!(m, "gone"),
        _ => panic!("a failed open on the rename path is an io error"),
    }
    let r = on_rename_read(ReadOutcome::ReadFailed, &digest);
    assert!(matches!(r, RenameReadStep::Fail(Error::HashingErrorWhenRename)));
    match on_rename_io_result(Some("busy".to_string())) {
        Err(e) => {
            assert!(matches!(e, Error::IoErrorWhenRename(_)));
            assert!(e.ignorable());
        }
        Ok(()) => panic!("a failed copy or removal must be reported"),
    }
}
