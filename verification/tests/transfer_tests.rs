use drivogram::command::{subcommand, Subcommand};
use drivogram::download::{download_done_message, download_file_name, download_total, DownloadProgress};
use drivogram::upload::{prepare_upload, upload_plan, UploadError, UploadPlan, UploadTicker, UPLOAD_STEP};

#[test]
fn upload_name_strips_directories() {
    let plan = prepare_upload("/home/alice/docs/report.txt", false).unwrap();
    assert_eq!(plan.file_name, "report.txt");
    assert_eq!(plan.mime, "text/plain");
    let plan = prepare_upload("photo.png", false).unwrap();
    assert_eq!(plan.file_name, "photo.png");
    assert_eq!(plan.mime, "image/png");
}

#[test]
fn upload_refusals() {
    assert_eq!(prepare_upload("/home/alice/docs", true), Err(UploadError::IsDirectory));
    assert_eq!(prepare_upload("/home/alice/README", false), Err(UploadError::UnknownType));
    assert_eq!(prepare_upload("/tmp/x.notanextension", false), Err(UploadError::UnknownType));
}

#[test]
fn upload_ticker_moves_in_steps() {
    let mut t = UploadTicker::new(500_000);
    assert_eq!(t.advance(), Some(UPLOAD_STEP));
    assert_eq!(t.advance(), Some(2 * UPLOAD_STEP));
    assert_eq!(t.advance(), Some(500_000));
    assert_eq!(t.advance(), None);
    assert_eq!(t.position, 500_000);
}

#[test]
fn upload_ticker_edges() {
    let mut empty = UploadTicker::new(0);
    assert_eq!(empty.advance(), None);
    let mut exact = UploadTicker::new(2 * UPLOAD_STEP);
    assert_eq!(exact.advance(), Some(UPLOAD_STEP));
    assert_eq!(exact.advance(), Some(2 * UPLOAD_STEP));
    assert_eq!(exact.advance(), None);
    let mut huge = UploadTicker::new(u64::MAX);
    huge.position = u64::MAX - 5;
    assert_eq!(huge.advance(), Some(u64::MAX));
}

#[test]
fn ticks_for_a_file() {
    let total = 1_000_000u64;
    let mut t = UploadTicker::new(total);
    let mut ticks = 0u64;
    while t.advance().is_some() {
        ticks += 1;
    }
    assert_eq!(ticks, (total + UPLOAD_STEP - 1) / UPLOAD_STEP);
}

#[test]
fn download_names() {
    assert_eq!(download_file_name(Some("movie.mp4")), "movie.mp4");
    assert_eq!(download_file_name(None), "0");
    assert_eq!(
        download_done_message("movie.mp4"),
        "Downloaded movie.mp4 Successfully to your Current directory!"
    );
}

#[test]
fn download_sizes_and_progress() {
    assert_eq!(download_total(Some(1234)), Some(1234));
    assert_eq!(download_total(None), None);
    let mut p = DownloadProgress::new(10);
    assert_eq!(p.record(4), 4);
    assert_eq!(p.record(6), 10);
    assert_eq!(p.downloaded, 10);
    assert_eq!(p.total, 10);
}

#[test]
fn subcommands_by_name() {
    assert_eq!(subcommand("source"), Subcommand::Source);
    assert_eq!(subcommand("signup"), Subcommand::Signup);
    assert_eq!(subcommand("login"), Subcommand::Login);
    assert_eq!(subcommand("myuploads"), Subcommand::MyUploads);
    assert_eq!(subcommand("download"), Subcommand::Download);
    assert_eq!(subcommand("upload"), Subcommand::Upload);
    assert_eq!(subcommand("delete"), Subcommand::Delete);
    assert_eq!(subcommand("share"), Subcommand::Share);
    assert_eq!(subcommand("Upload"), Subcommand::Unknown);
    assert_eq!(subcommand(""), Subcommand::Unknown);
}

#[test]
fn plans_from_parts() {
    assert_eq!(upload_plan(None, Some("text/plain".to_string())), Err(UploadError::InvalidPattern));
    assert_eq!(upload_plan(Some("a.txt".to_string()), None), Err(UploadError::UnknownType));
    assert_eq!(
        upload_plan(Some("a.txt".to_string()), Some("text/plain".to_string())),
        Ok(UploadPlan { file_name: "a.txt".to_string(), mime: "text/plain".to_string() })
    );
}

use drivogram::account::{login_action, signup_action, LoginAction, SignupAction};
use drivogram::reply::LoginStatus;
use drivogram::upload::UploadPlan as Plan;

#[test]
fn saved_key_is_kept() {
    assert_eq!(login_action(LoginStatus::Accepted, true), LoginAction::KeepSavedKey);
    assert_eq!(login_action(LoginStatus::Accepted, false), LoginAction::SaveKey);
    assert_eq!(login_action(LoginStatus::Rejected, false), LoginAction::RefuseKey);
    assert_eq!(login_action(LoginStatus::Unavailable, true), LoginAction::ReportUnavailable);
    assert_eq!(signup_action(true), SignupAction::AlreadySignedUp);
    assert_eq!(signup_action(false), SignupAction::Register);
}

#[test]
fn stored_name_is_last_component() {
    let plan: Plan = prepare_upload("dir/a.pdf", false).unwrap();
    assert_eq!(plan.file_name, "a.pdf");
    assert_eq!(prepare_upload("/a/b/c/", false), Err(UploadError::UnknownType));
    assert_eq!(prepare_upload("x.dir/noext", false), Err(UploadError::UnknownType));
}
