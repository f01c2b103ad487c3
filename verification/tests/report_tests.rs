use updater_rs::command::CommandOutput;
use updater_rs::config::{download_url, temp_dir_prefix, INSTALLER_VERSION};
use updater_rs::download::{plan_download, DownloadError, DownloadErrorKind};
use updater_rs::report::{download_outcome_line, program_report};

#[test]
fn success_line_carries_handle_text() {
    let line = download_outcome_line(&Ok(b"File { fd: 3 }".to_vec()));
    assert_eq!(line, b"n is File { fd: 3 }".to_vec());
}

#[test]
fn http_error_line() {
    let error = DownloadError {
        kind: DownloadErrorKind::Http,
        message: b"connection refused".to_vec(),
    };
    let line = download_outcome_line(&Err(error));
    assert_eq!(line, b"Error: connection refused".to_vec());
}

#[test]
fn io_error_line() {
    let error = DownloadError {
        kind: DownloadErrorKind::Io,
        message: b"permission denied".to_vec(),
    };
    let line = download_outcome_line(&Err(error));
    assert_eq!(line, b"Error: permission denied".to_vec());
}

#[test]
fn report_order_and_exit_code() {
    let output = CommandOutput {
        exit_code: Some(7),
        stdout: b"child out".to_vec(),
        stderr: b"child err".to_vec(),
    };
    let report = program_report(Ok(b"File".to_vec()), &output);
    assert_eq!(report.lines.len(), 3);
    assert_eq!(report.lines[0], b"n is File".to_vec());
    assert_eq!(report.lines[1], b"child out".to_vec());
    assert_eq!(report.lines[2], b"child err".to_vec());
    assert_eq!(report.exit_code, 0);
}

#[test]
fn payload_scenario() {
    let plan = plan_download(&b"/files/dsr/setup.bin".to_vec(), b"PAYLOAD".to_vec());
    assert_eq!(plan.file_name, b"setup.bin".to_vec());
    assert_eq!(plan.contents, b"PAYLOAD".to_vec());

    let output = CommandOutput {
        exit_code: Some(0),
        stdout: Vec::new(),
        stderr: Vec::new(),
    };
    let report = program_report(Ok(b"File { fd: 3 }".to_vec()), &output);
    assert!(report.lines[0].starts_with(b"n is "));
}

#[test]
fn binary_body_round_trips_exactly() {
    let body = vec![0x00, 0xff, 0x90, b'M', b'Z'];
    let plan = plan_download(&b"/files/dsr/DSR-setup-236.exe".to_vec(), body.clone());
    assert_eq!(plan.contents, body);
}

#[test]
fn connection_refused_scenario() {
    let error = DownloadError {
        kind: DownloadErrorKind::Http,
        message: b"connection refused".to_vec(),
    };
    let output = CommandOutput {
        exit_code: Some(0),
        stdout: b"command ran anyway".to_vec(),
        stderr: Vec::new(),
    };
    let report = program_report(Err(error), &output);
    assert_eq!(report.lines[0], b"Error: connection refused".to_vec());
    assert_eq!(report.lines[1], b"command ran anyway".to_vec());
    assert_eq!(report.lines[2], Vec::<u8>::new());
    assert_eq!(report.exit_code, 0);
}

#[test]
fn configured_url_and_version() {
    assert_eq!(
        download_url(),
        "https://dkratzert.de/files/dsr/DSR-setup-236.exe"
    );
    assert_eq!(INSTALLER_VERSION, 236);
    assert_eq!(temp_dir_prefix(), "update-file");
}

#[test]
fn configured_url_path_derives_its_own_name() {
    let plan = plan_download(
        &b"/files/dsr/DSR-setup-236.exe".to_vec(),
        b"installer bytes".to_vec(),
    );
    assert_eq!(plan.file_name, b"DSR-setup-236.exe".to_vec());
}
