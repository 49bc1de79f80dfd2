use agneax_store::active::ActiveDownloads;
use agneax_store::downloader::{deletes_partial_file, file_name_from_url, generate_id, id_from_nanos, plan_transfer, range_header, resolve_save_dir, save_file_name, stop_status, TransferEvent, TransferProgress, TransferStep};

#[test]
fn ids_are_hex_of_the_clock() {
    assert_eq!(id_from_nanos(0), "0");
    assert_eq!(id_from_nanos(255), "ff");
    assert_eq!(id_from_nanos(1_700_000_000_123_456_789), format!("{:x}", 1_700_000_000_123_456_789u128));
    let id = generate_id();
    assert!(!id.is_empty());
    assert!(id.chars().all(|c| c.is_ascii_hexdigit() && !c.is_ascii_uppercase()));
}

#[test]
fn file_names_from_urls() {
    assert_eq!(file_name_from_url("https://example.com/files/app-1.2.exe?token=abc"), "app-1.2.exe");
    assert_eq!(file_name_from_url("https://laptop-updates.brave.com/latest/winx64"), "winx64");
    assert_eq!(file_name_from_url("no-slashes"), "no-slashes");
    assert_eq!(file_name_from_url("https://x.org/dir/"), "");
    assert_eq!(file_name_from_url("https://x.org/a?b/c"), "c");
    assert_eq!(save_file_name("18f", "https://h/p/setup.msi?x=1"), "18f_setup.msi");
    // A URL that names no file gets the default name.
    assert_eq!(save_file_name("18f", "https://example.com/files/"), "18f_installer.bin");
    assert_eq!(save_file_name("18f", "https://example.com/files/?v=2"), "18f_installer.bin");
}

#[test]
fn save_directory() {
    assert_eq!(resolve_save_dir(None), None);
    assert_eq!(resolve_save_dir(Some(String::new())), None);
    assert_eq!(resolve_save_dir(Some("/tmp/dl".to_string())), Some("/tmp/dl".to_string()));
}

#[test]
fn resuming_transfers() {
    assert_eq!(range_header(0), None);
    assert_eq!(range_header(1024), Some("bytes=1024-".to_string()));
    let p = plan_transfer(1000, 206, Some(500));
    assert!(p.resumed);
    assert_eq!(p.start_offset, 1000);
    assert_eq!(p.total_size, 1500);
    let p = plan_transfer(1000, 200, Some(1500));
    assert!(!p.resumed);
    assert_eq!(p.start_offset, 0);
    assert_eq!(p.total_size, 1500);
    let p = plan_transfer(0, 200, None);
    assert_eq!(p.total_size, 0);
}

#[test]
fn progress_reports() {
    let plan = plan_transfer(100, 206, Some(300));
    let mut t = TransferProgress::start(&plan);
    assert_eq!(t.downloaded, 100);
    assert!(!t.record_chunk(100, 50));
    assert_eq!(t.remaining_bytes(), 200);
    assert!(t.record_chunk(50, 250));
    assert!(t.record_chunk(150, 0));
    assert_eq!(t.downloaded, 400);
    assert_eq!(t.session, 300);
    assert_eq!(t.remaining_bytes(), 0);
}

#[test]
fn stopping_transfers() {
    assert_eq!(stop_status(&Some("Cancelled".to_string())), "Cancelled");
    assert_eq!(stop_status(&Some("Paused".to_string())), "Paused");
    assert_eq!(stop_status(&Some("Downloading".to_string())), "Paused");
    assert_eq!(stop_status(&None), "Paused");
    assert!(deletes_partial_file("Cancelled"));
    assert!(!deletes_partial_file("Paused"));
}

#[test]
fn registry_of_running_downloads() {
    let mut reg: ActiveDownloads<u32> = ActiveDownloads::new();
    assert_eq!(reg.len(), 0);
    assert_eq!(reg.pause_target("a").unwrap_err(), "Download not active or already completed/paused");
    assert!(reg.begin_resume("a".to_string(), 1).is_ok());
    assert!(reg.contains("a"));
    assert_eq!(*reg.pause_target("a").unwrap(), 1);
    assert_eq!(reg.begin_resume("a".to_string(), 2).unwrap_err(), "Download is already running");
    assert_eq!(*reg.get("a").unwrap(), 1);
    reg.insert("b".to_string(), 3);
    reg.insert("b".to_string(), 4);
    assert_eq!(reg.len(), 2);
    assert_eq!(reg.remove("b"), Some(4));
    assert_eq!(reg.remove("b"), None);
    assert_eq!(reg.remove("a"), Some(1));
    assert_eq!(reg.len(), 0);
    assert!(!reg.contains("a"));
}

fn finish(step: TransferStep) -> (String, bool) {
    match step {
        TransferStep::Finish { status, delete_partial } => (status, delete_partial),
        _ => panic!("expected the transfer to stop"),
    }
}

fn failure(step: TransferStep) -> String {
    match step {
        TransferStep::Fail { error } => error,
        _ => panic!("expected the transfer to fail"),
    }
}

#[test]
fn transfer_steps() {
    let plan = plan_transfer(0, 200, Some(300));
    let mut t = TransferProgress::start(&plan);
    match t.on_event(TransferEvent::Chunk { len: 100, ms_since_report: 10 }) {
        TransferStep::Continue { report } => assert!(!report),
        _ => panic!("expected to continue"),
    }
    match t.on_event(TransferEvent::Chunk { len: 200, ms_since_report: 10 }) {
        TransferStep::Continue { report } => assert!(report),
        _ => panic!("expected to continue"),
    }
    assert_eq!(t.downloaded, 300);
    assert_eq!(finish(t.on_event(TransferEvent::Ended)), ("Completed".to_string(), false));
    assert_eq!(failure(t.on_event(TransferEvent::ChunkFailed("reset".to_string()))), "Error downloading chunk: reset");
    assert_eq!(failure(t.on_event(TransferEvent::WriteFailed("disk full".to_string()))), "Failed to write chunk to file: disk full");
    assert_eq!(finish(t.on_event(TransferEvent::Signalled(Some("Cancelled".to_string())))), ("Cancelled".to_string(), true));
    assert_eq!(finish(t.on_event(TransferEvent::Signalled(Some("Paused".to_string())))), ("Paused".to_string(), false));
    assert_eq!(finish(t.on_event(TransferEvent::Signalled(None))), ("Paused".to_string(), false));
    assert_eq!(t.downloaded, 300);
}

#[test]
fn resumed_run_adds_up_to_the_announced_size() {
    // 100 bytes on disk, the server announces the 250 bytes still to come.
    let plan = plan_transfer(100, 206, Some(250));
    let mut t = TransferProgress::start(&plan);
    for len in [50u64, 120, 80] {
        let _ = t.on_event(TransferEvent::Chunk { len, ms_since_report: 0 });
    }
    assert_eq!(t.downloaded, 100 + 250);
    assert_eq!(t.session, 250);
    assert_eq!(t.downloaded, t.total);
}
