use agneax_store::logger::{console_line, export_file_name, export_text, format_timestamp, LogEntry};
use agneax_store::text::{contains_text, ends_with, eq_ignore_ascii_case, hex_of_bytes, same_text, u64_text};

fn entry(step: &str, status: &str, message: &str, timestamp: i64) -> LogEntry {
    LogEntry {
        id: Some(1),
        app_id: "test-app".to_string(),
        step: step.to_string(),
        status: status.to_string(),
        message: message.to_string(),
        timestamp,
    }
}

#[test]
fn timestamp_epoch_start() {
    assert_eq!(format_timestamp(0), "Epoch Day 0 - 00:00:00 UTC");
}

#[test]
fn timestamp_fields() {
    // 19876 days, 13:07:09
    let secs = 19876 * 86400 + 13 * 3600 + 7 * 60 + 9;
    assert_eq!(format_timestamp(secs), "Epoch Day 19876 - 13:07:09 UTC");
    assert_eq!(format_timestamp(86399), "Epoch Day 0 - 23:59:59 UTC");
    assert_eq!(format_timestamp(86400), "Epoch Day 1 - 00:00:00 UTC");
}

#[test]
fn timestamp_before_epoch() {
    // Rust's truncating division and `{:02}` on negative fields.
    assert_eq!(format_timestamp(-5), "Epoch Day 0 - 00:00:-5 UTC");
    assert_eq!(format_timestamp(-3661), "Epoch Day 0 - -1:-1:-1 UTC");
    assert_eq!(format_timestamp(-86400 - 15), "Epoch Day -1 - 00:00:-15 UTC");
    assert_eq!(
        format_timestamp(i64::MIN),
        format!("Epoch Day {} - {:02}:{:02}:{:02} UTC", i64::MIN / 86400, (i64::MIN % 86400) / 3600, ((i64::MIN % 86400) % 3600) / 60, (i64::MIN % 86400) % 60)
    );
}

#[test]
fn timestamp_matches_reference_formula() {
    for secs in [1i64, 59, 60, 3599, 3600, 1_700_000_000, -1, -59, -60, -86401, i64::MAX] {
        let d = secs / 86400;
        let r = secs % 86400;
        let expected = format!("Epoch Day {} - {:02}:{:02}:{:02} UTC", d, r / 3600, (r % 3600) / 60, r % 60);
        assert_eq!(format_timestamp(secs), expected);
    }
}

#[test]
fn export_text_layout() {
    let logs = vec![
        entry("Download", "Success", "Downloaded mock installer successfully", 0),
        entry("Creating Shortcut", "Info", "Making it", 61),
        entry("A very long step name here", "Warning!", "x", 3600),
    ];
    let text = export_text("test-app", &logs);
    let expected = "Agneax Store Installation Logs for App ID: test-app\n\
        ===================================================\n\n\
        [Epoch Day 0 - 00:00:00 UTC] [Download         ] [Success] Downloaded mock installer successfully\n\
        [Epoch Day 0 - 00:01:01 UTC] [Creating Shortcut] [Info   ] Making it\n\
        [Epoch Day 0 - 01:00:00 UTC] [A very long step name here] [Warning!] x\n";
    assert_eq!(text, expected);
}

#[test]
fn export_text_without_entries() {
    assert_eq!(
        export_text("vlc", &Vec::new()),
        "Agneax Store Installation Logs for App ID: vlc\n===================================================\n\n"
    );
    assert_eq!(export_file_name("vlc"), "vlc_install_log.txt");
}

#[test]
fn console_line_format() {
    assert_eq!(
        console_line("test-app", "Install", "Error", "Failed due to missing dependency"),
        "[INSTALL-LOG] [test-app][Install][Error] Failed due to missing dependency"
    );
}

#[test]
fn text_helpers() {
    assert_eq!(u64_text(0), "0");
    assert_eq!(u64_text(1234567890), "1234567890");
    assert_eq!(u64_text(u64::MAX), u64::MAX.to_string());
    assert_eq!(hex_of_bytes(&[0x00, 0xab, 0x0f, 0xff]), "00ab0fff");
    assert!(eq_ignore_ascii_case("AbC", "aBc"));
    assert!(!eq_ignore_ascii_case("abc", "abd"));
    assert!(!eq_ignore_ascii_case("abc", "abcd"));
    assert!(same_text("file", "file"));
    assert!(!same_text("file", "dir"));
    assert!(ends_with("vscode.json", ".json"));
    assert!(!ends_with("json", ".json"));
    assert!(contains_text("MyUpdater.exe".to_lowercase().as_str(), "update"));
    assert!(contains_text("abc", ""));
    assert!(!contains_text("ab", "abc"));
}
