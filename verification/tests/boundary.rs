use std::io::Cursor;
use std::io::Write;

use rsl::extract::{extract_status, marshal_paths, rsl_extract_zip, ExtractError};
use rsl::logging::{
    make_log_record, rsl_c_debug, rsl_c_error, rsl_c_info, rsl_c_trace, rsl_c_warn, rsl_log_init,
    LogLevel,
};
use rsl::marshal::marshal_text;
use rsl::presence::{
    activity_payload_json, outcome_of, rpc_kill, rpc_test_activity, rsl_rpc_connect,
    rsl_rpc_create, rsl_rpc_set_activity, rsl_rpc_test, Activity, Asset, Button, RpcOutcome,
    Timestamps,
};
use zip::write::SimpleFileOptions;
use zip::write::ZipWriter;

fn sample_zip() -> Vec<u8> {
    let mut w = ZipWriter::new(Cursor::new(Vec::new()));
    w.start_file("a.txt", SimpleFileOptions::default()).unwrap();
    w.write_all(b"hello").unwrap();
    w.start_file("dir/b.bin", SimpleFileOptions::default()).unwrap();
    w.write_all(&[1u8, 2, 3, 4]).unwrap();
    let cursor = w.finish().unwrap();
    cursor.into_inner()
}

#[test]
fn extract_two_entries_in_order() {
    let bytes = sample_zip();
    let r = rsl_extract_zip(bytes);
    assert_eq!(extract_status(&r), 0);
    let entries = r.unwrap();
    assert_eq!(entries.len(), 2);
    assert_eq!(entries[0].name, "a.txt");
    assert_eq!(entries[0].data, b"hello".to_vec());
    assert_eq!(entries[0].data.len(), 5);
    assert_eq!(entries[1].name, "dir/b.bin");
    assert_eq!(entries[1].data, vec![1u8, 2, 3, 4]);
}

#[test]
fn extract_empty_archive() {
    let w = ZipWriter::new(Cursor::new(Vec::new()));
    let bytes = w.finish().unwrap().into_inner();
    let r = rsl_extract_zip(bytes);
    assert_eq!(extract_status(&r), 0);
    assert_eq!(r.unwrap().len(), 0);
}

#[test]
fn extract_corrupt_archive_fails() {
    let r = rsl_extract_zip(b"this is not an archive at all".to_vec());
    assert_eq!(extract_status(&r), -1);
    assert!(r.is_err());
}

#[test]
fn extract_truncated_archive_fails() {
    let mut bytes = sample_zip();
    bytes.truncate(bytes.len() / 2);
    let r = rsl_extract_zip(bytes);
    assert_eq!(extract_status(&r), -1);
}

#[test]
fn extract_null_arguments_rejected() {
    let path = b"archive.zip".to_vec();
    assert!(marshal_paths(None, Some(&path)).is_none());
    assert!(marshal_paths(Some(&path), None).is_none());
    assert!(marshal_paths(None, None).is_none());
    let both = marshal_paths(Some(&path), Some(&path)).unwrap();
    assert_eq!(both.0, "archive.zip");
    assert_eq!(both.1, "archive.zip");
}

#[test]
fn extract_error_message_text() {
    assert_eq!(ExtractError::Failed.message(), "Failed to extract");
}

#[test]
fn marshal_decodes_and_rejects_null() {
    assert!(marshal_text(None).is_none());
    let plain = b"plain ascii".to_vec();
    assert_eq!(marshal_text(Some(&plain)).unwrap(), "plain ascii");
    let empty: Vec<u8> = Vec::new();
    assert_eq!(marshal_text(Some(&empty)).unwrap(), "");
}

#[test]
fn log_records_repair_invalid_bytes() {
    let broken = vec![b'f', 0xff, b'o'];
    let record = rsl_c_warn(Some(&broken), 3).unwrap();
    assert_eq!(record.level, LogLevel::Warn);
    assert!(record.message.contains('\u{FFFD}'));
    assert!(record.message.starts_with('f'));
    assert!(record.message.ends_with('o'));
    for record in [
        rsl_c_trace(Some(&broken), 3).unwrap(),
        rsl_c_debug(Some(&broken), 3).unwrap(),
        rsl_c_info(Some(&broken), 3).unwrap(),
        rsl_c_error(Some(&broken), 3).unwrap(),
    ] {
        assert!(record.message.contains('\u{FFFD}'));
    }
}

#[test]
fn log_record_levels_and_null() {
    let msg = b"boot".to_vec();
    assert_eq!(rsl_c_trace(Some(&msg), 4).unwrap().level, LogLevel::Trace);
    assert_eq!(rsl_c_debug(Some(&msg), 4).unwrap().level, LogLevel::Debug);
    assert_eq!(rsl_c_info(Some(&msg), 4).unwrap().level, LogLevel::Info);
    assert_eq!(rsl_c_error(Some(&msg), 4).unwrap().level, LogLevel::Error);
    assert_eq!(rsl_c_info(Some(&msg), 4).unwrap().message, "boot");
    assert!(rsl_c_info(None, 0).is_none());
    assert!(make_log_record(LogLevel::Info, None).is_none());
}

#[test]
fn log_init_twice_returns_normally() {
    let _ = rsl_log_init();
    let second = rsl_log_init();
    assert!(!second);
}

#[test]
fn rpc_create_returns_handle_without_network() {
    let empty: Vec<u8> = Vec::new();
    assert!(rsl_rpc_create(Some(&empty)).is_some());
    let arbitrary = b"123456789".to_vec();
    assert!(rsl_rpc_create(Some(&arbitrary)).is_some());
    assert!(rsl_rpc_create(None).is_none());
}

#[test]
fn rpc_create_then_destroy_without_connect() {
    let app_id = b"9876".to_vec();
    let mut client = rsl_rpc_create(Some(&app_id)).unwrap();
    let outcome = rpc_kill(&mut client);
    assert!(matches!(outcome, RpcOutcome::Failed(_)));
    drop(client);
}

#[test]
fn rpc_set_activity_unconnected_reports_failure() {
    let app_id = b"42".to_vec();
    let mut client = rsl_rpc_create(Some(&app_id)).unwrap();
    let descriptor = rpc_test_activity();
    let outcome = rsl_rpc_set_activity(&mut client, &descriptor);
    assert!(matches!(outcome, RpcOutcome::Failed(_)));
    let outcome = rsl_rpc_test(&mut client);
    assert!(matches!(outcome, RpcOutcome::Failed(_)));
}

#[test]
fn rpc_connect_without_service_reports_failure() {
    // No presence service listens in this environment, so the connection
    // attempt must come back as a failure outcome, not a panic.
    let app_id = b"42".to_vec();
    let mut client = rsl_rpc_create(Some(&app_id)).unwrap();
    let outcome = rsl_rpc_connect(&mut client);
    assert!(matches!(outcome, RpcOutcome::Failed(_)));
}

#[test]
fn outcome_keeps_the_message() {
    assert!(matches!(outcome_of(Ok(())), RpcOutcome::Done));
    match outcome_of(Err("no route".to_string())) {
        RpcOutcome::Failed(m) => assert_eq!(m, "no route"),
        RpcOutcome::Done => panic!("failure outcome expected"),
    }
}

#[test]
fn sample_activity_is_pinned() {
    let a = rpc_test_activity();
    assert_eq!(a.state, "A test");
    assert_eq!(a.details, "A placeholder");
    assert_eq!(a.timestamps.start, 0);
    assert_eq!(a.timestamps.end, 0);
    assert_eq!(a.assets.large_image, "large-image");
    assert_eq!(a.assets.large_text, "Large text");
    assert_eq!(a.buttons.len(), 1);
    assert_eq!(a.buttons[0].text, "A button");
    assert_eq!(a.buttons[0].link, "https://github.com");
}

#[test]
fn activity_translation_preserves_fields_and_button_order() {
    let descriptor = Activity {
        state: "S".to_string(),
        details: "D".to_string(),
        timestamps: Timestamps { start: 123, end: 456 },
        assets: Asset {
            large_image: "img-key".to_string(),
            large_text: "hover".to_string(),
        },
        buttons: vec![
            Button { text: "B1".to_string(), link: "u1".to_string() },
            Button { text: "B2".to_string(), link: "u2".to_string() },
        ],
    };
    let json = activity_payload_json(&descriptor);
    let v: serde_json::Value = serde_json::from_str(&json).unwrap();
    assert_eq!(v["state"], "S");
    assert_eq!(v["details"], "D");
    assert_eq!(v["timestamps"]["start"], 123);
    assert_eq!(v["timestamps"]["end"], 456);
    assert_eq!(v["assets"]["large_image"], "img-key");
    assert_eq!(v["assets"]["large_text"], "hover");
    let buttons = v["buttons"].as_array().unwrap();
    assert_eq!(buttons.len(), 2);
    assert_eq!(buttons[0]["label"], "B1");
    assert_eq!(buttons[0]["url"], "u1");
    assert_eq!(buttons[1]["label"], "B2");
    assert_eq!(buttons[1]["url"], "u2");
}
