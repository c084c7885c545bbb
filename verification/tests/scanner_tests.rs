use std::io::Cursor;
use std::io::Write;

use eternalmodmanager::mod_data::SafetyStatus;
use eternalmodmanager::scanner::{scan, ModSource};
use eternalmodmanager::settings::online_safe_flag;

fn zip_with_entries(entries: &[(&str, &str)]) -> Vec<u8> {
    let mut writer = zip::ZipWriter::new(Cursor::new(Vec::new()));
    let options = zip::write::SimpleFileOptions::default();
    for (name, body) in entries {
        writer.start_file(*name, options).unwrap();
        writer.write_all(body.as_bytes()).unwrap();
    }
    writer.finish().unwrap().into_inner()
}

fn source(name: &str, bytes: Vec<u8>) -> ModSource {
    ModSource { filename: String::from(name), bytes: Some(bytes) }
}

fn safe_zip() -> Vec<u8> {
    zip_with_entries(&[("streamdb/data.bin", "x")])
}

#[test]
fn snapshot_is_sorted_case_insensitively() {
    let enabled = vec![
        source("Zeta.zip", safe_zip()),
        source("alpha.zip", safe_zip()),
    ];
    let disabled = vec![source("Beta.zip", safe_zip())];
    let records = scan(&enabled, &disabled, &Vec::new(), false);
    let names: Vec<&str> = records.iter().map(|r| r.filename.as_str()).collect();
    assert_eq!(names, vec!["alpha.zip", "Beta.zip", "Zeta.zip"]);
}

#[test]
fn scan_is_deterministic() {
    let enabled = vec![
        source("b.zip", safe_zip()),
        source("a.zip", zip_with_entries(&[("gameresources/generated/decls/w.lwo", "x")])),
    ];
    let disabled = vec![
        source("c.zip", Vec::new()),
        ModSource { filename: String::from("d.zip"), bytes: None },
    ];
    let first = scan(&enabled, &disabled, &Vec::new(), false);
    let second = scan(&enabled, &disabled, &Vec::new(), false);
    assert_eq!(first.len(), second.len());
    for (a, b) in first.iter().zip(second.iter()) {
        assert_eq!(a.filename, b.filename);
        assert_eq!(a.is_valid, b.is_valid);
        assert_eq!(a.is_enabled, b.is_enabled);
        assert_eq!(a.is_online_safe, b.is_online_safe);
        assert_eq!(a.status, b.status);
        assert_eq!(a.name, b.name);
        assert_eq!(a.online_safety_message, b.online_safety_message);
    }
}

#[test]
fn zero_byte_archive_yields_one_invalid_record() {
    let enabled = vec![
        source("broken.zip", Vec::new()),
        source("fine.zip", safe_zip()),
    ];
    let records = scan(&enabled, &Vec::new(), &Vec::new(), false);
    assert_eq!(records.len(), 2);
    let broken = records.iter().find(|r| r.filename == "broken.zip").unwrap();
    assert!(!broken.is_valid);
    assert!(!broken.is_online_safe);
    assert_eq!(broken.status, SafetyStatus::Invalid);
    let fine = records.iter().find(|r| r.filename == "fine.zip").unwrap();
    assert!(fine.is_valid);
    assert!(fine.is_online_safe);
}

#[test]
fn unreadable_candidate_yields_invalid_record() {
    let enabled = vec![ModSource { filename: String::from("gone.zip"), bytes: None }];
    let records = scan(&enabled, &Vec::new(), &Vec::new(), false);
    assert_eq!(records.len(), 1);
    assert!(!records[0].is_valid);
    assert_eq!(records[0].tooltip, "Invalid .zip file");
    assert_eq!(
        records[0].online_safety_message,
        "<span foreground='red'>Invalid .zip file</span>"
    );
    assert_eq!(records[0].icon, "<span foreground='red' weight='bold'>\u{2717}</span>");
}

#[test]
fn metadata_fields_are_read_and_defaulted() {
    let bytes = zip_with_entries(&[
        ("streamdb/data.bin", "x"),
        (
            "EternalMod.json",
            "{\"name\": \"My Mod\", \"author\": \"Someone\", \"loadPriority\": -3}",
        ),
    ]);
    let enabled = vec![source("meta.zip", bytes)];
    let records = scan(&enabled, &Vec::new(), &Vec::new(), false);
    assert_eq!(records[0].name, "My Mod");
    assert_eq!(records[0].author, "Someone");
    assert_eq!(records[0].description, "Not specified.");
    assert_eq!(records[0].version, "Not specified.");
    assert_eq!(records[0].load_priority, "-3");
    assert_eq!(records[0].required_version, "Not specified.");
}

#[test]
fn absent_metadata_defaults_to_filename() {
    let enabled = vec![source("plain.zip", safe_zip())];
    let records = scan(&enabled, &Vec::new(), &Vec::new(), false);
    assert_eq!(records[0].name, "plain.zip");
    assert_eq!(records[0].author, "Unknown.");
}

#[test]
fn malformed_metadata_falls_back_to_defaults() {
    let bytes = zip_with_entries(&[
        ("streamdb/data.bin", "x"),
        ("EternalMod.json", "not json at all {"),
    ]);
    let enabled = vec![source("bad_meta.zip", bytes)];
    let records = scan(&enabled, &Vec::new(), &Vec::new(), false);
    assert!(records[0].is_valid);
    assert_eq!(records[0].name, "bad_meta.zip");
    assert_eq!(records[0].author, "Unknown.");
    assert_eq!(records[0].load_priority, "Not specified.");
}

#[test]
fn wrong_typed_metadata_fields_are_defaulted() {
    let bytes = zip_with_entries(&[
        ("streamdb/data.bin", "x"),
        ("EternalMod.json", "{\"name\": 7, \"loadPriority\": \"high\"}"),
    ]);
    let enabled = vec![source("typed.zip", bytes)];
    let records = scan(&enabled, &Vec::new(), &Vec::new(), false);
    assert_eq!(records[0].name, "typed.zip");
    assert_eq!(records[0].load_priority, "Not specified.");
}

#[test]
fn enabled_flag_follows_source_folder() {
    let enabled = vec![source("on.zip", safe_zip())];
    let disabled = vec![source("off.zip", safe_zip())];
    let records = scan(&enabled, &disabled, &Vec::new(), false);
    let on = records.iter().find(|r| r.filename == "on.zip").unwrap();
    let off = records.iter().find(|r| r.filename == "off.zip").unwrap();
    assert!(on.is_enabled);
    assert!(!off.is_enabled);
}

#[test]
fn severity_tiers_follow_the_decision_table() {
    let unsafe_bytes = zip_with_entries(&[("gameresources/generated/decls/w.lwo", "x")]);
    let enabled = vec![
        source("safe.zip", safe_zip()),
        source("risky_on.zip", unsafe_bytes.clone()),
    ];
    let disabled = vec![source("risky_off.zip", unsafe_bytes)];

    let records = scan(&enabled, &disabled, &Vec::new(), false);
    let safe = records.iter().find(|r| r.filename == "safe.zip").unwrap();
    let on = records.iter().find(|r| r.filename == "risky_on.zip").unwrap();
    let off = records.iter().find(|r| r.filename == "risky_off.zip").unwrap();
    assert_eq!(safe.status, SafetyStatus::SafeOnline);
    assert_eq!(
        safe.online_safety_message,
        "<span foreground='greenyellow'>This mod is safe for use in public matches.</span>"
    );
    assert_eq!(on.status, SafetyStatus::EnabledUnsafe);
    assert_eq!(off.status, SafetyStatus::DisabledUnsafe);
    assert_eq!(off.tooltip, "This mod is not safe for use in public matches.");
}

#[test]
fn settings_change_alone_updates_severity_tiers() {
    let unsafe_bytes = zip_with_entries(&[("gameresources/generated/decls/w.lwo", "x")]);
    let enabled = vec![source("risky.zip", unsafe_bytes)];

    let policy_off = online_safe_flag(":ONLINE_SAFE=0\n:VERBOSE=1\n");
    let before = scan(&enabled, &Vec::new(), &Vec::new(), policy_off);
    assert_eq!(before[0].status, SafetyStatus::EnabledUnsafe);

    let policy_on = online_safe_flag(":ONLINE_SAFE=1\n:VERBOSE=1\n");
    let after = scan(&enabled, &Vec::new(), &Vec::new(), policy_on);
    assert_eq!(after[0].status, SafetyStatus::PolicyBlocked);
    assert_eq!(
        after[0].online_safety_message,
        "<span foreground='orange'>This mod is not safe for use in public matches. \
         It will not be loaded.</span>"
    );
    assert_eq!(before[0].filename, after[0].filename);
}

#[test]
fn online_safe_flag_reads_the_settings_line() {
    assert!(online_safe_flag(":AUTO_UPDATE=0\n:ONLINE_SAFE=1\n"));
    assert!(!online_safe_flag(":AUTO_UPDATE=0\n:ONLINE_SAFE=0\n"));
    assert!(!online_safe_flag(""));
}
