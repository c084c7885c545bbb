use std::io::Cursor;
use std::io::Write;

use eternalmodmanager::classifier::classify_archive;

fn zip_with_entries(entries: &[(&str, &str)]) -> Vec<u8> {
    let mut writer = zip::ZipWriter::new(Cursor::new(Vec::new()));
    let options = zip::write::SimpleFileOptions::default();
    for (name, body) in entries {
        writer.start_file(*name, options).unwrap();
        writer.write_all(body.as_bytes()).unwrap();
    }
    writer.finish().unwrap().into_inner()
}

fn classify(entries: &[(&str, &str)]) -> bool {
    let bytes = zip_with_entries(entries);
    classify_archive(&bytes, &Vec::new())
}

#[test]
fn lwo_in_sensitive_container_is_unsafe() {
    assert!(!classify(&[("gameresources/generated/decls/weapon.lwo", "data")]));
}

#[test]
fn streamdb_container_is_exempt() {
    assert!(classify(&[("streamdb/foo/generated/decls/x.decl", "data")]));
}

#[test]
fn allowlisted_hud_png_is_safe() {
    assert!(classify(&[("pvp/generated/decls/hud/icon.png", "data")]));
}

#[test]
fn non_allowlisted_bin_is_unsafe() {
    assert!(!classify(&[("pvp/generated/decls/hud2/icon.bin", "data")]));
}

#[test]
fn insensitive_container_decl_is_safe() {
    assert!(classify(&[("strings/generated/decls/anything.bin", "data")]));
}

#[test]
fn sensitive_outside_decls_is_safe() {
    assert!(classify(&[("gameresources/textures/icon.bin", "data")]));
}

#[test]
fn top_level_file_is_exempt() {
    assert!(classify(&[("readme.txt", "hello")]));
}

#[test]
fn directory_entries_are_exempt() {
    let mut writer = zip::ZipWriter::new(Cursor::new(Vec::new()));
    let options = zip::write::SimpleFileOptions::default();
    writer.add_directory("gameresources/", options).unwrap();
    let bytes = writer.finish().unwrap().into_inner();
    assert!(classify_archive(&bytes, &Vec::new()));
}

#[test]
fn hidden_system_files_are_exempt() {
    assert!(classify(&[
        ("gameresources/desktop.ini", "x"),
        ("pvp/sub/.DS_Store", "x"),
    ]));
}

#[test]
fn case_folding_applies_before_comparison() {
    assert!(!classify(&[("GameResources/Generated/Decls/Weapon.LWO", "data")]));
}

#[test]
fn sound_bank_container_is_exempt() {
    let bytes = zip_with_entries(&[("gameresources/generated/decls/odd.bin", "data")]);
    let snd = vec![String::from("gameresources")];
    assert!(classify_archive(&bytes, &snd));
    assert!(!classify_archive(&bytes, &Vec::new()));
}

#[test]
fn resources_array_targeting_sensitive_container_is_unsafe() {
    assert!(!classify(&[(
        "EternalMod/assetsinfo/gameresources.json",
        "{\"resources\": [{\"name\": \"new.resource\"}]}",
    )]));
}

#[test]
fn empty_resources_array_is_safe() {
    assert!(classify(&[(
        "EternalMod/assetsinfo/gameresources.json",
        "{\"resources\": []}",
    )]));
}

#[test]
fn resources_array_for_insensitive_container_is_safe() {
    assert!(classify(&[(
        "EternalMod/assetsinfo/strings.json",
        "{\"resources\": [{\"name\": \"new.resource\"}]}",
    )]));
}

#[test]
fn unparsable_assets_info_is_ignored() {
    assert!(classify(&[(
        "EternalMod/assetsinfo/gameresources.json",
        "this is not json {",
    )]));
}

#[test]
fn unrelated_json_resources_do_not_matter() {
    assert!(classify(&[(
        "somecontainer/assetsinfo/gameresources.json",
        "{\"resources\": [1]}",
    )]));
}
