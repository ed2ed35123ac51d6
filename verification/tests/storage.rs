use clipbox::storage::clipbox::{app_data_dir, box_name, dropped_file_name, ClipBox, CopyStep, DirEntryInfo};
use clipbox::storage::files;
use clipbox::storage::paths;
use clipbox::storage::state::SharedState;

fn path(parts: &[&str]) -> Vec<String> {
    parts.iter().map(|s| s.to_string()).collect()
}

fn utf16_padded(s: &str, extra_nuls: usize) -> Vec<u16> {
    let mut v: Vec<u16> = s.encode_utf16().collect();
    v.extend(std::iter::repeat(0).take(extra_nuls));
    v
}

#[test]
fn box_name_is_box_and_decimal_seconds() {
    assert_eq!(box_name(0), "box_0");
    assert_eq!(box_name(9), "box_9");
    assert_eq!(box_name(10), "box_10");
    assert_eq!(box_name(1725029869), "box_1725029869");
    assert_eq!(box_name(u64::MAX), "box_18446744073709551615");
}

#[test]
fn box_names_of_distinct_times_differ() {
    assert_ne!(box_name(12), box_name(120));
    assert_ne!(box_name(1), box_name(10));
    assert_eq!(box_name(77), box_name(77));
}

#[test]
fn clip_box_new_joins_box_name() {
    let base = path(&["C:", "\\", "Users", "me", "AppData", "Local", "ClipBox"]);
    let b = ClipBox::new(&base, 42);
    assert_eq!(b.path, path(&["C:", "\\", "Users", "me", "AppData", "Local", "ClipBox", "box_42"]));
    assert_eq!(b.curr_path, b.path);
}

#[test]
fn paths_clip_box_new_joins_box_name() {
    let base = path(&["data"]);
    let b = paths::ClipBox::new(&base, 1700000000);
    assert_eq!(b.path, path(&["data", "box_1700000000"]));
}

#[test]
fn app_data_dir_appends_app_name() {
    let d = app_data_dir(&path(&["C:", "\\", "Local"]));
    assert_eq!(d, path(&["C:", "\\", "Local", "ClipBox"]));
}

#[test]
fn dropped_file_name_trims_trailing_nuls() {
    let buf = utf16_padded("C:\\docs\\a.txt", 3);
    assert_eq!(dropped_file_name(&buf), "C:\\docs\\a.txt");
}

#[test]
fn dropped_file_name_replaces_unpaired_surrogate() {
    let buf = vec![0x61, 0xD800, 0x62, 0, 0];
    assert_eq!(dropped_file_name(&buf), "a\u{FFFD}b");
}

#[test]
fn strict_dropped_file_name_valid() {
    let buf = utf16_padded("D:\\Grüße\\\u{1F600}.png", 2);
    assert_eq!(files::dropped_file_name(&buf), Some("D:\\Grüße\\\u{1F600}.png".to_string()));
}

#[test]
fn strict_dropped_file_name_invalid_is_skipped() {
    let buf = vec![0x61, 0xDC00, 0, 0];
    assert_eq!(files::dropped_file_name(&buf), None);
}

#[test]
fn copy_plan_for_a_file_copies_into_destination() {
    let b = ClipBox::new(&path(&["base"]), 1);
    let steps = b.copy_plan(&b.path, &path(&["src", "a.txt"]), true, true, &vec![]);
    assert_eq!(steps.len(), 1);
    match &steps[0] {
        CopyStep::CopyFile { from, to } => {
            assert_eq!(from, &path(&["src", "a.txt"]));
            assert_eq!(to, &path(&["base", "box_1", "a.txt"]));
        },
        _ => panic!("expected a file copy"),
    }
}

#[test]
fn copy_plan_for_a_folder_handles_each_entry() {
    let b = ClipBox::new(&path(&["base"]), 2);
    let entries = vec![
        DirEntryInfo { name: "sub".to_string(), is_dir: true },
        DirEntryInfo { name: "f.txt".to_string(), is_dir: false },
    ];
    let to = path(&["base", "box_2", "docs"]);
    let steps = b.copy_plan(&to, &path(&["src", "docs"]), false, false, &entries);
    assert_eq!(steps.len(), 3);
    match &steps[0] {
        CopyStep::CreateDirAll { dir } => assert_eq!(dir, &to),
        _ => panic!("expected a directory creation"),
    }
    match &steps[1] {
        CopyStep::CopyFolder { to: t, from } => {
            assert_eq!(t, &path(&["base", "box_2", "docs", "sub"]));
            assert_eq!(from, &path(&["src", "docs", "sub"]));
        },
        _ => panic!("expected a folder copy"),
    }
    match &steps[2] {
        CopyStep::CopyFile { from, to: t } => {
            assert_eq!(from, &path(&["src", "docs", "f.txt"]));
            assert_eq!(t, &path(&["base", "box_2", "docs", "f.txt"]));
        },
        _ => panic!("expected a file copy"),
    }
}

#[test]
fn copy_plan_skips_creation_of_existing_directory() {
    let b = ClipBox::new(&path(&["base"]), 3);
    let steps = b.copy_plan(&b.path, &path(&["empty"]), false, true, &vec![]);
    assert!(steps.is_empty());
}

#[test]
fn shared_state_holds_the_box() {
    let b = ClipBox::new(&path(&["base"]), 5);
    let expected = b.path.clone();
    let state = SharedState::new(b);
    let guard = state.clip_box.lock().unwrap();
    assert_eq!(guard.path, expected);
}

#[test]
fn strict_and_lossy_names_agree_on_valid_buffers() {
    let buf = utf16_padded("E:\\photos\\\u{1F600}.jpg", 4);
    assert_eq!(files::dropped_file_name(&buf).unwrap(), dropped_file_name(&buf));
}

#[test]
fn copy_plan_targets_stay_inside_destination() {
    let b = ClipBox::new(&path(&["base"]), 4);
    let entries = vec![
        DirEntryInfo { name: "a".to_string(), is_dir: true },
        DirEntryInfo { name: "b".to_string(), is_dir: false },
        DirEntryInfo { name: "c".to_string(), is_dir: false },
    ];
    let to = path(&["base", "box_4", "x"]);
    let steps = b.copy_plan(&to, &path(&["x"]), false, true, &entries);
    assert_eq!(steps.len(), entries.len());
    for (step, entry) in steps.iter().zip(entries.iter()) {
        let target = match step {
            CopyStep::CopyFile { to, .. } => to,
            CopyStep::CreateDirAll { dir } => dir,
            CopyStep::CopyFolder { to, .. } => to,
        };
        assert!(target.starts_with(&to));
        assert_eq!(target.last().unwrap(), &entry.name);
    }
}
