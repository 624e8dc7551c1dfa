use shimiko::errors::ExtractFailure;
use shimiko::extract::{
    sevenzip_entry_action, sevenzip_extraction_plan, zip_entry_action, zip_extraction_plan,
    StreamEntryInfo, ZipEntryInfo,
};

fn file_entry() -> ZipEntryInfo {
    ZipEntryInfo { readable: true, named: true, is_dir: false }
}

#[test]
fn zip_entry_decisions() {
    assert!(zip_entry_action(&file_entry()));
    assert!(!zip_entry_action(&ZipEntryInfo { readable: true, named: true, is_dir: true }));
    assert!(!zip_entry_action(&ZipEntryInfo { readable: true, named: false, is_dir: false }));
    assert!(!zip_entry_action(&ZipEntryInfo { readable: false, named: true, is_dir: false }));
}

#[test]
fn zip_plan_skips_directories_without_failing() {
    // a directory entry inside the archive is skipped, but the archive as a
    // whole is still successfully processed
    let entries = vec![
        file_entry(),
        ZipEntryInfo { readable: true, named: true, is_dir: true },
        file_entry(),
    ];
    let plan = zip_extraction_plan(&entries);
    assert_eq!(plan, vec![true, false, true]);
}

#[test]
fn zip_plan_tolerates_bad_entries() {
    let entries = vec![
        ZipEntryInfo { readable: false, named: false, is_dir: false },
        ZipEntryInfo { readable: true, named: false, is_dir: false },
        file_entry(),
    ];
    // per-entry failure skips that entry; there is no error outcome at all
    let plan = zip_extraction_plan(&entries);
    assert_eq!(plan, vec![false, false, true]);
}

#[test]
fn sevenzip_plan_writes_files_and_skips_directories() {
    let entries = vec![
        StreamEntryInfo { structural_ok: true, is_dir: true },
        StreamEntryInfo { structural_ok: true, is_dir: false },
        StreamEntryInfo { structural_ok: true, is_dir: false },
    ];
    let plan = sevenzip_extraction_plan(&entries).expect("a sound stream extracts");
    assert_eq!(plan, vec![false, true, true]);
}

#[test]
fn sevenzip_single_corruption_aborts_whole_archive() {
    let entries = vec![
        StreamEntryInfo { structural_ok: true, is_dir: false },
        StreamEntryInfo { structural_ok: false, is_dir: false },
        StreamEntryInfo { structural_ok: true, is_dir: false },
    ];
    assert_eq!(
        sevenzip_extraction_plan(&entries),
        Err(ExtractFailure::Corrupted(1))
    );
}

#[test]
fn sevenzip_empty_archive_is_sound() {
    let entries: Vec<StreamEntryInfo> = Vec::new();
    assert_eq!(sevenzip_extraction_plan(&entries), Ok(Vec::new()));
}

#[test]
fn sevenzip_entry_decisions() {
    assert!(sevenzip_entry_action(false));
    assert!(!sevenzip_entry_action(true));
}
