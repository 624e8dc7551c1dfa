use shimiko::task::{Extractor, PackerTask};

fn staged_task(pack_num: u16) -> PackerTask {
    let archive = tempfile::NamedTempFile::new()
        .expect("a temporary file can be created")
        .into_temp_path();
    let pb = indicatif::ProgressBar::new(2);
    PackerTask::new(pack_num, archive, pb)
}

#[test]
fn descriptor_fixes_decoder_at_creation() {
    let zip_task = staged_task(1318);
    assert_eq!(*zip_task.pack_num(), 1318);
    assert_eq!(*zip_task.extractor(), Extractor::Zip);

    let sevenzip_task = staged_task(1);
    assert_eq!(*sevenzip_task.pack_num(), 1);
    assert_eq!(*sevenzip_task.extractor(), Extractor::SevenZip);
}

#[test]
fn descriptor_owns_a_staged_archive() {
    let task = staged_task(42);
    // the staged file exists for as long as the descriptor owns it
    assert!(task.archive_path().exists());
}
