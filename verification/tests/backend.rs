use bill_backend::data::{FileData, WriteRequest};
use bill_backend::dialog::{
    open_filter_extensions, open_filter_label, save_default_file_name, save_filter_extensions,
    save_filter_label,
};
use bill_backend::error::FileError;
use bill_backend::open_op::resolve_open_choice;
use bill_backend::read_op::{read_file_check, read_file_finish};
use bill_backend::save_op::{save_file_finish, save_file_resolve, save_file_start, SaveStep};

#[test]
fn open_choice_is_handed_through() {
    let r = resolve_open_choice(Some("/tmp/report.xlsx".to_string()));
    assert_eq!(r, Ok(Some("/tmp/report.xlsx".to_string())));
}

#[test]
fn open_cancel_is_no_selection() {
    let e = resolve_open_choice(None).unwrap_err();
    assert_eq!(e, FileError::NoSelection);
    assert_eq!(e.message(), "No file selected");
}

#[test]
fn missing_file_is_rejected_without_read() {
    let e = read_file_check("/no/such/file.xlsx".to_string(), false).unwrap_err();
    assert_eq!(e, FileError::NotFound);
    assert_eq!(e.message(), "File does not exist");
}

#[test]
fn existing_file_directs_the_read() {
    let r = read_file_check("/tmp/ledger.xls".to_string(), true);
    assert_eq!(r, Ok("/tmp/ledger.xls".to_string()));
}

#[test]
fn read_bundles_path_and_bytes() {
    let r = read_file_finish("/tmp/ledger.xls".to_string(), Ok(vec![1u8, 2, 3]));
    let expected = FileData { path: "/tmp/ledger.xls".to_string(), contents: vec![1u8, 2, 3] };
    assert_eq!(r, Ok(expected));
}

#[test]
fn read_failure_embeds_os_detail() {
    let e = read_file_finish("/tmp/ledger.xls".to_string(), Err("permission denied".to_string()))
        .unwrap_err();
    assert!(matches!(e, FileError::IoFailure { .. }));
    assert_eq!(e.message(), "Failed to read file: permission denied");
}

#[test]
fn default_path_bypasses_dialog() {
    let step = save_file_start(vec![9u8, 8], Some("/tmp/bill.pdf".to_string()));
    let expected = WriteRequest { path: "/tmp/bill.pdf".to_string(), contents: vec![9u8, 8] };
    assert_eq!(step, SaveStep::Write(expected));
}

#[test]
fn absent_path_prompts_dialog_with_bytes_intact() {
    let step = save_file_start(vec![9u8, 8], None);
    assert_eq!(step, SaveStep::Prompt(vec![9u8, 8]));
}

#[test]
fn dialog_choice_resolves_exact_write() {
    let r = save_file_resolve(vec![5u8, 5, 5, 5], Some("/home/u/bill.pdf".to_string()));
    let expected = WriteRequest { path: "/home/u/bill.pdf".to_string(), contents: vec![5u8, 5, 5, 5] };
    assert_eq!(r, Ok(expected));
}

#[test]
fn save_cancel_is_no_selection_and_no_write() {
    let e = save_file_resolve(vec![5u8], None).unwrap_err();
    assert_eq!(e, FileError::NoSelection);
    assert_eq!(e.message(), "No file selected");
}

#[test]
fn finished_save_returns_resolved_path() {
    let r = save_file_finish("/tmp/bill.pdf".to_string(), Ok(()));
    assert_eq!(r, Ok("/tmp/bill.pdf".to_string()));
}

#[test]
fn save_failure_embeds_os_detail() {
    let e = save_file_finish("/tmp/bill.pdf".to_string(), Err("disk full".to_string()))
        .unwrap_err();
    assert!(matches!(e, FileError::IoFailure { .. }));
    assert_eq!(e.message(), "Failed to save file: disk full");
}

#[test]
fn save_then_read_round_trip() {
    let bytes = vec![0u8, 255, 7, 7];
    let step = save_file_start(bytes.clone(), Some("/tmp/out.pdf".to_string()));
    let req = match step {
        SaveStep::Write(req) => req,
        SaveStep::Prompt(_) => panic!("dialog prompted despite a given path"),
    };
    // The host writes req.contents to req.path and later reads the same bytes back.
    let stored = req.contents.clone();
    assert_eq!(save_file_finish(req.path.clone(), Ok(())), Ok("/tmp/out.pdf".to_string()));
    let data = read_file_finish(req.path, Ok(stored)).unwrap();
    assert_eq!(data.path, "/tmp/out.pdf");
    assert_eq!(data.contents, bytes);
}

#[test]
fn empty_contents_round_trip() {
    let step = save_file_start(Vec::new(), Some("/tmp/empty.pdf".to_string()));
    let req = match step {
        SaveStep::Write(req) => req,
        SaveStep::Prompt(_) => panic!("dialog prompted despite a given path"),
    };
    assert_eq!(req.contents, Vec::<u8>::new());
    let data = read_file_finish(req.path, Ok(req.contents.clone())).unwrap();
    assert_eq!(data.contents, Vec::<u8>::new());
}

#[test]
fn save_via_dialog_writes_exact_bytes() {
    let step = save_file_start(vec![42u8], None);
    assert_eq!(step, SaveStep::Prompt(vec![42u8]));
    let req = save_file_resolve(vec![42u8], Some("/d/bill.pdf".to_string())).unwrap();
    assert_eq!(req.path, "/d/bill.pdf");
    assert_eq!(req.contents, vec![42u8]);
    assert_eq!(save_file_finish(req.path, Ok(())), Ok("/d/bill.pdf".to_string()));
}

#[test]
fn open_dialog_constants() {
    assert_eq!(open_filter_label(), "Excel files");
    assert_eq!(open_filter_extensions(), vec!["xlsx".to_string(), "xls".to_string()]);
}

#[test]
fn save_dialog_constants() {
    assert_eq!(save_filter_label(), "PDF files");
    assert_eq!(save_filter_extensions(), vec!["pdf".to_string()]);
    assert_eq!(save_default_file_name(), "bill.pdf");
}
