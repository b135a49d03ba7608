//! The fixed constants of the two native dialogs: filter labels, the
//! extensions each dialog is restricted to, and the save dialog's default
//! file name.

use vstd::prelude::*;
use vstd::string::StringExecFns;

verus! {

/// The label of the open dialog's extension filter.
pub fn open_filter_label() -> (r: String)
    ensures
        r@ == "Excel files"@,
{
    String::from_str("Excel files")
}

/// The spreadsheet extensions the open dialog is restricted to.
pub fn open_filter_extensions() -> (r: Vec<String>)
    ensures
        r@.len() == 2,
        r@[0]@ == "xlsx"@,
        r@[1]@ == "xls"@,
{
    let mut v: Vec<String> = Vec::new();
    v.push(String::from_str("xlsx"));
    v.push(String::from_str("xls"));
    v
}

/// The label of the save dialog's extension filter.
pub fn save_filter_label() -> (r: String)
    ensures
        r@ == "PDF files"@,
{
    String::from_str("PDF files")
}

/// The document extension the save dialog is restricted to.
pub fn save_filter_extensions() -> (r: Vec<String>)
    ensures
        r@.len() == 1,
        r@[0]@ == "pdf"@,
{
    let mut v: Vec<String> = Vec::new();
    v.push(String::from_str("pdf"));
    v
}

/// The file name the save dialog starts from.
pub fn save_default_file_name() -> (r: String)
    ensures
        r@ == "bill.pdf"@,
{
    String::from_str("bill.pdf")
}

} // verus!
