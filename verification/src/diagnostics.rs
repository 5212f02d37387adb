//! Where NoMatch diagnose reports go, and what their files are called.
//!
//! Reports are on only when the snapshot directory or the report setting is
//! given; the caller reads both from the environment and writes the files.
use vstd::prelude::*;
use vstd::string::*;
use crate::text::{dec, push_dec, str_eq};

verus! {

/// The directory a report goes to.
#[derive(Debug, Clone, PartialEq, Eq)]
pub enum ReportDir {
    /// This directory.
    At(String),
    /// The current directory.
    CurrentDir,
}

/// A report directory as plain values: `Some(path)` for a given directory,
/// `None` for the current directory.
pub open spec fn report_dir_view(d: ReportDir) -> Option<Seq<char>> {
    match d {
        ReportDir::At(p) => Some(p@),
        ReportDir::CurrentDir => None,
    }
}

/// Whether a report setting is the on flag rather than a directory.
pub open spec fn is_on_flag(v: Seq<char>) -> bool {
    v == "1"@ || v == "true"@
}

/// The report directory: the snapshot directory when set (so that reports
/// sit beside the snapshots); else, when the report setting is the flag `1`
/// or `true`, the current directory, and when it holds anything else, that
/// directory; with neither set, no reports.
pub fn diag_report_dir(snapshot_dir: Option<String>, diag_report: Option<String>) -> (r: Option<ReportDir>)
    ensures
        match snapshot_dir {
            Some(d) => r matches Some(rd) && report_dir_view(rd) == Some(d@),
            None => match diag_report {
                None => r is None,
                Some(v) => r matches Some(rd) && report_dir_view(rd) == if is_on_flag(v@) {
                    None
                } else {
                    Some(v@)
                },
            },
        },
{
    if let Some(d) = snapshot_dir {
        return Some(ReportDir::At(d));
    }
    match diag_report {
        None => None,
        Some(v) => {
            let one = str_eq(v.as_str(), "1");
            let yes = str_eq(v.as_str(), "true");
            if one || yes {
                Some(ReportDir::CurrentDir)
            } else {
                Some(ReportDir::At(v))
            }
        },
    }
}

/// The label of the report for `task` at `counter`: `<task>_<counter>`.
pub open spec fn report_label_spec(task: Seq<char>, counter: u64) -> Seq<char> {
    task + "_"@ + dec(counter as nat)
}

/// The label a report carries.
pub fn diag_report_label(task: &str, counter: u64) -> (s: String)
    ensures
        s@ == report_label_spec(task@, counter),
{
    let mut s = String::from_str(task);
    s.append("_");
    push_dec(&mut s, counter);
    s
}

/// The name of a report file: `diag_<task>_<counter>.<extension>`
/// (`md` for the report, `png` for the frame).
pub fn diag_file_name(task: &str, counter: u64, extension: &str) -> (s: String)
    ensures
        s@ == "diag_"@ + report_label_spec(task@, counter) + "."@ + extension@,
{
    let mut s = String::from_str("diag_");
    s.append(task);
    s.append("_");
    push_dec(&mut s, counter);
    s.append(".");
    s.append(extension);
    s
}

} // verus!
