//! Application errors and the report that the error page shows.

use vstd::prelude::*;

verus! {

/// An error that a page can fail with.
#[derive(Debug, Clone, PartialEq, Eq)]
pub enum AppError {
    /// Nothing was found; the text says what.
    NotFound(String),
    InternalServerError,
}

/// The HTTP status of `e`.
pub open spec fn app_error_status(e: AppError) -> u16 {
    match e {
        AppError::NotFound(_) => 404,
        AppError::InternalServerError => 500,
    }
}

/// The text of `e`.
pub open spec fn app_error_text(e: AppError) -> Seq<char> {
    match e {
        AppError::NotFound(msg) => "Not Found: "@ + msg@,
        AppError::InternalServerError => "Internal Server Error"@,
    }
}

impl AppError {
    /// The HTTP status of this error: 404 for `NotFound`, 500 otherwise.
    pub fn status_code(&self) -> (code: u16)
        ensures
            code == app_error_status(*self),
    {
        match self {
            AppError::NotFound(_) => 404,
            AppError::InternalServerError => 500,
        }
    }

    /// The text of this error, as the error page shows it.
    pub fn to_string(&self) -> (s: String)
        ensures
            s@ == app_error_text(*self),
    {
        match self {
            AppError::NotFound(msg) => {
                let mut s = String::from_str("Not Found: ");
                s.append(msg.as_str());
                s
            },
            AppError::InternalServerError => String::from_str("Internal Server Error"),
        }
    }
}

/// One error as the error page lists it.
#[derive(Debug, Clone, PartialEq, Eq)]
pub struct ErrorEntry {
    pub code: u16,
    pub text: String,
}

/// What the error page shows for a list of errors.
#[derive(Debug, Clone, PartialEq, Eq)]
pub struct ErrorReport {
    /// "Errors" for more than one error, "Error" otherwise.
    pub heading: String,
    /// The HTTP status to answer with: that of the first error, if any.
    pub status: Option<u16>,
    /// Each error's status and text, in order.
    pub entries: Vec<ErrorEntry>,
}

/// The heading of the error page for `n` errors.
pub open spec fn report_heading(n: nat) -> Seq<char> {
    if n > 1 {
        "Errors"@
    } else {
        "Error"@
    }
}

/// The heading is singular for no error and for one, plural for two and for
/// every longer list: once plural, it stays plural as errors are added.
pub proof fn lemma_heading_plural_from_two(n: nat, m: nat)
    ensures
        n <= 1 ==> report_heading(n) == "Error"@,
        2 <= n ==> report_heading(n) == "Errors"@,
        "Error"@ != "Errors"@,
        n <= m && report_heading(n) == "Errors"@ ==> report_heading(m) == "Errors"@,
{
    reveal_strlit("Error");
    reveal_strlit("Errors");
    assert("Error"@.len() != "Errors"@.len());
}

/// `entry` lists the error `e`.
pub open spec fn entry_of(entry: ErrorEntry, e: AppError) -> bool {
    entry.code == app_error_status(e) && entry.text@ == app_error_text(e)
}

/// The report for `errors`, the application errors among those a page failed with.
pub fn error_report(errors: &Vec<AppError>) -> (r: ErrorReport)
    ensures
        r.heading@ == report_heading(errors@.len()),
        r.status == (if errors@.len() > 0 {
            Some(app_error_status(errors@[0]))
        } else {
            None::<u16>
        }),
        r.entries@.len() == errors@.len(),
        forall|i: int| 0 <= i < errors@.len() ==> entry_of(#[trigger] r.entries@[i], errors@[i]),
{
    let heading = if errors.len() > 1 {
        String::from_str("Errors")
    } else {
        String::from_str("Error")
    };
    let status = if errors.len() > 0 {
        Some(errors[0].status_code())
    } else {
        None
    };
    let mut entries: Vec<ErrorEntry> = Vec::new();
    let mut i: usize = 0;
    while i < errors.len()
        invariant
            i <= errors@.len(),
            entries@.len() == i,
            forall|j: int| 0 <= j < i ==> entry_of(#[trigger] entries@[j], errors@[j]),
        decreases errors@.len() - i,
    {
        let e = &errors[i];
        entries.push(ErrorEntry { code: e.status_code(), text: e.to_string() });
        i = i + 1;
    }
    ErrorReport { heading, status, entries }
}

} // verus!
