//! The application shell: window handling, logging, and the report of an
//! error that ends the application.
pub mod fullscreen_toggle;
pub mod logging;

use crate::app::logging::{decimal, to_decimal};
use vstd::prelude::*;

verus! {

/// The lines that list the causes of an error, from the outermost cause
/// inward, each numbered from 0 and followed by a blank line.
pub open spec fn cause_lines(causes: Seq<Seq<char>>) -> Seq<char>
    decreases causes.len(),
{
    if causes.len() == 0 {
        Seq::empty()
    } else {
        cause_lines(causes.drop_last()) + "  "@ + decimal((causes.len() - 1) as nat) + "| "@
            + causes.last() + "\n\n"@
    }
}

/// The report that is logged when the application exits with an error: a
/// heading, the error, its causes and the backtrace.
pub open spec fn exit_report(error: Seq<char>, causes: Seq<Seq<char>>, backtrace: Seq<char>) -> Seq<
    char,
> {
    "Application exited with an error!\n\n"@ + error + "\n\nCaused by:\n"@ + cause_lines(causes)
        + "\n\nBacktrace:\n"@ + backtrace
}

/// Builds the report of an error that ended the application, given the
/// error's message, the messages of the errors that caused it (outermost
/// first, the error itself not included) and its backtrace.
pub fn error_report(error: &str, causes: &Vec<String>, backtrace: &str) -> (r: String)
    ensures
        r@ == exit_report(error@, causes@.map_values(|c: String| c@), backtrace@),
{
    let ghost views = causes@.map_values(|c: String| c@);
    let mut listed = String::new();
    let mut i: usize = 0;
    while i < causes.len()
        invariant
            i <= causes@.len(),
            views == causes@.map_values(|c: String| c@),
            listed@ == cause_lines(views.subrange(0, i as int)),
        decreases causes@.len() - i,
    {
        listed.append("  ");
        let index = to_decimal(i as u64);
        listed.append(index.as_str());
        listed.append("| ");
        listed.append(causes[i].as_str());
        listed.append("\n\n");
        proof {
            let next = views.subrange(0, i + 1);
            assert(next.drop_last() =~= views.subrange(0, i as int));
            assert(next.last() == causes@[i as int]@);
        }
        i = i + 1;
    }
    assert(views.subrange(0, causes@.len() as int) =~= views);
    let mut report = String::from_str("Application exited with an error!\n\n");
    report.append(error);
    report.append("\n\nCaused by:\n");
    report.append(listed.as_str());
    report.append("\n\nBacktrace:\n");
    report.append(backtrace);
    report
}

} // verus!
