//! The run configuration: which sources to read and how to number their lines.

use vstd::prelude::*;

verus! {

/// An ordered list of source names (`"-"` names standard input) together with
/// the two numbering flags. At most one flag is meant to be set; the checked
/// constructor [`build_config`] enforces that, while direct construction does
/// not, mirroring the fact that the exclusivity is a parsing-time constraint.
#[derive(Debug, Clone)]
pub struct Config {
    pub files: Vec<String>,
    pub number_lines: bool,
    pub number_nonblank_lines: bool,
}

/// The diagnostic issued when both numbering flags are requested at once.
pub open spec fn usage_error_message() -> Seq<char> {
    "usage error: --number cannot be used with --number-nonblank"@
}

/// Checked construction of a [`Config`] from parsed command-line values:
/// both numbering flags at once is a usage error, and an empty source list
/// defaults to standard input alone.
pub fn build_config(files: Vec<String>, number_lines: bool, number_nonblank_lines: bool) -> (r: Result<
    Config,
    String,
>)
    ensures
        (number_lines && number_nonblank_lines) <==> r is Err,
        r is Err ==> r->Err_0@ == usage_error_message(),
        r is Ok ==> r->Ok_0.number_lines == number_lines,
        r is Ok ==> r->Ok_0.number_nonblank_lines == number_nonblank_lines,
        r is Ok && files@.len() > 0 ==> r->Ok_0.files@ == files@,
        r is Ok && files@.len() == 0 ==> r->Ok_0.files@.len() == 1 && r->Ok_0.files@[0]@
            == "-"@,
{
    if number_lines && number_nonblank_lines {
        Err(String::from_str("usage error: --number cannot be used with --number-nonblank"))
    } else if files.len() == 0 {
        let mut defaulted: Vec<String> = Vec::new();
        defaulted.push(String::from_str("-"));
        Ok(Config { files: defaulted, number_lines, number_nonblank_lines })
    } else {
        Ok(Config { files, number_lines, number_nonblank_lines })
    }
}

} // verus!
