//! Deterministic path construction. Every intermediate file of a task
//! lives under `/tmp/<dataset>/<backup_type>_<YYYY-MM-DD>`, and per-stage
//! file names are derived by composing transformer-provided suffixes onto
//! the exported base name. Resumed invocations regenerate the exact same
//! paths because everything here is a pure function of active-task fields.

use vstd::prelude::*;
use vstd::string::StringExecFns;

use crate::model::BackupType;
use crate::model::Date;
use crate::model::backup_type_label;

verus! {

/// The decimal digit character for `d` (meaningful for `0 <= d <= 9`).
pub open spec fn digit_seq(d: int) -> Seq<char> {
    if d == 0 {
        "0"@
    } else if d == 1 {
        "1"@
    } else if d == 2 {
        "2"@
    } else if d == 3 {
        "3"@
    } else if d == 4 {
        "4"@
    } else if d == 5 {
        "5"@
    } else if d == 6 {
        "6"@
    } else if d == 7 {
        "7"@
    } else if d == 8 {
        "8"@
    } else {
        "9"@
    }
}

/// `n` as exactly two decimal digits, zero padded (meaningful for `n <= 99`).
pub open spec fn dec2(n: int) -> Seq<char> {
    digit_seq((n / 10) % 10) + digit_seq(n % 10)
}

/// `n` as exactly four decimal digits, zero padded (meaningful for `n <= 9999`).
pub open spec fn dec4(n: int) -> Seq<char> {
    digit_seq((n / 1000) % 10) + digit_seq((n / 100) % 10) + digit_seq((n / 10) % 10) + digit_seq(
        n % 10,
    )
}

/// A date in `YYYY-MM-DD` layout.
pub open spec fn date_str(d: Date) -> Seq<char> {
    dec4(d.year as int) + "-"@ + dec2(d.month as int) + "-"@ + dec2(d.day as int)
}

/// The temp directory of a task: `/tmp/<dataset>/<backup_type>_<YYYY-MM-DD>`.
pub open spec fn temp_dir_str(dataset: Seq<char>, t: BackupType, d: Date) -> Seq<char> {
    "/tmp/"@ + dataset + "/"@ + backup_type_label(t) + "_"@ + date_str(d)
}

/// A path with one transformer suffix composed onto it: `<path>.<ext>`.
pub open spec fn with_extension_str(path: Seq<char>, ext: Seq<char>) -> Seq<char> {
    path + "."@ + ext
}

/// The decimal digit character for `d` as a string slice.
fn digit_str(d: u64) -> (r: &'static str)
    requires
        d <= 9,
    ensures
        r@ == digit_seq(d as int),
{
    match d {
        0 => "0",
        1 => "1",
        2 => "2",
        3 => "3",
        4 => "4",
        5 => "5",
        6 => "6",
        7 => "7",
        8 => "8",
        _ => "9",
    }
}

/// Formats a date as `YYYY-MM-DD`, zero padded.
pub fn format_date(d: &Date) -> (r: String)
    requires
        d.year <= 9999,
        d.month <= 99,
        d.day <= 99,
    ensures
        r@ == date_str(*d),
{
    let mut s = String::new();
    s.append(digit_str((d.year / 1000) % 10));
    s.append(digit_str((d.year / 100) % 10));
    s.append(digit_str((d.year / 10) % 10));
    s.append(digit_str(d.year % 10));
    s.append("-");
    s.append(digit_str((d.month / 10) % 10));
    s.append(digit_str(d.month % 10));
    s.append("-");
    s.append(digit_str((d.day / 10) % 10));
    s.append(digit_str(d.day % 10));
    proof {
        assert(s@ =~= date_str(*d));
    }
    s
}

/// Builds the temp directory path of a task from its target's fields.
pub fn temp_dir_path(dataset: &str, t: BackupType, d: &Date) -> (r: String)
    requires
        d.year <= 9999,
        d.month <= 99,
        d.day <= 99,
    ensures
        r@ == temp_dir_str(dataset@, t, *d),
{
    let mut s = String::new();
    s.append("/tmp/");
    s.append(dataset);
    s.append("/");
    s.append(t.label());
    s.append("_");
    let date_part = format_date(d);
    s.append(date_part.as_str());
    proof {
        assert(s@ =~= temp_dir_str(dataset@, t, *d));
    }
    s
}

/// Composes one transformer suffix onto a path: `<path>.<ext>`.
pub fn append_extension(path: &str, ext: &str) -> (r: String)
    ensures
        r@ == with_extension_str(path@, ext@),
{
    let mut s = String::new();
    s.append(path);
    s.append(".");
    s.append(ext);
    proof {
        assert(s@ =~= with_extension_str(path@, ext@));
    }
    s
}

} // verus!
