//! The daily-rotating log file path.
use vstd::prelude::*;
use vstd::string::StringExecFns;

use crate::render::spec_date_token;
use crate::render::format_date;
use crate::time::Date;

verus! {

/// The log directory under the base directory.
pub open spec fn spec_log_dir(base: Seq<char>) -> Seq<char> {
    base + "/RustDesk/log/access_log"@
}

/// The file name for one calendar day: `rustdesk_YYYY-MM-DD.log`.
pub open spec fn spec_log_file_name(d: Date) -> Seq<char> {
    "rustdesk_"@ + spec_date_token(d) + ".log"@
}

/// The full path of the day's log file.
pub open spec fn spec_log_path(base: Seq<char>, d: Date) -> Seq<char> {
    spec_log_dir(base) + "/"@ + spec_log_file_name(d)
}

/// The directory that holds the access log files, to be created before
/// the day's file is opened.
pub fn access_log_dir(base: &str) -> (r: String)
    ensures
        r@ == spec_log_dir(base@),
{
    let mut s = String::from_str(base);
    s.append("/RustDesk/log/access_log");
    s
}

/// The file name of one day's log file.
pub fn access_log_file_name(d: Date) -> (r: String)
    requires
        d.valid(),
    ensures
        r@ == spec_log_file_name(d),
{
    let mut s = String::from_str("rustdesk_");
    let date = format_date(d);
    s.append(date.as_str());
    s.append(".log");
    proof {
        assert(s@ =~= spec_log_file_name(d));
    }
    s
}

/// Resolves the full path of the log file for the given base directory
/// and calendar date.
pub fn access_log_path(base: &str, d: Date) -> (r: String)
    requires
        d.valid(),
    ensures
        r@ == spec_log_path(base@, d),
{
    let mut s = access_log_dir(base);
    s.append("/");
    let name = access_log_file_name(d);
    s.append(name.as_str());
    proof {
        assert(s@ =~= spec_log_path(base@, d));
    }
    s
}

/// Resolving the path is deterministic: two resolutions against the
/// same base directory on the same calendar day give the same path, so
/// every line of one day lands in one file.
pub proof fn lemma_same_day_same_path(base: Seq<char>, d1: Date, d2: Date)
    requires
        d1 == d2,
    ensures
        spec_log_path(base, d1) == spec_log_path(base, d2),
{
}

/// Daily rotation: two calendar dates that differ resolve to two
/// different file paths under the same base directory.
pub proof fn lemma_distinct_dates_distinct_paths(base: Seq<char>, d1: Date, d2: Date)
    requires
        d1.valid(),
        d2.valid(),
        d1 != d2,
    ensures
        spec_log_path(base, d1) != spec_log_path(base, d2),
{
    reveal_strlit("/");
    reveal_strlit("-");
    reveal_strlit("rustdesk_");
    reveal_strlit(".log");
    let p1 = spec_log_path(base, d1);
    let p2 = spec_log_path(base, d2);
    if p1 == p2 {
        let start = spec_log_dir(base).len() as int + 10;
        assert(spec_date_token(d1).len() == 10);
        assert(spec_date_token(d2).len() == 10);
        assert(spec_log_file_name(d1).len() == 23);
        assert(p1.len() == spec_log_dir(base).len() + 24);
        assert forall|i: int| 0 <= i < 10 implies p1[start + i] == spec_date_token(d1)[i] by {
            assert(spec_log_file_name(d1)[9 + i] == spec_date_token(d1)[i]);
        }
        assert forall|i: int| 0 <= i < 10 implies p2[start + i] == spec_date_token(d2)[i] by {
            assert(spec_log_file_name(d2)[9 + i] == spec_date_token(d2)[i]);
        }
        assert(spec_date_token(d1) =~= spec_date_token(d2));
        crate::render::lemma_date_token_injective(d1, d2);
    }
}

} // verus!
