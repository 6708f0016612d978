//! The names of dump files. A dump is written to a file of its own in the
//! directory `dumps`, named by what is dumped and by the time of the dump.

use vstd::prelude::*;

verus! {

/// Where dumps are written.
pub const DUMP_DIRECTORY: &'static str = "./dumps";

/// How the time of a dump is written in the name of its file: the date, the
/// time of day and the milliseconds.
pub const STAMP_PATTERN: &'static str = "%Y-%m-%d_%H-%M-%S%.3f";

/// `String::push_str` of the standard library appends the given string to
/// the end of the first one.
pub assume_specification[ String::push_str ](s: &mut String, string: &str)
    ensures
        final(s)@ == old(s)@ + string@,
;

/// What `chrono` writes, following `pattern`, for the date and the time of
/// day that a clock shows when it has counted `millis` milliseconds from the
/// beginning of 1970.
pub uninterp spec fn stamp(millis: i64, pattern: Seq<char>) -> Seq<char>;

/// The last millisecond of the year 9999, counted from the beginning of
/// 1970.
pub const LAST_STAMP: i64 = 253_402_300_799_999;

/// Whether `millis` milliseconds from the beginning of 1970 lead to a moment
/// from 1970 to the end of the year 9999.
pub open spec fn in_reach(millis: i64) -> bool {
    0 <= millis <= LAST_STAMP
}

/// Calls `chrono`: `DateTime::from_timestamp_millis` for the date and the
/// time, and `DateTime::format` with `pattern` for their text. Hands back
/// nothing where `chrono` takes the milliseconds to be out of range, which
/// it does only for a date outside its calendar; that reaches to the year
/// 262142, so that every moment from 1970 to the end of the year 9999 gets
/// its text. The pattern must be the one of this library, which `chrono` can
/// follow.
#[verifier::external_body]
pub(crate) fn stamp_text(millis: i64, pattern: &str) -> (text: Option<String>)
    requires
        pattern@ == STAMP_PATTERN@,
    ensures
        text matches Some(written) ==> written@ == stamp(millis, pattern@),
        in_reach(millis) ==> text is Some,
{
    let moment = chrono::DateTime::from_timestamp_millis(millis)?;
    Some(moment.format(pattern).to_string())
}

/// The milliseconds that a clock has counted from the beginning of 1970 when
/// it is `offset` seconds ahead of universal time, `millis` milliseconds
/// after the beginning of 1970 in universal time. Nothing for a clock that is
/// a day or more ahead or behind, and nothing where the number cannot be
/// held.
pub open spec fn local_millis(millis: i64, offset: i32) -> Option<i64> {
    if -86_400 < offset < 86_400 && i64::MIN <= millis + offset * 1000 <= i64::MAX {
        Some((millis + offset * 1000) as i64)
    } else {
        None
    }
}

/// Works out `local_millis`.
pub fn local_time(millis: i64, offset: i32) -> (local: Option<i64>)
    ensures
        local == local_millis(millis, offset),
{
    if -86_400 < offset && offset < 86_400 {
        millis.checked_add(offset as i64 * 1000)
    } else {
        None
    }
}

/// The path of a dump: `./dumps/`, then `filename_root`, an underscore,
/// `stamp` and `.bin`.
pub open spec fn path_of(filename_root: Seq<char>, stamp: Seq<char>) -> Seq<char> {
    DUMP_DIRECTORY@ + "/"@ + filename_root + "_"@ + stamp + ".bin"@
}

/// The path of the dump of `filename_root` whose time is written as `stamp`.
pub fn dump_path(filename_root: &str, stamp: &str) -> (path: String)
    ensures
        path@ == path_of(filename_root@, stamp@),
{
    let mut path: String = String::new();
    path.push_str(DUMP_DIRECTORY);
    path.push_str("/");
    path.push_str(filename_root);
    path.push_str("_");
    path.push_str(stamp);
    path.push_str(".bin");
    assert(path@ =~= path_of(filename_root@, stamp@));
    path
}

/// The path of the dump of `filename_root` that is made `millis`
/// milliseconds after the beginning of 1970, where the clocks are `offset`
/// seconds ahead of universal time.
///
/// There is no path where the clocks have no time, and there is one where
/// they show a moment from 1970 to the end of the year 9999. A path that
/// there is holds the time as `stamp` writes it.
pub fn dump_file_name(filename_root: &str, millis: i64, offset: i32) -> (path: Option<String>)
    ensures
        match local_millis(millis, offset) {
            None => path is None,
            Some(local) => {
                &&& in_reach(local) ==> path is Some
                &&& path matches Some(path) ==> path@ == path_of(
                    filename_root@,
                    stamp(local, STAMP_PATTERN@),
                )
            },
        },
{
    match local_time(millis, offset) {
        Some(local) => match stamp_text(local, STAMP_PATTERN) {
            Some(written) => Some(dump_path(filename_root, written.as_str())),
            None => None,
        },
        None => None,
    }
}

} // verus!
