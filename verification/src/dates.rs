//! Dates as the notifications page prints them.
use vstd::prelude::*;

verus! {

/// The specifiers that date formats of this library use: day (`%d`),
/// month (`%m`), year (`%Y`), hour (`%H`) and minute (`%M`).
pub open spec fn is_date_specifier(c: char) -> bool {
    c == 'd' || c == 'm' || c == 'Y' || c == 'H' || c == 'M'
}

/// A format in which every `%` introduces one of the date specifiers above.
pub open spec fn simple_date_format(fmt: Seq<char>) -> bool {
    forall|i: int|
        0 <= i < fmt.len() && #[trigger] fmt[i] == '%' ==> i + 1 < fmt.len() && is_date_specifier(fmt[i + 1])
}

/// The text that chrono gives for the UTC time `secs` seconds after the
/// Unix epoch, formatted with `fmt`; `None` when chrono cannot represent
/// that time.
pub uninterp spec fn utc_text(secs: i64, fmt: Seq<char>) -> Option<Seq<char>>;

/// The earliest time chrono represents: the first second of 1 January of
/// year -262143 (UTC), in seconds since the Unix epoch.
pub open spec fn earliest_timestamp() -> int {
    -8_334_601_228_800
}

/// The latest time chrono represents, to the second: the last second of
/// 31 December of year 262142 (UTC), in seconds since the Unix epoch.
pub open spec fn latest_timestamp() -> int {
    8_210_266_876_799
}

/// `chrono::DateTime::<Utc>::from_timestamp(secs, 0)` followed by
/// `DateTime::format(fmt)` rendered to a `String`. Claimed here: the result
/// is `utc_text(secs, fmt)`, which depends on the arguments alone; it is
/// present exactly when `secs` lies in chrono's range, from 1 January of year
/// -262143 to 31 December of year 262142 (outside it `from_timestamp` gives
/// `None`); a format made only of the day, month, year, hour and minute
/// specifiers never makes the rendering fail.
#[verifier::external_body]
fn format_utc_timestamp(secs: i64, fmt: &str) -> (r: Option<String>)
    requires
        simple_date_format(fmt@),
    ensures
        match r {
            Some(s) => utc_text(secs, fmt@) == Some(s@),
            None => utc_text(secs, fmt@) is None,
        },
        r is Some <==> earliest_timestamp() <= secs <= latest_timestamp(),
{
    match chrono::DateTime::from_timestamp(secs, 0) {
        Some(d) => Some(d.format(fmt).to_string()),
        None => None,
    }
}

/// The format of dates on the notifications page: `day/month/year
/// hour:minute`.
pub open spec fn notification_date_format() -> Seq<char> {
    seq!['%', 'd', '/', '%', 'm', '/', '%', 'Y', ' ', '%', 'H', ':', '%', 'M']
}

/// The date of a notification as the notifications page prints it,
/// `%d/%m/%Y %H:%M` in UTC, for a time given in seconds since the Unix
/// epoch; present exactly for the times chrono represents, from year -262143
/// to year 262142.
pub fn print_date(secs: i64) -> (r: Option<String>)
    ensures
        match r {
            Some(s) => utc_text(secs, notification_date_format()) == Some(s@),
            None => utc_text(secs, notification_date_format()) is None,
        },
        r is Some <==> earliest_timestamp() <= secs <= latest_timestamp(),
{
    let fmt = "%d/%m/%Y %H:%M";
    proof {
        reveal_strlit("%d/%m/%Y %H:%M");
        assert(fmt@ =~= notification_date_format());
        let f = notification_date_format();
        assert forall|i: int| 0 <= i < f.len() && #[trigger] f[i] == '%' implies i + 1 < f.len()
            && is_date_specifier(f[i + 1]) by {
            assert(i == 0 || i == 3 || i == 6 || i == 9 || i == 12);
        }
    }
    format_utc_timestamp(secs, fmt)
}

} // verus!
