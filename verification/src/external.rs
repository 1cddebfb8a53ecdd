//! The calls that this library makes into std and into outside crates, each
//! with the contract that the rest of the library relies on.

use vstd::prelude::*;

verus! {

/// `<str as PartialEq>::eq`: two string slices are equal exactly when they
/// hold the same characters.
#[verifier::external_body]
pub(crate) fn str_equal(a: &str, b: &str) -> (r: bool)
    ensures
        r == (a@ == b@),
{
    a == b
}

/// `String::push`: appends one character at the end.
#[verifier::external_body]
pub(crate) fn push_char(s: &mut String, c: char)
    ensures
        final(s)@ == old(s)@.push(c),
{
    s.push(c)
}

#[verifier::external_type_specification]
#[verifier::external_body]
pub struct ExRegexError(regex::Error);

/// Whether `regex::Regex::new` accepts `pattern`: a fact of the pattern
/// alone (its syntax and the size of the compiled program).
pub uninterp spec fn regex_compiles(pattern: Seq<char>) -> bool;

/// What `Regex::replace_all` makes of `haystack` for the regex compiled from
/// `pattern`: every leftmost non-overlapping match replaced by `replacement`
/// (with its `$` group references expanded).
pub uninterp spec fn regex_replaced(
    pattern: Seq<char>,
    haystack: Seq<char>,
    replacement: Seq<char>,
) -> Seq<char>;

/// Compiles `pattern` with `regex::Regex::new` and, where it compiles,
/// replaces all its matches in `haystack` with `Regex::replace_all`. The
/// contract claims that compiling succeeds exactly for the patterns that
/// `regex_compiles` holds of, and that the text that comes back is the
/// named result of the replacement; it claims nothing more of either.
#[verifier::external_body]
pub(crate) fn regex_replace_all(pattern: &str, haystack: &str, replacement: &str) -> (r: Result<
    String,
    regex::Error,
>)
    ensures
        r is Ok <==> regex_compiles(pattern@),
        r matches Ok(s) ==> s@ == regex_replaced(pattern@, haystack@, replacement@),
{
    let re = regex::Regex::new(pattern)?;
    Ok(re.replace_all(haystack, replacement).into_owned())
}

/// Whether `chrono::DateTime::<Utc>::from_timestamp` gives a date and time
/// for `secs` seconds and `nanos` nanoseconds since the Unix epoch: a fact
/// of the two numbers alone.
pub uninterp spec fn utc_datetime_exists(secs: i64, nanos: u32) -> bool;

/// `chrono::DateTime::<Utc>::from_timestamp`, asked only whether it gives a
/// date and time; the contract claims no more than that the answer is the
/// named fact.
#[verifier::external_body]
pub(crate) fn utc_timestamp_exists(secs: i64, nanos: u32) -> (r: bool)
    ensures
        r == utc_datetime_exists(secs, nanos),
{
    chrono::DateTime::<chrono::Utc>::from_timestamp(secs, nanos).is_some()
}

/// A format string whose every `%` starts one of the specifiers `%a`, `%b`,
/// `%e` and `%Y`, which chrono's `strftime` module documents (weekday,
/// month, space-padded day and year); such a format never fails to render.
pub open spec fn uses_documented_specifiers(fmt: Seq<char>) -> bool {
    forall|i: int|
        0 <= i < fmt.len() && #[trigger] fmt[i] == '%' ==> i + 1 < fmt.len() && (fmt[i + 1] == 'a'
            || fmt[i + 1] == 'b' || fmt[i + 1] == 'e' || fmt[i + 1] == 'Y')
}

/// What `DateTime::<Utc>::format(fmt).to_string()` writes for the date and
/// time at `secs` and `nanos`.
pub uninterp spec fn utc_formatted(secs: i64, nanos: u32, fmt: Seq<char>) -> Seq<char>;

/// `DateTime::<Utc>::format` rendered with `to_string`, for a date and time
/// that exists and a format of documented specifiers. The contract claims
/// only that the text is the named result for these three arguments.
#[verifier::external_body]
pub(crate) fn utc_format(secs: i64, nanos: u32, fmt: &str) -> (r: String)
    requires
        utc_datetime_exists(secs, nanos),
        uses_documented_specifiers(fmt@),
    ensures
        r@ == utc_formatted(secs, nanos, fmt@),
{
    chrono::DateTime::<chrono::Utc>::from_timestamp(secs, nanos).unwrap().format(fmt).to_string()
}

/// What the `Display` of `DateTime<Utc>` writes for the date and time at
/// `secs` and `nanos`.
pub uninterp spec fn utc_displayed(secs: i64, nanos: u32) -> Seq<char>;

/// `DateTime<Utc>` written with its `Display`, for a date and time that
/// exists. The contract claims only that the text is the named result.
#[verifier::external_body]
pub(crate) fn utc_display(secs: i64, nanos: u32) -> (r: String)
    requires
        utc_datetime_exists(secs, nanos),
    ensures
        r@ == utc_displayed(secs, nanos),
{
    chrono::DateTime::<chrono::Utc>::from_timestamp(secs, nanos).unwrap().to_string()
}

/// The largest number of seconds that `chrono::TimeDelta::seconds` takes
/// without panicking, either way from zero.
pub open spec fn time_delta_seconds_limit() -> int {
    i64::MAX / 1000
}

/// What `DateTime::<Utc>::checked_sub_signed(TimeDelta::seconds(delta))`
/// gives for the date and time at `secs` and `nanos`, as seconds and
/// nanoseconds since the epoch.
pub uninterp spec fn utc_minus_seconds(secs: i64, nanos: u32, delta: i64) -> Option<(i64, u32)>;

/// `DateTime::<Utc>::checked_sub_signed` with `TimeDelta::seconds(delta)`.
/// The contract claims that the answer is the named result, and that what
/// comes back is again a date and time that exists: chrono documents that
/// `from_timestamp` takes back what `timestamp` and `timestamp_subsec_nanos`
/// give of any `DateTime<Utc>`.
#[verifier::external_body]
pub(crate) fn utc_checked_sub_seconds(secs: i64, nanos: u32, delta: i64) -> (r: Option<(i64, u32)>)
    requires
        utc_datetime_exists(secs, nanos),
        -time_delta_seconds_limit() <= delta <= time_delta_seconds_limit(),
    ensures
        r == utc_minus_seconds(secs, nanos, delta),
        r matches Some(p) ==> utc_datetime_exists(p.0, p.1),
{
    let t = chrono::DateTime::<chrono::Utc>::from_timestamp(secs, nanos).unwrap();
    match t.checked_sub_signed(chrono::TimeDelta::seconds(delta)) {
        Some(d) => Some((d.timestamp(), d.timestamp_subsec_nanos())),
        None => None,
    }
}

#[verifier::external_type_specification]
#[verifier::external_body]
pub struct ExChronoParseError(chrono::ParseError);

/// The instant, as seconds and nanoseconds since the epoch, that
/// `DateTime::parse_from_rfc3339` reads from `s`, or `None` where it refuses
/// `s`.
pub uninterp spec fn rfc3339_instant(s: Seq<char>) -> Option<(i64, u32)>;

/// `DateTime::parse_from_rfc3339`, with the instant it reads taken as seconds
/// and nanoseconds since the epoch. The contract claims that it succeeds
/// exactly where the named result is some instant, that it gives that
/// instant, and that the instant is a date and time that exists (the
/// documented round trip of `timestamp` and `from_timestamp`).
#[verifier::external_body]
pub(crate) fn parse_rfc3339(s: &str) -> (r: Result<(i64, u32), chrono::ParseError>)
    ensures
        r is Ok <==> rfc3339_instant(s@) is Some,
        r matches Ok(p) ==> rfc3339_instant(s@) == Some(p) && utc_datetime_exists(p.0, p.1),
{
    let d = chrono::DateTime::parse_from_rfc3339(s)?;
    Ok((d.timestamp(), d.timestamp_subsec_nanos()))
}

/// What `url::form_urlencoded::Serializer` gives when the name and value
/// pairs are appended in order and the serializer is finished.
pub uninterp spec fn form_urlencoded(pairs: Seq<(Seq<char>, Seq<char>)>) -> Seq<char>;

/// `url::form_urlencoded::Serializer::new(String::new())`, `extend_pairs`
/// with `pairs` and `finish`. The contract claims only that the text is the
/// named result for these pairs.
#[verifier::external_body]
pub(crate) fn form_urlencode(pairs: &Vec<(String, String)>) -> (r: String)
    ensures
        r@ == form_urlencoded(pairs.deep_view()),
{
    let mut s = url::form_urlencoded::Serializer::new(String::new());
    s.extend_pairs(pairs.iter());
    s.finish()
}

} // verus!
