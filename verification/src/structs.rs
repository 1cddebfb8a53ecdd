//! The values that an embed works with.

use vstd::prelude::*;
use crate::external::{
    str_equal, utc_checked_sub_seconds, utc_datetime_exists, utc_display, utc_displayed,
    utc_format, utc_formatted, utc_minus_seconds, utc_timestamp_exists,
    time_delta_seconds_limit,
};

verus! {

/// Who a story is written for.
#[derive(Debug, Clone, Copy, PartialEq, Eq, Structural)]
pub enum ContentRating {
    Everyone,
    Teen,
    Mature,
}

/// The names under which the API reports a content rating.
pub open spec fn is_content_rating_name(s: Seq<char>) -> bool {
    s == "everyone"@ || s == "teen"@ || s == "mature"@
}

/// The rating that a name reports.
pub open spec fn content_rating_of(s: Seq<char>) -> ContentRating
    recommends
        is_content_rating_name(s),
{
    if s == "everyone"@ {
        ContentRating::Everyone
    } else if s == "teen"@ {
        ContentRating::Teen
    } else {
        ContentRating::Mature
    }
}

impl ContentRating {
    /// Whether `value` is one of the names of a rating.
    pub fn is_name(value: &str) -> (r: bool)
        ensures
            r == is_content_rating_name(value@),
    {
        str_equal(value, "everyone") || str_equal(value, "teen") || str_equal(value, "mature")
    }

    /// The rating for one of the names "everyone", "teen" and "mature".
    pub fn from(value: String) -> (r: ContentRating)
        requires
            is_content_rating_name(value@),
        ensures
            r == content_rating_of(value@),
    {
        if str_equal(value.as_str(), "everyone") {
            ContentRating::Everyone
        } else if str_equal(value.as_str(), "teen") {
            ContentRating::Teen
        } else {
            ContentRating::Mature
        }
    }
}

/// Where a story stands.
#[derive(Debug, Clone, Copy, PartialEq, Eq, Structural)]
pub enum CompletionStatus {
    Incomplete,
    Complete,
    Hiatus,
    Cancelled,
}

/// The names under which the API reports a completion status.
pub open spec fn is_completion_status_name(s: Seq<char>) -> bool {
    s == "incomplete"@ || s == "complete"@ || s == "hiatus"@ || s == "cancelled"@
}

/// The status that a name reports.
pub open spec fn completion_status_of(s: Seq<char>) -> CompletionStatus
    recommends
        is_completion_status_name(s),
{
    if s == "incomplete"@ {
        CompletionStatus::Incomplete
    } else if s == "complete"@ {
        CompletionStatus::Complete
    } else if s == "hiatus"@ {
        CompletionStatus::Hiatus
    } else {
        CompletionStatus::Cancelled
    }
}

impl CompletionStatus {
    /// Whether `value` is one of the names of a status.
    pub fn is_name(value: &str) -> (r: bool)
        ensures
            r == is_completion_status_name(value@),
    {
        str_equal(value, "incomplete") || str_equal(value, "complete") || str_equal(value, "hiatus")
            || str_equal(value, "cancelled")
    }

    /// The status for one of the names "incomplete", "complete", "hiatus"
    /// and "cancelled".
    pub fn from(value: String) -> (r: CompletionStatus)
        requires
            is_completion_status_name(value@),
        ensures
            r == completion_status_of(value@),
    {
        if str_equal(value.as_str(), "incomplete") {
            CompletionStatus::Incomplete
        } else if str_equal(value.as_str(), "complete") {
            CompletionStatus::Complete
        } else if str_equal(value.as_str(), "hiatus") {
            CompletionStatus::Hiatus
        } else {
            CompletionStatus::Cancelled
        }
    }
}

/// Which picture an embed shows.
#[derive(Debug, Clone, Copy, PartialEq, Eq, Structural)]
pub enum Cover {
    Story,
    User,
    NoCover,
}

/// What `Cover::try_from` gives for a name: one of the three covers, or the
/// message that refuses any other name.
pub open spec fn cover_of(s: Seq<char>) -> Result<Cover, &'static str> {
    if s == "story"@ {
        Ok(Cover::Story)
    } else if s == "user"@ {
        Ok(Cover::User)
    } else if s == "none"@ {
        Ok(Cover::NoCover)
    } else {
        Err("invalid cover value")
    }
}

impl TryFrom<String> for Cover {
    type Error = &'static str;

    /// The cover named "story", "user" or "none"; any other name is refused.
    fn try_from(value: String) -> (r: Result<Cover, &'static str>) {
        if str_equal(value.as_str(), "story") {
            Ok(Cover::Story)
        } else if str_equal(value.as_str(), "user") {
            Ok(Cover::User)
        } else if str_equal(value.as_str(), "none") {
            Ok(Cover::NoCover)
        } else {
            Err("invalid cover value")
        }
    }
}

impl vstd::std_specs::convert::TryFromSpecImpl<String> for Cover {
    open spec fn obeys_try_from_spec() -> bool {
        true
    }

    open spec fn try_from_spec(value: String) -> Result<Cover, &'static str> {
        cover_of(value@)
    }
}

/// Which color an embed takes: one given by the request, the story's, the
/// user's, or none at all.
#[derive(Debug, Clone)]
pub enum Color {
    Custom(String),
    Story,
    User,
    NoColor,
}

/// The color that a name asks for: "story", "user" and "none" are keywords,
/// anything else is a custom color of that name.
pub open spec fn color_of(value: String) -> Color {
    if value@ == "story"@ {
        Color::Story
    } else if value@ == "user"@ {
        Color::User
    } else if value@ == "none"@ {
        Color::NoColor
    } else {
        Color::Custom(value)
    }
}

impl From<String> for Color {
    /// The color that `value` names; a name that is no keyword is kept as a
    /// custom color.
    fn from(value: String) -> (r: Color) {
        if str_equal(value.as_str(), "story") {
            Color::Story
        } else if str_equal(value.as_str(), "user") {
            Color::User
        } else if str_equal(value.as_str(), "none") {
            Color::NoColor
        } else {
            Color::Custom(value)
        }
    }
}

impl vstd::std_specs::convert::FromSpecImpl<String> for Color {
    open spec fn obeys_from_spec() -> bool {
        true
    }

    open spec fn from_spec(value: String) -> Color {
        color_of(value)
    }
}

/// The options of an embed request.
#[derive(Debug, Clone)]
pub struct Parameters {
    pub cover: Option<Cover>,
    pub color: Option<Color>,
    pub refresh: bool,
    pub stats: bool,
}

impl Default for Parameters {
    /// A request that sets none of the options.
    fn default() -> (r: Parameters)
        ensures
            r.cover is None,
            r.color is None,
            !r.refresh,
            !r.stats,
    {
        Parameters { cover: None, color: None, refresh: false, stats: false }
    }
}

/// An oEmbed answer.
#[derive(Debug, Clone)]
pub struct OEmbed {
    pub kind: String,
    pub version: u32,
    pub provider_name: String,
    pub provider_url: String,
    pub title: String,
    pub author_name: Option<String>,
    pub author_url: Option<String>,
    pub cache_age: u32,
    pub html: String,
}

/// A date and time in UTC, held as seconds and nanoseconds since the Unix
/// epoch; only values that chrono can represent are ever made.
#[derive(Debug, Clone, Copy)]
pub struct Timestamp {
    secs: i64,
    nanos: u32,
}

/// The format in which embeds write a day: weekday, month, day and year.
pub const DAY_FORMAT: &'static str = "%a %b %e %Y";

/// Whether `(s1, n1)` is no earlier than `(s2, n2)`.
pub open spec fn not_before(s1: i64, n1: u32, s2: i64, n2: u32) -> bool {
    s1 > s2 || (s1 == s2 && n1 >= n2)
}

impl Timestamp {
    /// Seconds since the epoch.
    pub closed spec fn seconds(self) -> i64 {
        self.secs
    }

    /// Nanoseconds past those seconds.
    pub closed spec fn nanoseconds(self) -> u32 {
        self.nanos
    }

    #[verifier::type_invariant]
    closed spec fn representable(self) -> bool {
        utc_datetime_exists(self.secs, self.nanos)
    }

    /// The date and time at `secs` seconds and `nanos` nanoseconds after the
    /// epoch, where chrono can represent it.
    pub fn new(secs: i64, nanos: u32) -> (r: Option<Timestamp>)
        ensures
            r is Some <==> utc_datetime_exists(secs, nanos),
            r matches Some(t) ==> t.seconds() == secs && t.nanoseconds() == nanos,
    {
        if utc_timestamp_exists(secs, nanos) {
            Some(Timestamp { secs, nanos })
        } else {
            None
        }
    }

    /// Seconds since the epoch.
    pub fn secs(&self) -> (r: i64)
        ensures
            r == self.seconds(),
    {
        self.secs
    }

    /// Nanoseconds past those seconds.
    pub fn nanos(&self) -> (r: u32)
        ensures
            r == self.nanoseconds(),
    {
        self.nanos
    }

    /// The day, written in `DAY_FORMAT`.
    pub fn day_text(&self) -> (r: String)
        ensures
            r@ == utc_formatted(self.seconds(), self.nanoseconds(), DAY_FORMAT@),
    {
        proof {
            use_type_invariant(self);
            reveal_strlit("%a %b %e %Y");
        }
        utc_format(self.secs, self.nanos, DAY_FORMAT)
    }

    /// The date and time as chrono displays it.
    pub fn display_text(&self) -> (r: String)
        ensures
            r@ == utc_displayed(self.seconds(), self.nanoseconds()),
    {
        proof {
            use_type_invariant(self);
        }
        utc_display(self.secs, self.nanos)
    }

    /// Whether this moment is no earlier than `other`.
    pub fn is_not_before(&self, other: &Timestamp) -> (r: bool)
        ensures
            r == not_before(self.seconds(), self.nanoseconds(), other.seconds(), other.nanoseconds()),
    {
        self.secs > other.secs || (self.secs == other.secs && self.nanos >= other.nanos)
    }

    /// This moment `delta` seconds earlier, where chrono can represent it.
    pub fn minus_seconds(&self, delta: i64) -> (r: Option<Timestamp>)
        requires
            -time_delta_seconds_limit() <= delta <= time_delta_seconds_limit(),
        ensures
            match utc_minus_seconds(self.seconds(), self.nanoseconds(), delta) {
                Some(p) => r matches Some(t) && t.seconds() == p.0 && t.nanoseconds() == p.1,
                None => r is None,
            },
    {
        proof {
            use_type_invariant(self);
        }
        match utc_checked_sub_seconds(self.secs, self.nanos, delta) {
            Some(p) => Some(Timestamp { secs: p.0, nanos: p.1 }),
            None => None,
        }
    }
}

/// Why a record that the API sent cannot be cached.
#[derive(Debug, Clone, Copy, PartialEq, Eq, Structural)]
pub enum RecordError {
    /// An id that is no `i32`.
    InvalidId,
    /// A date that is no RFC 3339 date and time.
    InvalidDate,
}

/// A story as the cache holds it.
#[derive(Debug, Clone)]
pub struct Story {
    pub id: i32,
    pub title: String,
    pub short_description: String,
    pub cover_medium_url: Option<String>,
    pub color_hex: String,
    pub views: i32,
    pub words: i32,
    pub chapters: i32,
    pub comments: i32,
    pub completion_status: CompletionStatus,
    pub content_rating: ContentRating,
    pub likes: i32,
    pub dislikes: i32,
    pub author_id: i32,
    pub date_published: Timestamp,
    pub date_cached: Timestamp,
}

/// A user as the cache holds it.
#[derive(Debug, Clone)]
pub struct User {
    pub id: i32,
    pub name: String,
    pub bio: String,
    pub link: String,
    pub followers: i32,
    pub stories: i32,
    pub blogs: i32,
    pub profile_pic_256: Option<String>,
    pub color_hex: String,
    pub date_joined: Timestamp,
    pub date_cached: Timestamp,
}

/// A blog post as the cache holds it.
#[derive(Debug, Clone)]
pub struct Blog {
    pub id: i32,
    pub title: String,
    pub content: String,
    pub comments: i32,
    pub views: i32,
    pub author_id: i32,
    pub story_id: Option<i32>,
    pub date_posted: Timestamp,
    pub date_cached: Timestamp,
}

/// The cover and the color of a request take the same three keywords: a
/// name that `Cover::try_from` accepts is a keyword color, and a name that
/// it refuses is a custom color.
pub proof fn lemma_keyword_names_agree(s: String)
    ensures
        cover_of(s@) == Ok::<Cover, &'static str>(Cover::Story) <==> color_of(s) == Color::Story,
        cover_of(s@) == Ok::<Cover, &'static str>(Cover::User) <==> color_of(s) == Color::User,
        cover_of(s@) == Ok::<Cover, &'static str>(Cover::NoCover) <==> color_of(s)
            == Color::NoColor,
        cover_of(s@) is Err <==> color_of(s) is Custom,
{
}

} // verus!
