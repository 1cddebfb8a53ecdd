//! User embeds: the page that previews a user, and what the cache keeps of
//! one.

use vstd::prelude::*;
use crate::external::{form_urlencode, form_urlencoded, parse_rfc3339, rfc3339_instant, utc_formatted};
use crate::html::{
    canonical_tag, image_tag, meta_property, oembed_tag, opt_view, page_end, page_head,
    push_image, push_link_tags, push_meta_property, push_page_head, push_page_tail,
    push_theme_color, refresh_tag, theme_color_tag, twitter_tags,
};
use crate::structs::{Color, Cover, Parameters, RecordError, Timestamp, User, DAY_FORMAT};
use crate::utility::{clean_content, cleaned, tag_pattern_compiles, tag_pattern_valid};
use vstd::utf8::encode_utf8;
use crate::text::{
    bytes_end_with, decimal, ends_with, parse_i32, parse_i32_of, push_i32, trim_hashes,
    trim_leading_hashes,
};

verus! {

/// The theme color of a user page: a custom color or none where the request
/// says so, and the user's own color otherwise.
pub open spec fn user_color(user: User, color: Option<Color>) -> Option<Seq<char>> {
    match color {
        Some(Color::NoColor) => None,
        Some(Color::Custom(c)) => Some(c@),
        _ => Some(user.color_hex@),
    }
}

/// The picture of a user page: none where the request says so, and the
/// user's profile picture otherwise.
pub open spec fn user_cover(user: User, cover: Option<Cover>) -> Option<Seq<char>> {
    match cover {
        Some(Cover::NoCover) => None,
        _ => opt_view(user.profile_pic_256),
    }
}

/// The statistics line of a user page, with its join day written as
/// `day`.
pub open spec fn user_stats_line(user: User, day: Seq<char>) -> Seq<char> {
    "Fimfiction - Joined: "@ + day + " 📅\nStories: "@ + decimal(user.stories as int)
        + " 📚 Blogs: "@ + decimal(user.blogs as int) + " 📑 Followers: "@ + decimal(
        user.followers as int,
    ) + " 👥"@
}

/// The statistics line of a user page.
pub open spec fn user_stats(user: User) -> Seq<char> {
    user_stats_line(
        user,
        utc_formatted(user.date_joined.seconds(), user.date_joined.nanoseconds(), DAY_FORMAT@),
    )
}

/// The site name of a user page: the statistics where they are asked for.
pub open spec fn user_site_name(user: User, stats: bool) -> Seq<char> {
    if stats {
        user_stats(user)
    } else {
        "Fimfiction"@
    }
}

/// The oEmbed query of a user page, as name and value pairs.
pub open spec fn user_oembed_pairs(user: User, site_name: Seq<char>) -> Seq<(Seq<char>, Seq<char>)> {
    seq![
        ("type"@, "rich"@),
        ("version"@, "1"@),
        ("provider_name"@, site_name),
        ("provider_url"@, "https://www.fimfiction.net/"@),
        ("title"@, user.name@),
        ("cache_age"@, "86400"@),
        ("html"@, ""@),
    ]
}

/// The page that previews a user, with its site name and its oEmbed query
/// given.
pub open spec fn user_page_from(
    user: User,
    parameters: Parameters,
    link: Seq<char>,
    site_name: Seq<char>,
    query: Seq<char>,
) -> Seq<char> {
    page_head() + theme_color_tag(user_color(user, parameters.color)) + canonical_tag(link)
        + refresh_tag(link) + meta_property("og:title"@, user.name@) + meta_property(
        "og:description"@,
        user.bio@,
    ) + image_tag(user_cover(user, parameters.cover)) + meta_property("og:url"@, link)
        + meta_property("og:type"@, "profile"@) + meta_property("profile:username"@, user.name@)
        + meta_property("og:site_name"@, site_name) + twitter_tags() + oembed_tag(query, user.name@)
        + page_end()
}

/// The page that previews a user.
pub open spec fn user_page(user: User, parameters: Parameters, link: Seq<char>) -> Seq<char> {
    let site_name = user_site_name(user, parameters.stats);
    user_page_from(
        user,
        parameters,
        link,
        site_name,
        form_urlencoded(user_oembed_pairs(user, site_name)),
    )
}

/// The statistics line of a user page, with its join day written as
/// `day`.
pub fn user_stats_text_from(user: &User, day: &str) -> (r: String)
    ensures
        r@ == user_stats_line(*user, day@),
{
    let mut text = String::new();
    text.append("Fimfiction - Joined: ");
    text.append(day);
    text.append(" 📅\nStories: ");
    push_i32(&mut text, user.stories);
    text.append(" 📚 Blogs: ");
    push_i32(&mut text, user.blogs);
    text.append(" 📑 Followers: ");
    push_i32(&mut text, user.followers);
    text.append(" 👥");
    assert(text@ =~= user_stats_line(*user, day@));
    text
}

/// The statistics line of a user page.
pub fn user_stats_text(user: &User) -> (r: String)
    ensures
        r@ == user_stats(*user),
{
    let day = user.date_joined.day_text();
    user_stats_text_from(user, day.as_str())
}

/// The page that previews `user`, with the request's `parameters`, moving
/// on to `link`, under `site_name` and with the oEmbed query `query`.
pub fn user_page_text(
    user: &User,
    parameters: &Parameters,
    link: &str,
    site_name: &str,
    query: &str,
) -> (r: String)
    ensures
        r@ == user_page_from(*user, *parameters, link@, site_name@, query@),
{
    let mut text = String::new();
    push_page_head(&mut text);
    let color: Option<String> = match &parameters.color {
        Some(Color::NoColor) => None,
        Some(Color::Custom(c)) => Some(c.clone()),
        _ => Some(user.color_hex.clone()),
    };
    push_theme_color(&mut text, &color);
    push_link_tags(&mut text, link);
    push_meta_property(&mut text, "og:title", user.name.as_str());
    push_meta_property(&mut text, "og:description", user.bio.as_str());
    let cover: Option<String> = match &parameters.cover {
        Some(Cover::NoCover) => None,
        _ => user.profile_pic_256.clone(),
    };
    push_image(&mut text, &cover);
    push_meta_property(&mut text, "og:url", link);
    push_meta_property(&mut text, "og:type", "profile");
    push_meta_property(&mut text, "profile:username", user.name.as_str());
    push_meta_property(&mut text, "og:site_name", site_name);
    push_page_tail(&mut text, query, user.name.as_str());
    assert(text@ =~= user_page_from(*user, *parameters, link@, site_name@, query@));
    text
}

/// The page that previews `user`, with the request's `parameters`, moving
/// on to `link`.
pub fn user_html_template(user: User, parameters: Parameters, link: String) -> (r: String)
    ensures
        r@ == user_page(user, parameters, link@),
{
    let site_name = if parameters.stats {
        user_stats_text(&user)
    } else {
        "Fimfiction".to_owned()
    };
    let pairs: Vec<(String, String)> = vec![
        ("type".to_owned(), "rich".to_owned()),
        ("version".to_owned(), "1".to_owned()),
        ("provider_name".to_owned(), site_name.clone()),
        ("provider_url".to_owned(), "https://www.fimfiction.net/".to_owned()),
        ("title".to_owned(), user.name.clone()),
        ("cache_age".to_owned(), "86400".to_owned()),
        ("html".to_owned(), "".to_owned()),
    ];
    assert(pairs.deep_view() =~= user_oembed_pairs(user, site_name@));
    let query = form_urlencode(&pairs);
    user_page_text(&user, &parameters, link.as_str(), site_name.as_str(), query.as_str())
}

/// What the API tells of a user, as far as the cache keeps it.
#[derive(Debug, Clone)]
pub struct UserData {
    pub id: String,
    pub name: String,
    pub bio: String,
    pub url: String,
    pub num_followers: i32,
    pub num_stories: i32,
    pub num_blog_posts: i32,
    pub avatar_r64: String,
    pub avatar_r256: String,
    pub color_hex: String,
    pub date_joined: String,
}

/// A user as it goes into the cache; the cache adds when.
#[derive(Debug, Clone)]
pub struct NewUser {
    pub id: i32,
    pub name: String,
    pub bio: String,
    pub link: String,
    pub followers: i32,
    pub stories: i32,
    pub blogs: i32,
    pub profile_pic_256: Option<String>,
    pub color_hex: String,
    pub date_joined: Timestamp,
}

/// The picture that the API marks as missing.
pub const MISSING_AVATAR: &'static str = "none_64.png";

/// The profile picture that the cache keeps: none where the small avatar is
/// the placeholder, the large avatar otherwise.
pub open spec fn user_image(data: UserData) -> Option<Seq<char>> {
    if bytes_end_with(encode_utf8(data.avatar_r64@), encode_utf8(MISSING_AVATAR@)) {
        None
    } else {
        Some(data.avatar_r256@)
    }
}

/// `record` is what the cache keeps of `data`, with the id and the date read
/// as `id` and `joined`.
pub open spec fn user_record_of(data: UserData, record: NewUser, id: i32, joined: (i64, u32)) -> bool {
    &&& record.id == id
    &&& record.name@ == cleaned(data.name@)
    &&& record.bio@ == cleaned(data.bio@)
    &&& record.link@ == data.url@
    &&& record.followers == data.num_followers
    &&& record.stories == data.num_stories
    &&& record.blogs == data.num_blog_posts
    &&& opt_view(record.profile_pic_256) == user_image(data)
    &&& record.color_hex@ == trim_hashes(data.color_hex@)
    &&& record.date_joined.seconds() == joined.0
    &&& record.date_joined.nanoseconds() == joined.1
}

/// What the cache keeps of a user that the API sent: its name and bio
/// cleaned, its color without the leading `#`, its picture unless it is the
/// placeholder. An id that is no `i32` is refused first, then a join date
/// that is no RFC 3339 date and time.
pub fn response_to_user(data: &UserData) -> (r: Result<NewUser, RecordError>)
    requires
        tag_pattern_valid(),
    ensures
        match (parse_i32(data.id@), rfc3339_instant(data.date_joined@)) {
            (Some(id), Some(joined)) => r matches Ok(u) && user_record_of(*data, u, id, joined),
            (None, _) => r == Err::<NewUser, RecordError>(RecordError::InvalidId),
            (Some(_), None) => r == Err::<NewUser, RecordError>(RecordError::InvalidDate),
        },
        r matches Ok(u) ==> u.followers == data.num_followers && u.stories == data.num_stories
            && u.blogs == data.num_blog_posts && u.link@ == data.url@,
{
    let image = if ends_with(data.avatar_r64.as_str(), MISSING_AVATAR) {
        None
    } else {
        Some(data.avatar_r256.clone())
    };
    let id = match parse_i32_of(data.id.as_str()) {
        Some(id) => id,
        None => return Err(RecordError::InvalidId),
    };
    let name = clean_content(data.name.clone());
    let bio = clean_content(data.bio.clone());
    let color_hex = trim_leading_hashes(data.color_hex.as_str());
    let joined = match parse_rfc3339(data.date_joined.as_str()) {
        Ok(p) => p,
        Err(_) => return Err(RecordError::InvalidDate),
    };
    let date_joined = match Timestamp::new(joined.0, joined.1) {
        Some(t) => t,
        None => {
            proof {
                assert(false);
            }
            return Err(RecordError::InvalidDate);
        },
    };
    Ok(
        NewUser {
            id,
            name,
            bio,
            link: data.url.clone(),
            followers: data.num_followers,
            stories: data.num_stories,
            blogs: data.num_blog_posts,
            profile_pic_256: image,
            color_hex,
            date_joined,
        },
    )
}

/// What the cache keeps of a user carries the API's counts each into its
/// own column: followers, stories and blog posts, and the profile address
/// as the link.
pub proof fn lemma_user_record_counts(data: UserData, record: NewUser, id: i32, joined: (i64, u32))
    requires
        user_record_of(data, record, id, joined),
    ensures
        record.followers == data.num_followers,
        record.stories == data.num_stories,
        record.blogs == data.num_blog_posts,
        record.link@ == data.url@,
        record.id == id,
{
}

/// `response_to_user`, or `None` where the tag pattern that cleaning needs
/// does not compile.
pub fn try_response_to_user(data: &UserData) -> (r: Option<Result<NewUser, RecordError>>)
    ensures
        r is Some <==> tag_pattern_valid(),
        r matches Some(res) ==> match (parse_i32(data.id@), rfc3339_instant(data.date_joined@)) {
            (Some(id), Some(joined)) => res matches Ok(u) && user_record_of(*data, u, id, joined),
            (None, _) => res == Err::<NewUser, RecordError>(RecordError::InvalidId),
            (Some(_), None) => res == Err::<NewUser, RecordError>(RecordError::InvalidDate),
        },
{
    if tag_pattern_compiles() {
        Some(response_to_user(data))
    } else {
        None
    }
}

/// The API address of the user with `id`.
pub open spec fn user_api_url(id: i32) -> Seq<char> {
    "https://www.fimfiction.net/api/v2/users/"@ + decimal(id as int)
}

/// The API address of the user with `id`.
pub fn user_api_address(id: i32) -> (r: String)
    ensures
        r@ == user_api_url(id),
{
    let mut s = "https://www.fimfiction.net/api/v2/users/".to_owned();
    push_i32(&mut s, id);
    s
}

/// The Fimfiction page of a user, for the path of an embed request.
pub open spec fn user_page_link(path: Seq<char>) -> Seq<char> {
    "https://www.fimfiction.net/user/"@ + path
}

/// The Fimfiction page of a user, for the path of an embed request.
pub fn user_link(path: &str) -> (r: String)
    ensures
        r@ == user_page_link(path@),
{
    let mut s = "https://www.fimfiction.net/user/".to_owned();
    s.append(path);
    s
}

} // verus!
