//! Story embeds: the page that previews a story, and what the cache keeps
//! of one.

use vstd::prelude::*;
use crate::external::{
    form_urlencode, form_urlencoded, parse_rfc3339, rfc3339_instant, str_equal, utc_formatted,
};
use crate::html::{
    canonical_tag, image_tag, meta_property, oembed_tag, opt_view, page_end, page_head,
    push_image, push_link_tags, push_meta_property, push_page_head, push_page_tail,
    push_theme_color, refresh_tag, theme_color_tag, twitter_tags,
};
use crate::structs::{
    completion_status_of, content_rating_of, is_completion_status_name, is_content_rating_name,
    Color, CompletionStatus, ContentRating, Cover, Parameters, RecordError, Story, Timestamp, User,
    DAY_FORMAT,
};
use crate::text::{decimal, push_i32, trim_hashes, trim_leading_hashes};
use crate::user::UserData;
use crate::utility::{clean_content, cleaned, tag_pattern_compiles, tag_pattern_valid};

verus! {

/// The theme color of a story page: the request's choice, and the story's
/// own color where the request makes none.
pub open spec fn story_color(story: Story, user: User, color: Option<Color>) -> Option<Seq<char>> {
    match color {
        Some(Color::NoColor) => None,
        Some(Color::Custom(c)) => Some(c@),
        Some(Color::User) => Some(user.color_hex@),
        Some(Color::Story) => Some(story.color_hex@),
        None => Some(story.color_hex@),
    }
}

/// The picture of a story page: the request's choice, and the story's cover
/// where the request makes none.
pub open spec fn story_cover(story: Story, user: User, cover: Option<Cover>) -> Option<Seq<char>> {
    match cover {
        Some(Cover::Story) => opt_view(story.cover_medium_url),
        Some(Cover::User) => opt_view(user.profile_pic_256),
        Some(Cover::NoCover) => None,
        None => opt_view(story.cover_medium_url),
    }
}

/// How a story page names a completion status.
pub open spec fn status_label(status: CompletionStatus) -> Seq<char> {
    match status {
        CompletionStatus::Incomplete => "Incomplete 🔄"@,
        CompletionStatus::Complete => "Complete ✅"@,
        CompletionStatus::Hiatus => "Hiatus ⏸"@,
        CompletionStatus::Cancelled => "Cancelled ❌"@,
    }
}

/// How a story page names a content rating.
pub open spec fn rating_label(rating: ContentRating) -> Seq<char> {
    match rating {
        ContentRating::Everyone => "Everyone 🇪"@,
        ContentRating::Teen => "Teen 🇹"@,
        ContentRating::Mature => "Mature 🇲"@,
    }
}

/// The likes and dislikes of a story, or nothing where both are hidden.
pub open spec fn likes_part(story: Story) -> Seq<char> {
    if story.likes == -1 && story.dislikes == -1 {
        seq![]
    } else {
        "Likes: "@ + decimal(story.likes as int) + " 👍 Dislikes: "@ + decimal(story.dislikes as int)
            + " 👎 "@
    }
}

/// The statistics line of a story page, with its publication day written
/// as `day`.
pub open spec fn story_stats_line(story: Story, day: Seq<char>) -> Seq<char> {
    "Fimfiction - Published: "@ + day + " 📅 Status: "@ + status_label(story.completion_status)
        + "\nRating: "@ + rating_label(story.content_rating) + " "@ + likes_part(story) + "Views: "@
        + decimal(story.views as int) + " 📈\nComments: "@ + decimal(story.comments as int)
        + " 💬 Chapters: "@ + decimal(story.chapters as int) + " 📖 Words: "@ + decimal(
        story.words as int,
    ) + " 📝"@
}

/// The statistics line of a story page.
pub open spec fn story_stats(story: Story) -> Seq<char> {
    story_stats_line(
        story,
        utc_formatted(
            story.date_published.seconds(),
            story.date_published.nanoseconds(),
            DAY_FORMAT@,
        ),
    )
}

/// The site name of a story page: the statistics where they are asked for.
pub open spec fn story_site_name(story: Story, stats: bool) -> Seq<char> {
    if stats {
        story_stats(story)
    } else {
        "Fimfiction"@
    }
}

/// The oEmbed query of a story page, as name and value pairs.
pub open spec fn story_oembed_pairs(story: Story, user: User, site_name: Seq<char>) -> Seq<
    (Seq<char>, Seq<char>),
> {
    seq![
        ("type"@, "rich"@),
        ("version"@, "1"@),
        ("provider_name"@, site_name),
        ("provider_url"@, "https://www.fimfiction.net/"@),
        ("title"@, story.title@),
        ("author_name"@, user.name@),
        ("author_url"@, user.link@),
        ("cache_age"@, "86400"@),
        ("html"@, ""@),
    ]
}

/// The page that previews a story, with its site name and its oEmbed query
/// given.
pub open spec fn story_page_from(
    story: Story,
    user: User,
    parameters: Parameters,
    link: Seq<char>,
    site_name: Seq<char>,
    query: Seq<char>,
) -> Seq<char> {
    page_head() + theme_color_tag(story_color(story, user, parameters.color)) + canonical_tag(link)
        + refresh_tag(link) + meta_property("og:title"@, story.title@) + meta_property(
        "og:description"@,
        story.short_description@,
    ) + image_tag(story_cover(story, user, parameters.cover)) + meta_property("og:url"@, link)
        + meta_property("og:type"@, "book"@) + meta_property("book:author"@, user.link@)
        + meta_property("og:site_name"@, site_name) + twitter_tags() + oembed_tag(query, user.name@)
        + page_end()
}

/// The page that previews a story.
pub open spec fn story_page(story: Story, user: User, parameters: Parameters, link: Seq<char>) -> Seq<
    char,
> {
    let site_name = story_site_name(story, parameters.stats);
    story_page_from(
        story,
        user,
        parameters,
        link,
        site_name,
        form_urlencoded(story_oembed_pairs(story, user, site_name)),
    )
}

/// The statistics line of a story page, with its publication day written
/// as `day`.
pub fn story_stats_text_from(story: &Story, day: &str) -> (r: String)
    ensures
        r@ == story_stats_line(*story, day@),
{
    let mut text = String::new();
    text.append("Fimfiction - Published: ");
    text.append(day);
    text.append(" 📅 Status: ");
    match story.completion_status {
        CompletionStatus::Incomplete => text.append("Incomplete 🔄"),
        CompletionStatus::Complete => text.append("Complete ✅"),
        CompletionStatus::Hiatus => text.append("Hiatus ⏸"),
        CompletionStatus::Cancelled => text.append("Cancelled ❌"),
    }
    text.append("\nRating: ");
    match story.content_rating {
        ContentRating::Everyone => text.append("Everyone 🇪"),
        ContentRating::Teen => text.append("Teen 🇹"),
        ContentRating::Mature => text.append("Mature 🇲"),
    }
    text.append(" ");
    let ghost before_likes = text@;
    if !(story.likes == -1 && story.dislikes == -1) {
        text.append("Likes: ");
        push_i32(&mut text, story.likes);
        text.append(" 👍 Dislikes: ");
        push_i32(&mut text, story.dislikes);
        text.append(" 👎 ");
    }
    assert(text@ =~= before_likes + likes_part(*story));
    text.append("Views: ");
    push_i32(&mut text, story.views);
    text.append(" 📈\nComments: ");
    push_i32(&mut text, story.comments);
    text.append(" 💬 Chapters: ");
    push_i32(&mut text, story.chapters);
    text.append(" 📖 Words: ");
    push_i32(&mut text, story.words);
    text.append(" 📝");
    assert(text@ =~= story_stats_line(*story, day@));
    text
}

/// The statistics line of a story page.
pub fn story_stats_text(story: &Story) -> (r: String)
    ensures
        r@ == story_stats(*story),
{
    let day = story.date_published.day_text();
    story_stats_text_from(story, day.as_str())
}

/// The page that previews `story` by `user`, with the request's
/// `parameters`, moving on to `link`, under `site_name` and with the oEmbed
/// query `query`.
pub fn story_page_text(
    story: &Story,
    user: &User,
    parameters: &Parameters,
    link: &str,
    site_name: &str,
    query: &str,
) -> (r: String)
    ensures
        r@ == story_page_from(*story, *user, *parameters, link@, site_name@, query@),
{
    let mut text = String::new();
    push_page_head(&mut text);
    let color: Option<String> = match &parameters.color {
        Some(Color::NoColor) => None,
        Some(Color::Custom(c)) => Some(c.clone()),
        Some(Color::User) => Some(user.color_hex.clone()),
        Some(Color::Story) => Some(story.color_hex.clone()),
        None => Some(story.color_hex.clone()),
    };
    push_theme_color(&mut text, &color);
    push_link_tags(&mut text, link);
    push_meta_property(&mut text, "og:title", story.title.as_str());
    push_meta_property(&mut text, "og:description", story.short_description.as_str());
    let cover: Option<String> = match &parameters.cover {
        Some(Cover::Story) => story.cover_medium_url.clone(),
        Some(Cover::User) => user.profile_pic_256.clone(),
        Some(Cover::NoCover) => None,
        None => story.cover_medium_url.clone(),
    };
    push_image(&mut text, &cover);
    push_meta_property(&mut text, "og:url", link);
    push_meta_property(&mut text, "og:type", "book");
    push_meta_property(&mut text, "book:author", user.link.as_str());
    push_meta_property(&mut text, "og:site_name", site_name);
    push_page_tail(&mut text, query, user.name.as_str());
    assert(text@ =~= story_page_from(*story, *user, *parameters, link@, site_name@, query@));
    text
}

/// The page that previews `story` by `user`, with the request's
/// `parameters`, moving on to `link`.
pub fn story_html_template(story: Story, user: User, parameters: Parameters, link: String) -> (r:
    String)
    ensures
        r@ == story_page(story, user, parameters, link@),
{
    let site_name = if parameters.stats {
        story_stats_text(&story)
    } else {
        "Fimfiction".to_owned()
    };
    let pairs: Vec<(String, String)> = vec![
        ("type".to_owned(), "rich".to_owned()),
        ("version".to_owned(), "1".to_owned()),
        ("provider_name".to_owned(), site_name.clone()),
        ("provider_url".to_owned(), "https://www.fimfiction.net/".to_owned()),
        ("title".to_owned(), story.title.clone()),
        ("author_name".to_owned(), user.name.clone()),
        ("author_url".to_owned(), user.link.clone()),
        ("cache_age".to_owned(), "86400".to_owned()),
        ("html".to_owned(), "".to_owned()),
    ];
    assert(pairs.deep_view() =~= story_oembed_pairs(story, user, site_name@));
    let query = form_urlencode(&pairs);
    story_page_text(&story, &user, &parameters, link.as_str(), site_name.as_str(), query.as_str())
}

/// What the API tells of a story, as far as the cache keeps it.
#[derive(Debug, Clone)]
pub struct StoryData {
    pub title: String,
    pub short_description: String,
    pub cover_medium: Option<String>,
    pub color_hex: String,
    pub num_views: i32,
    pub num_words: i32,
    pub num_chapters: i32,
    pub num_comments: i32,
    pub completion_status: String,
    pub content_rating: String,
    pub num_likes: i32,
    pub num_dislikes: i32,
    pub date_published: Option<String>,
}

/// A story as it goes into the cache; the cache adds when.
#[derive(Debug, Clone)]
pub struct NewStory {
    pub id: i32,
    pub title: String,
    pub short_description: String,
    pub cover_medium_url: Option<String>,
    pub color_hex: String,
    pub views: i32,
    pub words: i32,
    pub chapters: i32,
    pub comments: i32,
    pub completion_status: CompletionStatus,
    pub content_rating: ContentRating,
    pub likes: i32,
    pub dislikes: i32,
    pub author_id: i32,
    pub date_published: Timestamp,
}

/// The stories that the cache can keep: a known status and rating, and a
/// publication date.
pub open spec fn story_data_complete(data: StoryData) -> bool {
    &&& is_completion_status_name(data.completion_status@)
    &&& is_content_rating_name(data.content_rating@)
    &&& data.date_published is Some
}

/// Whether the cache can keep a story: a known status and rating, and a
/// publication date.
pub fn story_data_is_complete(data: &StoryData) -> (r: bool)
    ensures
        r == story_data_complete(*data),
{
    CompletionStatus::is_name(data.completion_status.as_str()) && ContentRating::is_name(
        data.content_rating.as_str(),
    ) && data.date_published.is_some()
}

/// `record` is what the cache keeps of story `id` by `author_id`, with the
/// publication date read as `published`.
pub open spec fn story_record_of(
    data: StoryData,
    record: NewStory,
    id: i32,
    author_id: i32,
    published: (i64, u32),
) -> bool {
    &&& record.id == id
    &&& record.title@ == cleaned(data.title@)
    &&& record.short_description@ == cleaned(data.short_description@)
    &&& opt_view(record.cover_medium_url) == opt_view(data.cover_medium)
    &&& record.color_hex@ == trim_hashes(data.color_hex@)
    &&& record.views == data.num_views
    &&& record.words == data.num_words
    &&& record.chapters == data.num_chapters
    &&& record.comments == data.num_comments
    &&& record.completion_status == completion_status_of(data.completion_status@)
    &&& record.content_rating == content_rating_of(data.content_rating@)
    &&& record.likes == data.num_likes
    &&& record.dislikes == data.num_dislikes
    &&& record.author_id == author_id
    &&& record.date_published.seconds() == published.0
    &&& record.date_published.nanoseconds() == published.1
}

/// What the cache keeps of story `id` by `author_id` that the API sent: its
/// title and description cleaned, its color without the leading `#`. A
/// publication date that is no RFC 3339 date and time is refused.
pub fn story_row(id: i32, data: &StoryData, author_id: i32) -> (r: Result<NewStory, RecordError>)
    requires
        tag_pattern_valid(),
        story_data_complete(*data),
    ensures
        match rfc3339_instant(data.date_published->0@) {
            Some(published) => r matches Ok(s) && story_record_of(*data, s, id, author_id, published),
            None => r == Err::<NewStory, RecordError>(RecordError::InvalidDate),
        },
        r matches Ok(s) ==> s.id == id && s.author_id == author_id && s.likes == data.num_likes
            && s.dislikes == data.num_dislikes && s.views == data.num_views && s.words
            == data.num_words && s.chapters == data.num_chapters && s.comments == data.num_comments,
{
    let title = clean_content(data.title.clone());
    let short_description = clean_content(data.short_description.clone());
    let color_hex = trim_leading_hashes(data.color_hex.as_str());
    let completion_status = CompletionStatus::from(data.completion_status.clone());
    let content_rating = ContentRating::from(data.content_rating.clone());
    let date = match &data.date_published {
        Some(d) => d,
        None => {
            proof {
                assert(false);
            }
            return Err(RecordError::InvalidDate);
        },
    };
    let published = match parse_rfc3339(date.as_str()) {
        Ok(p) => p,
        Err(_) => return Err(RecordError::InvalidDate),
    };
    let date_published = match Timestamp::new(published.0, published.1) {
        Some(t) => t,
        None => {
            proof {
                assert(false);
            }
            return Err(RecordError::InvalidDate);
        },
    };
    Ok(
        NewStory {
            id,
            title,
            short_description,
            cover_medium_url: data.cover_medium.clone(),
            color_hex,
            views: data.num_views,
            words: data.num_words,
            chapters: data.num_chapters,
            comments: data.num_comments,
            completion_status,
            content_rating,
            likes: data.num_likes,
            dislikes: data.num_dislikes,
            author_id,
            date_published,
        },
    )
}

/// What the cache keeps of a story carries the API's counts each into its
/// own column: views, words, chapters, comments, likes and dislikes, and the
/// story's and its author's ids.
pub proof fn lemma_story_record_counts(
    data: StoryData,
    record: NewStory,
    id: i32,
    author_id: i32,
    published: (i64, u32),
)
    requires
        story_record_of(data, record, id, author_id, published),
    ensures
        record.likes == data.num_likes,
        record.dislikes == data.num_dislikes,
        record.views == data.num_views,
        record.words == data.num_words,
        record.chapters == data.num_chapters,
        record.comments == data.num_comments,
        record.id == id,
        record.author_id == author_id,
{
}

/// `story_row`, or `None` where the tag pattern that cleaning needs does not
/// compile.
pub fn try_story_row(id: i32, data: &StoryData, author_id: i32) -> (r: Option<
    Result<NewStory, RecordError>,
>)
    requires
        story_data_complete(*data),
    ensures
        r is Some <==> tag_pattern_valid(),
        r matches Some(res) ==> match rfc3339_instant(data.date_published->0@) {
            Some(published) => res matches Ok(s) && story_record_of(
                *data,
                s,
                id,
                author_id,
                published,
            ),
            None => res == Err::<NewStory, RecordError>(RecordError::InvalidDate),
        },
{
    if tag_pattern_compiles() {
        Some(story_row(id, data, author_id))
    } else {
        None
    }
}

/// The first of the `included` users whose id is `author_id`, if any.
pub fn find_author(included: &Vec<UserData>, author_id: &str) -> (r: Option<usize>)
    ensures
        match r {
            Some(i) => i < included.len() && included@[i as int].id@ == author_id@ && forall|j: int|
                0 <= j < i ==> (#[trigger] included@[j]).id@ != author_id@,
            None => forall|j: int|
                0 <= j < included.len() ==> (#[trigger] included@[j]).id@ != author_id@,
        },
{
    let mut i: usize = 0;
    while i < included.len()
        invariant
            i <= included.len(),
            forall|j: int| 0 <= j < i ==> (#[trigger] included@[j]).id@ != author_id@,
        decreases included.len() - i,
    {
        if str_equal(included[i].id.as_str(), author_id) {
            return Some(i);
        }
        i = i + 1;
    }
    None
}

/// The API address of the story with `id`.
pub open spec fn story_api_url(id: i32) -> Seq<char> {
    "https://www.fimfiction.net/api/v2/stories/"@ + decimal(id as int)
}

/// The API address of the story with `id`.
pub fn story_api_address(id: i32) -> (r: String)
    ensures
        r@ == story_api_url(id),
{
    let mut s = "https://www.fimfiction.net/api/v2/stories/".to_owned();
    push_i32(&mut s, id);
    s
}

/// The Fimfiction page of a story, for the path of an embed request.
pub open spec fn story_page_link(path: Seq<char>) -> Seq<char> {
    "https://www.fimfiction.net/story/"@ + path
}

/// The Fimfiction page of a story, for the path of an embed request.
pub fn story_link(path: &str) -> (r: String)
    ensures
        r@ == story_page_link(path@),
{
    let mut s = "https://www.fimfiction.net/story/".to_owned();
    s.append(path);
    s
}

} // verus!
