//! Blog embeds: the page that previews a blog post, and what the cache
//! keeps of one.

use vstd::prelude::*;
use crate::external::{
    form_urlencode, form_urlencoded, parse_rfc3339, rfc3339_instant, str_equal, utc_displayed,
    utc_formatted,
};
use crate::html::{
    canonical_tag, image_tag, meta_property, oembed_tag, opt_view, page_end, page_head,
    push_image, push_link_tags, push_meta_property, push_page_head, push_page_tail,
    push_theme_color, refresh_tag, theme_color_tag, twitter_tags,
};
use crate::structs::{Blog, Color, Cover, Parameters, RecordError, Story, Timestamp, User, DAY_FORMAT};
use crate::text::{decimal, parse_i32, parse_i32_of, push_i32};
use crate::utility::{
    clean_content, cleaned, tag_pattern_compiles, tag_pattern_valid, trim_content, trimmed,
};

verus! {

/// The theme color of a blog page: the request's choice, where the story
/// color falls back to the user's for a post that tags no story, and the
/// user's color where the request makes none.
pub open spec fn blog_color(user: User, story: Option<Story>, color: Option<Color>) -> Option<
    Seq<char>,
> {
    match color {
        Some(Color::NoColor) => None,
        Some(Color::Custom(c)) => Some(c@),
        Some(Color::Story) => match story {
            Some(s) => Some(s.color_hex@),
            None => Some(user.color_hex@),
        },
        Some(Color::User) => Some(user.color_hex@),
        None => Some(user.color_hex@),
    }
}

/// The picture of a blog page: the request's choice, where the story cover
/// falls back to the user's picture for a post that tags no story, and the
/// user's picture where the request makes none.
pub open spec fn blog_cover(user: User, story: Option<Story>, cover: Option<Cover>) -> Option<
    Seq<char>,
> {
    match cover {
        Some(Cover::User) => opt_view(user.profile_pic_256),
        Some(Cover::Story) => match story {
            Some(s) => opt_view(s.cover_medium_url),
            None => opt_view(user.profile_pic_256),
        },
        Some(Cover::NoCover) => None,
        None => opt_view(user.profile_pic_256),
    }
}

/// The statistics line of a blog page, with its posting day written as
/// `day`.
pub open spec fn blog_stats_line(blog: Blog, day: Seq<char>) -> Seq<char> {
    "Fimfiction - Posted: "@ + day + " 📅\nViews: "@ + decimal(blog.views as int)
        + " 📈 Comments: "@ + decimal(blog.comments as int) + " 💬"@
}

/// The statistics line of a blog page.
pub open spec fn blog_stats(blog: Blog) -> Seq<char> {
    blog_stats_line(
        blog,
        utc_formatted(blog.date_posted.seconds(), blog.date_posted.nanoseconds(), DAY_FORMAT@),
    )
}

/// The site name of a blog page: the statistics where they are asked for.
pub open spec fn blog_site_name(blog: Blog, stats: bool) -> Seq<char> {
    if stats {
        blog_stats(blog)
    } else {
        "Fimfiction"@
    }
}

/// The oEmbed query of a blog page, as name and value pairs.
pub open spec fn blog_oembed_pairs(blog: Blog, user: User, site_name: Seq<char>) -> Seq<
    (Seq<char>, Seq<char>),
> {
    seq![
        ("type"@, "rich"@),
        ("version"@, "1"@),
        ("provider_name"@, site_name),
        ("provider_url"@, "https://www.fimfiction.net/"@),
        ("title"@, blog.title@),
        ("author_name"@, user.name@),
        ("author_url"@, user.link@),
        ("cache_age"@, "86400"@),
        ("html"@, ""@),
    ]
}

/// The page that previews a blog post, with its posting time written as
/// `published`, and its site name and its oEmbed query given.
pub open spec fn blog_page_from(
    blog: Blog,
    user: User,
    story: Option<Story>,
    parameters: Parameters,
    link: Seq<char>,
    published: Seq<char>,
    site_name: Seq<char>,
    query: Seq<char>,
) -> Seq<char> {
    page_head() + theme_color_tag(blog_color(user, story, parameters.color)) + canonical_tag(link)
        + refresh_tag(link) + meta_property("og:title"@, blog.title@) + meta_property(
        "og:description"@,
        blog.content@,
    ) + image_tag(blog_cover(user, story, parameters.cover)) + meta_property("og:url"@, link)
        + meta_property("og:type"@, "article"@) + meta_property("article:author"@, user.link@)
        + meta_property("article:published_time"@, published) + meta_property(
        "og:site_name"@,
        site_name,
    ) + twitter_tags() + oembed_tag(query, user.name@) + page_end()
}

/// The page that previews a blog post.
pub open spec fn blog_page(
    blog: Blog,
    user: User,
    story: Option<Story>,
    parameters: Parameters,
    link: Seq<char>,
) -> Seq<char> {
    let site_name = blog_site_name(blog, parameters.stats);
    blog_page_from(
        blog,
        user,
        story,
        parameters,
        link,
        utc_displayed(blog.date_posted.seconds(), blog.date_posted.nanoseconds()),
        site_name,
        form_urlencoded(blog_oembed_pairs(blog, user, site_name)),
    )
}

/// The statistics line of a blog page, with its posting day written as
/// `day`.
pub fn blog_stats_text_from(blog: &Blog, day: &str) -> (r: String)
    ensures
        r@ == blog_stats_line(*blog, day@),
{
    let mut text = String::new();
    text.append("Fimfiction - Posted: ");
    text.append(day);
    text.append(" 📅\nViews: ");
    push_i32(&mut text, blog.views);
    text.append(" 📈 Comments: ");
    push_i32(&mut text, blog.comments);
    text.append(" 💬");
    assert(text@ =~= blog_stats_line(*blog, day@));
    text
}

/// The statistics line of a blog page.
pub fn blog_stats_text(blog: &Blog) -> (r: String)
    ensures
        r@ == blog_stats(*blog),
{
    let day = blog.date_posted.day_text();
    blog_stats_text_from(blog, day.as_str())
}

/// The page that previews `blog` by `user`, tagging `story` if any, with the
/// request's `parameters`, moving on to `link`, posted at `published`, under
/// `site_name` and with the oEmbed query `query`.
pub fn blog_page_text(
    blog: &Blog,
    user: &User,
    story: &Option<Story>,
    parameters: &Parameters,
    link: &str,
    published: &str,
    site_name: &str,
    query: &str,
) -> (r: String)
    ensures
        r@ == blog_page_from(
            *blog,
            *user,
            *story,
            *parameters,
            link@,
            published@,
            site_name@,
            query@,
        ),
{
    let mut text = String::new();
    push_page_head(&mut text);
    let color: Option<String> = match &parameters.color {
        Some(Color::NoColor) => None,
        Some(Color::Custom(c)) => Some(c.clone()),
        Some(Color::Story) => match story {
            Some(s) => Some(s.color_hex.clone()),
            None => Some(user.color_hex.clone()),
        },
        Some(Color::User) => Some(user.color_hex.clone()),
        None => Some(user.color_hex.clone()),
    };
    push_theme_color(&mut text, &color);
    push_link_tags(&mut text, link);
    push_meta_property(&mut text, "og:title", blog.title.as_str());
    push_meta_property(&mut text, "og:description", blog.content.as_str());
    let cover: Option<String> = match &parameters.cover {
        Some(Cover::User) => user.profile_pic_256.clone(),
        Some(Cover::Story) => match story {
            Some(s) => s.cover_medium_url.clone(),
            None => user.profile_pic_256.clone(),
        },
        Some(Cover::NoCover) => None,
        None => user.profile_pic_256.clone(),
    };
    push_image(&mut text, &cover);
    push_meta_property(&mut text, "og:url", link);
    push_meta_property(&mut text, "og:type", "article");
    push_meta_property(&mut text, "article:author", user.link.as_str());
    push_meta_property(&mut text, "article:published_time", published);
    push_meta_property(&mut text, "og:site_name", site_name);
    push_page_tail(&mut text, query, user.name.as_str());
    assert(text@ =~= blog_page_from(
        *blog,
        *user,
        *story,
        *parameters,
        link@,
        published@,
        site_name@,
        query@,
    ));
    text
}

/// The page that previews `blog` by `user`, tagging `story` if any, with the
/// request's `parameters`, moving on to `link`.
pub fn blog_html_template(
    blog: Blog,
    user: User,
    story: Option<Story>,
    parameters: Parameters,
    link: String,
) -> (r: String)
    ensures
        r@ == blog_page(blog, user, story, parameters, link@),
{
    let posted = blog.date_posted.display_text();
    let site_name = if parameters.stats {
        blog_stats_text(&blog)
    } else {
        "Fimfiction".to_owned()
    };
    let pairs: Vec<(String, String)> = vec![
        ("type".to_owned(), "rich".to_owned()),
        ("version".to_owned(), "1".to_owned()),
        ("provider_name".to_owned(), site_name.clone()),
        ("provider_url".to_owned(), "https://www.fimfiction.net/".to_owned()),
        ("title".to_owned(), blog.title.clone()),
        ("author_name".to_owned(), user.name.clone()),
        ("author_url".to_owned(), user.link.clone()),
        ("cache_age".to_owned(), "86400".to_owned()),
        ("html".to_owned(), "".to_owned()),
    ];
    assert(pairs.deep_view() =~= blog_oembed_pairs(blog, user, site_name@));
    let query = form_urlencode(&pairs);
    blog_page_text(
        &blog,
        &user,
        &story,
        &parameters,
        link.as_str(),
        posted.as_str(),
        site_name.as_str(),
        query.as_str(),
    )
}

/// The story that a blog post tags: the API writes "0" for none. An id that
/// is no `i32` is refused.
pub open spec fn tagged_story(tag_id: Seq<char>) -> Result<Option<i32>, RecordError> {
    match parse_i32(tag_id) {
        None => Err(RecordError::InvalidId),
        Some(n) => if tag_id == "0"@ {
            Ok(None)
        } else {
            Ok(Some(n))
        },
    }
}

/// The story that a blog post tags, if any.
pub fn tagged_story_id(tag_id: &str) -> (r: Result<Option<i32>, RecordError>)
    ensures
        r == tagged_story(tag_id@),
{
    match parse_i32_of(tag_id) {
        None => Err(RecordError::InvalidId),
        Some(n) => if str_equal(tag_id, "0") {
            Ok(None)
        } else {
            Ok(Some(n))
        },
    }
}

/// What the API tells of a blog post, as far as the cache keeps it.
#[derive(Debug, Clone)]
pub struct BlogData {
    pub id: String,
    pub title: String,
    pub content: String,
    pub num_comments: i32,
    pub num_views: i32,
    pub date_posted: String,
}

/// A blog post as it goes into the cache; the cache adds when.
#[derive(Debug, Clone)]
pub struct NewBlog {
    pub id: i32,
    pub title: String,
    pub content: String,
    pub comments: i32,
    pub views: i32,
    pub author_id: i32,
    pub story_id: Option<i32>,
    pub date_posted: Timestamp,
}

/// `record` is what the cache keeps of `data`, with the ids and the date
/// read as `id`, `author_id` and `posted`.
pub open spec fn blog_record_of(
    data: BlogData,
    record: NewBlog,
    id: i32,
    author_id: i32,
    story_id: Option<i32>,
    posted: (i64, u32),
) -> bool {
    &&& record.id == id
    &&& record.title@ == cleaned(data.title@)
    &&& record.content@ == trimmed(data.content@, true)
    &&& record.comments == data.num_comments
    &&& record.views == data.num_views
    &&& record.author_id == author_id
    &&& record.story_id == story_id
    &&& record.date_posted.seconds() == posted.0
    &&& record.date_posted.nanoseconds() == posted.1
}

/// What the cache keeps of a blog post that the API sent, by the author
/// with id `author_id` and tagging `story_id`: its title cleaned, its
/// content cut to a preview and cleaned. A post id that is no `i32` is
/// refused first, then an author id that is none, then a date that is no
/// RFC 3339 date and time.
pub fn blog_row(data: &BlogData, author_id: &str, story_id: Option<i32>) -> (r: Result<
    NewBlog,
    RecordError,
>)
    requires
        tag_pattern_valid(),
    ensures
        match (parse_i32(data.id@), parse_i32(author_id@), rfc3339_instant(data.date_posted@)) {
            (Some(id), Some(a), Some(posted)) => r matches Ok(b) && blog_record_of(
                *data,
                b,
                id,
                a,
                story_id,
                posted,
            ),
            (None, _, _) => r == Err::<NewBlog, RecordError>(RecordError::InvalidId),
            (Some(_), None, _) => r == Err::<NewBlog, RecordError>(RecordError::InvalidId),
            (Some(_), Some(_), None) => r == Err::<NewBlog, RecordError>(RecordError::InvalidDate),
        },
        r matches Ok(b) ==> b.comments == data.num_comments && b.views == data.num_views
            && b.story_id == story_id,
{
    let id = match parse_i32_of(data.id.as_str()) {
        Some(id) => id,
        None => return Err(RecordError::InvalidId),
    };
    let title = clean_content(data.title.clone());
    let content = trim_content(data.content.clone(), true);
    let author = match parse_i32_of(author_id) {
        Some(a) => a,
        None => return Err(RecordError::InvalidId),
    };
    let posted = match parse_rfc3339(data.date_posted.as_str()) {
        Ok(p) => p,
        Err(_) => return Err(RecordError::InvalidDate),
    };
    let date_posted = match Timestamp::new(posted.0, posted.1) {
        Some(t) => t,
        None => {
            proof {
                assert(false);
            }
            return Err(RecordError::InvalidDate);
        },
    };
    Ok(
        NewBlog {
            id,
            title,
            content,
            comments: data.num_comments,
            views: data.num_views,
            author_id: author,
            story_id,
            date_posted,
        },
    )
}

/// What the cache keeps of a blog post carries the API's counts each into
/// its own column, comments and views, with the ids it was given.
pub proof fn lemma_blog_record_counts(
    data: BlogData,
    record: NewBlog,
    id: i32,
    author_id: i32,
    story_id: Option<i32>,
    posted: (i64, u32),
)
    requires
        blog_record_of(data, record, id, author_id, story_id, posted),
    ensures
        record.comments == data.num_comments,
        record.views == data.num_views,
        record.id == id,
        record.author_id == author_id,
        record.story_id == story_id,
{
}

/// `blog_row`, or `None` where the tag pattern that cleaning needs does not
/// compile.
pub fn try_blog_row(data: &BlogData, author_id: &str, story_id: Option<i32>) -> (r: Option<
    Result<NewBlog, RecordError>,
>)
    ensures
        r is Some <==> tag_pattern_valid(),
        r matches Some(res) ==> match (
            parse_i32(data.id@),
            parse_i32(author_id@),
            rfc3339_instant(data.date_posted@),
        ) {
            (Some(id), Some(a), Some(posted)) => res matches Ok(b) && blog_record_of(
                *data,
                b,
                id,
                a,
                story_id,
                posted,
            ),
            (None, _, _) => res == Err::<NewBlog, RecordError>(RecordError::InvalidId),
            (Some(_), None, _) => res == Err::<NewBlog, RecordError>(RecordError::InvalidId),
            (Some(_), Some(_), None) => res == Err::<NewBlog, RecordError>(
                RecordError::InvalidDate,
            ),
        },
{
    if tag_pattern_compiles() {
        Some(blog_row(data, author_id, story_id))
    } else {
        None
    }
}

/// The API address of the blog post with `id`, with its author and the
/// fields that the cache keeps.
pub open spec fn blog_api_url(id: i32) -> Seq<char> {
    "https://www.fimfiction.net/api/v2/blog-posts/"@ + decimal(id as int)
        + "?include=author&fields[blog_post]=title,date_posted,content,num_views,num_comments,tagged_story"@
}

/// The API address of the blog post with `id`.
pub fn blog_api_address(id: i32) -> (r: String)
    ensures
        r@ == blog_api_url(id),
{
    let mut s = "https://www.fimfiction.net/api/v2/blog-posts/".to_owned();
    push_i32(&mut s, id);
    s.append(
        "?include=author&fields[blog_post]=title,date_posted,content,num_views,num_comments,tagged_story",
    );
    s
}

/// The Fimfiction page of a blog post, for the path of an embed request.
pub open spec fn blog_page_link(path: Seq<char>) -> Seq<char> {
    "https://www.fimfiction.net/blog/"@ + path
}

/// The Fimfiction page of a blog post, for the path of an embed request.
pub fn blog_link(path: &str) -> (r: String)
    ensures
        r@ == blog_page_link(path@),
{
    let mut s = "https://www.fimfiction.net/blog/".to_owned();
    s.append(path);
    s
}

} // verus!
