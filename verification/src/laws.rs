//! What holds across the pages that this library writes.

use vstd::prelude::*;
use crate::blog::{blog_color, blog_cover, blog_page, blog_page_from};
use crate::html::{
    canonical_tag, image_tag, meta_property, oembed_tag, page_end, page_head, theme_color_tag,
    twitter_tags,
};
use crate::story::{story_color, story_cover, story_page, story_page_from};
use crate::structs::{Blog, Color, Cover, Parameters, Story, User};
use crate::user::{user_color, user_cover, user_page, user_page_from};

verus! {

/// Whether a request asks to refresh the cache changes nothing on the page
/// it gets: two requests that differ only there are answered with the same
/// story, user and blog pages.
pub proof fn lemma_pages_ignore_refresh(
    story: Story,
    user: User,
    blog: Blog,
    tagged: Option<Story>,
    p: Parameters,
    q: Parameters,
    link: Seq<char>,
)
    requires
        p.cover == q.cover,
        p.color == q.color,
        p.stats == q.stats,
    ensures
        story_page(story, user, p, link) == story_page(story, user, q, link),
        user_page(user, p, link) == user_page(user, q, link),
        blog_page(blog, user, tagged, p, link) == blog_page(blog, user, tagged, q, link),
{
}


/// The theme-color tag of a page whose color is `c`.
pub open spec fn theme_tag_for(c: Seq<char>) -> Seq<char> {
    "<meta name=\"theme-color\" content=\"#"@ + c + "\" />"@
}

/// The picture tag of a page whose picture is `pic`.
pub open spec fn image_tag_for(pic: Seq<char>) -> Seq<char> {
    meta_property("og:image"@, pic)
}

/// `page` goes on with `part` right after its head.
pub open spec fn follows_head(page: Seq<char>, part: Seq<char>) -> bool {
    &&& page.len() >= page_head().len() + part.len()
    &&& page.subrange(page_head().len() as int, (page_head().len() + part.len()) as int) == part
}

/// `page` ends with `end`.
pub open spec fn ends_with(page: Seq<char>, end: Seq<char>) -> bool {
    page.len() >= end.len() && page.subrange(page.len() - end.len(), page.len() as int) == end
}

/// The end of a story page, from its `og:url` tag on.
pub open spec fn story_tail(user: User, link: Seq<char>, site_name: Seq<char>, query: Seq<char>) -> Seq<
    char,
> {
    meta_property("og:url"@, link) + meta_property("og:type"@, "book"@) + meta_property(
        "book:author"@,
        user.link@,
    ) + meta_property("og:site_name"@, site_name) + twitter_tags() + oembed_tag(query, user.name@)
        + page_end()
}

/// The end of a user page, from its `og:url` tag on.
pub open spec fn user_tail(user: User, link: Seq<char>, site_name: Seq<char>, query: Seq<char>) -> Seq<
    char,
> {
    meta_property("og:url"@, link) + meta_property("og:type"@, "profile"@) + meta_property(
        "profile:username"@,
        user.name@,
    ) + meta_property("og:site_name"@, site_name) + twitter_tags() + oembed_tag(query, user.name@)
        + page_end()
}

/// The end of a blog page, from its `og:url` tag on.
pub open spec fn blog_tail(
    user: User,
    link: Seq<char>,
    published: Seq<char>,
    site_name: Seq<char>,
    query: Seq<char>,
) -> Seq<char> {
    meta_property("og:url"@, link) + meta_property("og:type"@, "article"@) + meta_property(
        "article:author"@,
        user.link@,
    ) + meta_property("article:published_time"@, published) + meta_property(
        "og:site_name"@,
        site_name,
    ) + twitter_tags() + oembed_tag(query, user.name@) + page_end()
}

/// The part after the head of a story page is the theme-color tag of the
/// color it chose, then the canonical link.
proof fn story_after_head(
    story: Story,
    user: User,
    p: Parameters,
    link: Seq<char>,
    site_name: Seq<char>,
    query: Seq<char>,
    part: Seq<char>,
)
    requires
        part == theme_color_tag(story_color(story, user, p.color)) + canonical_tag(link),
    ensures
        follows_head(story_page_from(story, user, p, link, site_name, query), part),
{
    let page = story_page_from(story, user, p, link, site_name, query);
    let h = page_head().len() as int;
    assert(page.subrange(h, h + part.len()) =~= part);
}

/// The end of a story page is its description, the picture tag of the
/// picture it chose, and its tail.
proof fn story_end(
    story: Story,
    user: User,
    p: Parameters,
    link: Seq<char>,
    site_name: Seq<char>,
    query: Seq<char>,
    end: Seq<char>,
)
    requires
        end == meta_property("og:description"@, story.short_description@) + image_tag(
            story_cover(story, user, p.cover),
        ) + story_tail(user, link, site_name, query),
    ensures
        ends_with(story_page_from(story, user, p, link, site_name, query), end),
{
    let page = story_page_from(story, user, p, link, site_name, query);
    assert(page.subrange(page.len() - end.len(), page.len() as int) =~= end);
}

/// `part` begins with `first`.
proof fn follows_head_prefix(page: Seq<char>, part: Seq<char>, first: Seq<char>)
    requires
        follows_head(page, part),
        first.len() <= part.len(),
        part.subrange(0, first.len() as int) == first,
    ensures
        follows_head(page, first),
{
    let h = page_head().len() as int;
    assert(page.subrange(h, h + first.len()) =~= part.subrange(0, first.len() as int));
}

/// The theme color of a story page: a custom color `c` gives `#c` whatever
/// the story's and the user's colors; no color gives no theme-color tag, so
/// the canonical link follows the head; the user color is the user's; the
/// story color, and no choice at all, are the story's.
pub proof fn lemma_story_theme_color(
    story: Story,
    user: User,
    p: Parameters,
    link: Seq<char>,
    site_name: Seq<char>,
    query: Seq<char>,
)
    ensures
        ({
            let page = story_page_from(story, user, p, link, site_name, query);
            &&& p.color matches Some(Color::Custom(c)) ==> follows_head(page, theme_tag_for(c@))
            &&& p.color matches Some(Color::NoColor) ==> follows_head(
                page,
                "<link rel=\"canonical\" href=\""@ + link + "\" />"@,
            )
            &&& p.color matches Some(Color::User) ==> follows_head(
                page,
                theme_tag_for(user.color_hex@),
            )
            &&& (p.color is None || p.color matches Some(Color::Story)) ==> follows_head(
                page,
                theme_tag_for(story.color_hex@),
            )
        }),
{
    let page = story_page_from(story, user, p, link, site_name, query);
    let part = theme_color_tag(story_color(story, user, p.color)) + canonical_tag(link);
    story_after_head(story, user, p, link, site_name, query, part);
    let first = match p.color {
        Some(Color::Custom(c)) => theme_tag_for(c@),
        Some(Color::NoColor) => "<link rel=\"canonical\" href=\""@ + link + "\" />"@,
        Some(Color::User) => theme_tag_for(user.color_hex@),
        _ => theme_tag_for(story.color_hex@),
    };
    assert(part.subrange(0, first.len() as int) =~= first);
    follows_head_prefix(page, part, first);
}

/// The picture of a story page: asked for none, the description is followed
/// directly by the `og:url` tag; the user cover shows the user's picture,
/// and the story cover, or no choice at all, the story's cover, each right
/// between the description and the `og:url` tag where there is one.
pub proof fn lemma_story_picture(
    story: Story,
    user: User,
    p: Parameters,
    link: Seq<char>,
    site_name: Seq<char>,
    query: Seq<char>,
)
    ensures
        ({
            let page = story_page_from(story, user, p, link, site_name, query);
            let d = meta_property("og:description"@, story.short_description@);
            let t = story_tail(user, link, site_name, query);
            &&& p.cover matches Some(Cover::NoCover) ==> ends_with(page, d + t)
            &&& p.cover matches Some(Cover::User) ==> match user.profile_pic_256 {
                Some(x) => ends_with(page, d + image_tag_for(x@) + t),
                None => ends_with(page, d + t),
            }
            &&& (p.cover is None || p.cover matches Some(Cover::Story)) ==> match story.cover_medium_url {
                Some(x) => ends_with(page, d + image_tag_for(x@) + t),
                None => ends_with(page, d + t),
            }
        }),
{
    let d = meta_property("og:description"@, story.short_description@);
    let t = story_tail(user, link, site_name, query);
    let end = d + image_tag(story_cover(story, user, p.cover)) + t;
    story_end(story, user, p, link, site_name, query, end);
    match story_cover(story, user, p.cover) {
        Some(x) => {
            assert(end =~= d + image_tag_for(x) + t);
        },
        None => {
            assert(end =~= d + t);
        },
    }
}


/// The part after the head of a user page is the theme-color tag of the
/// color it chose, then the canonical link.
proof fn user_after_head(
    user: User,
    p: Parameters,
    link: Seq<char>,
    site_name: Seq<char>,
    query: Seq<char>,
    part: Seq<char>,
)
    requires
        part == theme_color_tag(user_color(user, p.color)) + canonical_tag(link),
    ensures
        follows_head(user_page_from(user, p, link, site_name, query), part),
{
    let page = user_page_from(user, p, link, site_name, query);
    let h = page_head().len() as int;
    assert(page.subrange(h, h + part.len()) =~= part);
}

/// The end of a user page is its description, the picture tag of the
/// picture it chose, and its tail.
proof fn user_end(
    user: User,
    p: Parameters,
    link: Seq<char>,
    site_name: Seq<char>,
    query: Seq<char>,
    end: Seq<char>,
)
    requires
        end == meta_property("og:description"@, user.bio@) + image_tag(user_cover(user, p.cover))
            + user_tail(user, link, site_name, query),
    ensures
        ends_with(user_page_from(user, p, link, site_name, query), end),
{
    let page = user_page_from(user, p, link, site_name, query);
    assert(page.subrange(page.len() - end.len(), page.len() as int) =~= end);
}

/// The theme color of a user page: a custom color `c` gives `#c` whatever
/// the user's color; no color gives no theme-color tag, so the canonical
/// link follows the head; any other choice, or none, gives the user's
/// color.
pub proof fn lemma_user_theme_color(
    user: User,
    p: Parameters,
    link: Seq<char>,
    site_name: Seq<char>,
    query: Seq<char>,
)
    ensures
        ({
            let page = user_page_from(user, p, link, site_name, query);
            &&& p.color matches Some(Color::Custom(c)) ==> follows_head(page, theme_tag_for(c@))
            &&& p.color matches Some(Color::NoColor) ==> follows_head(
                page,
                "<link rel=\"canonical\" href=\""@ + link + "\" />"@,
            )
            &&& (p.color is None || p.color matches Some(Color::Story) || p.color matches Some(
                Color::User,
            )) ==> follows_head(page, theme_tag_for(user.color_hex@))
        }),
{
    let page = user_page_from(user, p, link, site_name, query);
    let part = theme_color_tag(user_color(user, p.color)) + canonical_tag(link);
    user_after_head(user, p, link, site_name, query, part);
    let first = match p.color {
        Some(Color::Custom(c)) => theme_tag_for(c@),
        Some(Color::NoColor) => "<link rel=\"canonical\" href=\""@ + link + "\" />"@,
        _ => theme_tag_for(user.color_hex@),
    };
    assert(part.subrange(0, first.len() as int) =~= first);
    follows_head_prefix(page, part, first);
}

/// The picture of a user page: asked for none, the description is followed
/// directly by the `og:url` tag; for any other choice, or none, the user's
/// profile picture stands right between them where the user has one.
pub proof fn lemma_user_picture(
    user: User,
    p: Parameters,
    link: Seq<char>,
    site_name: Seq<char>,
    query: Seq<char>,
)
    ensures
        ({
            let page = user_page_from(user, p, link, site_name, query);
            let d = meta_property("og:description"@, user.bio@);
            let t = user_tail(user, link, site_name, query);
            &&& p.cover matches Some(Cover::NoCover) ==> ends_with(page, d + t)
            &&& !(p.cover matches Some(Cover::NoCover)) ==> match user.profile_pic_256 {
                Some(x) => ends_with(page, d + image_tag_for(x@) + t),
                None => ends_with(page, d + t),
            }
        }),
{
    let d = meta_property("og:description"@, user.bio@);
    let t = user_tail(user, link, site_name, query);
    let end = d + image_tag(user_cover(user, p.cover)) + t;
    user_end(user, p, link, site_name, query, end);
    match user_cover(user, p.cover) {
        Some(x) => {
            assert(end =~= d + image_tag_for(x) + t);
        },
        None => {
            assert(end =~= d + t);
        },
    }
}

/// The part after the head of a blog page is the theme-color tag of the
/// color it chose, then the canonical link.
proof fn blog_after_head(
    blog: Blog,
    user: User,
    story: Option<Story>,
    p: Parameters,
    link: Seq<char>,
    published: Seq<char>,
    site_name: Seq<char>,
    query: Seq<char>,
    part: Seq<char>,
)
    requires
        part == theme_color_tag(blog_color(user, story, p.color)) + canonical_tag(link),
    ensures
        follows_head(
            blog_page_from(blog, user, story, p, link, published, site_name, query),
            part,
        ),
{
    let page = blog_page_from(blog, user, story, p, link, published, site_name, query);
    let h = page_head().len() as int;
    assert(page.subrange(h, h + part.len()) =~= part);
}

/// The end of a blog page is its description, the picture tag of the
/// picture it chose, and its tail.
proof fn blog_end(
    blog: Blog,
    user: User,
    story: Option<Story>,
    p: Parameters,
    link: Seq<char>,
    published: Seq<char>,
    site_name: Seq<char>,
    query: Seq<char>,
    end: Seq<char>,
)
    requires
        end == meta_property("og:description"@, blog.content@) + image_tag(
            blog_cover(user, story, p.cover),
        ) + blog_tail(user, link, published, site_name, query),
    ensures
        ends_with(blog_page_from(blog, user, story, p, link, published, site_name, query), end),
{
    let page = blog_page_from(blog, user, story, p, link, published, site_name, query);
    assert(page.subrange(page.len() - end.len(), page.len() as int) =~= end);
}

/// The theme color of a blog page: a custom color `c` gives `#c` whatever
/// the records' colors; no color gives no theme-color tag, so the canonical
/// link follows the head; the story color is the tagged story's, or the
/// user's where the post tags none; the user color, and no choice at all,
/// are the user's.
pub proof fn lemma_blog_theme_color(
    blog: Blog,
    user: User,
    story: Option<Story>,
    p: Parameters,
    link: Seq<char>,
    published: Seq<char>,
    site_name: Seq<char>,
    query: Seq<char>,
)
    ensures
        ({
            let page = blog_page_from(blog, user, story, p, link, published, site_name, query);
            &&& p.color matches Some(Color::Custom(c)) ==> follows_head(page, theme_tag_for(c@))
            &&& p.color matches Some(Color::NoColor) ==> follows_head(
                page,
                "<link rel=\"canonical\" href=\""@ + link + "\" />"@,
            )
            &&& p.color matches Some(Color::Story) ==> follows_head(
                page,
                theme_tag_for(
                    match story {
                        Some(s) => s.color_hex@,
                        None => user.color_hex@,
                    },
                ),
            )
            &&& (p.color is None || p.color matches Some(Color::User)) ==> follows_head(
                page,
                theme_tag_for(user.color_hex@),
            )
        }),
{
    let page = blog_page_from(blog, user, story, p, link, published, site_name, query);
    let part = theme_color_tag(blog_color(user, story, p.color)) + canonical_tag(link);
    blog_after_head(blog, user, story, p, link, published, site_name, query, part);
    let first = match p.color {
        Some(Color::Custom(c)) => theme_tag_for(c@),
        Some(Color::NoColor) => "<link rel=\"canonical\" href=\""@ + link + "\" />"@,
        Some(Color::Story) => theme_tag_for(
            match story {
                Some(s) => s.color_hex@,
                None => user.color_hex@,
            },
        ),
        _ => theme_tag_for(user.color_hex@),
    };
    assert(part.subrange(0, first.len() as int) =~= first);
    follows_head_prefix(page, part, first);
}

/// The picture of a blog page: asked for none, the description is followed
/// directly by the `og:url` tag; the story cover shows the tagged story's
/// cover, or the user's picture where the post tags no story; the user
/// cover, and no choice at all, show the user's picture; each stands right
/// between the description and the `og:url` tag where there is one.
pub proof fn lemma_blog_picture(
    blog: Blog,
    user: User,
    story: Option<Story>,
    p: Parameters,
    link: Seq<char>,
    published: Seq<char>,
    site_name: Seq<char>,
    query: Seq<char>,
)
    ensures
        ({
            let page = blog_page_from(blog, user, story, p, link, published, site_name, query);
            let d = meta_property("og:description"@, blog.content@);
            let t = blog_tail(user, link, published, site_name, query);
            let chosen = match p.cover {
                Some(Cover::NoCover) => None,
                Some(Cover::Story) => match story {
                    Some(s) => s.cover_medium_url,
                    None => user.profile_pic_256,
                },
                _ => user.profile_pic_256,
            };
            &&& p.cover matches Some(Cover::NoCover) ==> ends_with(page, d + t)
            &&& match chosen {
                Some(x) => ends_with(page, d + image_tag_for(x@) + t),
                None => ends_with(page, d + t),
            }
        }),
{
    let d = meta_property("og:description"@, blog.content@);
    let t = blog_tail(user, link, published, site_name, query);
    let end = d + image_tag(blog_cover(user, story, p.cover)) + t;
    blog_end(blog, user, story, p, link, published, site_name, query, end);
    match blog_cover(user, story, p.cover) {
        Some(x) => {
            assert(end =~= d + image_tag_for(x) + t);
        },
        None => {
            assert(end =~= d + t);
        },
    }
}

} // verus!
