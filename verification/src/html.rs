//! The pieces of HTML that every embed page is made of.

use vstd::prelude::*;

verus! {

/// The opening of a page, up to and including two comments in its head.
pub open spec fn page_head() -> Seq<char> {
    "<!DOCTYPE html><html lang=\"en\"><head>"@ + "<!-- FixFiction: https://github.com/SilkRose/FixFiction -->"@
        + "<!-- Pinkie Pie is best pony! -->"@
}

/// The theme color of a page, where it has one.
pub open spec fn theme_color_tag(color: Option<Seq<char>>) -> Seq<char> {
    match color {
        Some(c) => "<meta name=\"theme-color\" content=\"#"@ + c + "\" />"@,
        None => seq![],
    }
}

/// The canonical link of a page.
pub open spec fn canonical_tag(link: Seq<char>) -> Seq<char> {
    "<link rel=\"canonical\" href=\""@ + link + "\" />"@
}

/// The instruction to move on to `link` at once.
pub open spec fn refresh_tag(link: Seq<char>) -> Seq<char> {
    "<meta http-equiv=\"refresh\" content=\"0;url="@ + link + "\" />"@
}

/// A `meta` element with a property and its content.
pub open spec fn meta_property(property: Seq<char>, content: Seq<char>) -> Seq<char> {
    "<meta property=\""@ + property + "\" content=\""@ + content + "\" />"@
}

/// The picture of a page, where it has one.
pub open spec fn image_tag(cover: Option<Seq<char>>) -> Seq<char> {
    match cover {
        Some(c) => meta_property("og:image"@, c),
        None => seq![],
    }
}

/// The Twitter card properties that every page carries.
pub open spec fn twitter_tags() -> Seq<char> {
    meta_property("twitter:site"@, "fimfiction"@) + meta_property("twitter:card"@, "summary"@)
}

/// The link to the oEmbed answer for a page, with its query string and
/// title.
pub open spec fn oembed_tag(query: Seq<char>, title: Seq<char>) -> Seq<char> {
    "<link rel=\"alternate\" type=\"application/json+oembed\" href=\"https://www.fixfiction.net/oembed?"@
        + query + "\" title=\""@ + title + "\" />"@
}

/// The end of a page.
pub open spec fn page_end() -> Seq<char> {
    "</head><body></body></html>"@
}

/// Appends the opening of a page.
pub fn push_page_head(text: &mut String)
    ensures
        final(text)@ == old(text)@ + page_head(),
{
    text.append("<!DOCTYPE html><html lang=\"en\"><head>");
    text.append("<!-- FixFiction: https://github.com/SilkRose/FixFiction -->");
    text.append("<!-- Pinkie Pie is best pony! -->");
    assert(final(text)@ =~= old(text)@ + page_head());
}

/// Appends the theme color, where there is one.
pub fn push_theme_color(text: &mut String, color: &Option<String>)
    ensures
        final(text)@ == old(text)@ + theme_color_tag(opt_view(*color)),
{
    match color {
        Some(c) => {
            text.append("<meta name=\"theme-color\" content=\"#");
            text.append(c.as_str());
            text.append("\" />");
            assert(final(text)@ =~= old(text)@ + ("<meta name=\"theme-color\" content=\"#"@ + c@
                + "\" />"@));
        },
        None => {
            assert(final(text)@ =~= old(text)@ + Seq::<char>::empty());
        },
    }
}

/// Appends the canonical link and the instruction to move on to it.
pub fn push_link_tags(text: &mut String, link: &str)
    ensures
        final(text)@ == old(text)@ + canonical_tag(link@) + refresh_tag(link@),
{
    text.append("<link rel=\"canonical\" href=\"");
    text.append(link);
    text.append("\" />");
    text.append("<meta http-equiv=\"refresh\" content=\"0;url=");
    text.append(link);
    text.append("\" />");
    assert(final(text)@ =~= old(text)@ + canonical_tag(link@) + refresh_tag(link@));
}

/// Appends a `meta` element with a property and its content.
pub fn push_meta_property(text: &mut String, property: &str, content: &str)
    ensures
        final(text)@ == old(text)@ + meta_property(property@, content@),
{
    text.append("<meta property=\"");
    text.append(property);
    text.append("\" content=\"");
    text.append(content);
    text.append("\" />");
    assert(final(text)@ =~= old(text)@ + meta_property(property@, content@));
}

/// Appends the picture of a page, where there is one.
pub fn push_image(text: &mut String, cover: &Option<String>)
    ensures
        final(text)@ == old(text)@ + image_tag(opt_view(*cover)),
{
    match cover {
        Some(c) => push_meta_property(text, "og:image", c.as_str()),
        None => {
            assert(final(text)@ =~= old(text)@ + Seq::<char>::empty());
        },
    }
}

/// Appends the Twitter card properties, the oEmbed link and the end of the
/// page.
pub fn push_page_tail(text: &mut String, query: &str, title: &str)
    ensures
        final(text)@ == old(text)@ + twitter_tags() + oembed_tag(query@, title@) + page_end(),
{
    push_meta_property(text, "twitter:site", "fimfiction");
    push_meta_property(text, "twitter:card", "summary");
    text.append(
        "<link rel=\"alternate\" type=\"application/json+oembed\" href=\"https://www.fixfiction.net/oembed?",
    );
    text.append(query);
    text.append("\" title=\"");
    text.append(title);
    text.append("\" />");
    text.append("</head><body></body></html>");
    assert(final(text)@ =~= old(text)@ + twitter_tags() + oembed_tag(query@, title@) + page_end());
}

/// The optional text of an optional string.
pub open spec fn opt_view(o: Option<String>) -> Option<Seq<char>> {
    match o {
        Some(s) => Some(s@),
        None => None,
    }
}

} // verus!
