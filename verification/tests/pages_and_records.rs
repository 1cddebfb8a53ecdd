use fixfiction::blog::{
    blog_api_address, blog_html_template, blog_link, blog_row, tagged_story_id, try_blog_row,
    BlogData,
};
use fixfiction::story::{
    find_author, story_api_address, story_html_template, story_link, story_row, try_story_row,
    StoryData,
};
use fixfiction::structs::{
    Blog, Color, CompletionStatus, ContentRating, Cover, Parameters, RecordError, Story, Timestamp,
    User,
};
use fixfiction::user::{
    response_to_user, try_response_to_user, user_api_address, user_html_template, user_link,
    UserData,
};

const HEAD: &str = "<!DOCTYPE html><html lang=\"en\"><head><!-- FixFiction: https://github.com/SilkRose/FixFiction --><!-- Pinkie Pie is best pony! -->";
const TAIL: &str = "<meta property=\"twitter:site\" content=\"fimfiction\" /><meta property=\"twitter:card\" content=\"summary\" />";
const END: &str = "</head><body></body></html>";

fn ts(secs: i64) -> Timestamp {
    Timestamp::new(secs, 0).unwrap()
}

fn user() -> User {
    User {
        id: 1,
        name: "Silk Rose".to_string(),
        bio: "Pony writer".to_string(),
        link: "https://www.fimfiction.net/user/1/Silk+Rose".to_string(),
        followers: 12,
        stories: 3,
        blogs: 4,
        profile_pic_256: Some("https://cdn.example/pic.png".to_string()),
        color_hex: "ff00aa".to_string(),
        date_joined: ts(0),
        date_cached: ts(0),
    }
}

fn story() -> Story {
    Story {
        id: 42,
        title: "Cupcakes".to_string(),
        short_description: "A tale".to_string(),
        cover_medium_url: Some("https://cdn.example/cover.png".to_string()),
        color_hex: "123abc".to_string(),
        views: 1000,
        words: 5000,
        chapters: 2,
        comments: 7,
        completion_status: CompletionStatus::Complete,
        content_rating: ContentRating::Teen,
        likes: 10,
        dislikes: 1,
        author_id: 1,
        date_published: ts(1_700_000_000),
        date_cached: ts(1_700_000_000),
    }
}

fn blog() -> Blog {
    Blog {
        id: 5,
        title: "News".to_string(),
        content: "Hello".to_string(),
        comments: 3,
        views: 99,
        author_id: 1,
        story_id: None,
        date_posted: ts(1_700_000_000),
        date_cached: ts(1_700_000_000),
    }
}

fn meta(property: &str, content: &str) -> String {
    format!("<meta property=\"{property}\" content=\"{content}\" />")
}

fn links(link: &str) -> String {
    format!("<link rel=\"canonical\" href=\"{link}\" /><meta http-equiv=\"refresh\" content=\"0;url={link}\" />")
}

fn oembed(query: &str, title: &str) -> String {
    format!("<link rel=\"alternate\" type=\"application/json+oembed\" href=\"https://www.fixfiction.net/oembed?{query}\" title=\"{title}\" />")
}

fn site_name_of(page: &str) -> String {
    let start = page.find("og:site_name\" content=\"").unwrap() + "og:site_name\" content=\"".len();
    let rest = &page[start..];
    rest[..rest.find("\" />").unwrap()].to_string()
}

#[test]
fn user_page_without_options() {
    let link = "https://www.fimfiction.net/user/1/Silk+Rose";
    let page = user_html_template(user(), Parameters::default(), link.to_string());
    let expected = format!(
        "{HEAD}<meta name=\"theme-color\" content=\"#ff00aa\" />{}{}{}{}{}{}{}{}{TAIL}{}{END}",
        links(link),
        meta("og:title", "Silk Rose"),
        meta("og:description", "Pony writer"),
        meta("og:image", "https://cdn.example/pic.png"),
        meta("og:url", link),
        meta("og:type", "profile"),
        meta("profile:username", "Silk Rose"),
        meta("og:site_name", "Fimfiction"),
        oembed(
            "type=rich&version=1&provider_name=Fimfiction&provider_url=https%3A%2F%2Fwww.fimfiction.net%2F&title=Silk+Rose&cache_age=86400&html=",
            "Silk Rose"
        ),
    );
    assert_eq!(page, expected);
}

#[test]
fn user_page_with_options() {
    let p = Parameters {
        cover: Some(Cover::NoCover),
        color: Some(Color::Custom("abcdef".to_string())),
        refresh: false,
        stats: true,
    };
    let page = user_html_template(user(), p, "L".to_string());
    assert!(page.contains("<meta name=\"theme-color\" content=\"#abcdef\" />"));
    assert!(!page.contains("og:image"));
    assert_eq!(
        site_name_of(&page),
        "Fimfiction - Joined: Thu Jan  1 1970 📅\nStories: 3 📚 Blogs: 4 📑 Followers: 12 👥"
    );
    let story_cover = Parameters { cover: Some(Cover::Story), color: Some(Color::Story), refresh: false, stats: false };
    let page = user_html_template(user(), story_cover, "L".to_string());
    assert!(page.contains(&meta("og:image", "https://cdn.example/pic.png")));
    assert!(page.contains("content=\"#ff00aa\""));
    let no_color = Parameters { cover: None, color: Some(Color::NoColor), refresh: false, stats: false };
    assert!(!user_html_template(user(), no_color, "L".to_string()).contains("theme-color"));
}

#[test]
fn story_page_without_options() {
    let link = "https://www.fimfiction.net/story/42/cupcakes";
    let page = story_html_template(story(), user(), Parameters::default(), link.to_string());
    let expected = format!(
        "{HEAD}<meta name=\"theme-color\" content=\"#123abc\" />{}{}{}{}{}{}{}{}{TAIL}{}{END}",
        links(link),
        meta("og:title", "Cupcakes"),
        meta("og:description", "A tale"),
        meta("og:image", "https://cdn.example/cover.png"),
        meta("og:url", link),
        meta("og:type", "book"),
        meta("book:author", "https://www.fimfiction.net/user/1/Silk+Rose"),
        meta("og:site_name", "Fimfiction"),
        oembed(
            "type=rich&version=1&provider_name=Fimfiction&provider_url=https%3A%2F%2Fwww.fimfiction.net%2F&title=Cupcakes&author_name=Silk+Rose&author_url=https%3A%2F%2Fwww.fimfiction.net%2Fuser%2F1%2FSilk%2BRose&cache_age=86400&html=",
            "Silk Rose"
        ),
    );
    assert_eq!(page, expected);
}

#[test]
fn story_page_with_stats() {
    let p = Parameters { cover: Some(Cover::User), color: Some(Color::User), refresh: false, stats: true };
    let page = story_html_template(story(), user(), p, "L".to_string());
    assert_eq!(
        site_name_of(&page),
        "Fimfiction - Published: Tue Nov 14 2023 📅 Status: Complete ✅\nRating: Teen 🇹 Likes: 10 👍 Dislikes: 1 👎 Views: 1000 📈\nComments: 7 💬 Chapters: 2 📖 Words: 5000 📝"
    );
    assert!(page.contains(&meta("og:image", "https://cdn.example/pic.png")));
    assert!(page.contains("content=\"#ff00aa\""));
    assert!(page.contains("provider_name=Fimfiction+-+Published%3A+Tue+Nov+14+2023"));
}

#[test]
fn story_page_hides_missing_likes() {
    let mut s = story();
    s.likes = -1;
    s.dislikes = -1;
    s.completion_status = CompletionStatus::Hiatus;
    s.content_rating = ContentRating::Everyone;
    let p = Parameters { cover: None, color: None, refresh: false, stats: true };
    let page = story_html_template(s, user(), p, "L".to_string());
    assert_eq!(
        site_name_of(&page),
        "Fimfiction - Published: Tue Nov 14 2023 📅 Status: Hiatus ⏸\nRating: Everyone 🇪 Views: 1000 📈\nComments: 7 💬 Chapters: 2 📖 Words: 5000 📝"
    );
}

#[test]
fn story_page_without_cover() {
    let mut s = story();
    s.cover_medium_url = None;
    let page = story_html_template(s, user(), Parameters::default(), "L".to_string());
    assert!(!page.contains("og:image"));
}

#[test]
fn blog_page_without_story() {
    let link = "https://www.fimfiction.net/blog/5/news";
    let p = Parameters { cover: Some(Cover::Story), color: Some(Color::Story), refresh: false, stats: false };
    let page = blog_html_template(blog(), user(), None, p, link.to_string());
    let expected = format!(
        "{HEAD}<meta name=\"theme-color\" content=\"#ff00aa\" />{}{}{}{}{}{}{}{}{}{TAIL}{}{END}",
        links(link),
        meta("og:title", "News"),
        meta("og:description", "Hello"),
        meta("og:image", "https://cdn.example/pic.png"),
        meta("og:url", link),
        meta("og:type", "article"),
        meta("article:author", "https://www.fimfiction.net/user/1/Silk+Rose"),
        meta("article:published_time", "2023-11-14 22:13:20 UTC"),
        meta("og:site_name", "Fimfiction"),
        oembed(
            "type=rich&version=1&provider_name=Fimfiction&provider_url=https%3A%2F%2Fwww.fimfiction.net%2F&title=News&author_name=Silk+Rose&author_url=https%3A%2F%2Fwww.fimfiction.net%2Fuser%2F1%2FSilk%2BRose&cache_age=86400&html=",
            "Silk Rose"
        ),
    );
    assert_eq!(page, expected);
}

#[test]
fn blog_page_with_story() {
    let p = Parameters { cover: Some(Cover::Story), color: Some(Color::Story), refresh: false, stats: true };
    let page = blog_html_template(blog(), user(), Some(story()), p, "L".to_string());
    assert!(page.contains("content=\"#123abc\""));
    assert!(page.contains(&meta("og:image", "https://cdn.example/cover.png")));
    assert_eq!(site_name_of(&page), "Fimfiction - Posted: Tue Nov 14 2023 📅\nViews: 99 📈 Comments: 3 💬");
    let page = blog_html_template(blog(), user(), Some(story()), Parameters::default(), "L".to_string());
    assert!(page.contains("content=\"#ff00aa\""));
    assert!(page.contains(&meta("og:image", "https://cdn.example/pic.png")));
}

#[test]
fn pages_ignore_refresh() {
    let p = Parameters { cover: Some(Cover::User), color: None, refresh: false, stats: true };
    let q = Parameters { cover: Some(Cover::User), color: None, refresh: true, stats: true };
    assert_eq!(
        story_html_template(story(), user(), p.clone(), "L".to_string()),
        story_html_template(story(), user(), q.clone(), "L".to_string())
    );
    assert_eq!(
        user_html_template(user(), p.clone(), "L".to_string()),
        user_html_template(user(), q.clone(), "L".to_string())
    );
    assert_eq!(
        blog_html_template(blog(), user(), None, p, "L".to_string()),
        blog_html_template(blog(), user(), None, q, "L".to_string())
    );
}

fn user_data() -> UserData {
    UserData {
        id: "1".to_string(),
        name: "[b]Silk[/b] \"Rose\"".to_string(),
        bio: "Writes [i]ponies[/i]".to_string(),
        url: "https://www.fimfiction.net/user/1/Silk+Rose".to_string(),
        num_followers: 12,
        num_stories: 3,
        num_blog_posts: 4,
        avatar_r64: "https://static.fimfiction.net/images/none_64.png".to_string(),
        avatar_r256: "https://static.fimfiction.net/images/none_256.png".to_string(),
        color_hex: "##ff00aa".to_string(),
        date_joined: "2023-11-14T23:13:20+01:00".to_string(),
    }
}

#[test]
fn user_record_from_api() {
    let u = response_to_user(&user_data()).unwrap();
    assert_eq!(u.id, 1);
    assert_eq!(u.name, "Silk &quot;Rose&quot;");
    assert_eq!(u.bio, "Writes ponies");
    assert_eq!(u.link, "https://www.fimfiction.net/user/1/Silk+Rose");
    assert_eq!((u.followers, u.stories, u.blogs), (12, 3, 4));
    assert_eq!(u.profile_pic_256, None);
    assert_eq!(u.color_hex, "ff00aa");
    assert_eq!((u.date_joined.secs(), u.date_joined.nanos()), (1_700_000_000, 0));
}

#[test]
fn user_record_keeps_real_avatar() {
    let mut d = user_data();
    d.avatar_r64 = "https://cdn.example/a64.png".to_string();
    d.avatar_r256 = "https://cdn.example/a256.png".to_string();
    let u = try_response_to_user(&d).unwrap().unwrap();
    assert_eq!(u.profile_pic_256, Some("https://cdn.example/a256.png".to_string()));
}

#[test]
fn user_record_errors() {
    let mut d = user_data();
    d.id = "one".to_string();
    d.date_joined = "yesterday".to_string();
    assert_eq!(response_to_user(&d).unwrap_err(), RecordError::InvalidId);
    let mut d = user_data();
    d.date_joined = "2023-11-14 22:13:20".to_string();
    assert_eq!(response_to_user(&d).unwrap_err(), RecordError::InvalidDate);
}

fn story_data() -> StoryData {
    StoryData {
        title: "[b]Cupcakes[/b]".to_string(),
        short_description: "A \"tale\"".to_string(),
        cover_medium: Some("https://cdn.example/cover.png".to_string()),
        color_hex: "#123abc".to_string(),
        num_views: 1000,
        num_words: 5000,
        num_chapters: 2,
        num_comments: 7,
        completion_status: "hiatus".to_string(),
        content_rating: "mature".to_string(),
        num_likes: -1,
        num_dislikes: -1,
        date_published: Some("2023-11-14T22:13:20.5Z".to_string()),
    }
}

#[test]
fn story_record_from_api() {
    let s = story_row(42, &story_data(), 1).unwrap();
    assert_eq!(s.id, 42);
    assert_eq!(s.title, "Cupcakes");
    assert_eq!(s.short_description, "A &quot;tale&quot;");
    assert_eq!(s.cover_medium_url, Some("https://cdn.example/cover.png".to_string()));
    assert_eq!(s.color_hex, "123abc");
    assert_eq!((s.views, s.words, s.chapters, s.comments), (1000, 5000, 2, 7));
    assert_eq!(s.completion_status, CompletionStatus::Hiatus);
    assert_eq!(s.content_rating, ContentRating::Mature);
    assert_eq!((s.likes, s.dislikes, s.author_id), (-1, -1, 1));
    assert_eq!((s.date_published.secs(), s.date_published.nanos()), (1_700_000_000, 500_000_000));
}

#[test]
fn story_record_refuses_bad_date() {
    let mut d = story_data();
    d.date_published = Some("14 Nov 2023".to_string());
    assert_eq!(try_story_row(42, &d, 1).unwrap().unwrap_err(), RecordError::InvalidDate);
}

#[test]
fn find_author_takes_first_match() {
    let mut a = user_data();
    a.id = "7".to_string();
    let mut b = user_data();
    b.id = "8".to_string();
    let included = vec![a.clone(), b.clone(), b];
    assert_eq!(find_author(&included, "8"), Some(1));
    assert_eq!(find_author(&included, "7"), Some(0));
    assert_eq!(find_author(&included, "9"), None);
    assert_eq!(find_author(&Vec::new(), "7"), None);
}

#[test]
fn tagged_story_ids() {
    assert_eq!(tagged_story_id("0"), Ok(None));
    assert_eq!(tagged_story_id("123"), Ok(Some(123)));
    assert_eq!(tagged_story_id("00"), Ok(Some(0)));
    assert_eq!(tagged_story_id("x"), Err(RecordError::InvalidId));
}

fn blog_data() -> BlogData {
    BlogData {
        id: "5".to_string(),
        title: "[u]News[/u]".to_string(),
        content: format!("[b]{}[/b]\n{}", "a".repeat(300), "b".repeat(300)),
        num_comments: 3,
        num_views: 99,
        date_posted: "2023-11-14T22:13:20Z".to_string(),
    }
}

#[test]
fn blog_record_from_api() {
    let b = blog_row(&blog_data(), "1", Some(42)).unwrap();
    assert_eq!(b.id, 5);
    assert_eq!(b.title, "News");
    assert_eq!(b.content, "a".repeat(300));
    assert_eq!((b.comments, b.views, b.author_id, b.story_id), (3, 99, 1, Some(42)));
    assert_eq!((b.date_posted.secs(), b.date_posted.nanos()), (1_700_000_000, 0));
}

#[test]
fn blog_record_errors() {
    let mut d = blog_data();
    d.id = "five".to_string();
    assert_eq!(blog_row(&d, "1", None).unwrap_err(), RecordError::InvalidId);
    assert_eq!(try_blog_row(&blog_data(), "x", None).unwrap().unwrap_err(), RecordError::InvalidId);
    let mut d = blog_data();
    d.date_posted = "then".to_string();
    assert_eq!(blog_row(&d, "1", None).unwrap_err(), RecordError::InvalidDate);
}

#[test]
fn api_addresses_and_links() {
    assert_eq!(story_api_address(42), "https://www.fimfiction.net/api/v2/stories/42");
    assert_eq!(user_api_address(-3), "https://www.fimfiction.net/api/v2/users/-3");
    assert_eq!(
        blog_api_address(5),
        "https://www.fimfiction.net/api/v2/blog-posts/5?include=author&fields[blog_post]=title,date_posted,content,num_views,num_comments,tagged_story"
    );
    assert_eq!(story_link("42/cupcakes"), "https://www.fimfiction.net/story/42/cupcakes");
    assert_eq!(user_link("1/Silk+Rose"), "https://www.fimfiction.net/user/1/Silk+Rose");
    assert_eq!(blog_link("5/news"), "https://www.fimfiction.net/blog/5/news");
}
