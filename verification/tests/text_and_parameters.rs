use fixfiction::structs::{Color, CompletionStatus, ContentRating, Cover, Parameters, Timestamp};
use fixfiction::text::{
    ends_with, escape_quotes_in, first_segment_of, join_first_lines, parse_i32_of, push_i32,
    split_lines, trim_leading_hashes,
};
use fixfiction::utility::{
    clean_content, color_lookup_name, parse_parameters, tag_pattern_compiles, trim_content,
    try_clean_content, try_trim_content, use_cached,
};

fn params(color: Option<Color>) -> Parameters {
    Parameters { cover: None, color, refresh: false, stats: false }
}

fn custom(p: &Parameters) -> Option<String> {
    match &p.color {
        Some(Color::Custom(c)) => Some(c.clone()),
        _ => None,
    }
}

#[test]
fn content_rating_from_names() {
    assert_eq!(ContentRating::from("everyone".to_string()), ContentRating::Everyone);
    assert_eq!(ContentRating::from("teen".to_string()), ContentRating::Teen);
    assert_eq!(ContentRating::from("mature".to_string()), ContentRating::Mature);
}

#[test]
fn completion_status_from_names() {
    assert_eq!(CompletionStatus::from("incomplete".to_string()), CompletionStatus::Incomplete);
    assert_eq!(CompletionStatus::from("complete".to_string()), CompletionStatus::Complete);
    assert_eq!(CompletionStatus::from("hiatus".to_string()), CompletionStatus::Hiatus);
    assert_eq!(CompletionStatus::from("cancelled".to_string()), CompletionStatus::Cancelled);
}

#[test]
fn cover_try_from_names() {
    assert_eq!(Cover::try_from("story".to_string()), Ok(Cover::Story));
    assert_eq!(Cover::try_from("user".to_string()), Ok(Cover::User));
    assert_eq!(Cover::try_from("none".to_string()), Ok(Cover::NoCover));
    assert_eq!(Cover::try_from("image".to_string()), Err("invalid cover value"));
    assert_eq!(Cover::try_from("Story".to_string()), Err("invalid cover value"));
}

#[test]
fn color_from_names() {
    assert!(matches!(Color::from("story".to_string()), Color::Story));
    assert!(matches!(Color::from("user".to_string()), Color::User));
    assert!(matches!(Color::from("none".to_string()), Color::NoColor));
    match Color::from("ff00aa".to_string()) {
        Color::Custom(c) => assert_eq!(c, "ff00aa"),
        _ => panic!("a custom color is kept"),
    }
}

#[test]
fn keywords_agree_between_cover_and_color() {
    for name in ["story", "user", "none", "pinkie", ""] {
        let cover = Cover::try_from(name.to_string());
        let color = Color::from(name.to_string());
        assert_eq!(cover.is_err(), matches!(color, Color::Custom(_)));
    }
}

#[test]
fn split_lines_follows_str_lines() {
    for text in ["", "a", "a\n", "a\n\nb", "a\r\nb\r\n", "a\rb", "x\r", "\n", "\r\n\r\n"] {
        let expected: Vec<String> = text.lines().map(|l| l.to_string()).collect();
        assert_eq!(split_lines(text), expected, "lines of {:?}", text);
    }
}

#[test]
fn tag_pattern_is_valid() {
    assert!(tag_pattern_compiles());
}

#[test]
fn clean_content_removes_tags() {
    assert_eq!(
        clean_content("[url=https://x]link[/url] and [] and [a]".to_string()),
        "link and [] and "
    );
    assert_eq!(clean_content("[[a]]".to_string()), "]");
    assert_eq!(clean_content("[b]bold\nline[/b]".to_string()), "bold\nline");
}

#[test]
fn clean_content_escapes_quotes() {
    assert_eq!(clean_content("say \"hi\"".to_string()), "say &quot;hi&quot;");
    assert_eq!(clean_content("plain".to_string()), "plain");
    assert!(!clean_content("\"[i]\"\"".to_string()).contains('"'));
}

#[test]
fn try_clean_content_cleans() {
    assert_eq!(try_clean_content("[i]x[/i] \"y\"".to_string()), Some("x &quot;y&quot;".to_string()));
}

#[test]
fn trim_content_keeps_short_text() {
    assert_eq!(trim_content("line one\nline two".to_string(), false), "line one\nline two");
    assert_eq!(trim_content(String::new(), false), "");
}

#[test]
fn trim_content_drops_lines_past_limit() {
    let first = "a".repeat(300);
    let second = "b".repeat(300);
    let content = format!("{first}\n{second}\nc");
    assert_eq!(trim_content(content, false), first);
}

#[test]
fn trim_content_limit_is_strict() {
    let kept = "x".repeat(511);
    assert_eq!(trim_content(format!("{kept}\ny"), false), kept);
    assert_eq!(trim_content("x".repeat(512), false), "");
    let two = format!("{}\n{}", "p".repeat(255), "q".repeat(255));
    assert_eq!(trim_content(format!("{two}\nr"), false), two);
}

#[test]
fn trim_content_counts_bytes() {
    assert_eq!(trim_content("é".repeat(256), false), "");
    assert_eq!(trim_content("é".repeat(255), false), "é".repeat(255));
}

#[test]
fn trim_content_drops_carriage_returns() {
    assert_eq!(trim_content("a\r\nb\r\n".to_string(), false), "a\nb");
    assert_eq!(trim_content("a\n\n\nb\n".to_string(), false), "a\n\n\nb");
}

#[test]
fn trim_content_cleans_when_asked() {
    assert_eq!(
        trim_content("[b]Hello[/b] \"world\"\nsecond".to_string(), true),
        "Hello &quot;world&quot;\nsecond"
    );
    assert_eq!(try_trim_content("[i]a[/i]".to_string(), true), Some("a".to_string()));
    assert_eq!(try_trim_content("[i]a[/i]".to_string(), false), Some("[i]a[/i]".to_string()));
}

#[test]
fn trimmed_content_stays_under_limit() {
    let content = "word ".repeat(400);
    let lines = content.replace("word word ", "word\nword ");
    let out = trim_content(lines, false);
    assert!(out.len() < 512);
}

#[test]
fn short_content_is_its_own_preview() {
    for text in ["", "one line", "two\nlines", "ünïcödé\n\ntext"] {
        assert_eq!(trim_content(text.to_string(), false), text);
    }
}

#[test]
fn parse_i32_reads_ids() {
    assert_eq!(parse_i32_of("12345"), Some(12345));
    assert_eq!(parse_i32_of("-5"), Some(-5));
    assert_eq!(parse_i32_of("+7"), Some(7));
    assert_eq!(parse_i32_of("007"), Some(7));
    assert_eq!(parse_i32_of("2147483647"), Some(2147483647));
    assert_eq!(parse_i32_of("-2147483648"), Some(-2147483648));
    assert_eq!(parse_i32_of("2147483648"), None);
    assert_eq!(parse_i32_of("99999999999999999999"), None);
    assert_eq!(parse_i32_of(""), None);
    assert_eq!(parse_i32_of("-"), None);
    assert_eq!(parse_i32_of("+"), None);
    assert_eq!(parse_i32_of("12a"), None);
    assert_eq!(parse_i32_of(" 12"), None);
    assert_eq!(parse_i32_of("--1"), None);
}

#[test]
fn parse_i32_agrees_with_std() {
    for text in ["0", "-0", "+0", "10", "-2147483649", "1_000", "٣", "12 ", "-12"] {
        assert_eq!(parse_i32_of(text), text.parse::<i32>().ok(), "parse of {:?}", text);
    }
}

#[test]
fn decimal_reads_back() {
    for n in [0, 7, -7, 10, 12345, -2147483648, 2147483647] {
        let mut s = String::new();
        push_i32(&mut s, n);
        assert_eq!(s, n.to_string());
        assert_eq!(parse_i32_of(&s), Some(n));
    }
}

#[test]
fn parse_parameters_keeps_hex_color() {
    let mut p = params(Some(Color::Custom("ff00AA".to_string())));
    assert_eq!(parse_parameters("12345/some-story", &mut p, None), Some(12345));
    assert_eq!(custom(&p), Some("ff00AA".to_string()));
}

#[test]
fn parse_parameters_takes_table_color() {
    let mut p = params(Some(Color::Custom("pinkie".to_string())));
    assert_eq!(parse_parameters("9", &mut p, Some("f49ac1".to_string())), Some(9));
    assert_eq!(custom(&p), Some("f49ac1".to_string()));
}

#[test]
fn parse_parameters_drops_unknown_color() {
    let mut p = params(Some(Color::Custom("blue".to_string())));
    assert_eq!(parse_parameters("9", &mut p, None), Some(9));
    assert!(p.color.is_none());
    let mut q = params(Some(Color::Custom("gggggg".to_string())));
    assert_eq!(parse_parameters("9/x", &mut q, None), Some(9));
    assert!(q.color.is_none());
    let mut r = params(Some(Color::Custom("ééé".to_string())));
    assert_eq!(parse_parameters("9/x", &mut r, None), Some(9));
    assert!(r.color.is_none());
}

#[test]
fn parse_parameters_keeps_keyword_color() {
    let mut p = Parameters {
        cover: Some(Cover::User),
        color: Some(Color::Story),
        refresh: true,
        stats: true,
    };
    assert_eq!(parse_parameters("77/a/b", &mut p, Some("000000".to_string())), Some(77));
    assert!(matches!(p.color, Some(Color::Story)));
    assert_eq!(p.cover, Some(Cover::User));
    assert!(p.refresh && p.stats);
}

#[test]
fn parse_parameters_refuses_bad_id() {
    let mut p = params(Some(Color::Custom("blue".to_string())));
    assert_eq!(parse_parameters("abc/def", &mut p, None), None);
    assert_eq!(custom(&p), Some("blue".to_string()));
    assert_eq!(parse_parameters("", &mut p, None), None);
}

#[test]
fn color_lookup_name_is_the_custom_name() {
    assert_eq!(color_lookup_name(&params(Some(Color::Custom("rose".to_string())))), Some("rose".to_string()));
    assert_eq!(color_lookup_name(&params(Some(Color::User))), None);
    assert_eq!(color_lookup_name(&params(None)), None);
}

#[test]
fn use_cached_without_refresh() {
    let cached = Timestamp::new(100, 0).unwrap();
    let now = Timestamp::new(1_000_000, 0).unwrap();
    assert!(use_cached(false, &cached, &now, 60));
}

#[test]
fn use_cached_only_while_fresh() {
    let now = Timestamp::new(1_700_000_000, 500).unwrap();
    let fresh = Timestamp::new(1_699_999_940, 500).unwrap();
    let edge = Timestamp::new(1_699_999_940, 499).unwrap();
    let stale = Timestamp::new(1_699_999_000, 0).unwrap();
    assert!(use_cached(true, &fresh, &now, 60));
    assert!(!use_cached(true, &edge, &now, 60));
    assert!(!use_cached(true, &stale, &now, 60));
}

#[test]
fn timestamps_chrono_can_represent() {
    assert!(Timestamp::new(0, 0).is_some());
    assert!(Timestamp::new(0, 2_000_000_000).is_none());
    assert!(Timestamp::new(i64::MAX, 0).is_none());
    let t = Timestamp::new(1_700_000_000, 7).unwrap();
    assert_eq!((t.secs(), t.nanos()), (1_700_000_000, 7));
}

#[test]
fn timestamp_texts() {
    let epoch = Timestamp::new(0, 0).unwrap();
    assert_eq!(epoch.day_text(), "Thu Jan  1 1970");
    assert_eq!(epoch.display_text(), "1970-01-01 00:00:00 UTC");
    let t = Timestamp::new(1_700_000_000, 0).unwrap();
    assert_eq!(t.day_text(), "Tue Nov 14 2023");
    assert_eq!(t.display_text(), "2023-11-14 22:13:20 UTC");
}

#[test]
fn timestamp_minus_seconds() {
    let t = Timestamp::new(1_700_000_000, 5).unwrap();
    let earlier = t.minus_seconds(60).unwrap();
    assert_eq!((earlier.secs(), earlier.nanos()), (1_699_999_940, 5));
    assert!(t.is_not_before(&earlier));
    assert!(!earlier.is_not_before(&t));
}

#[test]
fn text_helpers() {
    assert_eq!(first_segment_of("12/title/more"), "12");
    assert_eq!(first_segment_of("12"), "12");
    assert_eq!(first_segment_of("/x"), "");
    assert_eq!(escape_quotes_in("\"a\"b"), "&quot;a&quot;b");
    assert_eq!(escape_quotes_in("none"), "none");
    assert_eq!(trim_leading_hashes("##a#b"), "a#b");
    assert_eq!(trim_leading_hashes("a#"), "a#");
    assert_eq!(trim_leading_hashes("###"), "");
    assert!(ends_with("https://x/none_64.png", "none_64.png"));
    assert!(!ends_with("https://x/none_64.jpg", "none_64.png"));
    assert!(!ends_with("png", "none_64.png"));
    assert!(ends_with("x", ""));
    let lines = vec!["a".to_string(), "b".to_string(), "c".to_string()];
    assert_eq!(join_first_lines(&lines, 0), "");
    assert_eq!(join_first_lines(&lines, 1), "a");
    assert_eq!(join_first_lines(&lines, 3), "a\nb\nc");
}

#[test]
fn status_and_rating_names() {
    assert!(ContentRating::is_name("teen"));
    assert!(!ContentRating::is_name("Teen"));
    assert!(CompletionStatus::is_name("hiatus"));
    assert!(!CompletionStatus::is_name("paused"));
}

#[test]
fn default_parameters_set_nothing() {
    let p = Parameters::default();
    assert!(p.cover.is_none() && p.color.is_none() && !p.refresh && !p.stats);
}
