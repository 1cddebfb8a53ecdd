//! The text that embeds show: content cut to a preview and cleaned of
//! markup, and the options that an embed request carries.

use vstd::prelude::*;
use vstd::utf8::{
    encode_scalar, encode_utf8, has_width_1_encoding, is_ascii_chars, is_ascii_chars_encode_utf8,
    leading_byte_width_2, leading_byte_width_3, leading_byte_width_4,
};
use crate::external::{
    regex_compiles, regex_replace_all, regex_replaced, time_delta_seconds_limit, utc_minus_seconds,
};
use crate::structs::{not_before, Color, Parameters, Timestamp};
use crate::text::{
    byte_len, escape_quotes, escape_quotes_in, finished_lines, first_segment, first_segment_of,
    fit_count, join_first_lines, join_lines, lemma_all_fit, lemma_escape_has_no_quote,
    lemma_fit_join_len, lemma_join_lines_restores, lines, open_line, parse_i32, parse_i32_of,
    split_lines, views,
};

verus! {

/// The markup that cleaning removes: a bracketed tag such as `[b]` or
/// `[url=...]`, with at least one character between its brackets and no
/// closing bracket among them.
pub const TAG_PATTERN: &'static str = r"\[[^]]+\]";

/// Whether the tag pattern compiles, which cleaning needs.
pub open spec fn tag_pattern_valid() -> bool {
    regex_compiles(TAG_PATTERN@)
}

/// `content` with its tags removed and its double quotes escaped.
pub open spec fn cleaned(content: Seq<char>) -> Seq<char> {
    escape_quotes(regex_replaced(TAG_PATTERN@, content, ""@))
}

/// Whether the tag pattern compiles.
pub fn tag_pattern_compiles() -> (r: bool)
    ensures
        r == tag_pattern_valid(),
{
    regex_replace_all(TAG_PATTERN, "", "").is_ok()
}

/// `content` with its tags removed and its double quotes escaped, ready to
/// stand inside an HTML attribute.
pub fn clean_content(content: String) -> (r: String)
    requires
        tag_pattern_valid(),
    ensures
        r@ == cleaned(content@),
        !r@.contains('"'),
{
    proof {
        lemma_escape_has_no_quote(regex_replaced(TAG_PATTERN@, content@, ""@));
    }
    match regex_replace_all(TAG_PATTERN, content.as_str(), "") {
        Ok(stripped) => escape_quotes_in(stripped.as_str()),
        Err(_) => {
            proof {
                assert(false);
            }
            content
        },
    }
}

/// `clean_content`, or `None` where the tag pattern does not compile.
pub fn try_clean_content(content: String) -> (r: Option<String>)
    ensures
        r is Some <==> tag_pattern_valid(),
        r matches Some(s) ==> s@ == cleaned(content@),
{
    if tag_pattern_compiles() {
        Some(clean_content(content))
    } else {
        None
    }
}

/// The lines of `content` that a preview keeps, joined again.
pub open spec fn preview(content: Seq<char>) -> Seq<char> {
    join_lines(lines(content).take(fit_count(lines(content), 512) as int))
}

/// What `trim_content` gives.
pub open spec fn trimmed(content: Seq<char>, clean: bool) -> Seq<char> {
    if clean {
        cleaned(preview(content))
    } else {
        preview(content)
    }
}

/// The first lines of `content` that fit into 512 bytes (each line counted
/// with the line feed after it), joined with line feeds; cleaned where
/// `clean` is set.
pub fn trim_content(content: String, clean: bool) -> (r: String)
    requires
        clean ==> tag_pattern_valid(),
    ensures
        r@ == trimmed(content@, clean),
        !clean ==> byte_len(r@) < 512,
        clean ==> !r@.contains('"'),
{
    let all = split_lines(content.as_str());
    let ghost ls = views(all@);
    let mut chars: usize = 0;
    let mut k: usize = 0;
    assert(ls.skip(0) =~= ls);
    while k < all.len()
        invariant
            k <= all.len(),
            chars <= 512,
            ls == views(all@),
            ls == lines(content@),
            fit_count(ls, 512) == k + fit_count(ls.skip(k as int), 512 - chars),
        ensures
            fit_count(ls, 512) == k,
        decreases all.len() - k,
    {
        let len = all[k].as_str().as_bytes().len();
        assert(len == byte_len(all@[k as int]@));
        assert(ls.skip(k as int).len() > 0);
        assert(ls.skip(k as int)[0] == all@[k as int]@);
        assert(ls.skip(k as int).drop_first() =~= ls.skip(k + 1));
        if len < 512 - chars {
            chars = chars + len + 1;
            k = k + 1;
        } else {
            break;
        }
    }
    proof {
        lemma_fit_join_len(ls, 512);
    }
    let text = join_first_lines(&all, k);
    if clean {
        clean_content(text)
    } else {
        text
    }
}

/// `trim_content`, or `None` where cleaning is asked for and the tag pattern
/// does not compile.
pub fn try_trim_content(content: String, clean: bool) -> (r: Option<String>)
    ensures
        r is Some <==> (clean ==> tag_pattern_valid()),
        r matches Some(s) ==> s@ == trimmed(content@, clean),
{
    if clean && !tag_pattern_compiles() {
        None
    } else {
        Some(trim_content(content, clean))
    }
}

/// An ASCII hexadecimal digit, as `u8::is_ascii_hexdigit` tells them.
pub open spec fn is_hex_byte(b: u8) -> bool {
    (0x30 <= b <= 0x39) || (0x41 <= b <= 0x46) || (0x61 <= b <= 0x66)
}

/// Text of six bytes, each an ASCII hexadecimal digit: a color written
/// out.
pub open spec fn is_hex_color(s: Seq<char>) -> bool {
    let b = encode_utf8(s);
    b.len() == 6 && forall|i: int| 0 <= i < 6 ==> is_hex_byte(#[trigger] b[i])
}

/// Whether `s` writes a color out as six hexadecimal digits.
pub fn is_hex_color_text(s: &str) -> (r: bool)
    ensures
        r == is_hex_color(s@),
{
    let b = s.as_bytes();
    if b.len() != 6 {
        return false;
    }
    let mut i: usize = 0;
    while i < 6
        invariant
            i <= 6,
            b@ == encode_utf8(s@),
            b@.len() == 6,
            forall|j: int| 0 <= j < i ==> is_hex_byte(#[trigger] b@[j]),
        decreases 6 - i,
    {
        let x = b[i];
        if !((0x30 <= x && x <= 0x39) || (0x41 <= x && x <= 0x46) || (0x61 <= x && x <= 0x66)) {
            assert(!is_hex_byte(b@[i as int]));
            return false;
        }
        i = i + 1;
    }
    true
}

/// The color that a request ends up with: a custom color that the color
/// table names takes the table's color, one that is not there is kept if
/// it writes a color out in six hexadecimal digits and dropped otherwise;
/// the keywords and an absent color stay as they are.
pub open spec fn color_resolved(before: Option<Color>, db: Option<String>, after: Option<Color>) -> bool {
    match before {
        Some(Color::Custom(name)) => match db {
            Some(d) => after == Some(Color::Custom(d)),
            None => if is_hex_color(name@) {
                after matches Some(Color::Custom(c)) && c@ == name@
            } else {
                after is None
            },
        },
        _ => after == before,
    }
}

/// A hexadecimal digit: `0`-`9`, `a`-`f` or `A`-`F`.
pub open spec fn is_hex_digit_char(c: char) -> bool {
    ('0' <= c <= '9') || ('a' <= c <= 'f') || ('A' <= c <= 'F')
}

/// The first byte that UTF-8 writes for a character beyond ASCII is no
/// ASCII byte.
proof fn lemma_wide_char_first_byte(c: char)
    requires
        !has_width_1_encoding(c as u32),
    ensures
        encode_scalar(c as u32)[0] >= 0xC0,
{
    let v = c as u32;
    let b2 = ((v >> 6) & 0x1F) as u8;
    let b3 = ((v >> 12) & 0x0F) as u8;
    let b4 = ((v >> 18) & 0x7) as u8;
    assert(0xC0u8 | b2 >= 0xC0) by (bit_vector);
    assert(0xE0u8 | b3 >= 0xC0) by (bit_vector);
    assert(0xF0u8 | b4 >= 0xC0) by (bit_vector);
    assert(leading_byte_width_2(v) == 0xC0u8 | b2);
    assert(leading_byte_width_3(v) == 0xE0u8 | b3);
    assert(leading_byte_width_4(v) == 0xF0u8 | b4);
}

/// Text whose UTF-8 bytes are all hexadecimal digits is ASCII.
proof fn lemma_hex_bytes_ascii(s: Seq<char>)
    requires
        forall|i: int| 0 <= i < encode_utf8(s).len() ==> is_hex_byte(#[trigger] encode_utf8(s)[i]),
    ensures
        is_ascii_chars(s),
    decreases s.len(),
{
    if s.len() > 0 {
        let e = encode_utf8(s);
        let first = encode_scalar(s[0] as u32);
        let rest = encode_utf8(s.drop_first());
        assert(e == first + rest);
        if !has_width_1_encoding(s[0] as u32) {
            lemma_wide_char_first_byte(s[0]);
            assert(e[0] == first[0]);
            assert(!is_hex_byte(e[0]));
            assert(is_hex_byte(e[0]));
            assert(false);
        }
        assert(has_width_1_encoding(s[0] as u32));
        assert(first.len() == 1);
        assert forall|i: int| 0 <= i < rest.len() implies is_hex_byte(#[trigger] rest[i]) by {
            assert(rest[i] == e[i + 1]);
        }
        lemma_hex_bytes_ascii(s.drop_first());
        assert forall|i: int| 0 <= i < s.len() implies '\0' <= #[trigger] s[i] <= '\u{7f}' by {
            if i > 0 {
                assert(s[i] == s.drop_first()[i - 1]);
            } else {
                let c = s[0];
                let u = c as u32;
                assert(u <= 0x7f);
                vstd::utf8::char_u32_cast(c, u);
                assert(u as char == c);
                assert(c <= '\u{7f}');
                assert('\0' <= c);
            }
        }
    }
}

/// The six-hexadecimal-digit colors are exactly the texts of six characters
/// each `0`-`9`, `a`-`f` or `A`-`F`, as `u8::is_ascii_hexdigit` accepts them.
pub proof fn lemma_hex_color_chars(s: Seq<char>)
    ensures
        is_hex_color(s) <==> (s.len() == 6 && forall|i: int|
            0 <= i < 6 ==> is_hex_digit_char(#[trigger] s[i])),
{
    if s.len() == 6 && forall|i: int| 0 <= i < 6 ==> is_hex_digit_char(#[trigger] s[i]) {
        assert(is_ascii_chars(s)) by {
            assert forall|i: int| 0 <= i < s.len() implies '\0' <= #[trigger] s[i] <= '\u{7f}' by {
                assert(is_hex_digit_char(s[i]));
            }
        }
        is_ascii_chars_encode_utf8(s);
        assert forall|i: int| 0 <= i < 6 implies is_hex_byte(#[trigger] encode_utf8(s)[i]) by {
            assert(is_hex_digit_char(s[i]));
            assert(s[i] as u8 == encode_utf8(s)[i]);
        }
    }
    if is_hex_color(s) {
        let e = encode_utf8(s);
        lemma_hex_bytes_ascii(s);
        is_ascii_chars_encode_utf8(s);
        assert forall|i: int| 0 <= i < 6 implies is_hex_digit_char(#[trigger] s[i]) by {
            assert(s[i] as u8 == e[i]);
            assert(is_hex_byte(e[i]));
            assert('\0' <= s[i] <= '\u{7f}');
        }
    }
}

/// A custom color of six hexadecimal digits that the color table does not
/// name is kept as it is; one of any other shape is dropped.
pub proof fn lemma_custom_color_without_table(name: String, after: Option<Color>)
    requires
        color_resolved(Some(Color::Custom(name)), None, after),
    ensures
        (name@.len() == 6 && forall|i: int| 0 <= i < 6 ==> is_hex_digit_char(#[trigger] name@[i]))
            ==> (after matches Some(Color::Custom(c)) && c@ == name@),
        !(name@.len() == 6 && forall|i: int| 0 <= i < 6 ==> is_hex_digit_char(#[trigger] name@[i]))
            ==> after is None,
{
    lemma_hex_color_chars(name@);
}

/// The name that the color table is asked for: the custom color of the
/// request, if it has one.
pub fn color_lookup_name(params: &Parameters) -> (r: Option<String>)
    ensures
        match params.color {
            Some(Color::Custom(name)) => r matches Some(n) && n@ == name@,
            _ => r is None,
        },
{
    match &params.color {
        Some(Color::Custom(name)) => Some(name.clone()),
        _ => None,
    }
}

/// The id at the start of a request path, and the request's color settled:
/// `db_color` is what the color table holds under the request's custom
/// color name, if anything. Where the path does not start with an `i32`,
/// the answer is `None` and the parameters stay as they were.
pub fn parse_parameters(path: &str, params: &mut Parameters, db_color: Option<String>) -> (r:
    Option<i32>)
    ensures
        r == parse_i32(first_segment(path@)),
        final(params).cover == old(params).cover,
        final(params).refresh == old(params).refresh,
        final(params).stats == old(params).stats,
        r is None ==> final(params).color == old(params).color,
        r is Some ==> color_resolved(old(params).color, db_color, final(params).color),
{
    let segment = first_segment_of(path);
    let id = parse_i32_of(segment.as_str());
    if id.is_none() {
        return None;
    }
    let resolved: Option<Option<Color>> = match &params.color {
        Some(Color::Custom(color)) => match db_color {
            Some(d) => Some(Some(Color::Custom(d))),
            None => if is_hex_color_text(color.as_str()) {
                Some(Some(Color::Custom(color.clone())))
            } else {
                Some(None)
            },
        },
        _ => None,
    };
    match resolved {
        Some(c) => {
            params.color = c;
        },
        None => {},
    }
    id
}

/// Whether a cached record taken at `cached` is still fresh at `now`: no
/// older than `recache_age` seconds, where chrono can count that far back.
pub open spec fn fresh(cached: Timestamp, now: Timestamp, recache_age: i64) -> bool {
    match utc_minus_seconds(now.seconds(), now.nanoseconds(), recache_age) {
        Some(p) => not_before(cached.seconds(), cached.nanoseconds(), p.0, p.1),
        None => false,
    }
}

/// Whether a cached record taken at `cached` serves a request at `now`: it
/// always does unless the request asks to refresh, and then only while it
/// is fresh.
pub fn use_cached(recache: bool, cached: &Timestamp, now: &Timestamp, recache_age: i64) -> (r:
    bool)
    requires
        recache ==> -time_delta_seconds_limit() <= recache_age <= time_delta_seconds_limit(),
    ensures
        r == (!recache || fresh(*cached, *now, recache_age)),
{
    if !recache {
        return true;
    }
    match now.minus_seconds(recache_age) {
        Some(max_age) => cached.is_not_before(&max_age),
        None => false,
    }
}

/// Content of fewer than 512 bytes, without carriage returns and without a
/// line feed at its end, is its own preview: cutting it keeps it whole.
pub proof fn lemma_short_content_kept(content: Seq<char>)
    requires
        byte_len(content) < 512,
        !content.contains('\r'),
        content.len() == 0 || content.last() != '\n',
    ensures
        trimmed(content, false) == content,
{
    lemma_join_lines_restores(content);
    let ls = lines(content);
    if content.len() == 0 {
        assert(ls =~= Seq::<Seq<char>>::empty());
        assert(ls.take(0) =~= ls);
    } else {
        assert(open_line(content).len() > 0);
        assert(ls == finished_lines(content).push(open_line(content)));
        lemma_all_fit(ls, 512);
        assert(ls.take(ls.len() as int) =~= ls);
    }
}

} // verus!
