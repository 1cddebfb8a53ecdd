//! Text as this library reads and writes it: lines, joins, byte lengths,
//! decimal numbers and the escaping of quotes.

use vstd::prelude::*;
use crate::external::push_char;
use vstd::utf8::*;

verus! {

/// A line without the carriage return that a CRLF ending leaves on it.
pub open spec fn strip_cr(line: Seq<char>) -> Seq<char> {
    if line.len() > 0 && line.last() == '\r' {
        line.drop_last()
    } else {
        line
    }
}

/// The characters of `s` after its last line feed.
pub open spec fn open_line(s: Seq<char>) -> Seq<char>
    decreases s.len(),
{
    if s.len() == 0 {
        seq![]
    } else if s.last() == '\n' {
        seq![]
    } else {
        open_line(s.drop_last()).push(s.last())
    }
}

/// The lines of `s` that a line feed ends, each without its line ending.
pub open spec fn finished_lines(s: Seq<char>) -> Seq<Seq<char>>
    decreases s.len(),
{
    if s.len() == 0 {
        seq![]
    } else if s.last() == '\n' {
        finished_lines(s.drop_last()).push(strip_cr(open_line(s.drop_last())))
    } else {
        finished_lines(s.drop_last())
    }
}

/// The lines of `s`, as `str::lines` yields them: split at each line feed,
/// a carriage return before it dropped, and no empty line after a final
/// line feed.
pub open spec fn lines(s: Seq<char>) -> Seq<Seq<char>> {
    if open_line(s).len() == 0 {
        finished_lines(s)
    } else {
        finished_lines(s).push(open_line(s))
    }
}

/// The views of a vector of strings.
pub open spec fn views(v: Seq<String>) -> Seq<Seq<char>> {
    v.map_values(|l: String| l@)
}

/// The lines of `s`, each as a string of its own.
pub fn split_lines(s: &str) -> (r: Vec<String>)
    ensures
        views(r@) == lines(s@),
{
    let mut out: Vec<String> = Vec::new();
    let mut cur = String::new();
    // A carriage return is held back until the next character shows whether
    // it ends the line.
    let mut cr = false;
    let ghost full = s@;
    for c in it: s.chars()
        invariant
            it.seq() == full,
            views(out@) == finished_lines(full.take(it.index())),
            (if cr { cur@.push('\r') } else { cur@ }) == open_line(full.take(it.index())),
            !cr ==> cur@.len() == 0 || cur@.last() != '\r',
    {
        let ghost i = it.index();
        assert(full.take(i + 1).drop_last() == full.take(i));
        assert(c == full[i]);
        assert(full.take(i + 1).last() == c);
        if c == '\n' {
            assert(cur@.push('\r').drop_last() =~= cur@);
            assert(strip_cr(open_line(full.take(i))) == cur@);
            assert(views(out@.push(cur)) =~= views(out@).push(cur@));
            out.push(cur);
            cur = String::new();
            cr = false;
        } else if c == '\r' {
            if cr {
                push_char(&mut cur, '\r');
            }
            cr = true;
        } else {
            if cr {
                push_char(&mut cur, '\r');
            }
            push_char(&mut cur, c);
            cr = false;
        }
    }
    if cr {
        push_char(&mut cur, '\r');
    }
    assert(full.take(full.len() as int) == full);
    if !cur.as_str().is_empty() {
        assert(views(out@.push(cur)) =~= views(out@).push(cur@));
        out.push(cur);
    }
    out
}

/// The number of bytes that `s` takes in UTF-8, which `str::len` reports.
pub open spec fn byte_len(s: Seq<char>) -> nat {
    encode_utf8(s).len()
}

/// The lines of `ls` joined with line feeds between them.
pub open spec fn join_lines(ls: Seq<Seq<char>>) -> Seq<char>
    decreases ls.len(),
{
    if ls.len() == 0 {
        seq![]
    } else if ls.len() == 1 {
        ls[0]
    } else {
        join_lines(ls.drop_last()) + seq!['\n'] + ls.last()
    }
}

/// How many of `ls`, taken from the front, fit into `room` bytes when each
/// line takes its own bytes and one more for the line feed after it, and a
/// line is taken only while its bytes alone stay under what is left.
pub open spec fn fit_count(ls: Seq<Seq<char>>, room: int) -> nat
    decreases ls.len(),
{
    if ls.len() == 0 {
        0
    } else if byte_len(ls[0]) < room {
        1 + fit_count(ls.drop_first(), room - byte_len(ls[0]) - 1)
    } else {
        0
    }
}

/// The first `k` strings of `v` joined with line feeds between them.
pub fn join_first_lines(v: &Vec<String>, k: usize) -> (r: String)
    requires
        k <= v.len(),
    ensures
        r@ == join_lines(views(v@).take(k as int)),
{
    let ghost ls = views(v@);
    let mut text = String::new();
    let mut i: usize = 0;
    while i < k
        invariant
            i <= k <= v.len(),
            ls == views(v@),
            text@ == join_lines(ls.take(i as int)),
        decreases k - i,
    {
        assert(ls.take(i + 1).drop_last() =~= ls.take(i as int));
        if i > 0 {
            push_char(&mut text, '\n');
        }
        text.append(v[i].as_str());
        i = i + 1;
    }
    text
}

/// The bytes of two strings laid end to end are the bytes of each.
pub proof fn lemma_byte_len_concat(a: Seq<char>, b: Seq<char>)
    ensures
        encode_utf8(a + b) == encode_utf8(a) + encode_utf8(b),
        byte_len(a + b) == byte_len(a) + byte_len(b),
    decreases a.len(),
{
    if a.len() == 0 {
        assert(a + b =~= b);
        assert(encode_utf8(a) =~= seq![]);
        assert(encode_utf8(a) + encode_utf8(b) =~= encode_utf8(b));
    } else {
        lemma_byte_len_concat(a.drop_first(), b);
        assert((a + b).drop_first() =~= a.drop_first() + b);
        assert((a + b)[0] == a[0]);
        assert(encode_utf8(a + b) =~= encode_scalar(a[0] as u32) + encode_utf8(a.drop_first() + b));
        assert(encode_utf8(a + b) =~= encode_utf8(a) + encode_utf8(b));
    }
}

/// A line feed takes one byte.
pub proof fn lemma_newline_byte()
    ensures
        byte_len(seq!['\n']) == 1,
{
    assert(seq!['\n'].drop_first() =~= Seq::<char>::empty());
    assert(encode_utf8(seq!['\n'].drop_first()) =~= Seq::<u8>::empty());
}

/// Joining lines with a first line split off.
pub proof fn lemma_join_front(ls: Seq<Seq<char>>)
    requires
        ls.len() >= 2,
    ensures
        join_lines(ls) == ls[0] + seq!['\n'] + join_lines(ls.drop_first()),
    decreases ls.len(),
{
    if ls.len() == 2 {
        assert(ls.drop_last() =~= seq![ls[0]]);
        assert(ls.drop_first() =~= seq![ls[1]]);
        assert(join_lines(ls.drop_last()) == ls[0]);
        assert(join_lines(ls.drop_first()) == ls[1]);
        assert(join_lines(ls) == join_lines(ls.drop_last()) + seq!['\n'] + ls.last());
        assert(ls.last() == ls[1]);
    } else {
        lemma_join_front(ls.drop_last());
        assert(ls.drop_last().drop_first() =~= ls.drop_first().drop_last());
        assert(ls.drop_last()[0] == ls[0]);
        assert(ls.drop_first().last() == ls.last());
        assert(join_lines(ls.drop_first()) == join_lines(ls.drop_first().drop_last()) + seq!['\n']
            + ls.drop_first().last());
        assert(join_lines(ls) == join_lines(ls.drop_last()) + seq!['\n'] + ls.last());
        assert(join_lines(ls) =~= ls[0] + seq!['\n'] + join_lines(ls.drop_first()));
    }
}

/// The lines that `fit_count` lets through, joined, stay under `room`
/// bytes.
pub proof fn lemma_fit_join_len(ls: Seq<Seq<char>>, room: int)
    requires
        room >= 1,
    ensures
        byte_len(join_lines(ls.take(fit_count(ls, room) as int))) < room,
        fit_count(ls, room) <= ls.len(),
    decreases ls.len(),
{
    let k = fit_count(ls, room);
    if ls.len() == 0 || k == 0 {
        assert(ls.take(0) =~= Seq::<Seq<char>>::empty());
        assert(encode_utf8(Seq::<char>::empty()) =~= Seq::<u8>::empty());
    } else {
        let rest = ls.drop_first();
        let room2 = room - byte_len(ls[0]) - 1;
        assert(k == 1 + fit_count(rest, room2));
        if k == 1 {
            assert(ls.take(1) =~= seq![ls[0]]);
        } else {
            lemma_fit_join_len(rest, room2);
            let t = ls.take(k as int);
            lemma_join_front(t);
            assert(t.drop_first() =~= rest.take(k - 1));
            lemma_byte_len_concat(ls[0], seq!['\n']);
            lemma_byte_len_concat(ls[0] + seq!['\n'], join_lines(rest.take(k - 1)));
            lemma_newline_byte();
        }
    }
}

/// What a double quote becomes in escaped text.
pub open spec fn quot_entity() -> Seq<char> {
    seq!['&', 'q', 'u', 'o', 't', ';']
}

/// `s` with every double quote written as `&quot;`, as
/// `str::replace('"', "&quot;")` gives it.
pub open spec fn escape_quotes(s: Seq<char>) -> Seq<char>
    decreases s.len(),
{
    if s.len() == 0 {
        seq![]
    } else if s.last() == '"' {
        escape_quotes(s.drop_last()) + quot_entity()
    } else {
        escape_quotes(s.drop_last()).push(s.last())
    }
}

/// `s` with every double quote written as `&quot;`.
pub fn escape_quotes_in(s: &str) -> (r: String)
    ensures
        r@ == escape_quotes(s@),
{
    let mut out = String::new();
    let ghost full = s@;
    for c in it: s.chars()
        invariant
            it.seq() == full,
            out@ == escape_quotes(full.take(it.index())),
    {
        let ghost i = it.index();
        assert(full.take(i + 1).drop_last() =~= full.take(i));
        assert(full.take(i + 1).last() == c);
        if c == '"' {
            let ghost before = out@;
            out.append("&quot;");
            proof {
                reveal_strlit("&quot;");
                assert("&quot;"@ =~= quot_entity());
            }
        } else {
            push_char(&mut out, c);
        }
    }
    assert(full.take(full.len() as int) =~= full);
    out
}

/// Escaped text holds no double quote.
pub proof fn lemma_escape_has_no_quote(s: Seq<char>)
    ensures
        !escape_quotes(s).contains('"'),
    decreases s.len(),
{
    if s.len() > 0 {
        lemma_escape_has_no_quote(s.drop_last());
        let e = escape_quotes(s);
        let p = escape_quotes(s.drop_last());
        assert forall|i: int| 0 <= i < e.len() implies e[i] != '"' by {
            if i < p.len() {
                assert(e[i] == p[i]);
                assert(!p.contains('"'));
                if p[i] == '"' {
                    assert(p.contains('"'));
                }
            }
        }
    }
}

/// The characters of `s` before its first slash.
pub open spec fn first_segment(s: Seq<char>) -> Seq<char>
    decreases s.len(),
{
    if s.len() == 0 || s[0] == '/' {
        seq![]
    } else {
        seq![s[0]] + first_segment(s.drop_first())
    }
}

/// An ASCII decimal digit.
pub open spec fn is_digit(c: char) -> bool {
    '0' <= c <= '9'
}

/// Every character of `s` is an ASCII decimal digit.
pub open spec fn all_digits(s: Seq<char>) -> bool {
    forall|i: int| 0 <= i < s.len() ==> is_digit(#[trigger] s[i])
}

/// The number that the decimal digits `s` write.
pub open spec fn digits_value(s: Seq<char>) -> int
    decreases s.len(),
{
    if s.len() == 0 {
        0
    } else {
        digits_value(s.drop_last()) * 10 + (s.last() as int - '0' as int)
    }
}

/// What `str::parse::<i32>` makes of `s`: an optional sign, then at least
/// one decimal digit and nothing else, for a value that fits in `i32`.
pub open spec fn parse_i32(s: Seq<char>) -> Option<i32> {
    let negative = s.len() > 0 && s[0] == '-';
    let digits = if s.len() > 0 && (s[0] == '-' || s[0] == '+') {
        s.drop_first()
    } else {
        s
    };
    let value = if negative {
        -digits_value(digits)
    } else {
        digits_value(digits)
    };
    if digits.len() > 0 && all_digits(digits) && i32::MIN <= value <= i32::MAX {
        Some(value as i32)
    } else {
        None
    }
}

/// The characters of `s` before its first slash.
pub fn first_segment_of(s: &str) -> (r: String)
    ensures
        r@ == first_segment(s@),
{
    let mut out = String::new();
    let ghost full = s@;
    let mut done = false;
    for c in it: s.chars()
        invariant
            it.seq() == full,
            !done ==> out@ == full.take(it.index()),
            !done ==> !full.take(it.index()).contains('/'),
            done ==> out@ == first_segment(full),
    {
        let ghost i = it.index();
        if !done {
            if c == '/' {
                proof {
                    lemma_first_segment_at(full, i);
                }
                done = true;
            } else {
                push_char(&mut out, c);
                assert(full.take(i + 1) =~= full.take(i).push(c));
                assert forall|j: int| 0 <= j < i + 1 implies #[trigger] full.take(i + 1)[j] != '/' by {
                    if j < i {
                        assert(full.take(i)[j] == full.take(i + 1)[j]);
                        if full.take(i)[j] == '/' {
                            assert(full.take(i).contains('/'));
                        }
                    }
                }
            }
        }
    }
    if !done {
        assert(full.take(full.len() as int) =~= full);
        proof {
            lemma_first_segment_whole(full);
        }
    }
    out
}

/// Before the first slash at `i`, the first segment is what comes before it.
pub proof fn lemma_first_segment_at(s: Seq<char>, i: int)
    requires
        0 <= i < s.len(),
        s[i] == '/',
        !s.take(i).contains('/'),
    ensures
        first_segment(s) == s.take(i),
    decreases i,
{
    if i > 0 {
        assert(s[0] == s.take(i)[0]);
        if s[0] == '/' {
            assert(s.take(i).contains('/'));
        }
        assert(s.drop_first().take(i - 1) =~= s.take(i).drop_first());
        assert(!s.drop_first().take(i - 1).contains('/')) by {
            if s.drop_first().take(i - 1).contains('/') {
                let j = choose|j: int| 0 <= j < i - 1 && #[trigger] s.drop_first().take(i - 1)[j] == '/';
                assert(s.take(i)[j + 1] == '/');
            }
        }
        lemma_first_segment_at(s.drop_first(), i - 1);
        assert(s.take(i) =~= seq![s[0]] + s.drop_first().take(i - 1));
    } else {
        assert(s.take(0) =~= Seq::<char>::empty());
    }
}

/// Without a slash, the first segment is the whole text.
pub proof fn lemma_first_segment_whole(s: Seq<char>)
    requires
        !s.contains('/'),
    ensures
        first_segment(s) == s,
    decreases s.len(),
{
    if s.len() > 0 {
        if s[0] == '/' {
            assert(s.contains('/'));
        }
        assert(!s.drop_first().contains('/')) by {
            if s.drop_first().contains('/') {
                let j = choose|j: int| 0 <= j < s.len() - 1 && #[trigger] s.drop_first()[j] == '/';
                assert(s[j + 1] == '/');
            }
        }
        lemma_first_segment_whole(s.drop_first());
        assert(s =~= seq![s[0]] + s.drop_first());
    }
}

/// The decimal value of digits grows with each digit added.
pub proof fn lemma_digits_value_grows(s: Seq<char>)
    requires
        all_digits(s),
        s.len() > 0,
    ensures
        digits_value(s) >= digits_value(s.drop_last()),
        digits_value(s.drop_last()) >= 0,
    decreases s.len(),
{
    if s.len() > 1 {
        assert(all_digits(s.drop_last())) by {
            assert forall|i: int| 0 <= i < s.drop_last().len() implies is_digit(
                #[trigger] s.drop_last()[i],
            ) by {
                assert(s.drop_last()[i] == s[i]);
            }
        }
        lemma_digits_value_grows(s.drop_last());
    }
    assert(is_digit(s[s.len() - 1]));
}

/// The value of `s` as `str::parse::<i32>` reads it.
pub fn parse_i32_of(s: &str) -> (r: Option<i32>)
    ensures
        r == parse_i32(s@),
{
    let ghost full = s@;
    let mut negative = false;
    let mut signed = false;
    let mut acc: u64 = 0;
    let mut big = false;
    let mut bad = false;
    let mut empty = true;
    let mut at_start = true;
    let ghost start: int = 0;
    for c in it: s.chars()
        invariant
            it.seq() == full,
            start == (if signed { 1int } else { 0int }),
            signed ==> full.len() > 0 && (full[0] == '-' || full[0] == '+'),
            !signed ==> (it.index() == 0 || !(full[0] == '-' || full[0] == '+')),
            negative == (signed && full[0] == '-'),
            start <= it.index(),
            empty == (it.index() == start),
            at_start == (it.index() == 0),
            at_start ==> !bad && !big && acc == 0,
            !bad ==> all_digits(full.subrange(start, it.index())),
            bad ==> !all_digits(full.subrange(start, full.len() as int)),
            !bad && !big ==> acc == digits_value(full.subrange(start, it.index())),
            !bad && big ==> digits_value(full.subrange(start, it.index())) > 2147483648,
            acc <= 2147483648,
    {
        let ghost i = it.index();
        assert(full[i] == c);
        if at_start && (c == '-' || c == '+') {
            signed = true;
            negative = c == '-';
            proof {
                start = 1;
            }
            assert(full.subrange(1, 1) =~= Seq::<char>::empty());
        } else if !bad {
            let ghost prev = full.subrange(start, i);
            let ghost next = full.subrange(start, i + 1);
            assert(next.drop_last() =~= prev);
            assert(next.last() == c);
            if '0' <= c && c <= '9' {
                assert(all_digits(next)) by {
                    assert forall|j: int| 0 <= j < next.len() implies is_digit(#[trigger] next[j]) by {
                        if j < prev.len() {
                            assert(next[j] == prev[j]);
                        }
                    }
                }
                proof {
                    lemma_digits_value_grows(next);
                }
                if !big {
                    let d = (c as u32 - '0' as u32) as u64;
                    let v = acc * 10 + d;
                    if v > 2147483648 {
                        big = true;
                    } else {
                        acc = v;
                    }
                }
                empty = false;
            } else {
                bad = true;
                empty = false;
                assert(!all_digits(full.subrange(start, full.len() as int))) by {
                    assert(full.subrange(start, full.len() as int)[i - start] == c);
                    assert(!is_digit(full.subrange(start, full.len() as int)[i - start]));
                }
            }
        } else {
            empty = false;
        }
        at_start = false;
    }
    let ghost digits = full.subrange(start, full.len() as int);
    assert(digits =~= (if full.len() > 0 && (full[0] == '-' || full[0] == '+') {
        full.drop_first()
    } else {
        full
    }));
    if bad || empty || big {
        None
    } else if negative {
        Some((0 - (acc as i64)) as i32)
    } else if acc <= 2147483647 {
        Some(acc as i32)
    } else {
        None
    }
}

/// The ASCII digit for `d`.
pub open spec fn digit_char(d: int) -> char {
    (48 + d) as char
}

/// The decimal digits of `n`, without leading zeros.
pub open spec fn nat_decimal(n: nat) -> Seq<char>
    decreases n,
{
    if n < 10 {
        seq![digit_char(n as int)]
    } else {
        nat_decimal(n / 10).push(digit_char((n % 10) as int))
    }
}

/// `n` written in decimal, as `Display` writes integers: a minus sign for a
/// negative number, then its digits.
pub open spec fn decimal(n: int) -> Seq<char> {
    if n < 0 {
        seq!['-'] + nat_decimal((-n) as nat)
    } else {
        nat_decimal(n as nat)
    }
}

/// Appends the decimal digits of `n`.
pub fn push_nat(s: &mut String, n: u32)
    ensures
        final(s)@ == old(s)@ + nat_decimal(n as nat),
    decreases n,
{
    if n >= 10 {
        push_nat(s, n / 10);
    }
    let d = (n % 10) as u8;
    let c = (48u8 + d) as char;
    push_char(s, c);
    assert(c == digit_char((n % 10) as int));
    if n >= 10 {
        assert(old(s)@ + nat_decimal(n as nat) =~= old(s)@ + nat_decimal((n / 10) as nat) + seq![c]);
    } else {
        assert(old(s)@ + nat_decimal(n as nat) =~= old(s)@.push(c));
    }
}

/// Appends `n` written in decimal.
pub fn push_i32(s: &mut String, n: i32)
    ensures
        final(s)@ == old(s)@ + decimal(n as int),
{
    if n < 0 {
        push_char(s, '-');
        let m: u32 = (0i64 - n as i64) as u32;
        push_nat(s, m);
        assert(old(s)@ + decimal(n as int) =~= old(s)@.push('-') + nat_decimal(m as nat));
    } else {
        push_nat(s, n as u32);
    }
}

/// `s` without the `#` characters at its start, as
/// `str::trim_start_matches("#")` gives it.
pub open spec fn trim_hashes(s: Seq<char>) -> Seq<char>
    decreases s.len(),
{
    if s.len() > 0 && s[0] == '#' {
        trim_hashes(s.drop_first())
    } else {
        s
    }
}

/// `s` without the `#` characters at its start.
pub fn trim_leading_hashes(s: &str) -> (r: String)
    ensures
        r@ == trim_hashes(s@),
{
    let mut out = String::new();
    let ghost full = s@;
    let mut leading = true;
    assert(full.skip(0) =~= full);
    for c in it: s.chars()
        invariant
            it.seq() == full,
            leading ==> out@.len() == 0 && trim_hashes(full) == trim_hashes(full.skip(it.index())),
            !leading ==> out@ + full.skip(it.index()) == trim_hashes(full),
    {
        let ghost i = it.index();
        assert(full.skip(i)[0] == c);
        assert(full.skip(i).drop_first() =~= full.skip(i + 1));
        if leading && c == '#' {
        } else {
            if leading {
                assert(trim_hashes(full.skip(i)) == full.skip(i));
                assert(out@ + full.skip(i) =~= full.skip(i));
            }
            leading = false;
            let ghost prev = out@;
            push_char(&mut out, c);
            assert(out@ + full.skip(i + 1) =~= prev + full.skip(i));
        }
    }
    assert(full.skip(full.len() as int) =~= Seq::<char>::empty());
    if leading {
        assert(trim_hashes(Seq::<char>::empty()) == Seq::<char>::empty());
    }
    assert(out@ + Seq::<char>::empty() =~= out@);
    out
}

/// Whether the bytes `b` end with the bytes `suffix`.
pub open spec fn bytes_end_with(b: Seq<u8>, suffix: Seq<u8>) -> bool {
    b.len() >= suffix.len() && b.subrange(b.len() - suffix.len(), b.len() as int) == suffix
}

/// Whether `s` ends with `suffix`, as `str::ends_with` tells it: by their
/// UTF-8 bytes.
pub fn ends_with(s: &str, suffix: &str) -> (r: bool)
    ensures
        r == bytes_end_with(encode_utf8(s@), encode_utf8(suffix@)),
{
    let b = s.as_bytes();
    let t = suffix.as_bytes();
    if b.len() < t.len() {
        return false;
    }
    let offset = b.len() - t.len();
    let mut i: usize = 0;
    while i < t.len()
        invariant
            b@ == encode_utf8(s@),
            t@ == encode_utf8(suffix@),
            offset + t@.len() == b@.len(),
            b@.len() <= usize::MAX,
            i <= t@.len(),
            forall|j: int| 0 <= j < i ==> b@[offset + j] == t@[j],
        decreases t.len() - i,
    {
        if b[offset + i] != t[i] {
            assert(b@.subrange(offset as int, b@.len() as int)[i as int] != t@[i as int]);
            return false;
        }
        i = i + 1;
    }
    assert(b@.subrange(offset as int, b@.len() as int) =~= t@);
    true
}

/// The digits of a number are digits, at least one, and they read back as
/// the number.
pub proof fn lemma_nat_decimal_reads_back(n: nat)
    ensures
        nat_decimal(n).len() > 0,
        all_digits(nat_decimal(n)),
        digits_value(nat_decimal(n)) == n,
    decreases n,
{
    let s = nat_decimal(n);
    let d = (n % 10) as int;
    assert(0 <= d < 10);
    assert(digit_char(d) as int == 48 + d);
    if n < 10 {
        assert(s.drop_last() =~= Seq::<char>::empty());
        assert(s.last() == digit_char(n as int));
        assert(digits_value(s.drop_last()) == 0);
        assert(digits_value(s) == digits_value(s.drop_last()) * 10 + (s.last() as int - '0' as int));
    } else {
        lemma_nat_decimal_reads_back(n / 10);
        let p = nat_decimal(n / 10);
        assert(s.drop_last() =~= p);
        assert(s.last() == digit_char(d));
        assert(digits_value(s) == digits_value(s.drop_last()) * 10 + (s.last() as int - '0' as int));
        assert(n == (n / 10) * 10 + n % 10) by (nonlinear_arith);
        assert forall|i: int| 0 <= i < s.len() implies is_digit(#[trigger] s[i]) by {
            if i < p.len() {
                assert(s[i] == p[i]);
            }
        }
    }
}

/// A number written in decimal reads back as the same number:
/// `str::parse::<i32>` undoes `Display` for every `i32`.
pub proof fn lemma_decimal_parses_back(n: i32)
    ensures
        parse_i32(decimal(n as int)) == Some(n),
{
    if n < 0 {
        let m = (-(n as int)) as nat;
        lemma_nat_decimal_reads_back(m);
        let s = decimal(n as int);
        assert(s[0] == '-');
        assert(s.drop_first() =~= nat_decimal(m));
    } else {
        lemma_nat_decimal_reads_back(n as nat);
        let s = nat_decimal(n as nat);
        assert(is_digit(s[0]));
    }
}

/// The open line of a text without carriage returns has none either.
pub proof fn lemma_open_line_no_cr(s: Seq<char>)
    requires
        !s.contains('\r'),
    ensures
        !open_line(s).contains('\r'),
    decreases s.len(),
{
    if s.len() > 0 && s.last() != '\n' {
        let p = s.drop_last();
        assert(!p.contains('\r')) by {
            if p.contains('\r') {
                let j = choose|j: int| 0 <= j < p.len() && #[trigger] p[j] == '\r';
                assert(s[j] == '\r');
            }
        }
        lemma_open_line_no_cr(p);
        let o = open_line(s);
        let q = open_line(p);
        assert(o == q.push(s.last()));
        assert(s.last() != '\r') by {
            assert(s[s.len() - 1] == s.last());
        }
        assert forall|i: int| 0 <= i < o.len() implies o[i] != '\r' by {
            if i < q.len() {
                assert(o[i] == q[i]);
                if q[i] == '\r' {
                    assert(q.contains('\r'));
                }
            }
        }
    }
}

/// Joining the lines of a text without carriage returns, the last one
/// taken even where it is empty, gives the text back.
pub proof fn lemma_join_lines_restores(s: Seq<char>)
    requires
        !s.contains('\r'),
    ensures
        join_lines(finished_lines(s).push(open_line(s))) == s,
    decreases s.len(),
{
    if s.len() == 0 {
        assert(finished_lines(s).push(open_line(s)) =~= seq![Seq::<char>::empty()]);
    } else {
        let p = s.drop_last();
        let c = s.last();
        assert(!p.contains('\r')) by {
            if p.contains('\r') {
                let j = choose|j: int| 0 <= j < p.len() && #[trigger] p[j] == '\r';
                assert(s[j] == '\r');
            }
        }
        lemma_join_lines_restores(p);
        let f = finished_lines(p);
        let o = open_line(p);
        if c == '\n' {
            lemma_open_line_no_cr(p);
            if o.len() > 0 && o.last() == '\r' {
                assert(o[o.len() - 1] == '\r');
                assert(o.contains('\r'));
            }
            assert(strip_cr(o) == o);
            let ls = f.push(o).push(Seq::<char>::empty());
            assert(ls.drop_last() =~= f.push(o));
            assert(join_lines(ls) == join_lines(f.push(o)) + seq!['\n'] + Seq::<char>::empty());
            assert(s =~= p + seq!['\n']);
        } else {
            let ls = f.push(o.push(c));
            if f.len() == 0 {
                assert(f.push(o) =~= seq![o]);
                assert(ls =~= seq![o.push(c)]);
            } else {
                assert(ls.drop_last() =~= f);
                assert(f.push(o).drop_last() =~= f);
                assert(join_lines(f.push(o)) == join_lines(f) + seq!['\n'] + o);
                assert(join_lines(ls) == join_lines(f) + seq!['\n'] + o.push(c));
            }
            assert(s =~= p.push(c));
        }
    }
}

/// Lines whose join stays under `room` bytes all fit.
pub proof fn lemma_all_fit(ls: Seq<Seq<char>>, room: int)
    requires
        byte_len(join_lines(ls)) < room,
    ensures
        fit_count(ls, room) == ls.len(),
    decreases ls.len(),
{
    if ls.len() == 1 {
        assert(ls.drop_first() =~= Seq::<Seq<char>>::empty());
        assert(join_lines(ls) == ls[0]);
        assert(fit_count(ls.drop_first(), room - byte_len(ls[0]) - 1) == 0);
    } else if ls.len() >= 2 {
        lemma_join_front(ls);
        lemma_byte_len_concat(ls[0], seq!['\n']);
        lemma_byte_len_concat(ls[0] + seq!['\n'], join_lines(ls.drop_first()));
        lemma_newline_byte();
        assert(byte_len(join_lines(ls)) == byte_len(ls[0]) + 1 + byte_len(join_lines(ls.drop_first())));
        lemma_all_fit(ls.drop_first(), room - byte_len(ls[0]) - 1);
    }
}

} // verus!
