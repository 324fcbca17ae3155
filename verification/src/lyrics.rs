//! Decoding of LRC lyrics: the lyric lines with their timestamps, matched with the lines of
//! the translation and of the romanization that carry the same timestamp.
use vstd::prelude::*;
use vstd::string::StringSliceAdditionalSpecFns;
use vstd::utf8::{encode_utf8, is_char_boundary};
use crate::naming::parse_u64;
use crate::text::{chars_of, slice_chars, string_of};

verus! {

/// One line of decoded lyrics.
#[derive(Clone, Debug)]
pub struct LyricLine {
    /// Milliseconds from the start of the song.
    pub timestamp: u64,
    pub lyric_line: String,
    pub trans_lyric_line: Option<String>,
    pub roman_lyric_line: Option<String>,
}

/// A decoded lyric line with its texts as character sequences.
pub struct LyricView {
    pub timestamp: u64,
    pub lyric: Seq<char>,
    pub trans: Option<Seq<char>>,
    pub roman: Option<Seq<char>>,
}

impl LyricLine {
    pub open spec fn view(&self) -> LyricView {
        LyricView {
            timestamp: self.timestamp,
            lyric: self.lyric_line@,
            trans: match &self.trans_lyric_line {
                Some(t) => Some(t@),
                None => None,
            },
            roman: match &self.roman_lyric_line {
                Some(t) => Some(t@),
                None => None,
            },
        }
    }
}

/// The views of decoded lyric lines.
pub open spec fn lyric_views(v: Seq<LyricLine>) -> Seq<LyricView> {
    v.map_values(|l: LyricLine| l.view())
}

/// A bare timestamp `[m:s]`.
pub const BARE_TIMESTAMP: &'static str = r"\[(\d+):(\d+)]";

/// A timestamp whose fraction has two digits, `[m:s.dd]` (any character stands for the dot).
pub const TWO_DIGIT_FRACTION: &'static str = r"\[(\d+):(\d+).(\d)(\d)]";

/// A timestamp whose fraction has one digit, `[m:s.d]`.
pub const ONE_DIGIT_FRACTION: &'static str = r"\[(\d+):(\d+).(\d)]";

/// A leading timestamp with a colon before its fraction, `[m:s:f]`.
pub const COLON_FRACTION: &'static str = r"^\[(\d+):(\d+):(\d+)]";

/// Any timestamp `[m:s.f]`.
pub const TIMESTAMP: &'static str = r"\[\d+:\d+.\d+]";

/// Whether `pattern` is one of the regular expressions above, all of which compile.
pub open spec fn lyric_pattern(pattern: Seq<char>) -> bool {
    ||| pattern == BARE_TIMESTAMP@
    ||| pattern == TWO_DIGIT_FRACTION@
    ||| pattern == ONE_DIGIT_FRACTION@
    ||| pattern == COLON_FRACTION@
    ||| pattern == TIMESTAMP@
}

/// What `Regex::replace_all` gives for the regular expression `pattern`, the text and the
/// replacement (where `$n` stands for the n-th group).
pub uninterp spec fn regex_replaced(pattern: Seq<char>, text: Seq<char>, replacement: Seq<char>) -> Seq<char>;

/// Whether the regular expression `pattern` matches somewhere in the text (`Regex::is_match`).
pub uninterp spec fn regex_matches(pattern: Seq<char>, text: Seq<char>) -> bool;

/// `regex::Regex::replace_all` of the regular expression `pattern` (compiled by `Regex::new`)
/// in `text`. The contract names the result; how the expression matches is not stated.
#[verifier::external_body]
fn regex_replace_all(pattern: &str, text: &str, replacement: &str) -> (r: String)
    requires
        lyric_pattern(pattern@),
    ensures
        r@ == regex_replaced(pattern@, text@, replacement@),
{
    regex::Regex::new(pattern).unwrap().replace_all(text, replacement).to_string()
}

/// `regex::Regex::is_match` of the regular expression `pattern` (compiled by `Regex::new`) on
/// `text`. The contract names the result; how the expression matches is not stated.
#[verifier::external_body]
fn regex_is_match(pattern: &str, text: &str) -> (r: bool)
    requires
        lyric_pattern(pattern@),
    ensures
        r == regex_matches(pattern@, text@),
{
    regex::Regex::new(pattern).unwrap().is_match(text)
}

/// A line with its timestamps brought to the form `[mm:ss.fff]`: bare ones get `.000`, short
/// fractions are padded with zeros on the left, and a leading `[m:s:f]` gets its dot.
pub open spec fn fixed_line(line: Seq<char>) -> Seq<char> {
    let a = regex_replaced(BARE_TIMESTAMP@, line, "[$1:$2.000]"@);
    let b = regex_replaced(TWO_DIGIT_FRACTION@, a, "[$1:$2.0$3$4]"@);
    let c = regex_replaced(ONE_DIGIT_FRACTION@, b, "[$1:$2.00$3]"@);
    regex_replaced(COLON_FRACTION@, c, "[$1:$2.$3]"@)
}

/// A lyric source line prepared for matching: its fixed text, whether that holds a timestamp,
/// and the text without timestamps.
#[derive(Clone, Debug)]
pub struct TimedLine {
    pub text: String,
    pub timed: bool,
    pub body: String,
}

/// A prepared line with its texts as character sequences.
pub struct TimedView {
    pub text: Seq<char>,
    pub timed: bool,
    pub body: Seq<char>,
}

impl TimedLine {
    pub open spec fn view(&self) -> TimedView {
        TimedView { text: self.text@, timed: self.timed, body: self.body@ }
    }
}

/// The views of prepared lines.
pub open spec fn timed_views(v: Seq<TimedLine>) -> Seq<TimedView> {
    v.map_values(|l: TimedLine| l.view())
}

/// How a raw lyric line is prepared.
pub open spec fn prepared(raw: Seq<char>) -> TimedView {
    let text = fixed_line(raw);
    TimedView {
        text,
        timed: regex_matches(TIMESTAMP@, text),
        body: regex_replaced(TIMESTAMP@, text, ""@),
    }
}

/// Prepares a raw lyric line for matching.
pub fn prepare_line(raw: &str) -> (r: TimedLine)
    ensures
        r.view() == prepared(raw@),
{
    let a = regex_replace_all(BARE_TIMESTAMP, raw, "[$1:$2.000]");
    let b = regex_replace_all(TWO_DIGIT_FRACTION, a.as_str(), "[$1:$2.0$3$4]");
    let c = regex_replace_all(ONE_DIGIT_FRACTION, b.as_str(), "[$1:$2.00$3]");
    let text = regex_replace_all(COLON_FRACTION, c.as_str(), "[$1:$2.$3]");
    let timed = regex_is_match(TIMESTAMP, text.as_str());
    let body = regex_replace_all(TIMESTAMP, text.as_str(), "");
    TimedLine { text, timed, body }
}

/// The UTF-8 bytes of a text.
pub open spec fn bytes_of(s: Seq<char>) -> Seq<u8> {
    encode_utf8(s)
}

/// `u64::from_str` on the text of some bytes.
pub open spec fn parse_bytes(b: Seq<u8>) -> Option<u64> {
    parse_u64(b.map_values(|x: u8| x as char))
}

/// Whether `&text[from..to]` can be taken: both ends are character boundaries within the text.
pub open spec fn slice_ok(b: Seq<u8>, from: int, to: int) -> bool {
    is_char_boundary(b, from) && is_char_boundary(b, to)
}

proof fn lemma_boundary_within(b: Seq<u8>, k: int)
    requires
        vstd::utf8::valid_utf8(b),
        is_char_boundary(b, k),
    ensures
        0 <= k <= b.len(),
{
    reveal_with_fuel(is_char_boundary, 1);
}

/// Whether the timestamp of a line with bytes `b` can be read: minutes in bytes 1..3 and seconds
/// in bytes 4..6 are numbers, and the slices up to byte 10 can be taken.
pub open spec fn stamp_ok(b: Seq<u8>) -> bool {
    &&& slice_ok(b, 1, 3)
    &&& slice_ok(b, 4, 6)
    &&& slice_ok(b, 7, 10)
    &&& parse_bytes(b.subrange(1, 3)) is Some
    &&& parse_bytes(b.subrange(4, 6)) is Some
}

/// The timestamp in milliseconds of a line with bytes `b`: minutes and seconds from bytes 1..3
/// and 4..6, milliseconds from bytes 7..10 (0 when those are not a number).
pub open spec fn stamp_of(b: Seq<u8>) -> int {
    let m = parse_bytes(b.subrange(1, 3))->0;
    let s = parse_bytes(b.subrange(4, 6))->0;
    let ms = match parse_bytes(b.subrange(7, 10)) {
        Some(v) => v as int,
        None => 0,
    };
    (m * 60 + s) * 1000 + ms
}

/// `s` without trailing tab characters.
pub open spec fn trim_tabs(s: Seq<char>) -> Seq<char>
    decreases s.len(),
{
    if s.len() > 0 && s.last() == '\t' {
        trim_tabs(s.drop_last())
    } else {
        s
    }
}

/// The largest index not above `p` of a line holding a timestamp, or -1.
pub open spec fn last_timed(ls: Seq<TimedView>, p: int) -> int
    decreases p + 1,
{
    if p < 0 {
        -1
    } else if ls[p].timed {
        p
    } else {
        last_timed(ls, p - 1)
    }
}

/// Matching one translation (or romanization) line, walking back from `p`, against the lyric line
/// with bytes `b`: lines without a timestamp are passed over; the first timed line is taken if it
/// starts with the first eleven bytes of the lyric line (then the walk moves past it), else the
/// walk stays on it. `None` when those eleven bytes cannot be sliced.
pub open spec fn attach(ls: Seq<TimedView>, p: int, b: Seq<u8>) -> Option<
    (Option<Seq<char>>, int),
> {
    let j = last_timed(ls, p);
    if j < 0 {
        Some((None, -1))
    } else if !slice_ok(b, 0, 11) {
        None
    } else {
        let t = bytes_of(ls[j].text);
        if 11 <= t.len() && t.subrange(0, 11) == b.subrange(0, 11) {
            Some((Some(trim_tabs(ls[j].body)), j - 1))
        } else {
            Some((None, j))
        }
    }
}

/// Decoding the first `k` lyric lines from the last backwards, with the translation walk at `tp`
/// and the romanization walk at `rp`: the decoded lines in that backward order, or `None` when a
/// timestamp or prefix cannot be read.
pub open spec fn decode_back(
    lines: Seq<TimedView>,
    k: int,
    trans: Seq<TimedView>,
    tp: int,
    roman: Seq<TimedView>,
    rp: int,
) -> Option<Seq<LyricView>>
    decreases k,
{
    if k <= 0 {
        Some(seq![])
    } else {
        let l = lines[k - 1];
        if !l.timed {
            decode_back(lines, k - 1, trans, tp, roman, rp)
        } else {
            let b = bytes_of(l.text);
            if !stamp_ok(b) {
                None
            } else {
                match attach(trans, tp, b) {
                    None => None,
                    Some((t, tp2)) => match attach(roman, rp, b) {
                        None => None,
                        Some((r, rp2)) => match decode_back(lines, k - 1, trans, tp2, roman, rp2) {
                            None => None,
                            Some(rest) => Some(
                                seq![
                                    LyricView {
                                        timestamp: stamp_of(b) as u64,
                                        lyric: trim_tabs(l.body),
                                        trans: t,
                                        roman: r,
                                    },
                                ] + rest,
                            ),
                        },
                    },
                }
            }
        }
    }
}

/// The decoded lyrics of prepared lines, in the order of the lyric lines: each timed lyric line
/// with its timestamp, its text without timestamps and trailing tabs, and the matching
/// translation and romanization. `None` for the inputs on which decoding cannot proceed: an empty
/// translation or romanization list, or a timed lyric line whose timestamp or first eleven bytes
/// cannot be read.
pub open spec fn decoded(lines: Seq<TimedView>, trans: Seq<TimedView>, roman: Seq<TimedView>) -> Option<
    Seq<LyricView>,
> {
    if trans.len() == 0 || roman.len() == 0 {
        None
    } else {
        match decode_back(lines, lines.len() as int, trans, trans.len() - 1, roman, roman.len() - 1) {
            Some(v) => Some(v.reverse()),
            None => None,
        }
    }
}

proof fn lemma_short_number(c: Seq<char>)
    requires
        c.len() <= 3,
        parse_u64(c) is Some,
    ensures
        parse_u64(c)->0 < 1000,
{
    reveal_with_fuel(crate::naming::digits_value, 4);
    let d = crate::naming::unsigned_digits(c);
    assert(d.len() <= 3);
    assert(crate::naming::all_digits(d));
    assert forall|i: int| 0 <= i < d.len() implies crate::naming::digit_value(d[i]) <= 9 by {
        assert(crate::naming::is_digit(d[i]));
    }
    if d.len() >= 1 {
        let d1 = d.drop_last();
        if d1.len() >= 1 {
            let d2 = d1.drop_last();
            assert(d1.last() == d[d.len() - 2]);
            if d2.len() >= 1 {
                assert(d2.last() == d[d.len() - 3]);
                assert(d2.drop_last().len() == 0);
            }
        }
    }
}

/// `u64::from_str` on the text of bytes `from..to`.
fn parse_byte_range(b: &[u8], from: usize, to: usize) -> (r: Option<u64>)
    requires
        from <= to <= b@.len(),
    ensures
        r == parse_bytes(b@.subrange(from as int, to as int)),
{
    let mut c: Vec<char> = Vec::new();
    let mut i = from;
    while i < to
        invariant
            from <= i <= to <= b@.len(),
            c@ == b@.subrange(from as int, i as int).map_values(|x: u8| x as char),
        decreases to - i,
    {
        c.push(b[i] as char);
        i += 1;
    }
    crate::naming::parse_u64_chars(&c)
}

/// Whether `&s[from..to]` can be taken.
fn can_slice(s: &str, from: usize, to: usize) -> (r: bool)
    ensures
        r == slice_ok(bytes_of(s@), from as int, to as int),
{
    s.is_char_boundary(from) && s.is_char_boundary(to)
}

/// `s` without trailing tab characters.
fn trim_tab_chars(s: &String) -> (r: String)
    ensures
        r@ == trim_tabs(s@),
{
    let c = chars_of(s.as_str());
    let mut k = c.len();
    assert(c@.subrange(0, k as int) =~= c@);
    while k > 0 && c[k - 1] == '\t'
        invariant
            k <= c.len(),
            trim_tabs(c@) == trim_tabs(c@.subrange(0, k as int)),
        decreases k,
    {
        assert(c@.subrange(0, k as int).drop_last() =~= c@.subrange(0, k - 1));
        k -= 1;
    }
    assert(c@.subrange(0, c.len() as int) =~= c@);
    let t = slice_chars(&c, 0, k);
    string_of(&t)
}

/// One more than the index of the last timed line among the first `count` lines, or 0.
fn find_timed(ls: &Vec<TimedLine>, count: usize) -> (r: usize)
    requires
        count <= ls.len(),
    ensures
        r as int - 1 == last_timed(timed_views(ls@), count as int - 1),
        r <= count,
{
    let ghost v = timed_views(ls@);
    let mut c = count;
    while c > 0 && !ls[c - 1].timed
        invariant
            c <= count <= ls.len(),
            v == timed_views(ls@),
            last_timed(v, count as int - 1) == last_timed(v, c as int - 1),
        decreases c,
    {
        assert(v[c - 1].timed == ls@[c - 1].timed);
        c -= 1;
    }
    proof {
        if c > 0 {
            assert(v[c - 1].timed == ls@[c - 1].timed);
        }
    }
    c
}

/// Whether the first eleven bytes of `a` and `b` agree.
fn same_first_eleven(a: &[u8], b: &[u8]) -> (r: bool)
    requires
        11 <= a@.len(),
        11 <= b@.len(),
    ensures
        r == (a@.subrange(0, 11) == b@.subrange(0, 11)),
{
    let mut i: usize = 0;
    while i < 11
        invariant
            i <= 11,
            11 <= a@.len(),
            11 <= b@.len(),
            forall|k: int| 0 <= k < i ==> a@[k] == b@[k],
        decreases 11 - i,
    {
        if a[i] != b[i] {
            assert(a@.subrange(0, 11)[i as int] != b@.subrange(0, 11)[i as int]);
            return false;
        }
        i += 1;
    }
    assert(a@.subrange(0, 11) =~= b@.subrange(0, 11));
    true
}

/// The exec counterpart of `attach`, with walk positions held as one more than the index.
fn attach_line(ls: &Vec<TimedLine>, count: usize, line: &str) -> (r: Option<(Option<String>, usize)>)
    requires
        count <= ls.len(),
    ensures
        match attach(timed_views(ls@), count as int - 1, bytes_of(line@)) {
            None => r is None,
            Some((t, p)) => r matches Some((rt, rp)) && rp as int - 1 == p && rp <= count && match rt {
                Some(x) => t == Some(x@),
                None => t is None,
            },
        },
{
    let ghost v = timed_views(ls@);
    let j1 = find_timed(ls, count);
    if j1 == 0 {
        return Some((None, 0));
    }
    if !can_slice(line, 0, 11) {
        return None;
    }
    proof {
        vstd::utf8::encode_utf8_valid_utf8(line@);
        lemma_boundary_within(bytes_of(line@), 11);
    }
    let j = j1 - 1;
    let t = ls[j].text.as_str();
    let tb = t.as_bytes();
    let lb = line.as_bytes();
    assert(v[j as int].text == ls@[j as int].text@);
    assert(tb@ == bytes_of(v[j as int].text));
    if tb.len() < 11 {
        return Some((None, j1));
    }
    if !same_first_eleven(tb, lb) {
        return Some((None, j1));
    }
    assert(v[j as int].body == ls@[j as int].body@);
    Some((Some(trim_tab_chars(&ls[j].body)), j))
}

/// A decoded prefix followed by the decoding of the rest, if that succeeds.
pub open spec fn prepend(a: Seq<LyricView>, rest: Option<Seq<LyricView>>) -> Option<Seq<LyricView>> {
    match rest {
        Some(r) => Some(a + r),
        None => None,
    }
}

/// Decodes prepared lyric lines with their translation and romanization; `None` exactly on the
/// inputs `decoded` rules out.
pub fn try_decode_lyrics(lines: &Vec<TimedLine>, trans: &Vec<TimedLine>, roman: &Vec<TimedLine>) -> (r: Option<Vec<LyricLine>>)
    ensures
        match r {
            Some(v) => decoded(timed_views(lines@), timed_views(trans@), timed_views(roman@))
                == Some(lyric_views(v@)),
            None => decoded(timed_views(lines@), timed_views(trans@), timed_views(roman@)) is None,
        },
{
    let ghost lv = timed_views(lines@);
    let ghost tv = timed_views(trans@);
    let ghost rv = timed_views(roman@);
    if trans.len() == 0 || roman.len() == 0 {
        return None;
    }
    let ghost total = decode_back(lv, lines.len() as int, tv, trans.len() - 1, rv, roman.len() - 1);
    let mut acc: Vec<LyricLine> = Vec::new();
    let mut tp = trans.len();
    let mut rp = roman.len();
    let mut k = lines.len();
    while k > 0
        invariant
            k <= lines.len(),
            tp <= trans.len(),
            rp <= roman.len(),
            lv == timed_views(lines@),
            tv == timed_views(trans@),
            rv == timed_views(roman@),
            trans.len() > 0,
            roman.len() > 0,
            total == decode_back(lv, lines.len() as int, tv, trans.len() - 1, rv, roman.len() - 1),
            total == prepend(lyric_views(acc@), decode_back(lv, k as int, tv, tp - 1, rv, rp - 1)),
        decreases k,
    {
        let line = &lines[k - 1];
        assert(lv[k - 1] == line.view());
        if line.timed {
            let text = line.text.as_str();
            let b = text.as_bytes();
            if !(can_slice(text, 1, 3) && can_slice(text, 4, 6) && can_slice(text, 7, 10)) {
                return None;
            }
            proof {
                vstd::utf8::encode_utf8_valid_utf8(text@);
                lemma_boundary_within(bytes_of(text@), 10);
            }
            let m = parse_byte_range(b, 1, 3);
            let sec = parse_byte_range(b, 4, 6);
            if m.is_none() || sec.is_none() {
                return None;
            }
            let ms = parse_byte_range(b, 7, 10);
            proof {
                lemma_short_number(b@.subrange(1, 3).map_values(|x: u8| x as char));
                lemma_short_number(b@.subrange(4, 6).map_values(|x: u8| x as char));
                if ms is Some {
                    lemma_short_number(b@.subrange(7, 10).map_values(|x: u8| x as char));
                }
            }
            let mv = m.unwrap();
            let sv = sec.unwrap();
            let msv: u64 = match ms {
                Some(v) => v,
                None => 0,
            };
            let stamp = (mv * 60 + sv) * 1000 + msv;
            let t = match attach_line(trans, tp, text) {
                Some(x) => x,
                None => {
                    return None;
                },
            };
            let r = match attach_line(roman, rp, text) {
                Some(x) => x,
                None => {
                    return None;
                },
            };
            let (tline, tp2) = t;
            let (rline, rp2) = r;
            let entry = LyricLine {
                timestamp: stamp,
                lyric_line: trim_tab_chars(&line.body),
                trans_lyric_line: tline,
                roman_lyric_line: rline,
            };
            let ghost before = acc@;
            acc.push(entry);
            proof {
                assert(lyric_views(acc@) =~= lyric_views(before).push(entry.view()));
                match decode_back(lv, k - 1, tv, tp2 - 1, rv, rp2 - 1) {
                    Some(rest) => {
                        assert(lyric_views(before) + (seq![entry.view()] + rest) =~= lyric_views(
                            acc@,
                        ) + rest);
                    },
                    None => {},
                }
            }
            tp = tp2;
            rp = rp2;
        }
        k -= 1;
    }
    assert(lyric_views(acc@) + Seq::<LyricView>::empty() =~= lyric_views(acc@));
    let ghost pushed = lyric_views(acc@);
    let mut out: Vec<LyricLine> = Vec::new();
    while acc.len() > 0
        invariant
            lyric_views(acc@) + lyric_views(out@).reverse() == pushed,
        decreases acc.len(),
    {
        let ghost a = acc@;
        let ghost o = out@;
        let x = acc.pop().unwrap();
        out.push(x);
        assert(lyric_views(acc@) =~= lyric_views(a).drop_last());
        assert(lyric_views(out@).reverse() =~= seq![x.view()] + lyric_views(o).reverse());
        assert(lyric_views(a) =~= lyric_views(acc@).push(x.view()));
    }
    assert(lyric_views(out@).reverse() =~= pushed);
    assert(lyric_views(out@) =~= pushed.reverse());
    Some(out)
}

/// Prepares each raw line.
pub fn prepare_lines(raw: &Vec<String>) -> (r: Vec<TimedLine>)
    ensures
        timed_views(r@) == raw@.map_values(|l: String| prepared(l@)),
{
    let mut r: Vec<TimedLine> = Vec::new();
    let mut i: usize = 0;
    while i < raw.len()
        invariant
            i <= raw.len(),
            timed_views(r@) == raw@.subrange(0, i as int).map_values(|l: String| prepared(l@)),
        decreases raw.len() - i,
    {
        let ghost before = r@;
        r.push(prepare_line(raw[i].as_str()));
        assert(timed_views(r@) =~= timed_views(before).push(prepared(raw@[i as int]@)));
        assert(raw@.subrange(0, i + 1).map_values(|l: String| prepared(l@)) =~= raw@.subrange(
            0,
            i as int,
        ).map_values(|l: String| prepared(l@)).push(prepared(raw@[i as int]@)));
        i += 1;
    }
    assert(raw@.subrange(0, raw.len() as int) =~= raw@);
    r
}

/// Decodes lyrics from the lines of the lyric text, of its translation and of its
/// romanization: timestamps are first brought to the form `[mm:ss.fff]`, then each timed line is
/// decoded with the translation and romanization lines carrying its timestamp. `None` on the
/// inputs on which decoding cannot proceed (see `decoded`).
pub fn encode_lyrics(origin_lyric_lines: Vec<String>, origin_trans_lyric_lines: Vec<String>, origin_roman_lyric_lines: Vec<String>) -> (r: Option<Vec<LyricLine>>)
    ensures
        ({
            let lv = origin_lyric_lines@.map_values(|l: String| prepared(l@));
            let tv = origin_trans_lyric_lines@.map_values(|l: String| prepared(l@));
            let rv = origin_roman_lyric_lines@.map_values(|l: String| prepared(l@));
            match r {
                Some(v) => decoded(lv, tv, rv) == Some(lyric_views(v@)),
                None => decoded(lv, tv, rv) is None,
            }
        }),
{
    let lines = prepare_lines(&origin_lyric_lines);
    let trans = prepare_lines(&origin_trans_lyric_lines);
    let roman = prepare_lines(&origin_roman_lyric_lines);
    try_decode_lyrics(&lines, &trans, &roman)
}

/// Whether byte `x` is an ASCII decimal digit.
pub open spec fn digit_byte(x: u8) -> bool {
    48 <= x <= 57
}

proof fn lemma_digit_char(x: u8)
    requires
        digit_byte(x),
    ensures
        crate::naming::is_digit(x as char),
        crate::naming::digit_value(x as char) == x - 48,
        (x as char) != '+',
{
}

/// Two or three ASCII digit bytes are read as the number they write.
proof fn lemma_parse_digit_bytes(s: Seq<u8>)
    requires
        s.len() == 2 || s.len() == 3,
        forall|i: int| 0 <= i < s.len() ==> digit_byte(#[trigger] s[i]),
    ensures
        s.len() == 2 ==> parse_bytes(s) == Some(((s[0] - 48) * 10 + (s[1] - 48)) as u64),
        s.len() == 3 ==> parse_bytes(s) == Some(((s[0] - 48) * 100 + (s[1] - 48) * 10 + (s[2] - 48)) as u64),
{
    reveal_with_fuel(crate::naming::digits_value, 4);
    let c = s.map_values(|x: u8| x as char);
    lemma_digit_char(s[0]);
    lemma_digit_char(s[1]);
    assert(c[0] == s[0] as char && c[1] == s[1] as char);
    if s.len() == 3 {
        lemma_digit_char(s[2]);
        assert(c[2] == s[2] as char);
    }
    assert(crate::naming::unsigned_digits(c) == c);
    assert(crate::naming::all_digits(c)) by {
        assert forall|i: int| 0 <= i < c.len() implies crate::naming::is_digit(#[trigger] c[i]) by {
            lemma_digit_char(s[i]);
        }
    }
    let d1 = c.drop_last();
    assert(d1.last() == c[c.len() - 2]);
    if s.len() == 3 {
        let d2 = d1.drop_last();
        assert(d2.last() == c[0]);
        assert(d2.drop_last().len() == 0);
    } else {
        assert(d1.drop_last().len() == 0);
    }
}

/// A line that begins `[MM:SS.fff` with decimal digits is timed at
/// `(MM * 60 + SS) * 1000 + fff` milliseconds: each digit group counts with its decimal value.
pub proof fn lemma_stamp_reads_digits(b: Seq<u8>)
    requires
        b.len() >= 10,
        digit_byte(b[1]),
        digit_byte(b[2]),
        digit_byte(b[4]),
        digit_byte(b[5]),
        digit_byte(b[7]),
        digit_byte(b[8]),
        digit_byte(b[9]),
    ensures
        stamp_of(b) == (((b[1] - 48) * 10 + (b[2] - 48)) * 60 + (b[4] - 48) * 10 + (b[5] - 48)) * 1000
            + (b[7] - 48) * 100 + (b[8] - 48) * 10 + (b[9] - 48),
{
    let m = b.subrange(1, 3);
    let s = b.subrange(4, 6);
    let f = b.subrange(7, 10);
    assert(m[0] == b[1] && m[1] == b[2]);
    assert(s[0] == b[4] && s[1] == b[5]);
    assert(f[0] == b[7] && f[1] == b[8] && f[2] == b[9]);
    lemma_parse_digit_bytes(m);
    lemma_parse_digit_bytes(s);
    lemma_parse_digit_bytes(f);
}

} // verus!
