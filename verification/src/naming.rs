//! Names of downloaded song and lyric files, and how a file name is matched back to a song.
use vstd::prelude::*;
use crate::model::Song;
use std::collections::HashSet;
use crate::text::{chars_occur_at, chars_of, occurs_at, push_str, slice_chars, starts_with, string_of};

verus! {

/// A control character (Unicode general category `Cc`), as `char::is_control` tests.
pub open spec fn is_control(c: char) -> bool {
    (c as u32) <= 0x1f || (0x7f <= (c as u32) && (c as u32) <= 0x9f)
}

/// A character that cannot stand in a file name on some platform.
pub open spec fn is_forbidden(c: char) -> bool {
    is_control(c) || c == '/' || c == '\\' || c == ':' || c == '*' || c == '?' || c == '"' || c
        == '<' || c == '>' || c == '|'
}

/// Characters trimmed from both ends of a file name.
pub open spec fn is_edge_junk(c: char) -> bool {
    c == ' ' || c == '.'
}

/// `s` without leading spaces and dots.
pub open spec fn strip_start(s: Seq<char>) -> Seq<char>
    decreases s.len(),
{
    if s.len() > 0 && is_edge_junk(s[0]) {
        strip_start(s.drop_first())
    } else {
        s
    }
}

/// `s` without trailing spaces and dots.
pub open spec fn strip_end(s: Seq<char>) -> Seq<char>
    decreases s.len(),
{
    if s.len() > 0 && is_edge_junk(s.last()) {
        strip_end(s.drop_last())
    } else {
        s
    }
}

/// Forbidden characters replaced by `_`.
pub open spec fn replace_forbidden(s: Seq<char>) -> Seq<char> {
    s.map_values(|c: char| if is_forbidden(c) { '_' } else { c })
}

/// A name made safe for a file system: forbidden characters become `_`, spaces and dots at
/// both ends are dropped, and a name left empty becomes `song`.
pub open spec fn sanitized(s: Seq<char>) -> Seq<char> {
    let t = strip_end(strip_start(replace_forbidden(s)));
    if t.len() == 0 {
        "song"@
    } else {
        t
    }
}

/// Every non-overlapping occurrence of `from` in `s`, scanning from the left, replaced by `to`.
pub open spec fn replace_all(s: Seq<char>, from: Seq<char>, to: Seq<char>) -> Seq<char>
    decreases s.len(),
{
    if s.len() == 0 {
        seq![]
    } else if from.len() > 0 && starts_with(s, from) {
        to + replace_all(s.skip(from.len() as int), from, to)
    } else {
        seq![s[0]] + replace_all(s.drop_first(), from, to)
    }
}

/// The decimal digits.
pub open spec fn digit_chars() -> Seq<char> {
    seq!['0', '1', '2', '3', '4', '5', '6', '7', '8', '9']
}

/// The decimal representation of `n`.
pub open spec fn dec(n: nat) -> Seq<char>
    decreases n,
{
    if n < 10 {
        seq![digit_chars()[n as int]]
    } else {
        dec(n / 10).push(digit_chars()[(n % 10) as int])
    }
}

/// The stem of a song or lyric file: `pattern` with its placeholders filled in and the
/// result made safe for a file system.
pub open spec fn rendered_name(
    name: Seq<char>,
    singer: Seq<char>,
    album: Seq<char>,
    id: u64,
    quality: Seq<char>,
    pattern: Seq<char>,
) -> Seq<char> {
    let a = replace_all(pattern, "{name}"@, sanitized(name));
    let b = replace_all(a, "{singer}"@, sanitized(singer));
    let c = replace_all(b, "{album}"@, sanitized(album));
    let d = replace_all(c, "{quality}"@, quality);
    let e = replace_all(d, "{id}"@, dec(id as nat));
    sanitized(e)
}

/// The character of the decimal digit `d`.
pub fn digit_char(d: u64) -> (c: char)
    requires
        d < 10,
    ensures
        c == digit_chars()[d as int],
{
    match d {
        0 => '0',
        1 => '1',
        2 => '2',
        3 => '3',
        4 => '4',
        5 => '5',
        6 => '6',
        7 => '7',
        8 => '8',
        _ => '9',
    }
}

/// The decimal digits of `n`.
pub fn dec_chars(n: u64) -> (r: Vec<char>)
    ensures
        r@ == dec(n as nat),
    decreases n,
{
    if n < 10 {
        let mut r: Vec<char> = Vec::new();
        r.push(digit_char(n));
        r
    } else {
        let mut r = dec_chars(n / 10);
        r.push(digit_char(n % 10));
        r
    }
}

/// The decimal representation of `n` (`u64::to_string`).
pub fn u64_to_string(n: u64) -> (r: String)
    ensures
        r@ == dec(n as nat),
{
    let v = dec_chars(n);
    string_of(&v)
}

/// Every occurrence of `from` in `s` replaced by `to`.
pub fn replace_chars(s: &Vec<char>, from: &Vec<char>, to: &Vec<char>) -> (r: Vec<char>)
    requires
        from.len() > 0,
    ensures
        r@ == replace_all(s@, from@, to@),
{
    let mut out: Vec<char> = Vec::new();
    let mut i: usize = 0;
    assert(s@.skip(0) =~= s@);
    while i < s.len()
        invariant
            from.len() > 0,
            i <= s.len(),
            out@ + replace_all(s@.skip(i as int), from@, to@) == replace_all(s@, from@, to@),
        decreases s.len() - i,
    {
        let ghost rest = s@.skip(i as int);
        if chars_occur_at(s, from, i) {
            proof {
                assert(rest.subrange(0, from@.len() as int) =~= s@.subrange(
                    i as int,
                    i + from@.len(),
                ));
                assert(rest.skip(from@.len() as int) =~= s@.skip(i + from@.len()));
                assert(out@ + to@ + replace_all(s@.skip(i + from@.len()), from@, to@) =~= out@
                    + (to@ + replace_all(s@.skip(i + from@.len()), from@, to@)));
            }
            let mut t = to.clone();
            out.append(&mut t);
            i += from.len();
        } else {
            proof {
                if from@.len() <= rest.len() {
                    assert(rest.subrange(0, from@.len() as int) =~= s@.subrange(
                        i as int,
                        i + from@.len(),
                    ));
                }
                assert(rest.drop_first() =~= s@.skip(i + 1));
                assert(out@.push(s@[i as int]) + replace_all(s@.skip(i + 1), from@, to@) =~= out@
                    + (seq![rest[0]] + replace_all(rest.drop_first(), from@, to@)));
            }
            out.push(s[i]);
            i += 1;
        }
    }
    assert(s@.skip(i as int) =~= Seq::<char>::empty());
    assert(out@ + Seq::<char>::empty() =~= out@);
    out
}

/// `s` with forbidden characters replaced by `_`.
fn replace_forbidden_chars(s: &Vec<char>) -> (r: Vec<char>)
    ensures
        r@ == replace_forbidden(s@),
{
    let mut r: Vec<char> = Vec::new();
    let mut i: usize = 0;
    while i < s.len()
        invariant
            i <= s.len(),
            r@ == replace_forbidden(s@.subrange(0, i as int)),
        decreases s.len() - i,
    {
        let c = s[i];
        let v = c as u32;
        let forbidden = v <= 0x1f || (0x7f <= v && v <= 0x9f) || c == '/' || c == '\\' || c == ':'
            || c == '*' || c == '?' || c == '"' || c == '<' || c == '>' || c == '|';
        r.push(if forbidden { '_' } else { c });
        assert(replace_forbidden(s@.subrange(0, i + 1)) =~= replace_forbidden(
            s@.subrange(0, i as int),
        ).push(if is_forbidden(c) { '_' } else { c }));
        i += 1;
    }
    assert(s@.subrange(0, s.len() as int) =~= s@);
    r
}

proof fn lemma_strip_start(s: Seq<char>, k: int)
    requires
        0 <= k <= s.len(),
        forall|j: int| 0 <= j < k ==> is_edge_junk(s[j]),
        k < s.len() ==> !is_edge_junk(s[k]),
    ensures
        strip_start(s) == s.subrange(k, s.len() as int),
    decreases k,
{
    if k == 0 {
        assert(s.subrange(0, s.len() as int) =~= s);
    } else {
        lemma_strip_start(s.drop_first(), k - 1);
        assert(s.drop_first().subrange(k - 1, s.drop_first().len() as int) =~= s.subrange(
            k,
            s.len() as int,
        ));
    }
}

proof fn lemma_strip_end(s: Seq<char>, k: int)
    requires
        0 <= k <= s.len(),
        forall|j: int| k <= j < s.len() ==> is_edge_junk(s[j]),
        k > 0 ==> !is_edge_junk(s[k - 1]),
    ensures
        strip_end(s) == s.subrange(0, k),
    decreases s.len() - k,
{
    if k == s.len() {
        assert(s.subrange(0, k) =~= s);
    } else {
        lemma_strip_end(s.drop_last(), k);
        assert(s.drop_last().subrange(0, k) =~= s.subrange(0, k));
    }
}

/// `s` with spaces and dots removed at both ends.
fn strip_edges(s: &Vec<char>) -> (r: Vec<char>)
    ensures
        r@ == strip_end(strip_start(s@)),
{
    let mut a: usize = 0;
    while a < s.len() && (s[a] == ' ' || s[a] == '.')
        invariant
            a <= s.len(),
            forall|j: int| 0 <= j < a ==> is_edge_junk(s@[j]),
        decreases s.len() - a,
    {
        a += 1;
    }
    proof {
        lemma_strip_start(s@, a as int);
    }
    let mut b = s.len();
    while b > a && (s[b - 1] == ' ' || s[b - 1] == '.')
        invariant
            a <= b <= s.len(),
            forall|j: int| b <= j < s.len() ==> is_edge_junk(s@[j]),
        decreases b,
    {
        b -= 1;
    }
    proof {
        let t = s@.subrange(a as int, s.len() as int);
        assert forall|j: int| b - a <= j < t.len() implies is_edge_junk(t[j]) by {
            assert(t[j] == s@[a + j]);
        }
        if b - a > 0 {
            assert(t[b - a - 1] == s@[b - 1]);
        }
        lemma_strip_end(t, b - a);
        assert(t.subrange(0, b - a) =~= s@.subrange(a as int, b as int));
    }
    slice_chars(s, a, b)
}

/// `s` made safe for a file system, as characters.
fn sanitize_chars(s: &Vec<char>) -> (r: Vec<char>)
    ensures
        r@ == sanitized(s@),
{
    let m = replace_forbidden_chars(s);
    let t = strip_edges(&m);
    if t.len() == 0 {
        chars_of("song")
    } else {
        t
    }
}

/// A name made safe for a file system: forbidden characters become `_`, spaces and dots at
/// both ends are dropped, and a name left empty becomes `song`.
pub fn sanitize_file_name(name: &str) -> (r: String)
    ensures
        r@ == sanitized(name@),
        safe_file_name(r@),
        sanitized(r@) == r@,
{
    proof {
        lemma_sanitize_idempotent(name@);
    }
    let s = chars_of(name);
    let r = sanitize_chars(&s);
    string_of(&r)
}

/// The characters of a placeholder.
fn placeholder(text: &str) -> (r: Vec<char>)
    requires
        text@.len() > 0,
    ensures
        r@ == text@,
        r.len() > 0,
{
    chars_of(text)
}

/// The stem of a song or lyric file for `song`: `pattern` with `{name}`, `{singer}`, `{album}`,
/// `{quality}` and `{id}` filled in, made safe for a file system.
pub fn render_name_pattern(song: &Song, quality: &str, pattern: &str) -> (r: String)
    ensures
        r@ == rendered_name(song.name@, song.singer@, song.album@, song.id, quality@, pattern@),
{
    proof {
        reveal_strlit("{name}");
        reveal_strlit("{singer}");
        reveal_strlit("{album}");
        reveal_strlit("{quality}");
        reveal_strlit("{id}");
    }
    let p = chars_of(pattern);
    let name = sanitize_chars(&chars_of(song.name.as_str()));
    let singer = sanitize_chars(&chars_of(song.singer.as_str()));
    let album = sanitize_chars(&chars_of(song.album.as_str()));
    let q = chars_of(quality);
    let id = dec_chars(song.id);
    let a = replace_chars(&p, &placeholder("{name}"), &name);
    let b = replace_chars(&a, &placeholder("{singer}"), &singer);
    let c = replace_chars(&b, &placeholder("{album}"), &album);
    let d = replace_chars(&c, &placeholder("{quality}"), &q);
    let e = replace_chars(&d, &placeholder("{id}"), &id);
    let r = sanitize_chars(&e);
    string_of(&r)
}

/// The file name of a downloaded song: the rendered stem, a dot and `file_type`.
pub fn build_download_file_name(song: &Song, quality: &str, file_type: &str, pattern: &str) -> (r:
    String)
    ensures
        r@ == rendered_name(song.name@, song.singer@, song.album@, song.id, quality@, pattern@)
            + "."@ + file_type@,
{
    let stem = render_name_pattern(song, quality, pattern);
    let mut out = chars_of(stem.as_str());
    push_str(&mut out, ".");
    push_str(&mut out, file_type);
    string_of(&out)
}

/// Position of the last `c` in `s`.
pub open spec fn last_index_of(s: Seq<char>, c: char) -> Option<int>
    decreases s.len(),
{
    if s.len() == 0 {
        None
    } else if s.last() == c {
        Some(s.len() - 1)
    } else {
        last_index_of(s.drop_last(), c)
    }
}

/// Position of the first `c` in `s`.
pub open spec fn first_index_of(s: Seq<char>, c: char) -> Option<int>
    decreases s.len(),
{
    if s.len() == 0 {
        None
    } else if s[0] == c {
        Some(0)
    } else {
        match first_index_of(s.drop_first(), c) {
            Some(i) => Some(i + 1),
            None => None,
        }
    }
}

/// The stem of a file name (`Path::file_stem`): the part before the last dot, or the whole
/// name when it has no dot or only a leading one.
pub open spec fn file_stem(name: Seq<char>) -> Seq<char> {
    match last_index_of(name, '.') {
        Some(k) => if k > 0 {
            name.subrange(0, k)
        } else {
            name
        },
        None => name,
    }
}

/// The extension of a file name (`Path::extension`): the part after the last dot, if that dot
/// is not the leading character.
pub open spec fn file_extension(name: Seq<char>) -> Option<Seq<char>> {
    match last_index_of(name, '.') {
        Some(k) => if k > 0 {
            Some(name.subrange(k + 1, name.len() as int))
        } else {
            None
        },
        None => None,
    }
}

/// Whether a file stem names song `id` (its id at the start followed by `-`, or at the end after
/// `-`) and, when a quality is given, holds that quality between dashes.
pub open spec fn stem_matches(stem: Seq<char>, id: u64, quality: Option<Seq<char>>) -> bool {
    &&& (crate::text::ends_with(stem, seq!['-'] + dec(id as nat)) || starts_with(
        stem,
        dec(id as nat).push('-'),
    ))
    &&& match quality {
        Some(q) => crate::text::contains(stem, seq!['-'] + q + seq!['-']),
        None => true,
    }
}

/// The numeric value of a string of decimal digits.
pub open spec fn digits_value(d: Seq<char>) -> nat
    decreases d.len(),
{
    if d.len() == 0 {
        0
    } else {
        digits_value(d.drop_last()) * 10 + digit_value(d.last())
    }
}

/// An ASCII decimal digit.
pub open spec fn is_digit(c: char) -> bool {
    '0' <= c && c <= '9'
}

/// The value of a decimal digit.
pub open spec fn digit_value(c: char) -> nat {
    ((c as u32) - ('0' as u32)) as nat
}

/// The digits of an unsigned number: `s` without one leading `+`.
pub open spec fn unsigned_digits(s: Seq<char>) -> Seq<char> {
    if s.len() > 0 && s[0] == '+' {
        s.drop_first()
    } else {
        s
    }
}

/// Whether every character of `d` is an ASCII digit.
pub open spec fn all_digits(d: Seq<char>) -> bool {
    forall|i: int| 0 <= i < d.len() ==> is_digit(#[trigger] d[i])
}

/// `u64::from_str`: an optional `+` followed by at least one ASCII digit, the value not above
/// `u64::MAX`.
pub open spec fn parse_u64(s: Seq<char>) -> Option<u64> {
    let d = unsigned_digits(s);
    if d.len() == 0 || !all_digits(d) {
        None
    } else if digits_value(d) <= u64::MAX {
        Some(digits_value(d) as u64)
    } else {
        None
    }
}

/// The song id a file stem carries: the number after its last dash, else the number before its
/// first dash.
pub open spec fn id_from_stem(stem: Seq<char>) -> Option<u64> {
    let last = match last_index_of(stem, '-') {
        Some(k) => stem.subrange(k + 1, stem.len() as int),
        None => stem,
    };
    let first = match first_index_of(stem, '-') {
        Some(k) => stem.subrange(0, k),
        None => stem,
    };
    match parse_u64(last) {
        Some(v) => Some(v),
        None => parse_u64(first),
    }
}

proof fn lemma_last_index_of(s: Seq<char>, c: char, k: int)
    requires
        -1 <= k < s.len(),
        k >= 0 ==> s[k] == c,
        forall|j: int| k < j < s.len() ==> s[j] != c,
    ensures
        last_index_of(s, c) == (if k >= 0 {
            Some(k)
        } else {
            None::<int>
        }),
    decreases s.len(),
{
    if s.len() > 0 && s.last() != c {
        lemma_last_index_of(s.drop_last(), c, k);
    }
}

proof fn lemma_first_index_of(s: Seq<char>, c: char, k: int)
    requires
        0 <= k <= s.len(),
        k < s.len() ==> s[k] == c,
        forall|j: int| 0 <= j < k ==> s[j] != c,
    ensures
        first_index_of(s, c) == (if k < s.len() {
            Some(k)
        } else {
            None::<int>
        }),
    decreases s.len(),
{
    if s.len() > 0 && s[0] != c {
        lemma_first_index_of(s.drop_first(), c, k - 1);
    }
}

/// Position of the last `c` in `s`.
pub fn find_last(s: &Vec<char>, c: char) -> (r: Option<usize>)
    ensures
        r matches Some(k) ==> k < s.len() && last_index_of(s@, c) == Some(k as int),
        r is None ==> last_index_of(s@, c) is None,
{
    let mut i = s.len();
    while i > 0
        invariant
            i <= s.len(),
            forall|j: int| i <= j < s.len() ==> s@[j] != c,
        decreases i,
    {
        if s[i - 1] == c {
            proof {
                lemma_last_index_of(s@, c, i - 1);
            }
            return Some(i - 1);
        }
        i -= 1;
    }
    proof {
        lemma_last_index_of(s@, c, -1);
    }
    None
}

/// Position of the first `c` in `s`.
pub fn find_first(s: &Vec<char>, c: char) -> (r: Option<usize>)
    ensures
        r matches Some(k) ==> k < s.len() && first_index_of(s@, c) == Some(k as int),
        r is None ==> first_index_of(s@, c) is None,
{
    let mut i: usize = 0;
    while i < s.len()
        invariant
            i <= s.len(),
            forall|j: int| 0 <= j < i ==> s@[j] != c,
        decreases s.len() - i,
    {
        if s[i] == c {
            proof {
                lemma_first_index_of(s@, c, i as int);
            }
            return Some(i);
        }
        i += 1;
    }
    proof {
        lemma_first_index_of(s@, c, s.len() as int);
    }
    None
}

/// The stem and extension of a file name.
pub fn split_file_name(name: &Vec<char>) -> (r: (Vec<char>, Option<Vec<char>>))
    ensures
        r.0@ == file_stem(name@),
        match r.1 {
            Some(e) => file_extension(name@) == Some(e@),
            None => file_extension(name@) is None,
        },
{
    match find_last(name, '.') {
        Some(k) => {
            if k > 0 {
                (slice_chars(name, 0, k), Some(slice_chars(name, k + 1, name.len())))
            } else {
                (name.clone(), None)
            }
        },
        None => (name.clone(), None),
    }
}

/// Whether a file stem names song `id` (its id at the start followed by `-`, or at the end after
/// `-`) and, when a quality is given, holds that quality between dashes.
pub fn file_stem_matches(stem: &str, song_id: u64, quality: Option<&str>) -> (r: bool)
    ensures
        r == stem_matches(
            stem@,
            song_id,
            match quality {
                Some(q) => Some(q@),
                None => None,
            },
        ),
{
    let s = chars_of(stem);
    stem_chars_match(&s, song_id, quality)
}

fn stem_chars_match(s: &Vec<char>, song_id: u64, quality: Option<&str>) -> (r: bool)
    ensures
        r == stem_matches(
            s@,
            song_id,
            match quality {
                Some(q) => Some(q@),
                None => None,
            },
        ),
{
    let id = dec_chars(song_id);
    let mut suffix: Vec<char> = Vec::new();
    suffix.push('-');
    let mut idc = id.clone();
    suffix.append(&mut idc);
    let mut prefix = id.clone();
    prefix.push('-');
    assert(suffix@ =~= seq!['-'] + dec(song_id as nat));
    let id_matches = crate::text::chars_ends_with(s, &suffix) || crate::text::chars_starts_with(
        s,
        &prefix,
    );
    let quality_matches = match quality {
        Some(q) => {
            let mut pat: Vec<char> = Vec::new();
            pat.push('-');
            push_str(&mut pat, q);
            pat.push('-');
            assert(pat@ =~= seq!['-'] + q@ + seq!['-']);
            crate::text::chars_contains(s, &pat)
        },
        None => true,
    };
    id_matches && quality_matches
}

proof fn lemma_digits_value_monotone(d: Seq<char>, i: int, j: int)
    requires
        0 <= i <= j <= d.len(),
    ensures
        digits_value(d.subrange(0, i)) <= digits_value(d.subrange(0, j)),
    decreases j - i,
{
    if i < j {
        lemma_digits_value_monotone(d, i, j - 1);
        assert(d.subrange(0, j).drop_last() =~= d.subrange(0, j - 1));
    }
}

/// `u64::from_str` on a character sequence.
pub fn parse_u64_chars(s: &Vec<char>) -> (r: Option<u64>)
    ensures
        r == parse_u64(s@),
{
    let start: usize = if s.len() > 0 && s[0] == '+' {
        1
    } else {
        0
    };
    let ghost d = unsigned_digits(s@);
    assert(d =~= s@.subrange(start as int, s.len() as int));
    if start == s.len() {
        return None;
    }
    let mut acc: u64 = 0;
    let mut i = start;
    while i < s.len()
        invariant
            start <= i <= s.len(),
            d == s@.subrange(start as int, s.len() as int),
            d == unsigned_digits(s@),
            forall|j: int| 0 <= j < i - start ==> is_digit(d[j]),
            acc as nat == digits_value(d.subrange(0, i - start)),
        decreases s.len() - i,
    {
        let c = s[i];
        if !('0' <= c && c <= '9') {
            assert(!is_digit(d[i - start]));
            assert(!all_digits(d));
            return None;
        }
        let dv = (c as u32 - '0' as u32) as u64;
        assert(d.subrange(0, i - start + 1).drop_last() =~= d.subrange(0, i - start));
        assert(digits_value(d.subrange(0, i - start + 1)) == acc as nat * 10 + dv as nat);
        match acc.checked_mul(10) {
            Some(m) => match m.checked_add(dv) {
                Some(v) => {
                    acc = v;
                },
                None => {
                    proof {
                        assert(m as nat == acc as nat * 10);
                        assert(digits_value(d.subrange(0, i - start + 1)) > u64::MAX);
                        lemma_digits_value_monotone(d, i - start + 1, d.len() as int);
                        assert(d.subrange(0, d.len() as int) =~= d);
                        assert(digits_value(d) > u64::MAX);
                    }
                    return None;
                },
            },
            None => {
                proof {
                    lemma_digits_value_monotone(d, i - start + 1, d.len() as int);
                    assert(d.subrange(0, d.len() as int) =~= d);
                }
                return None;
            },
        }
        i += 1;
    }
    assert(d.subrange(0, d.len() as int) =~= d);
    Some(acc)
}

/// The song id a file stem carries: the number after its last dash, else the number before its
/// first dash.
pub fn song_id_from_file_stem(stem: &str) -> (r: Option<u64>)
    ensures
        r == id_from_stem(stem@),
{
    let s = chars_of(stem);
    id_from_stem_chars(&s)
}

fn id_from_stem_chars(s: &Vec<char>) -> (r: Option<u64>)
    ensures
        r == id_from_stem(s@),
{
    let last = match find_last(s, '-') {
        Some(k) => slice_chars(s, k + 1, s.len()),
        None => s.clone(),
    };
    match parse_u64_chars(&last) {
        Some(v) => Some(v),
        None => {
            let first = match find_first(s, '-') {
                Some(k) => slice_chars(s, 0, k),
                None => s.clone(),
            };
            parse_u64_chars(&first)
        },
    }
}

/// Lexicographic order by code point, which is the byte order of UTF-8 text and so the
/// order in which paths of one directory sort.
pub open spec fn lex_le(a: Seq<char>, b: Seq<char>) -> bool
    decreases a.len(),
{
    if a.len() == 0 {
        true
    } else if b.len() == 0 {
        false
    } else if a[0] == b[0] {
        lex_le(a.drop_first(), b.drop_first())
    } else {
        (a[0] as int) < (b[0] as int)
    }
}

pub proof fn lemma_lex_total(a: Seq<char>, b: Seq<char>)
    ensures
        lex_le(a, b) || lex_le(b, a),
    decreases a.len(),
{
    if a.len() > 0 && b.len() > 0 {
        if a[0] == b[0] {
            lemma_lex_total(a.drop_first(), b.drop_first());
        } else {
            assert((a[0] as int) != (b[0] as int));
        }
    }
}

pub proof fn lemma_lex_refl(a: Seq<char>)
    ensures
        lex_le(a, a),
    decreases a.len(),
{
    if a.len() > 0 {
        lemma_lex_refl(a.drop_first());
    }
}

pub proof fn lemma_lex_trans(a: Seq<char>, b: Seq<char>, c: Seq<char>)
    requires
        lex_le(a, b),
        lex_le(b, c),
    ensures
        lex_le(a, c),
    decreases a.len(),
{
    if a.len() > 0 && b.len() > 0 && c.len() > 0 && a[0] == b[0] && b[0] == c[0] {
        lemma_lex_trans(a.drop_first(), b.drop_first(), c.drop_first());
    }
}

pub proof fn lemma_lex_antisym(a: Seq<char>, b: Seq<char>)
    requires
        lex_le(a, b),
        lex_le(b, a),
    ensures
        a == b,
    decreases a.len(),
{
    if a.len() > 0 && b.len() > 0 {
        lemma_lex_antisym(a.drop_first(), b.drop_first());
        assert(a =~= seq![a[0]] + a.drop_first());
        assert(b =~= seq![b[0]] + b.drop_first());
    } else {
        assert(a =~= b);
    }
}

proof fn lemma_lex_skip(a: Seq<char>, b: Seq<char>, i: int)
    requires
        0 <= i <= a.len(),
        i <= b.len(),
        forall|j: int| 0 <= j < i ==> a[j] == b[j],
    ensures
        lex_le(a, b) == lex_le(a.skip(i), b.skip(i)),
    decreases i,
{
    if i > 0 {
        assert(a.drop_first().skip(i - 1) =~= a.skip(i));
        assert(b.drop_first().skip(i - 1) =~= b.skip(i));
        lemma_lex_skip(a.drop_first(), b.drop_first(), i - 1);
    } else {
        assert(a.skip(0) =~= a);
        assert(b.skip(0) =~= b);
    }
}

/// Whether `a` comes before `b`, or equals it, in code point order.
pub fn chars_lex_le(a: &Vec<char>, b: &Vec<char>) -> (r: bool)
    ensures
        r == lex_le(a@, b@),
{
    let mut i: usize = 0;
    while i < a.len() && i < b.len() && a[i] == b[i]
        invariant
            i <= a.len(),
            i <= b.len(),
            forall|j: int| 0 <= j < i ==> a@[j] == b@[j],
        decreases a.len() - i,
    {
        i += 1;
    }
    proof {
        lemma_lex_skip(a@, b@, i as int);
    }
    i == a.len() || (i < b.len() && a[i] < b[i])
}

/// A finished download of song `id`: not a `.part` file, and its stem names the song.
pub open spec fn is_song_file(name: Seq<char>, id: u64) -> bool {
    file_extension(name) != Some("part"@) && stem_matches(file_stem(name), id, None)
}

/// A finished download of song `id` whose stem also holds `quality`, when one is given.
pub open spec fn is_preferred_file(name: Seq<char>, id: u64, quality: Option<Seq<char>>) -> bool {
    is_song_file(name, id) && stem_matches(file_stem(name), id, quality)
}

/// Whether `x`, one of `names`, satisfies `p` and comes first in path order among those that do.
pub open spec fn is_first_with(x: Seq<char>, names: Seq<Seq<char>>, p: spec_fn(Seq<char>) -> bool) -> bool {
    &&& names.contains(x)
    &&& p(x)
    &&& forall|i: int| 0 <= i < names.len() && p(names[i]) ==> lex_le(x, #[trigger] names[i])
}

/// Whether some entry of `names` satisfies `p`.
pub open spec fn any_with(names: Seq<Seq<char>>, p: spec_fn(Seq<char>) -> bool) -> bool {
    exists|i: int| 0 <= i < names.len() && p(#[trigger] names[i])
}

/// The file of song `song_id` among the names of a download directory's regular files:
/// the first in path order that holds `preferred_quality`, else the first in path order of
/// any quality; `.part` files do not count.
pub fn find_local_song_file(file_names: &Vec<String>, song_id: u64, preferred_quality: Option<&str>) -> (r: Option<String>)
    ensures
        ({
            let names = crate::text::views(file_names@);
            let q = match preferred_quality {
                Some(q) => Some(q@),
                None => None,
            };
            let pref = |n: Seq<char>| is_preferred_file(n, song_id, q);
            let any = |n: Seq<char>| is_song_file(n, song_id);
            match r {
                Some(x) => if any_with(names, pref) {
                    is_first_with(x@, names, pref)
                } else {
                    is_first_with(x@, names, any)
                },
                None => !any_with(names, any),
            }
        }),
{
    let ghost names = crate::text::views(file_names@);
    let ghost q = match preferred_quality {
        Some(q) => Some(q@),
        None => None,
    };
    let ghost pref = |n: Seq<char>| is_preferred_file(n, song_id, q);
    let ghost any = |n: Seq<char>| is_song_file(n, song_id);
    let mut part: Vec<char> = Vec::new();
    part.push('p');
    part.push('a');
    part.push('r');
    part.push('t');
    proof {
        reveal_strlit("part");
        assert(part@ =~= "part"@);
    }
    let mut best_any: Option<usize> = None;
    let mut best_pref: Option<usize> = None;
    let mut keys: Vec<Vec<char>> = Vec::new();
    let mut i: usize = 0;
    while i < file_names.len()
        invariant
            i <= file_names.len(),
            names == crate::text::views(file_names@),
            names.len() == file_names.len(),
            part@ == "part"@,
            pref == (|n: Seq<char>| is_preferred_file(n, song_id, q)),
            any == (|n: Seq<char>| is_song_file(n, song_id)),
            q == (match preferred_quality {
                Some(q) => Some(q@),
                None => None::<Seq<char>>,
            }),
            keys.len() == i,
            forall|j: int| 0 <= j < i ==> (#[trigger] keys@[j])@ == names[j],
            match best_any {
                Some(k) => k < i && any(names[k as int]) && forall|j: int|
                    0 <= j < i && any(names[j]) ==> lex_le(names[k as int], #[trigger] names[j]),
                None => forall|j: int| 0 <= j < i ==> !any(#[trigger] names[j]),
            },
            match best_pref {
                Some(k) => k < i && pref(names[k as int]) && forall|j: int|
                    0 <= j < i && pref(names[j]) ==> lex_le(names[k as int], #[trigger] names[j]),
                None => forall|j: int| 0 <= j < i ==> !pref(#[trigger] names[j]),
            },
        decreases file_names.len() - i,
    {
        let name = chars_of(file_names[i].as_str());
        assert(name@ == names[i as int]);
        let (stem, ext) = split_file_name(&name);
        let not_part = match &ext {
            Some(e) => !crate::text::chars_eq(e, &part),
            None => true,
        };
        let is_any = not_part && stem_chars_match(&stem, song_id, None);
        let is_pref = is_any && stem_chars_match(&stem, song_id, preferred_quality);
        assert(is_any == any(names[i as int]));
        assert(is_pref == pref(names[i as int]));
        if is_any {
            match best_any {
                Some(k) => {
                    if !chars_lex_le(&keys[k], &name) {
                        proof {
                            lemma_lex_total(names[k as int], names[i as int]);
                            assert forall|j: int| 0 <= j < i + 1 && any(names[j]) implies lex_le(
                                names[i as int],
                                #[trigger] names[j],
                            ) by {
                                if j < i {
                                    lemma_lex_trans(names[i as int], names[k as int], names[j]);
                                } else {
                                    lemma_lex_refl(names[i as int]);
                                }
                            }
                        }
                        best_any = Some(i);
                    } else {
                        assert(lex_le(names[k as int], names[i as int]));
                    }
                },
                None => {
                    proof {
                        lemma_lex_refl(names[i as int]);
                    }
                    best_any = Some(i);
                },
            }
        }
        if is_pref {
            match best_pref {
                Some(k) => {
                    if !chars_lex_le(&keys[k], &name) {
                        proof {
                            lemma_lex_total(names[k as int], names[i as int]);
                            assert forall|j: int| 0 <= j < i + 1 && pref(names[j]) implies lex_le(
                                names[i as int],
                                #[trigger] names[j],
                            ) by {
                                if j < i {
                                    lemma_lex_trans(names[i as int], names[k as int], names[j]);
                                } else {
                                    lemma_lex_refl(names[i as int]);
                                }
                            }
                        }
                        best_pref = Some(i);
                    } else {
                        assert(lex_le(names[k as int], names[i as int]));
                    }
                },
                None => {
                    proof {
                        lemma_lex_refl(names[i as int]);
                    }
                    best_pref = Some(i);
                },
            }
        }
        keys.push(name);
        i += 1;
    }
    match best_pref {
        Some(k) => {
            assert(names.contains(names[k as int]));
            Some(file_names[k].clone())
        },
        None => match best_any {
            Some(k) => {
                assert(names.contains(names[k as int]));
                Some(file_names[k].clone())
            },
            None => None,
        },
    }
}

/// The file of song `song_id` among the names of a download directory's regular files,
/// preferring `quality`.
pub fn find_local_song_with_quality(file_names: &Vec<String>, song_id: u64, quality: &str) -> (r:
    Option<String>)
    ensures
        ({
            let names = crate::text::views(file_names@);
            let pref = |n: Seq<char>| is_preferred_file(n, song_id, Some(quality@));
            let any = |n: Seq<char>| is_song_file(n, song_id);
            match r {
                Some(x) => if any_with(names, pref) {
                    is_first_with(x@, names, pref)
                } else {
                    is_first_with(x@, names, any)
                },
                None => !any_with(names, any),
            }
        }),
{
    find_local_song_file(file_names, song_id, Some(quality))
}

/// Whether download `name` is finished and carries song id `id`.
pub open spec fn carries_id(name: Seq<char>, id: u64) -> bool {
    file_extension(name) != Some("part"@) && id_from_stem(file_stem(name)) == Some(id)
}

/// The ids of the songs downloaded in a directory, given the names of its regular files;
/// `.part` files do not count.
pub fn downloaded_song_ids_in(file_names: &Vec<String>) -> (r: HashSet<u64>)
    ensures
        forall|id: u64|
            r@.contains(id) <==> exists|i: int|
                0 <= i < file_names.len() && carries_id(#[trigger] file_names@[i]@, id),
{
    broadcast use vstd::std_specs::hash::group_hash_axioms;

    let mut part: Vec<char> = Vec::new();
    part.push('p');
    part.push('a');
    part.push('r');
    part.push('t');
    proof {
        reveal_strlit("part");
        assert(part@ =~= "part"@);
    }
    let mut ids: HashSet<u64> = HashSet::new();
    let mut i: usize = 0;
    while i < file_names.len()
        invariant
            i <= file_names.len(),
            part@ == "part"@,
            forall|id: u64|
                ids@.contains(id) <==> exists|j: int|
                    0 <= j < i && carries_id(#[trigger] file_names@[j]@, id),
        decreases file_names.len() - i,
    {
        let name = chars_of(file_names[i].as_str());
        let (stem, ext) = split_file_name(&name);
        let not_part = match &ext {
            Some(e) => !crate::text::chars_eq(e, &part),
            None => true,
        };
        let ghost before = ids@;
        if not_part {
            match id_from_stem_chars(&stem) {
                Some(id) => {
                    ids.insert(id);
                },
                None => {},
            }
        }
        assert forall|id: u64|
            ids@.contains(id) <==> exists|j: int|
                0 <= j < i + 1 && carries_id(#[trigger] file_names@[j]@, id) by {
            if carries_id(file_names@[i as int]@, id) {
                assert(ids@.contains(id));
            }
            if exists|j: int| 0 <= j < i + 1 && carries_id(#[trigger] file_names@[j]@, id) {
                let j = choose|j: int| 0 <= j < i + 1 && carries_id(#[trigger] file_names@[j]@, id);
                if j < i {
                    assert(before.contains(id));
                }
            }
        }
        i += 1;
    }
    ids
}

/// The decimal form of a number is a non-empty run of digits that reads back as the number.
pub proof fn lemma_dec_reads_back(n: nat)
    ensures
        dec(n).len() > 0,
        all_digits(dec(n)),
        digits_value(dec(n)) == n,
        n <= u64::MAX ==> parse_u64(dec(n)) == Some(n as u64),
    decreases n,
{
    if n >= 10 {
        lemma_dec_reads_back(n / 10);
        let d = dec(n / 10);
        let c = digit_chars()[(n % 10) as int];
        assert(dec(n) == d.push(c));
        assert(dec(n).drop_last() =~= d);
        assert(is_digit(c) && digit_value(c) == n % 10);
        assert forall|i: int| 0 <= i < dec(n).len() implies is_digit(#[trigger] dec(n)[i]) by {
            if i < d.len() {
                assert(dec(n)[i] == d[i]);
            }
        }
        assert(dec(n).last() == c);
        assert(digits_value(dec(n)) == digits_value(d) * 10 + digit_value(c));
        assert((n / 10) * 10 + n % 10 == n) by (nonlinear_arith);
    } else {
        let c = digit_chars()[n as int];
        assert(is_digit(c) && digit_value(c) == n);
        assert(dec(n).drop_last() =~= Seq::<char>::empty());
        assert(dec(n).last() == c);
        assert(digits_value(dec(n)) == digits_value(Seq::<char>::empty()) * 10 + digit_value(c));
    }
    if n <= u64::MAX {
        assert(dec(n)[0] != '+') by {
            assert(is_digit(dec(n)[0]));
        }
        assert(unsigned_digits(dec(n)) == dec(n));
    }
}

/// A file stem ending in a dash and the decimal id of a song is read back as that song's id,
/// and matches the song.
pub proof fn lemma_id_suffix_read_back(stem: Seq<char>, id: u64)
    requires
        crate::text::ends_with(stem, seq!['-'] + dec(id as nat)),
    ensures
        id_from_stem(stem) == Some(id),
        stem_matches(stem, id, None),
{
    lemma_dec_reads_back(id as nat);
    let d = dec(id as nat);
    let k = stem.len() - d.len() - 1;
    let tail = seq!['-'] + d;
    assert(stem.subrange(k, stem.len() as int) == tail);
    assert(stem[k] == tail[0]);
    assert forall|j: int| k < j < stem.len() implies stem[j] != '-' by {
        assert(stem[j] == tail[j - k]);
        assert(tail[j - k] == d[j - k - 1]);
        assert(is_digit(d[j - k - 1]));
    }
    lemma_last_index_of(stem, '-', k);
    assert forall|j: int| 0 <= j < d.len() implies stem.subrange(k + 1, stem.len() as int)[j]
        == d[j] by {
        assert(stem[k + 1 + j] == tail[1 + j]);
    }
    assert(stem.subrange(k + 1, stem.len() as int) =~= d);
}

/// The stem of `stem` followed by a dot and an extension without dots is `stem` again, and the
/// extension is read back.
pub proof fn lemma_stem_of_named_file(stem: Seq<char>, ext: Seq<char>)
    requires
        stem.len() > 0,
        forall|i: int| 0 <= i < ext.len() ==> #[trigger] ext[i] != '.',
    ensures
        file_stem(stem + seq!['.'] + ext) == stem,
        file_extension(stem + seq!['.'] + ext) == Some(ext),
{
    let name = stem + seq!['.'] + ext;
    let k = stem.len() as int;
    assert(name[k] == '.');
    assert forall|j: int| k < j < name.len() implies name[j] != '.' by {
        assert(name[j] == ext[j - k - 1]);
    }
    lemma_last_index_of(name, '.', k);
    assert(name.subrange(0, k) =~= stem);
    assert(name.subrange(k + 1, name.len() as int) =~= ext);
}

proof fn lemma_replace_split(x: Seq<char>, y: Seq<char>, from: Seq<char>, to: Seq<char>)
    requires
        from.len() > 0,
        y.len() > 0,
        !from.contains(y[0]),
    ensures
        replace_all(x + y, from, to) == replace_all(x, from, to) + replace_all(y, from, to),
    decreases x.len(),
{
    let s = x + y;
    if x.len() == 0 {
        assert(s =~= y);
        assert(replace_all(x, from, to) =~= Seq::<char>::empty());
        assert(replace_all(x, from, to) + replace_all(y, from, to) =~= replace_all(y, from, to));
    } else if starts_with(s, from) {
        if from.len() > x.len() {
            assert(s.subrange(0, from.len() as int)[x.len() as int] == s[x.len() as int]);
            assert(from[x.len() as int] == y[0]);
            assert(from.contains(y[0]));
        }
        assert(x.subrange(0, from.len() as int) =~= s.subrange(0, from.len() as int));
        assert(starts_with(x, from));
        lemma_replace_split(x.skip(from.len() as int), y, from, to);
        assert(s.skip(from.len() as int) =~= x.skip(from.len() as int) + y);
        assert(replace_all(s, from, to) == to + replace_all(s.skip(from.len() as int), from, to));
        assert(replace_all(x, from, to) == to + replace_all(x.skip(from.len() as int), from, to));
        assert(to + (replace_all(x.skip(from.len() as int), from, to) + replace_all(y, from, to))
            =~= (to + replace_all(x.skip(from.len() as int), from, to)) + replace_all(y, from, to));
    } else {
        if starts_with(x, from) {
            assert(s.subrange(0, from.len() as int) =~= x.subrange(0, from.len() as int));
        }
        lemma_replace_split(x.drop_first(), y, from, to);
        assert(s.drop_first() =~= x.drop_first() + y);
        assert(s[0] == x[0]);
        assert(replace_all(s, from, to) == seq![s[0]] + replace_all(s.drop_first(), from, to));
        assert(replace_all(x, from, to) == seq![x[0]] + replace_all(x.drop_first(), from, to));
        assert(seq![x[0]] + (replace_all(x.drop_first(), from, to) + replace_all(y, from, to))
            =~= (seq![x[0]] + replace_all(x.drop_first(), from, to)) + replace_all(y, from, to));
    }
}

proof fn lemma_replace_too_short(y: Seq<char>, from: Seq<char>, to: Seq<char>)
    requires
        from.len() > y.len(),
    ensures
        replace_all(y, from, to) == y,
    decreases y.len(),
{
    if y.len() > 0 {
        lemma_replace_too_short(y.drop_first(), from, to);
        assert(seq![y[0]] + y.drop_first() =~= y);
    }
}

proof fn lemma_strip_start_keeps_suffix(w: Seq<char>, t: Seq<char>)
    requires
        t.len() > 0,
        !is_edge_junk(t[0]),
    ensures
        crate::text::ends_with(strip_start(w + t), t),
    decreases w.len(),
{
    let s = w + t;
    if w.len() == 0 {
        assert(s =~= t);
        assert(t.subrange(0, t.len() as int) =~= t);
    } else if is_edge_junk(s[0]) {
        lemma_strip_start_keeps_suffix(w.drop_first(), t);
        assert(s.drop_first() =~= w.drop_first() + t);
    } else {
        assert(s.subrange(s.len() - t.len(), s.len() as int) =~= t);
    }
}

/// Sanitizing a name that ends with `t` keeps that ending, when `t` holds no forbidden
/// character and neither starts nor ends with a space or a dot.
proof fn lemma_sanitized_keeps_suffix(z: Seq<char>, t: Seq<char>)
    requires
        t.len() > 0,
        forall|i: int| 0 <= i < t.len() ==> !is_forbidden(#[trigger] t[i]),
        !is_edge_junk(t[0]),
        !is_edge_junk(t.last()),
    ensures
        crate::text::ends_with(sanitized(z + t), t),
{
    let f = |c: char| if is_forbidden(c) { '_' } else { c };
    assert(replace_forbidden(z + t) =~= replace_forbidden(z) + t) by {
        assert forall|i: int| 0 <= i < (z + t).len() implies #[trigger] replace_forbidden(z + t)[i]
            == (replace_forbidden(z) + t)[i] by {
            if i >= z.len() {
                assert((z + t)[i] == t[i - z.len()]);
            }
        }
    }
    lemma_strip_start_keeps_suffix(replace_forbidden(z), t);
    let u = strip_start(replace_forbidden(z) + t);
    assert(u.last() == t.last()) by {
        assert(u.subrange(u.len() - t.len(), u.len() as int)[t.len() - 1] == u.last());
    }
    assert(strip_end(u) == u);
}

/// The dash, the decimal id: how a song file's stem ends.
pub open spec fn id_suffix(id: u64) -> Seq<char> {
    seq!['-'] + dec(id as nat)
}

/// A name rendered from a pattern that ends with `-{id}` ends with the dash and the song's
/// decimal id, whatever the other fields hold.
pub proof fn lemma_rendered_ends_with_id(
    name: Seq<char>,
    singer: Seq<char>,
    album: Seq<char>,
    id: u64,
    quality: Seq<char>,
    head: Seq<char>,
)
    ensures
        crate::text::ends_with(
            rendered_name(name, singer, album, id, quality, head + "-{id}"@),
            id_suffix(id),
        ),
{
    reveal_strlit("-{id}");
    reveal_strlit("{name}");
    reveal_strlit("{singer}");
    reveal_strlit("{album}");
    reveal_strlit("{quality}");
    reveal_strlit("{id}");
    let y = "-{id}"@;
    let d = dec(id as nat);
    lemma_dec_reads_back(id as nat);
    assert(!"{name}"@.contains(y[0]));
    assert(!"{singer}"@.contains(y[0]));
    assert(!"{album}"@.contains(y[0]));
    assert(!"{quality}"@.contains(y[0]));
    assert(!"{id}"@.contains(y[0]));
    let a0 = replace_all(head, "{name}"@, sanitized(name));
    lemma_replace_split(head, y, "{name}"@, sanitized(name));
    lemma_replace_too_short(y, "{name}"@, sanitized(name));
    let b0 = replace_all(a0, "{singer}"@, sanitized(singer));
    lemma_replace_split(a0, y, "{singer}"@, sanitized(singer));
    lemma_replace_too_short(y, "{singer}"@, sanitized(singer));
    let c0 = replace_all(b0, "{album}"@, sanitized(album));
    lemma_replace_split(b0, y, "{album}"@, sanitized(album));
    lemma_replace_too_short(y, "{album}"@, sanitized(album));
    let d0 = replace_all(c0, "{quality}"@, quality);
    lemma_replace_split(c0, y, "{quality}"@, quality);
    lemma_replace_too_short(y, "{quality}"@, quality);
    lemma_replace_split(d0, y, "{id}"@, d);
    if starts_with(y, "{id}"@) {
        assert(y.subrange(0, 4)[0] == y[0]);
        assert("{id}"@[0] == '{');
    }
    assert(!starts_with(y, "{id}"@));
    assert(y.drop_first() =~= "{id}"@);
    assert(starts_with("{id}"@, "{id}"@)) by {
        assert("{id}"@.subrange(0, 4) =~= "{id}"@);
    }
    assert("{id}"@.skip(4) =~= Seq::<char>::empty());
    assert(replace_all(Seq::<char>::empty(), "{id}"@, d) == Seq::<char>::empty());
    assert(replace_all("{id}"@, "{id}"@, d) == d + replace_all("{id}"@.skip(4), "{id}"@, d));
    assert(replace_all("{id}"@, "{id}"@, d) =~= d + Seq::<char>::empty());
    assert(replace_all(y, "{id}"@, d) =~= seq!['-'] + d);
    let e = replace_all(d0, "{id}"@, d) + id_suffix(id);
    assert(replace_all(d0 + y, "{id}"@, d) == e);
    assert forall|i: int| 0 <= i < id_suffix(id).len() implies !is_forbidden(
        #[trigger] id_suffix(id)[i],
    ) by {
        if i > 0 {
            assert(id_suffix(id)[i] == d[i - 1]);
            assert(is_digit(d[i - 1]));
        }
    }
    assert(id_suffix(id).last() == d.last());
    assert(is_digit(d[d.len() - 1]));
    lemma_sanitized_keeps_suffix(replace_all(d0, "{id}"@, d), id_suffix(id));
}

/// A song file named by a pattern that ends with `-{id}` (as the default pattern does) is
/// recognized again by the song's id: the stem of its name reads back as the id and matches
/// the song, whatever its name, singer, album and quality hold.
pub proof fn lemma_download_name_read_back(song: Song, quality: Seq<char>, file_type: Seq<char>, head: Seq<char>)
    requires
        forall|i: int| 0 <= i < file_type.len() ==> #[trigger] file_type[i] != '.',
    ensures
        ({
            let file = rendered_name(song.name@, song.singer@, song.album@, song.id, quality, head
                + "-{id}"@) + "."@ + file_type;
            &&& id_from_stem(file_stem(file)) == Some(song.id)
            &&& stem_matches(file_stem(file), song.id, None)
        }),
{
    reveal_strlit(".");
    let r = rendered_name(song.name@, song.singer@, song.album@, song.id, quality, head + "-{id}"@);
    lemma_rendered_ends_with_id(song.name@, song.singer@, song.album@, song.id, quality, head);
    lemma_dec_reads_back(song.id as nat);
    assert(r.len() > 0);
    assert("."@ =~= seq!['.']);
    lemma_stem_of_named_file(r, file_type);
    lemma_id_suffix_read_back(r, song.id);
}

/// The default file name pattern ends with `-{quality}-{id}` (so also with `-{id}`): downloaded
/// songs are recognized again by their ids, and at their quality.
pub proof fn lemma_default_pattern_ends_with_id()
    ensures
        crate::settings::default_file_name_pattern() == "{name}-{singer}-{album}-{quality}"@ + "-{id}"@,
        crate::settings::default_file_name_pattern() == "{name}-{singer}-{album}"@ + quality_id_tail(),
{
    reveal_strlit("{name}-{singer}-{album}-{quality}-{id}");
    reveal_strlit("{name}-{singer}-{album}-{quality}");
    reveal_strlit("{name}-{singer}-{album}");
    reveal_strlit("-{quality}-{id}");
    reveal_strlit("-{id}");
    assert(crate::settings::default_file_name_pattern() =~= "{name}-{singer}-{album}-{quality}"@
        + "-{id}"@);
    assert(crate::settings::default_file_name_pattern() =~= "{name}-{singer}-{album}"@
        + quality_id_tail());
}

proof fn lemma_strip_start_shape(s: Seq<char>)
    ensures
        exists|k: int| 0 <= k <= s.len() && strip_start(s) == s.skip(k),
        strip_start(s).len() > 0 ==> !is_edge_junk(strip_start(s)[0]),
    decreases s.len(),
{
    if s.len() > 0 && is_edge_junk(s[0]) {
        lemma_strip_start_shape(s.drop_first());
        let k = choose|k: int| 0 <= k <= s.drop_first().len() && strip_start(s.drop_first())
            == s.drop_first().skip(k);
        assert(s.drop_first().skip(k) =~= s.skip(k + 1));
    } else {
        assert(s.skip(0) =~= s);
    }
}

proof fn lemma_strip_end_shape(s: Seq<char>)
    ensures
        exists|k: int| 0 <= k <= s.len() && strip_end(s) == s.take(k),
        strip_end(s).len() > 0 ==> !is_edge_junk(strip_end(s).last()),
    decreases s.len(),
{
    if s.len() > 0 && is_edge_junk(s.last()) {
        lemma_strip_end_shape(s.drop_last());
        let k = choose|k: int| 0 <= k <= s.drop_last().len() && strip_end(s.drop_last())
            == s.drop_last().take(k);
        assert(s.drop_last().take(k) =~= s.take(k));
    } else {
        assert(s.take(s.len() as int) =~= s);
    }
}

/// A name that is safe for a file system: not empty, without forbidden characters, and
/// neither starting nor ending with a space or a dot.
pub open spec fn safe_file_name(t: Seq<char>) -> bool {
    &&& t.len() > 0
    &&& forall|i: int| 0 <= i < t.len() ==> !is_forbidden(#[trigger] t[i])
    &&& !is_edge_junk(t[0])
    &&& !is_edge_junk(t.last())
}

/// A safe name is left as it is by sanitizing.
proof fn lemma_safe_name_kept(t: Seq<char>)
    requires
        safe_file_name(t),
    ensures
        sanitized(t) == t,
{
    assert(replace_forbidden(t) =~= t);
    assert(strip_start(t) == t);
    assert(strip_end(t) == t);
}

/// Sanitizing gives a safe name (`song` when nothing is left of the name), leaves a safe name
/// as it is, and so changes nothing when done twice.
pub proof fn lemma_sanitize_idempotent(s: Seq<char>)
    ensures
        safe_file_name(sanitized(s)),
        safe_file_name(s) ==> sanitized(s) == s,
        sanitized(sanitized(s)) == sanitized(s),
{
    let r = replace_forbidden(s);
    let a = strip_start(r);
    let t = strip_end(a);
    lemma_strip_start_shape(r);
    lemma_strip_end_shape(a);
    if t.len() == 0 {
        reveal_strlit("song");
        let song = "song"@;
        assert forall|i: int| 0 <= i < song.len() implies !is_forbidden(#[trigger] song[i]) by {}
        assert(safe_file_name(song));
        lemma_safe_name_kept(song);
    } else {
        let ka = choose|k: int| 0 <= k <= r.len() && a == r.skip(k);
        let kt = choose|k: int| 0 <= k <= a.len() && t == a.take(k);
        assert forall|i: int| 0 <= i < t.len() implies !is_forbidden(#[trigger] t[i]) by {
            assert(t[i] == a[i]);
            assert(a[i] == r[i + ka]);
            assert(r[i + ka] == (if is_forbidden(s[i + ka]) { '_' } else { s[i + ka] }));
        }
        assert(t[0] == a[0]);
        assert(safe_file_name(t));
        lemma_safe_name_kept(t);
    }
    if safe_file_name(s) {
        lemma_safe_name_kept(s);
    }
}

/// Replacing `from` leaves `y` as it is when `y` never holds the first character of `from`.
proof fn lemma_replace_no_first(y: Seq<char>, from: Seq<char>, to: Seq<char>)
    requires
        from.len() > 0,
        forall|i: int| 0 <= i < y.len() ==> #[trigger] y[i] != from[0],
    ensures
        replace_all(y, from, to) == y,
    decreases y.len(),
{
    if y.len() > 0 {
        assert(!starts_with(y, from)) by {
            if starts_with(y, from) {
                assert(y.subrange(0, from.len() as int)[0] == y[0]);
            }
        }
        lemma_replace_no_first(y.drop_first(), from, to);
        assert(seq![y[0]] + y.drop_first() =~= y);
    }
}

/// The end of a pattern that keeps the quality between dashes and ends with the id.
pub open spec fn quality_id_tail() -> Seq<char> {
    "-{quality}-{id}"@
}

/// Filling in a placeholder other than `{quality}` and `{id}` leaves the quality-and-id tail
/// as it is.
proof fn lemma_tail_kept(from: Seq<char>, to: Seq<char>)
    requires
        from.len() > 5,
        from[0] == '{',
        from[1] != 'q',
        !from.contains('-'),
    ensures
        replace_all(quality_id_tail(), from, to) == quality_id_tail(),
{
    reveal_strlit("-{quality}-{id}");
    let a = seq!['-', '{', 'q', 'u', 'a', 'l', 'i', 't', 'y', '}'];
    let b = seq!['-', '{', 'i', 'd', '}'];
    assert(quality_id_tail() =~= a + b);
    lemma_replace_split(a, b, from, to);
    lemma_replace_too_short(b, from, to);
    assert(!starts_with(a, from)) by {
        if starts_with(a, from) {
            assert(a.subrange(0, from.len() as int)[0] == a[0]);
        }
    }
    let c = a.drop_first();
    assert(!starts_with(c, from)) by {
        if starts_with(c, from) {
            assert(c.subrange(0, from.len() as int)[1] == c[1]);
        }
    }
    let e = c.drop_first();
    assert forall|i: int| 0 <= i < e.len() implies #[trigger] e[i] != from[0] by {
        assert(e[i] == a[i + 2]);
    }
    lemma_replace_no_first(e, from, to);
    assert(replace_all(c, from, to) == seq![c[0]] + replace_all(e, from, to));
    assert(seq![c[0]] + e =~= c);
    assert(replace_all(a, from, to) == seq![a[0]] + replace_all(c, from, to));
    assert(seq![a[0]] + c =~= a);
}

/// The `-{id}` ending of a pattern.
pub open spec fn id_tail() -> Seq<char> {
    seq!['-', '{', 'i', 'd', '}']
}

/// Filling in `{quality}` in the quality-and-id tail.
proof fn lemma_tail_quality_filled(quality: Seq<char>)
    ensures
        replace_all(quality_id_tail(), "{quality}"@, quality) == seq!['-'] + quality + id_tail(),
{
    reveal_strlit("-{quality}-{id}");
    reveal_strlit("{quality}");
    let y = quality_id_tail();
    let idt = id_tail();
    assert(!starts_with(y, "{quality}"@)) by {
        assert(y.subrange(0, 9)[0] == y[0]);
    }
    assert(replace_all(y, "{quality}"@, quality) == seq![y[0]] + replace_all(
        y.drop_first(),
        "{quality}"@,
        quality,
    ));
    let z = y.drop_first();
    assert(z.subrange(0, 9) =~= "{quality}"@);
    assert(starts_with(z, "{quality}"@));
    assert(z.skip(9) =~= idt);
    lemma_replace_too_short(idt, "{quality}"@, quality);
    assert(replace_all(z, "{quality}"@, quality) == quality + replace_all(idt, "{quality}"@, quality));
    assert(seq![y[0]] + (quality + idt) =~= seq!['-'] + quality + idt);
}

/// Filling in `{id}` after the quality was filled in.
proof fn lemma_tail_id_filled(quality: Seq<char>, id: u64)
    requires
        forall|i: int| 0 <= i < quality.len() ==> #[trigger] quality[i] != '{',
    ensures
        replace_all(seq!['-'] + quality + id_tail(), "{id}"@, dec(id as nat)) == seq!['-'] + quality
            + id_suffix(id),
{
    reveal_strlit("{id}");
    let d = dec(id as nat);
    let idt = id_tail();
    let p = seq!['-'] + quality;
    lemma_replace_split(p, idt, "{id}"@, d);
    assert forall|i: int| 0 <= i < p.len() implies #[trigger] p[i] != "{id}"@[0] by {
        if i > 0 {
            assert(p[i] == quality[i - 1]);
        }
    }
    lemma_replace_no_first(p, "{id}"@, d);
    assert(!starts_with(idt, "{id}"@)) by {
        assert(idt.subrange(0, 4)[0] == idt[0]);
    }
    assert(replace_all(idt, "{id}"@, d) == seq![idt[0]] + replace_all(idt.drop_first(), "{id}"@, d));
    assert(idt.drop_first() =~= "{id}"@);
    assert(starts_with("{id}"@, "{id}"@)) by {
        assert("{id}"@.subrange(0, 4) =~= "{id}"@);
    }
    assert("{id}"@.skip(4) =~= Seq::<char>::empty());
    assert(replace_all(Seq::<char>::empty(), "{id}"@, d) == Seq::<char>::empty());
    assert(replace_all("{id}"@, "{id}"@, d) =~= d + Seq::<char>::empty());
    assert(replace_all(idt, "{id}"@, d) =~= seq!['-'] + d);
    assert(p + (seq!['-'] + d) =~= seq!['-'] + quality + id_suffix(id));
}

/// A name rendered from a pattern that ends with `-{quality}-{id}` ends with the dash, the
/// quality, the dash and the song's decimal id, when the quality holds no forbidden character
/// and no `{`.
pub proof fn lemma_rendered_ends_with_quality_and_id(
    name: Seq<char>,
    singer: Seq<char>,
    album: Seq<char>,
    id: u64,
    quality: Seq<char>,
    head: Seq<char>,
)
    requires
        forall|i: int| 0 <= i < quality.len() ==> !is_forbidden(#[trigger] quality[i]) && quality[i]
            != '{',
    ensures
        crate::text::ends_with(
            rendered_name(name, singer, album, id, quality, head + quality_id_tail()),
            seq!['-'] + quality + id_suffix(id),
        ),
{
    reveal_strlit("-{quality}-{id}");
    reveal_strlit("{name}");
    reveal_strlit("{singer}");
    reveal_strlit("{album}");
    reveal_strlit("{quality}");
    reveal_strlit("{id}");
    let y = quality_id_tail();
    let d = dec(id as nat);
    lemma_dec_reads_back(id as nat);
    assert(y[0] == '-');
    assert(!"{name}"@.contains('-'));
    assert(!"{singer}"@.contains('-'));
    assert(!"{album}"@.contains('-'));
    assert(!"{quality}"@.contains('-'));
    assert(!"{id}"@.contains('-'));
    // {name}, {singer}, {album}
    let a0 = replace_all(head, "{name}"@, sanitized(name));
    lemma_replace_split(head, y, "{name}"@, sanitized(name));
    lemma_tail_kept("{name}"@, sanitized(name));
    let b0 = replace_all(a0, "{singer}"@, sanitized(singer));
    lemma_replace_split(a0, y, "{singer}"@, sanitized(singer));
    lemma_tail_kept("{singer}"@, sanitized(singer));
    let c0 = replace_all(b0, "{album}"@, sanitized(album));
    lemma_replace_split(b0, y, "{album}"@, sanitized(album));
    lemma_tail_kept("{album}"@, sanitized(album));
    // {quality}, then {id}
    let d0 = replace_all(c0, "{quality}"@, quality);
    lemma_replace_split(c0, y, "{quality}"@, quality);
    lemma_tail_quality_filled(quality);
    let y2 = seq!['-'] + quality + id_tail();
    lemma_replace_split(d0, y2, "{id}"@, d);
    lemma_tail_id_filled(quality, id);
    let t = seq!['-'] + quality + id_suffix(id);
    assert forall|i: int| 0 <= i < t.len() implies !is_forbidden(#[trigger] t[i]) by {
        if 1 <= i < 1 + quality.len() {
            assert(t[i] == quality[i - 1]);
        } else if i > 1 + quality.len() {
            assert(t[i] == d[i - 2 - quality.len()]);
            assert(is_digit(d[i - 2 - quality.len()]));
        }
    }
    assert(t.last() == d.last());
    assert(is_digit(d[d.len() - 1]));
    lemma_sanitized_keeps_suffix(replace_all(d0, "{id}"@, d), t);
}

/// A song file named by a pattern that ends with `-{quality}-{id}` (as the default pattern
/// does) is found again at its quality: it is a finished download of the song that holds the
/// quality, and its id is read back, whatever the song's name, singer and album hold.
pub proof fn lemma_download_name_found_at_quality(
    song: Song,
    quality: Seq<char>,
    file_type: Seq<char>,
    head: Seq<char>,
)
    requires
        forall|i: int| 0 <= i < quality.len() ==> !is_forbidden(#[trigger] quality[i]) && quality[i]
            != '{',
        forall|i: int| 0 <= i < file_type.len() ==> #[trigger] file_type[i] != '.',
        file_type != "part"@,
    ensures
        ({
            let file = rendered_name(song.name@, song.singer@, song.album@, song.id, quality, head
                + quality_id_tail()) + "."@ + file_type;
            &&& is_preferred_file(file, song.id, Some(quality))
            &&& carries_id(file, song.id)
        }),
{
    reveal_strlit(".");
    let r = rendered_name(song.name@, song.singer@, song.album@, song.id, quality, head
        + quality_id_tail());
    lemma_rendered_ends_with_quality_and_id(song.name@, song.singer@, song.album@, song.id, quality, head);
    lemma_dec_reads_back(song.id as nat);
    let t = seq!['-'] + quality + id_suffix(song.id);
    let k = r.len() - t.len();
    assert(r.subrange(k, r.len() as int) == t);
    assert(r.len() > 0);
    assert("."@ =~= seq!['.']);
    lemma_stem_of_named_file(r, file_type);
    // the stem ends with the id
    let s = id_suffix(song.id);
    assert(r.subrange(r.len() - s.len(), r.len() as int) =~= t.subrange(t.len() - s.len(), t.len() as int));
    assert(t.subrange(t.len() - s.len(), t.len() as int) =~= s);
    lemma_id_suffix_read_back(r, song.id);
    // the stem holds the quality between dashes
    let q = seq!['-'] + quality + seq!['-'];
    assert(r.subrange(k, k + q.len()) =~= q) by {
        assert forall|j: int| 0 <= j < q.len() implies r.subrange(k, k + q.len())[j] == q[j] by {
            assert(r[k + j] == t[j]);
        }
    }
    assert(crate::text::occurs_at(r, q, k));
}

/// The quality keys are made of lower-case ASCII letters.
proof fn lemma_quality_keys_lowercase(key: Seq<char>)
    requires
        crate::settings::is_quality(key),
    ensures
        forall|i: int| 0 <= i < key.len() ==> 'a' <= #[trigger] key[i] <= 'z',
{
    reveal_strlit("standard");
    reveal_strlit("higher");
    reveal_strlit("exhigh");
    reveal_strlit("lossless");
    reveal_strlit("hires");
    reveal_strlit("jyeffect");
    reveal_strlit("sky");
    reveal_strlit("dolby");
    reveal_strlit("jymaster");
    crate::settings::lemma_first_index_bounds(crate::settings::quality_keys(), key, 0);
}

/// A song downloaded under the default file name pattern at one of the quality keys is found
/// again at that quality: the file is a finished download of the song that holds the quality,
/// and its id is read back.
pub proof fn lemma_default_download_found_at_quality(song: Song, key: Seq<char>, file_type: Seq<char>)
    requires
        crate::settings::is_quality(key),
        forall|i: int| 0 <= i < file_type.len() ==> #[trigger] file_type[i] != '.',
        file_type != "part"@,
    ensures
        ({
            let file = rendered_name(song.name@, song.singer@, song.album@, song.id, key,
                crate::settings::default_file_name_pattern()) + "."@ + file_type;
            &&& is_preferred_file(file, song.id, Some(key))
            &&& carries_id(file, song.id)
        }),
{
    lemma_quality_keys_lowercase(key);
    lemma_default_pattern_ends_with_id();
    lemma_download_name_found_at_quality(song, key, file_type, "{name}-{singer}-{album}"@);
}

/// No occurrence of `from` reaches past the end of `x` when `x` ends with a character that
/// `from` does not hold, so `x` and what follows are filled in apart.
proof fn lemma_replace_split_after(x: Seq<char>, y: Seq<char>, from: Seq<char>, to: Seq<char>)
    requires
        from.len() > 0,
        x.len() > 0,
        !from.contains(x.last()),
    ensures
        replace_all(x + y, from, to) == replace_all(x, from, to) + replace_all(y, from, to),
    decreases x.len(),
{
    let s = x + y;
    let n = from.len() as int;
    if starts_with(s, from) {
        if n >= x.len() {
            assert(s.subrange(0, n)[x.len() - 1] == s[x.len() - 1]);
            assert(from[x.len() - 1] == x.last());
            assert(from.contains(x.last()));
        }
        assert(x.subrange(0, n) =~= s.subrange(0, n));
        assert(starts_with(x, from));
        let xr = x.skip(n);
        assert(xr.last() == x.last());
        lemma_replace_split_after(xr, y, from, to);
        assert(s.skip(n) =~= xr + y);
        assert(replace_all(s, from, to) == to + replace_all(s.skip(n), from, to));
        assert(replace_all(x, from, to) == to + replace_all(xr, from, to));
        assert(to + (replace_all(xr, from, to) + replace_all(y, from, to)) =~= (to + replace_all(
            xr,
            from,
            to,
        )) + replace_all(y, from, to));
    } else {
        if starts_with(x, from) {
            assert(s.subrange(0, n) =~= x.subrange(0, n));
        }
        assert(replace_all(s, from, to) == seq![s[0]] + replace_all(s.drop_first(), from, to));
        assert(replace_all(x, from, to) == seq![x[0]] + replace_all(x.drop_first(), from, to));
        if x.len() == 1 {
            assert(s.drop_first() =~= y);
            assert(replace_all(x.drop_first(), from, to) == Seq::<char>::empty());
            assert(seq![x[0]] + Seq::<char>::empty() =~= seq![x[0]]);
        } else {
            assert(x.drop_first().last() == x.last());
            lemma_replace_split_after(x.drop_first(), y, from, to);
            assert(s.drop_first() =~= x.drop_first() + y);
        }
        assert(seq![x[0]] + (replace_all(x.drop_first(), from, to) + replace_all(y, from, to))
            =~= (seq![x[0]] + replace_all(x.drop_first(), from, to)) + replace_all(y, from, to));
    }
}

/// The `{id}-` beginning of a pattern.
pub open spec fn id_head() -> Seq<char> {
    seq!['{', 'i', 'd', '}', '-']
}

/// Filling in a placeholder longer than `{id}-` leaves a leading `{id}-` in place.
proof fn lemma_head_kept(rest: Seq<char>, from: Seq<char>, to: Seq<char>)
    requires
        from.len() > 5,
        !from.contains('-'),
    ensures
        replace_all(id_head() + rest, from, to) == id_head() + replace_all(rest, from, to),
{
    lemma_replace_split_after(id_head(), rest, from, to);
    lemma_replace_too_short(id_head(), from, to);
}

/// Trailing spaces and dots are dropped without reaching into a beginning `p` that does not
/// end with one.
proof fn lemma_strip_end_keeps_prefix(p: Seq<char>, w: Seq<char>)
    requires
        p.len() > 0,
        !is_edge_junk(p.last()),
    ensures
        starts_with(strip_end(p + w), p),
    decreases w.len(),
{
    let s = p + w;
    if w.len() == 0 {
        assert(s =~= p);
        assert(p.subrange(0, p.len() as int) =~= p);
    } else if is_edge_junk(s.last()) {
        assert(s.drop_last() =~= p + w.drop_last());
        lemma_strip_end_keeps_prefix(p, w.drop_last());
    } else {
        assert(s.subrange(0, p.len() as int) =~= p);
    }
}

/// A name rendered from a pattern that begins with `{id}-` begins with the song's decimal id
/// and a dash, whatever the other fields hold.
pub proof fn lemma_rendered_starts_with_id(
    name: Seq<char>,
    singer: Seq<char>,
    album: Seq<char>,
    id: u64,
    quality: Seq<char>,
    tail: Seq<char>,
)
    ensures
        starts_with(
            rendered_name(name, singer, album, id, quality, id_head() + tail),
            dec(id as nat).push('-'),
        ),
{
    reveal_strlit("{name}");
    reveal_strlit("{singer}");
    reveal_strlit("{album}");
    reveal_strlit("{quality}");
    reveal_strlit("{id}");
    assert(!"{name}"@.contains('-'));
    assert(!"{singer}"@.contains('-'));
    assert(!"{album}"@.contains('-'));
    assert(!"{quality}"@.contains('-'));
    assert(!"{id}"@.contains('-'));
    let d = dec(id as nat);
    lemma_dec_reads_back(id as nat);
    let a = replace_all(tail, "{name}"@, sanitized(name));
    lemma_head_kept(tail, "{name}"@, sanitized(name));
    let b = replace_all(a, "{singer}"@, sanitized(singer));
    lemma_head_kept(a, "{singer}"@, sanitized(singer));
    let c = replace_all(b, "{album}"@, sanitized(album));
    lemma_head_kept(b, "{album}"@, sanitized(album));
    let e = replace_all(c, "{quality}"@, quality);
    lemma_head_kept(c, "{quality}"@, quality);
    // {id}
    let h = id_head();
    lemma_replace_split_after(h, e, "{id}"@, d);
    assert(h.subrange(0, 4) =~= "{id}"@);
    assert(starts_with(h, "{id}"@));
    assert(h.skip(4) =~= seq!['-']);
    lemma_replace_too_short(seq!['-'], "{id}"@, d);
    assert(replace_all(h, "{id}"@, d) == d + seq!['-']);
    let p = d.push('-');
    assert(d + seq!['-'] =~= p);
    let f = replace_all(e, "{id}"@, d);
    // made safe for a file system
    let g = p + f;
    assert(replace_forbidden(g) =~= p + replace_forbidden(f)) by {
        assert forall|i: int| 0 <= i < g.len() implies #[trigger] replace_forbidden(g)[i] == (p
            + replace_forbidden(f))[i] by {
            if i < d.len() {
                assert(is_digit(d[i]));
            } else if i >= p.len() {
                assert(g[i] == f[i - p.len()]);
            }
        }
    }
    assert(is_digit(d[0]));
    assert(p[0] == d[0]);
    let r = replace_forbidden(g);
    assert(r[0] == p[0]);
    assert(strip_start(r) == r);
    lemma_strip_end_keeps_prefix(p, replace_forbidden(f));
    let t = strip_end(r);
    assert(t.subrange(0, p.len() as int) == p);
    assert(t.len() > 0);
}

/// A song file named by a pattern that begins with `{id}-` is a finished download of the song,
/// whatever the song's name, singer, album and quality hold.
pub proof fn lemma_download_name_with_leading_id_found(
    song: Song,
    quality: Seq<char>,
    file_type: Seq<char>,
    tail: Seq<char>,
)
    requires
        forall|i: int| 0 <= i < file_type.len() ==> #[trigger] file_type[i] != '.',
        file_type != "part"@,
    ensures
        is_song_file(
            rendered_name(song.name@, song.singer@, song.album@, song.id, quality, id_head() + tail)
                + "."@ + file_type,
            song.id,
        ),
{
    reveal_strlit(".");
    let r = rendered_name(song.name@, song.singer@, song.album@, song.id, quality, id_head() + tail);
    lemma_rendered_starts_with_id(song.name@, song.singer@, song.album@, song.id, quality, tail);
    lemma_dec_reads_back(song.id as nat);
    assert(r.len() > 0);
    assert("."@ =~= seq!['.']);
    lemma_stem_of_named_file(r, file_type);
}

/// Whether `s` holds no `{`, so no placeholder can be found in it.
pub open spec fn no_brace(s: Seq<char>) -> bool {
    forall|i: int| 0 <= i < s.len() ==> #[trigger] s[i] != '{'
}

proof fn lemma_strips_keep_no_brace(s: Seq<char>)
    requires
        no_brace(s),
    ensures
        no_brace(strip_start(s)),
        no_brace(strip_end(s)),
    decreases s.len(),
{
    if s.len() > 0 {
        assert(no_brace(s.drop_first())) by {
            assert forall|i: int| 0 <= i < s.drop_first().len() implies s.drop_first()[i] != '{' by {
                assert(s.drop_first()[i] == s[i + 1]);
            }
        }
        assert(no_brace(s.drop_last())) by {
            assert forall|i: int| 0 <= i < s.drop_last().len() implies s.drop_last()[i] != '{' by {
                assert(s.drop_last()[i] == s[i]);
            }
        }
        lemma_strips_keep_no_brace(s.drop_first());
        lemma_strips_keep_no_brace(s.drop_last());
    }
}

/// Sanitizing a name without `{` gives a name without `{`.
proof fn lemma_sanitized_no_brace(s: Seq<char>)
    requires
        no_brace(s),
    ensures
        no_brace(sanitized(s)),
{
    reveal_strlit("song");
    let r = replace_forbidden(s);
    assert(no_brace(r)) by {
        assert forall|i: int| 0 <= i < r.len() implies r[i] != '{' by {
            assert(s[i] != '{');
        }
    }
    lemma_strips_keep_no_brace(r);
    lemma_strips_keep_no_brace(strip_start(r));
}

/// The lyric file of a song under the default lyric name pattern is named after the song's name
/// alone, so songs of the same name share one lyric file, whatever their singers, albums, ids
/// and qualities (for names without `{`, which could hold a placeholder).
pub proof fn lemma_default_lyric_name_shared(
    name: Seq<char>,
    singer1: Seq<char>,
    album1: Seq<char>,
    id1: u64,
    quality1: Seq<char>,
    singer2: Seq<char>,
    album2: Seq<char>,
    id2: u64,
    quality2: Seq<char>,
)
    requires
        no_brace(name),
    ensures
        rendered_name(name, singer1, album1, id1, quality1, crate::settings::default_lyric_name_pattern())
            == rendered_name(name, singer2, album2, id2, quality2, crate::settings::default_lyric_name_pattern()),
        rendered_name(name, singer1, album1, id1, quality1, crate::settings::default_lyric_name_pattern())
            == sanitized(sanitized(name) + "-Lyric"@),
{
    lemma_lyric_name_of(name, singer1, album1, id1, quality1);
    lemma_lyric_name_of(name, singer2, album2, id2, quality2);
}

proof fn lemma_lyric_name_of(name: Seq<char>, singer: Seq<char>, album: Seq<char>, id: u64, quality: Seq<char>)
    requires
        no_brace(name),
    ensures
        rendered_name(name, singer, album, id, quality, crate::settings::default_lyric_name_pattern())
            == sanitized(sanitized(name) + "-Lyric"@),
{
    reveal_strlit("{name}-Lyric");
    reveal_strlit("-Lyric");
    reveal_strlit("{name}");
    reveal_strlit("{singer}");
    reveal_strlit("{album}");
    reveal_strlit("{quality}");
    reveal_strlit("{id}");
    let p = crate::settings::default_lyric_name_pattern();
    let sn = sanitized(name);
    let l = "-Lyric"@;
    assert(p.subrange(0, 6) =~= "{name}"@);
    assert(starts_with(p, "{name}"@));
    assert(p.skip(6) =~= l);
    assert(no_brace(l));
    lemma_replace_no_first(l, "{name}"@, sn);
    assert(replace_all(p, "{name}"@, sn) == sn + l);
    lemma_sanitized_no_brace(name);
    let a = sn + l;
    assert(no_brace(a)) by {
        assert forall|i: int| 0 <= i < a.len() implies a[i] != '{' by {
            if i < sn.len() {
                assert(a[i] == sn[i]);
            } else {
                assert(a[i] == l[i - sn.len()]);
            }
        }
    }
    lemma_replace_no_first(a, "{singer}"@, sanitized(singer));
    lemma_replace_no_first(a, "{album}"@, sanitized(album));
    lemma_replace_no_first(a, "{quality}"@, quality);
    lemma_replace_no_first(a, "{id}"@, dec(id as nat));
}

} // verus!
