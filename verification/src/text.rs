//! Text building blocks: ASCII case folding, trimming, joining, padding and number rendering.

use vstd::prelude::*;
use vstd::string::*;

verus! {

/// The ASCII lower case of one character; every other character is itself.
pub open spec fn lower_char(c: char) -> char {
    if 'A' <= c <= 'Z' {
        (c as int + 32) as char
    } else {
        c
    }
}

/// A text with its ASCII letters in lower case.
pub open spec fn lower(s: Seq<char>) -> Seq<char> {
    Seq::new(s.len(), |i: int| lower_char(s[i]))
}

fn lower_one(c: char) -> (r: char)
    ensures
        r == lower_char(c),
{
    if 'A' <= c && c <= 'Z' {
        (c as u8 + 32) as char
    } else {
        c
    }
}

/// The characters of a text, with ASCII letters in lower case.
pub fn lower_chars(s: &str) -> (r: Vec<char>)
    ensures
        r@ == lower(s@),
{
    let mut out: Vec<char> = Vec::new();
    for c in it: s.chars()
        invariant
            it.seq() == s@,
            out@ == lower(s@.take(it.index() as int)),
    {
        out.push(lower_one(c));
        assert(lower(s@.take(it.index() + 1)) =~= lower(s@.take(it.index() as int)).push(
            lower_char(c),
        ));
    }
    assert(s@.take(s@.len() as int) =~= s@);
    out
}

/// Whether a list of characters spells the given text.
pub fn spells(v: &Vec<char>, s: &str) -> (r: bool)
    ensures
        r == (v@ == s@),
{
    let n: usize = s.unicode_len();
    if v.len() != n {
        return false;
    }
    let mut i: usize = 0;
    while i < n
        invariant
            i <= n,
            n == s@.len(),
            n == v@.len(),
            forall|j: int| 0 <= j < i ==> v@[j] == s@[j],
        decreases n - i,
    {
        if v[i] != s.get_char(i) {
            return false;
        }
        i += 1;
    }
    assert(v@ =~= s@);
    true
}

/// Whether a character counts as white space (the Unicode `White_Space` property).
pub open spec fn is_space(c: char) -> bool {
    ||| '\u{9}' <= c <= '\u{d}'
    ||| c == ' '
    ||| c == '\u{85}'
    ||| c == '\u{a0}'
    ||| c == '\u{1680}'
    ||| '\u{2000}' <= c <= '\u{200a}'
    ||| c == '\u{2028}'
    ||| c == '\u{2029}'
    ||| c == '\u{202f}'
    ||| c == '\u{205f}'
    ||| c == '\u{3000}'
}

fn space_char(c: char) -> (r: bool)
    ensures
        r == is_space(c),
{
    ('\u{9}' <= c && c <= '\u{d}') || c == ' ' || c == '\u{85}' || c == '\u{a0}' || c
        == '\u{1680}' || ('\u{2000}' <= c && c <= '\u{200a}') || c == '\u{2028}' || c
        == '\u{2029}' || c == '\u{202f}' || c == '\u{205f}' || c == '\u{3000}'
}

/// A text without its leading white space.
pub open spec fn trim_start(s: Seq<char>) -> Seq<char>
    decreases s.len(),
{
    if s.len() > 0 && is_space(s[0]) {
        trim_start(s.drop_first())
    } else {
        s
    }
}

/// A text without its trailing white space.
pub open spec fn trim_end(s: Seq<char>) -> Seq<char>
    decreases s.len(),
{
    if s.len() > 0 && is_space(s.last()) {
        trim_end(s.drop_last())
    } else {
        s
    }
}

/// A text without the white space around it.
pub open spec fn trim(s: Seq<char>) -> Seq<char> {
    trim_end(trim_start(s))
}

/// Whether a text is empty or white space only.
pub open spec fn is_blank(s: Seq<char>) -> bool {
    trim(s).len() == 0
}

/// Strips the white space around a text.
pub fn trimmed(s: &str) -> (r: &str)
    ensures
        r@ == trim(s@),
{
    let n: usize = s.unicode_len();
    let mut from: usize = 0;
    assert(s@.skip(0) =~= s@);
    while from < n && space_char(s.get_char(from))
        invariant
            from <= n == s@.len(),
            trim_start(s@.skip(from as int)) == trim_start(s@),
        decreases n - from,
    {
        assert(s@.skip(from as int).drop_first() =~= s@.skip(from + 1));
        from += 1;
    }
    assert(trim_start(s@) == s@.skip(from as int));
    let mut to: usize = n;
    assert(s@.subrange(from as int, to as int) =~= s@.skip(from as int));
    while from < to && space_char(s.get_char(to - 1))
        invariant
            from <= to <= n == s@.len(),
            trim_end(s@.subrange(from as int, to as int)) == trim(s@),
        decreases to - from,
    {
        assert(s@.subrange(from as int, to as int).drop_last() =~= s@.subrange(
            from as int,
            to - 1,
        ));
        to -= 1;
    }
    s.substring_char(from, to)
}

/// Whether a text is empty or white space only.
pub fn blank(s: &str) -> (r: bool)
    ensures
        r == is_blank(s@),
{
    trimmed(s).unicode_len() == 0
}

/// Trimming leaves nothing more to trim.
pub proof fn lemma_trim_idempotent(s: Seq<char>)
    ensures
        trim(trim(s)) == trim(s),
{
    lemma_trim_start_shape(s);
    lemma_trim_end_shape(trim_start(s));
}

proof fn lemma_trim_start_shape(s: Seq<char>)
    ensures
        trim_start(s).len() == 0 || !is_space(trim_start(s)[0]),
    decreases s.len(),
{
    if s.len() > 0 && is_space(s[0]) {
        lemma_trim_start_shape(s.drop_first());
    }
}

proof fn lemma_trim_end_shape(s: Seq<char>)
    ensures
        trim_end(s).len() <= s.len(),
        trim_end(s).len() == 0 || !is_space(trim_end(s).last()),
        trim_end(s).len() > 0 ==> trim_end(s)[0] == s[0],
    decreases s.len(),
{
    if s.len() > 0 && is_space(s.last()) {
        lemma_trim_end_shape(s.drop_last());
    }
}

/// Whether `part` occurs in `s` as a run of consecutive characters.
pub open spec fn contains_run(s: Seq<char>, part: Seq<char>) -> bool {
    exists|i: int|
        0 <= i <= s.len() - part.len() && #[trigger] s.subrange(i, i + part.len()) == part
}

fn run_at(v: &Vec<char>, at: usize, part: &str) -> (r: bool)
    requires
        at + part@.len() <= v@.len(),
    ensures
        r == (v@.subrange(at as int, at + part@.len()) == part@),
{
    let n: usize = part.unicode_len();
    let mut i: usize = 0;
    while i < n
        invariant
            i <= n == part@.len(),
            at + n <= v.len(),
            forall|j: int| 0 <= j < i ==> v@[at + j] == part@[j],
        decreases n - i,
    {
        if v[at + i] != part.get_char(i) {
            assert(v@.subrange(at as int, at + part@.len())[i as int] != part@[i as int]);
            return false;
        }
        i += 1;
    }
    assert(v@.subrange(at as int, at + part@.len()) =~= part@);
    true
}

/// Whether `part` occurs in the given characters as a run of consecutive characters.
pub fn has_run(v: &Vec<char>, part: &str) -> (r: bool)
    ensures
        r == contains_run(v@, part@),
{
    let n: usize = part.unicode_len();
    if n > v.len() {
        return false;
    }
    let last: usize = v.len() - n;
    let mut at: usize = 0;
    loop
        invariant
            at <= last,
            last + n == v@.len(),
            n == part@.len(),
            forall|j: int| 0 <= j < at ==> #[trigger] v@.subrange(j, j + n) != part@,
        decreases last - at,
    {
        if run_at(v, at, part) {
            return true;
        }
        if at == last {
            return false;
        }
        at += 1;
    }
}

/// The texts of a list of strings.
pub open spec fn texts(v: Seq<String>) -> Seq<Seq<char>> {
    Seq::new(v.len(), |i: int| v[i]@)
}

/// The parts in order, with `sep` between neighbours.
pub open spec fn join(parts: Seq<Seq<char>>, sep: Seq<char>) -> Seq<char>
    decreases parts.len(),
{
    if parts.len() == 0 {
        Seq::empty()
    } else if parts.len() == 1 {
        parts[0]
    } else {
        join(parts.drop_last(), sep) + sep + parts.last()
    }
}

/// Joins the strings of a list with `sep` between neighbours.
pub fn joined(parts: &Vec<String>, sep: &str) -> (r: String)
    ensures
        r@ == join(texts(parts@), sep@),
{
    let mut out: String = String::new();
    let mut i: usize = 0;
    let n: usize = parts.len();
    while i < n
        invariant
            i <= n == parts@.len(),
            out@ == join(texts(parts@).take(i as int), sep@),
        decreases n - i,
    {
        if i > 0 {
            out.append(sep);
        }
        out.append(parts[i].as_str());
        assert(texts(parts@).take(i + 1).drop_last() =~= texts(parts@).take(i as int));
        i += 1;
    }
    assert(texts(parts@).take(n as int) =~= texts(parts@));
    out
}

/// The digit for a value below sixteen, in lower case.
pub open spec fn digit(d: nat) -> char {
    if d < 10 {
        (48 + d) as char
    } else {
        (87 + d) as char
    }
}

/// A number in base ten, without leading zeros.
pub open spec fn decimal(n: nat) -> Seq<char>
    decreases n,
{
    if n < 10 {
        seq![digit(n)]
    } else {
        decimal(n / 10).push(digit(n % 10))
    }
}

/// A signed number in base ten: a minus sign before a negative one.
pub open spec fn decimal_signed(n: int) -> Seq<char> {
    if n < 0 {
        "-"@ + decimal((-n) as nat)
    } else {
        decimal(n as nat)
    }
}

/// A number in base sixteen, without leading zeros.
pub open spec fn hex(n: nat) -> Seq<char>
    decreases n,
{
    if n < 16 {
        seq![digit(n)]
    } else {
        hex(n / 16).push(digit(n % 16))
    }
}

/// A 64-bit id in base sixteen, at least four digits long; a negative one as its two's complement.
pub open spec fn hex_id(n: i64) -> Seq<char> {
    let h = hex(
        if n < 0 {
            (n + 0x1_0000_0000_0000_0000) as nat
        } else {
            n as nat
        },
    );
    if h.len() >= 4 {
        h
    } else {
        Seq::new((4 - h.len()) as nat, |i: int| '0') + h
    }
}

fn digit_text(d: u64) -> (r: &'static str)
    requires
        d < 16,
    ensures
        r@ == seq![digit(d as nat)],
{
    proof {
        reveal_strlit("0");
        reveal_strlit("1");
        reveal_strlit("2");
        reveal_strlit("3");
        reveal_strlit("4");
        reveal_strlit("5");
        reveal_strlit("6");
        reveal_strlit("7");
        reveal_strlit("8");
        reveal_strlit("9");
        reveal_strlit("a");
        reveal_strlit("b");
        reveal_strlit("c");
        reveal_strlit("d");
        reveal_strlit("e");
        reveal_strlit("f");
    }
    match d {
        0 => "0",
        1 => "1",
        2 => "2",
        3 => "3",
        4 => "4",
        5 => "5",
        6 => "6",
        7 => "7",
        8 => "8",
        9 => "9",
        10 => "a",
        11 => "b",
        12 => "c",
        13 => "d",
        14 => "e",
        _ => "f",
    }
}

/// Renders a number in base ten.
pub fn decimal_text(n: u64) -> (r: String)
    ensures
        r@ == decimal(n as nat),
    decreases n,
{
    if n < 10 {
        digit_text(n).to_owned()
    } else {
        let mut s: String = decimal_text(n / 10);
        s.append(digit_text(n % 10));
        s
    }
}

/// Renders a signed number in base ten.
pub fn signed_text(n: i64) -> (r: String)
    ensures
        r@ == decimal_signed(n as int),
{
    if n < 0 {
        let magnitude: u64 = (-(n as i128)) as u64;
        let mut s: String = "-".to_owned();
        s.append(decimal_text(magnitude).as_str());
        s
    } else {
        decimal_text(n as u64)
    }
}

fn hex_text(n: u64) -> (r: String)
    ensures
        r@ == hex(n as nat),
    decreases n,
{
    if n < 16 {
        digit_text(n).to_owned()
    } else {
        let mut s: String = hex_text(n / 16);
        s.append(digit_text(n % 16));
        s
    }
}

/// Renders a 64-bit id in base sixteen with at least four digits.
pub fn hex_id_text(n: i64) -> (r: String)
    ensures
        r@ == hex_id(n),
{
    let wide: u64 = if n < 0 {
        (n as i128 + 0x1_0000_0000_0000_0000) as u64
    } else {
        n as u64
    };
    let body: String = hex_text(wide);
    let mut out: String = String::new();
    let mut len: usize = body.as_str().unicode_len();
    while len < 4
        invariant
            body@.len() >= 4 ==> len == body@.len() && out@.len() == 0,
            body@.len() < 4 ==> len <= 4 && out@.len() == len - body@.len(),
            forall|i: int| 0 <= i < out@.len() ==> out@[i] == '0',
        decreases 4 - len,
    {
        proof {
            reveal_strlit("0");
        }
        out.append("0");
        len += 1;
    }
    out.append(body.as_str());
    assert(out@ =~= hex_id(n));
    out
}

/// `n` spaces.
pub open spec fn spaces(n: nat) -> Seq<char> {
    Seq::new(n, |i: int| ' ')
}

/// A text moved to the right edge of a column.
pub open spec fn pad_left(s: Seq<char>, width: nat) -> Seq<char> {
    if s.len() >= width {
        s
    } else {
        spaces((width - s.len()) as nat) + s
    }
}

/// A text at the left edge of a column.
pub open spec fn pad_right(s: Seq<char>, width: nat) -> Seq<char> {
    if s.len() >= width {
        s
    } else {
        s + spaces((width - s.len()) as nat)
    }
}

fn space_text(n: usize) -> (r: String)
    ensures
        r@ == spaces(n as nat),
{
    let mut out: String = String::new();
    let mut i: usize = 0;
    while i < n
        invariant
            i <= n,
            out@ =~= spaces(i as nat),
        decreases n - i,
    {
        proof {
            reveal_strlit(" ");
        }
        out.append(" ");
        i += 1;
    }
    out
}

/// Pads a text with spaces on its left up to a width.
pub fn padded_left(s: &str, width: usize) -> (r: String)
    ensures
        r@ == pad_left(s@, width as nat),
{
    let n: usize = s.unicode_len();
    if n >= width {
        return s.to_owned();
    }
    let mut out: String = space_text(width - n);
    out.append(s);
    out
}

/// Pads a text with spaces on its right up to a width.
pub fn padded_right(s: &str, width: usize) -> (r: String)
    ensures
        r@ == pad_right(s@, width as nat),
{
    let n: usize = s.unicode_len();
    let mut out: String = s.to_owned();
    if n < width {
        out.append(space_text(width - n).as_str());
    }
    out
}

} // verus!
