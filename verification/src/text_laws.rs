//! What holds of every text: letter case, white space, runs, joining and numbers.

use vstd::prelude::*;

use crate::text::{
    contains_run, decimal, decimal_signed, digit, hex, hex_id, is_blank, is_space, join, lower,
    pad_left, pad_right, trim, trim_end, trim_start,
};

verus! {

// ---------------------------------------------------------------------------------------------
// Letter case
// ---------------------------------------------------------------------------------------------
/// Whether a text reads as a word: each character is the word's, or the ASCII capital of it.
pub open spec fn reads(s: Seq<char>, word: Seq<char>) -> bool {
    s.len() == word.len() && forall|i: int|
        0 <= i < s.len() ==> (#[trigger] s[i] == word[i] || ('A' <= s[i] <= 'Z' && s[i] as int + 32
            == word[i] as int))
}

/// Whether a text has no ASCII capital.
pub open spec fn no_capitals(s: Seq<char>) -> bool {
    forall|i: int| 0 <= i < s.len() ==> !('A' <= #[trigger] s[i] <= 'Z')
}

/// A text in lower case is a word without capitals exactly where it reads as that word.
pub proof fn lower_case_reads_the_same(s: Seq<char>, word: Seq<char>)
    requires
        no_capitals(word),
    ensures
        lower(s) == word <==> reads(s, word),
        reads(s, lower(s)),
        no_capitals(lower(s)),
{
    assert forall|i: int| 0 <= i < s.len() implies #[trigger] s[i] == lower(s)[i] || ('A' <= s[i]
        <= 'Z' && s[i] as int + 32 == lower(s)[i] as int) by {}
    assert forall|i: int| 0 <= i < s.len() implies !('A' <= #[trigger] lower(s)[i] <= 'Z') by {}
    if lower(s) == word {
        assert(reads(s, word));
    }
    if reads(s, word) {
        assert forall|i: int| 0 <= i < s.len() implies lower(s)[i] == word[i] by {
            assert(!('A' <= word[i] <= 'Z'));
            assert(s[i] == word[i] || ('A' <= s[i] <= 'Z' && s[i] as int + 32 == word[i] as int));
        }
        assert(lower(s) =~= word);
    }
}

// ---------------------------------------------------------------------------------------------
// White space
// ---------------------------------------------------------------------------------------------
/// Whether all characters of a text are white space.
pub open spec fn all_space(s: Seq<char>) -> bool {
    forall|i: int| 0 <= i < s.len() ==> is_space(#[trigger] s[i])
}

proof fn lemma_trim_start(s: Seq<char>) -> (n: int)
    ensures
        0 <= n <= s.len(),
        all_space(s.take(n)),
        trim_start(s) == s.skip(n),
        n < s.len() ==> !is_space(s[n]),
    decreases s.len(),
{
    if s.len() > 0 && is_space(s[0]) {
        let n = lemma_trim_start(s.drop_first()) + 1;
        assert(s.drop_first().skip(n - 1) =~= s.skip(n));
        assert forall|i: int| 0 <= i < n implies is_space(#[trigger] s.take(n)[i]) by {
            if i > 0 {
                assert(s.drop_first().take(n - 1)[i - 1] == s[i]);
            }
        }
        n
    } else {
        assert(s.skip(0) =~= s);
        0
    }
}

proof fn lemma_trim_end(s: Seq<char>) -> (n: int)
    ensures
        0 <= n <= s.len(),
        all_space(s.skip(n)),
        trim_end(s) == s.take(n),
        n > 0 ==> !is_space(s[n - 1]),
    decreases s.len(),
{
    if s.len() > 0 && is_space(s.last()) {
        let n = lemma_trim_end(s.drop_last());
        assert(s.drop_last().take(n) =~= s.take(n));
        assert forall|i: int| 0 <= i < s.skip(n).len() implies is_space(#[trigger] s.skip(n)[i]) by {
            if n + i < s.len() - 1 {
                assert(s.drop_last().skip(n)[i] == s[n + i]);
            }
        }
        n
    } else {
        assert(s.take(s.len() as int) =~= s);
        s.len() as int
    }
}

/// Trimming takes white space away at both ends, and nothing else: what is left begins and ends
/// with something that is none, or is empty.
pub proof fn trimming_takes_white_space_only(s: Seq<char>)
    ensures
        exists|before: Seq<char>, after: Seq<char>|
            s == #[trigger] (before + trim(s) + after) && all_space(before) && all_space(after),
        trim(s).len() > 0 ==> !is_space(trim(s)[0]) && !is_space(trim(s).last()),
{
    let n = lemma_trim_start(s);
    let rest = s.skip(n);
    let m = lemma_trim_end(rest);
    let before = s.take(n);
    let after = rest.skip(m);
    assert(s =~= before + trim(s) + after);
}

/// A text is blank exactly where it is white space throughout.
pub proof fn blank_is_white_space_throughout(s: Seq<char>)
    ensures
        is_blank(s) <==> all_space(s),
{
    let n = lemma_trim_start(s);
    let rest = s.skip(n);
    let m = lemma_trim_end(rest);
    if is_blank(s) {
        assert(m == 0);
        assert forall|i: int| 0 <= i < s.len() implies is_space(#[trigger] s[i]) by {
            if i < n {
                assert(s.take(n)[i] == s[i]);
            } else {
                assert(rest.skip(m)[i - n] == s[i]);
            }
        }
    }
    if all_space(s) {
        assert(n == s.len());
    }
}

// ---------------------------------------------------------------------------------------------
// Runs and joining
// ---------------------------------------------------------------------------------------------
/// A text contains a run exactly where it can be cut into something, the run, and something.
pub proof fn run_splits_its_text(s: Seq<char>, part: Seq<char>)
    ensures
        contains_run(s, part) <==> exists|a: Seq<char>, b: Seq<char>| s == #[trigger] (a + part + b),
{
    if contains_run(s, part) {
        let i = choose|i: int|
            0 <= i <= s.len() - part.len() && #[trigger] s.subrange(i, i + part.len()) == part;
        assert(s =~= s.take(i) + part + s.skip((i + part.len()) as int));
    }
    if exists|a: Seq<char>, b: Seq<char>| s == #[trigger] (a + part + b) {
        let (a, b) = choose|a: Seq<char>, b: Seq<char>| s == #[trigger] (a + part + b);
        let i = a.len() as int;
        assert(s.subrange(i, i + part.len()) =~= part);
    }
}

/// Joining one text gives that text, and joining two lists puts the separator between what each of
/// them gives.
pub proof fn joining_separates_neighbours(
    one: Seq<char>,
    xs: Seq<Seq<char>>,
    ys: Seq<Seq<char>>,
    sep: Seq<char>,
)
    requires
        xs.len() > 0,
        ys.len() > 0,
    ensures
        join(seq![one], sep) == one,
        join(xs + ys, sep) == join(xs, sep) + sep + join(ys, sep),
    decreases ys.len(),
{
    let all = xs + ys;
    assert(all.last() == ys.last());
    if ys.len() == 1 {
        assert(all.drop_last() =~= xs);
        assert(join(ys, sep) == ys[0]);
    } else {
        let rest = ys.drop_last();
        assert(all.drop_last() =~= xs + rest);
        joining_separates_neighbours(one, xs, rest, sep);
        assert(join(xs + ys, sep) =~= join(xs, sep) + sep + join(ys, sep));
    }
}

// ---------------------------------------------------------------------------------------------
// Numbers
// ---------------------------------------------------------------------------------------------
/// The value of a digit: 0 to 9, then the small letters from a on.
pub open spec fn digit_value(c: char) -> int {
    if '0' <= c <= '9' {
        c as int - '0' as int
    } else {
        c as int - 'a' as int + 10
    }
}

/// Whether a character is a digit of a base up to sixteen.
pub open spec fn is_digit(c: char, base: int) -> bool {
    ('0' <= c <= '9' || 'a' <= c <= 'f') && digit_value(c) < base
}

/// Whether a text consists of digits, at least one.
pub open spec fn all_digits(s: Seq<char>, base: int) -> bool {
    s.len() > 0 && forall|i: int| 0 <= i < s.len() ==> is_digit(#[trigger] s[i], base)
}

/// The number that digits stand for.
pub open spec fn number(s: Seq<char>, base: int) -> int
    decreases s.len(),
{
    if s.len() == 0 {
        0
    } else {
        number(s.drop_last(), base) * base + digit_value(s.last())
    }
}

proof fn lemma_digit(d: nat)
    requires
        d < 16,
    ensures
        is_digit(digit(d), d as int + 1),
        digit_value(digit(d)) == d,
        digit(d) == '0' <==> d == 0,
{
}

/// A decimal reads back as its number, in digits only and without a leading zero.
pub proof fn decimals_read_back(n: nat)
    ensures
        number(decimal(n), 10) == n,
        all_digits(decimal(n), 10),
        decimal(n)[0] == '0' ==> n == 0 && decimal(n).len() == 1,
    decreases n,
{
    if n < 10 {
        lemma_digit(n);
        assert(decimal(n).drop_last() =~= Seq::empty());
        assert(number(decimal(n).drop_last(), 10) == 0);
    } else {
        decimals_read_back(n / 10);
        lemma_digit(n % 10);
        assert(decimal(n).drop_last() =~= decimal(n / 10));
        assert(decimal(n)[0] == decimal(n / 10)[0]);
    }
}

/// A signed decimal is a minus sign and the decimal of its size where it is negative, and a plain
/// decimal where it is not.
pub proof fn signed_decimals_read_back(n: int)
    ensures
        n >= 0 ==> all_digits(decimal_signed(n), 10) && number(decimal_signed(n), 10) == n,
        n < 0 ==> decimal_signed(n)[0] == '-' && all_digits(decimal_signed(n).skip(1), 10)
            && number(decimal_signed(n).skip(1), 10) == -n,
{
    if n < 0 {
        reveal_strlit("-");
        decimals_read_back((-n) as nat);
        assert(decimal_signed(n).skip(1) =~= decimal((-n) as nat));
    } else {
        decimals_read_back(n as nat);
    }
}

proof fn lemma_hex(n: nat)
    ensures
        number(hex(n), 16) == n,
        all_digits(hex(n), 16),
        hex(n)[0] == '0' ==> n == 0 && hex(n).len() == 1,
    decreases n,
{
    if n < 16 {
        lemma_digit(n);
        assert(hex(n).drop_last() =~= Seq::empty());
        assert(number(hex(n).drop_last(), 16) == 0);
    } else {
        lemma_hex(n / 16);
        lemma_digit(n % 16);
        assert(hex(n).drop_last() =~= hex(n / 16));
        assert(hex(n)[0] == hex(n / 16)[0]);
    }
}

proof fn lemma_leading_zeros(k: nat, s: Seq<char>)
    requires
        all_digits(s, 16),
    ensures
        all_digits(Seq::new(k, |i: int| '0') + s, 16),
        number(Seq::new(k, |i: int| '0') + s, 16) == number(s, 16),
    decreases s.len(),
{
    let zeros = Seq::new(k, |i: int| '0');
    let all = zeros + s;
    assert forall|i: int| 0 <= i < all.len() implies is_digit(#[trigger] all[i], 16) by {
        if i >= k {
            assert(all[i] == s[i - k]);
        }
    }
    assert(all.last() == s.last());
    if s.len() == 1 {
        assert(all.drop_last() =~= zeros);
        lemma_zeros(k);
        assert(s.drop_last() =~= Seq::empty());
        assert(number(s.drop_last(), 16) == 0);
    } else {
        assert(all.drop_last() =~= zeros + s.drop_last());
        assert forall|i: int| 0 <= i < s.drop_last().len() implies is_digit(
            #[trigger] s.drop_last()[i],
            16,
        ) by {
            assert(s.drop_last()[i] == s[i]);
        }
        lemma_leading_zeros(k, s.drop_last());
    }
}

proof fn lemma_zeros(k: nat)
    ensures
        number(Seq::new(k, |i: int| '0'), 16) == 0,
    decreases k,
{
    if k > 0 {
        let zeros = Seq::new(k, |i: int| '0');
        assert(zeros.drop_last() =~= Seq::new((k - 1) as nat, |i: int| '0'));
        lemma_zeros((k - 1) as nat);
    }
}

/// An id is written in at least four hexadecimal digits, and no more than it needs beyond that; it
/// reads back as the id, a negative one as its two's complement.
pub proof fn ids_read_back(n: i64)
    ensures
        all_digits(hex_id(n), 16),
        hex_id(n).len() >= 4,
        hex_id(n).len() > 4 ==> hex_id(n)[0] != '0',
        number(hex_id(n), 16) == (if n < 0 {
            n + 0x1_0000_0000_0000_0000
        } else {
            n as int
        }),
{
    let v: nat = if n < 0 {
        (n + 0x1_0000_0000_0000_0000) as nat
    } else {
        n as nat
    };
    lemma_hex(v);
    if hex(v).len() < 4 {
        lemma_leading_zeros((4 - hex(v).len()) as nat, hex(v));
    }
}

/// Padding puts spaces on one side until the column is full, and changes nothing in a text that
/// fills it already.
pub proof fn padding_fills_the_column(s: Seq<char>, width: nat)
    ensures
        s.len() >= width ==> pad_left(s, width) == s && pad_right(s, width) == s,
        s.len() < width ==> {
            let gap = width - s.len();
            &&& pad_left(s, width).len() == width && pad_right(s, width).len() == width
            &&& pad_left(s, width).skip(gap) == s && pad_right(s, width).take(s.len() as int) == s
            &&& forall|i: int| 0 <= i < gap ==> #[trigger] pad_left(s, width)[i] == ' '
            &&& forall|i: int| s.len() <= i < width ==> #[trigger] pad_right(s, width)[i] == ' '
        },
{
    if s.len() < width {
        assert(pad_left(s, width).skip(width - s.len()) =~= s);
        assert(pad_right(s, width).take(s.len() as int) =~= s);
    }
}

} // verus!
