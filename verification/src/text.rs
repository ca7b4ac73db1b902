//! Character-level text handling shared by the rest of the library.

use vstd::prelude::*;

verus! {

/// The Unicode `White_Space` property, as `char::is_whitespace` documents it.
pub open spec fn white_space_spec(c: char) -> bool {
    let u = c as u32;
    ||| (0x09 <= u && u <= 0x0D)
    ||| u == 0x20
    ||| u == 0x85
    ||| u == 0xA0
    ||| u == 0x1680
    ||| (0x2000 <= u && u <= 0x200A)
    ||| u == 0x2028
    ||| u == 0x2029
    ||| u == 0x202F
    ||| u == 0x205F
    ||| u == 0x3000
}

/// Whether `c` is white space in the Unicode sense.
pub fn is_white_space(c: char) -> (r: bool)
    ensures
        r == white_space_spec(c),
{
    let u = c as u32;
    (0x09 <= u && u <= 0x0D) || u == 0x20 || u == 0x85 || u == 0xA0 || u == 0x1680 || (0x2000
        <= u && u <= 0x200A) || u == 0x2028 || u == 0x2029 || u == 0x202F || u == 0x205F || u
        == 0x3000
}

/// The characters of `s`, in order.
pub fn chars_of(s: &str) -> (v: Vec<char>)
    ensures
        v@ == s@,
{
    let mut v: Vec<char> = Vec::new();
    for c in it: s.chars()
        invariant
            v@ == it.seq().take(it.index() as int),
    {
        v.push(c);
    }
    v
}


/// `s` without its leading white space.
pub open spec fn trim_start_spec(s: Seq<char>) -> Seq<char>
    decreases s.len(),
{
    if s.len() > 0 && white_space_spec(s[0]) {
        trim_start_spec(s.drop_first())
    } else {
        s
    }
}

/// `s` without its trailing white space.
pub open spec fn trim_end_spec(s: Seq<char>) -> Seq<char>
    decreases s.len(),
{
    if s.len() > 0 && white_space_spec(s.last()) {
        trim_end_spec(s.drop_last())
    } else {
        s
    }
}

/// `s` without leading and trailing white space, as `str::trim` returns it.
pub open spec fn trim_spec(s: Seq<char>) -> Seq<char> {
    trim_end_spec(trim_start_spec(s))
}

/// The bounds of `chars[lo..hi]` once its leading and trailing white space is cut off.
pub fn trim_bounds(chars: &Vec<char>, lo: usize, hi: usize) -> (r: (usize, usize))
    requires
        lo <= hi <= chars@.len(),
    ensures
        lo <= r.0 <= r.1 <= hi,
        chars@.subrange(r.0 as int, r.1 as int) == trim_spec(chars@.subrange(lo as int, hi as int)),
{
    let mut a = lo;
    while a < hi && is_white_space(chars[a])
        invariant
            lo <= a <= hi <= chars@.len(),
            trim_start_spec(chars@.subrange(a as int, hi as int)) == trim_start_spec(
                chars@.subrange(lo as int, hi as int),
            ),
        decreases hi - a,
    {
        assert(chars@.subrange(a as int, hi as int).drop_first() =~= chars@.subrange(
            a + 1,
            hi as int,
        ));
        a = a + 1;
    }
    assert(trim_start_spec(chars@.subrange(a as int, hi as int)) == chars@.subrange(
        a as int,
        hi as int,
    ));
    let mut b = hi;
    while b > a && is_white_space(chars[b - 1])
        invariant
            lo <= a <= b <= hi <= chars@.len(),
            trim_end_spec(chars@.subrange(a as int, b as int)) == trim_spec(
                chars@.subrange(lo as int, hi as int),
            ),
        decreases b - a,
    {
        assert(chars@.subrange(a as int, b as int).drop_last() =~= chars@.subrange(
            a as int,
            b - 1,
        ));
        b = b - 1;
    }
    (a, b)
}

/// Whether `c` is one of the ASCII digits `0` to `9`.
pub open spec fn digit_spec(c: char) -> bool {
    48 <= (c as u32) && (c as u32) <= 57
}

/// The number that the decimal digits `s` denote (`0` for no digits).
pub open spec fn digits_value(s: Seq<char>) -> nat
    decreases s.len(),
{
    if s.len() == 0 {
        0
    } else {
        digits_value(s.drop_last()) * 10 + ((s.last() as u32) - 48) as nat
    }
}

/// Whether every character of `s` is a decimal digit.
pub open spec fn all_digits(s: Seq<char>) -> bool {
    forall|i: int| 0 <= i < s.len() ==> #[trigger] digit_spec(s[i])
}

/// What `u32::from_str` gives for `s`: an optional `+`, then one or more
/// decimal digits whose value fits in a `u32`; `None` for any other text.
pub open spec fn parse_u32_spec(s: Seq<char>) -> Option<u32> {
    let ds = if s.len() > 0 && s[0] == '+' {
        s.drop_first()
    } else {
        s
    };
    if ds.len() > 0 && all_digits(ds) && digits_value(ds) <= u32::MAX {
        Some(digits_value(ds) as u32)
    } else {
        None
    }
}

proof fn lemma_digits_value_grows(s: Seq<char>, i: int)
    requires
        0 <= i <= s.len(),
        all_digits(s),
    ensures
        digits_value(s.take(i)) <= digits_value(s),
    decreases s.len() - i,
{
    if i < s.len() {
        lemma_digits_value_grows(s, i + 1);
        assert(s.take(i + 1).drop_last() =~= s.take(i));
    } else {
        assert(s.take(i) =~= s);
    }
}

/// Reads `chars[lo..hi]` as `u32::from_str` does.
pub fn parse_u32_range(chars: &Vec<char>, lo: usize, hi: usize) -> (r: Option<u32>)
    requires
        lo <= hi <= chars@.len(),
    ensures
        r == parse_u32_spec(chars@.subrange(lo as int, hi as int)),
{
    let ghost s = chars@.subrange(lo as int, hi as int);
    let mut start = lo;
    if lo < hi && chars[lo] == '+' {
        start = lo + 1;
    }
    let ghost ds = chars@.subrange(start as int, hi as int);
    assert(ds =~= (if s.len() > 0 && s[0] == '+' {
        s.drop_first()
    } else {
        s
    }));
    if start == hi {
        return None;
    }
    let mut acc: u64 = 0;
    let mut i = start;
    while i < hi
        invariant
            lo <= start <= i <= hi <= chars@.len(),
            ds == chars@.subrange(start as int, hi as int),
            ds.len() > 0,
            parse_u32_spec(chars@.subrange(lo as int, hi as int)) == (if all_digits(ds)
                && digits_value(ds) <= u32::MAX {
                Some(digits_value(ds) as u32)
            } else {
                None
            }),
            acc == digits_value(ds.take(i - start)),
            acc <= u32::MAX,
            all_digits(ds.take(i - start)),
        decreases hi - i,
    {
        let c = chars[i];
        let u = c as u32;
        assert(ds[i - start] == c);
        if u < 48 || u > 57 {
            assert(!digit_spec(ds[i - start]));
            return None;
        }
        assert(ds.take(i - start + 1).drop_last() =~= ds.take(i - start));
        assert(ds.take(i - start + 1).last() == c);
        acc = acc * 10 + (u - 48) as u64;
        i = i + 1;
        assert(all_digits(ds.take(i - start)));
        if acc > 0xFFFF_FFFF {
            assert(!all_digits(ds) || digits_value(ds) > u32::MAX) by {
                if all_digits(ds) {
                    lemma_digits_value_grows(ds, i - start);
                }
            }
            return None;
        }
    }
    assert(ds.take(i - start) =~= ds);
    Some(acc as u32)
}


/// The decimal digit character for `d` (`d < 10`).
pub open spec fn digit_char(d: nat) -> char {
    (d + 48) as char
}

/// The decimal representation of `n`, without sign or leading zeros, as `Display` writes it.
pub open spec fn decimal_spec(n: nat) -> Seq<char>
    decreases n,
{
    if n < 10 {
        seq![digit_char(n)]
    } else {
        decimal_spec(n / 10).push(digit_char(n % 10))
    }
}

fn digit_str(d: u64) -> (r: &'static str)
    requires
        d < 10,
    ensures
        r@ == seq![digit_char(d as nat)],
{
    proof {
        reveal_strlit("0");
        reveal_strlit("1");
        reveal_strlit("2");
        reveal_strlit("3");
        reveal_strlit("4");
        reveal_strlit("5");
        reveal_strlit("6");
        reveal_strlit("7");
        reveal_strlit("8");
        reveal_strlit("9");
    }
    if d == 0 {
        "0"
    } else if d == 1 {
        "1"
    } else if d == 2 {
        "2"
    } else if d == 3 {
        "3"
    } else if d == 4 {
        "4"
    } else if d == 5 {
        "5"
    } else if d == 6 {
        "6"
    } else if d == 7 {
        "7"
    } else if d == 8 {
        "8"
    } else {
        "9"
    }
}

/// Appends the decimal representation of `n` to `s`.
pub fn push_decimal(s: &mut String, n: u64)
    ensures
        final(s)@ == old(s)@ + decimal_spec(n as nat),
    decreases n,
{
    if n >= 10 {
        push_decimal(s, n / 10);
    }
    s.append(digit_str(n % 10));
    assert(decimal_spec(n as nat) == if n < 10 {
        seq![digit_char(n as nat)]
    } else {
        decimal_spec((n / 10) as nat).push(digit_char((n % 10) as nat))
    });
}

/// One step of splitting on white space: the words finished so far and the word in progress.
pub open spec fn word_scan(s: Seq<char>) -> (Seq<Seq<char>>, Seq<char>)
    decreases s.len(),
{
    if s.len() == 0 {
        (seq![], seq![])
    } else {
        let (done, cur) = word_scan(s.drop_last());
        if white_space_spec(s.last()) {
            if cur.len() > 0 {
                (done.push(cur), seq![])
            } else {
                (done, cur)
            }
        } else {
            (done, cur.push(s.last()))
        }
    }
}

/// The maximal runs of non-white-space characters of `s`, in order, as
/// `str::split_whitespace` yields them.
pub open spec fn words_spec(s: Seq<char>) -> Seq<Seq<char>> {
    let (done, cur) = word_scan(s);
    if cur.len() > 0 {
        done.push(cur)
    } else {
        done
    }
}

/// Splits `s` at white space, dropping empty pieces.
pub fn split_white_space(s: &str) -> (r: Vec<String>)
    ensures
        r@.len() == words_spec(s@).len(),
        forall|k: int| 0 <= k < r@.len() ==> #[trigger] r@[k]@ == words_spec(s@)[k],
{
    let chars = chars_of(s);
    let n = chars.len();
    let mut words: Vec<String> = Vec::new();
    let mut start: usize = 0;
    let mut i: usize = 0;
    while i < n
        invariant
            n == chars@.len(),
            chars@ == s@,
            start <= i <= n,
            word_scan(chars@.take(i as int)).1 == chars@.subrange(start as int, i as int),
            words@.len() == word_scan(chars@.take(i as int)).0.len(),
            forall|k: int|
                0 <= k < words@.len() ==> #[trigger] words@[k]@ == word_scan(
                    chars@.take(i as int),
                ).0[k],
        decreases n - i,
    {
        let ghost before = chars@.take(i as int);
        assert(chars@.take(i + 1).drop_last() =~= before);
        assert(chars@.take(i + 1).last() == chars@[i as int]);
        if is_white_space(chars[i]) {
            if start < i {
                let w = s.substring_char(start, i);
                words.push(String::from_str(w));
            }
            start = i + 1;
        } else {
            assert(chars@.subrange(start as int, i + 1) =~= chars@.subrange(
                start as int,
                i as int,
            ).push(chars@[i as int]));
        }
        i = i + 1;
    }
    assert(chars@.take(n as int) =~= chars@);
    if start < n {
        let w = s.substring_char(start, n);
        words.push(String::from_str(w));
    }
    words
}

/// One step of splitting at `\n`: the lines finished so far and the line in progress.
pub open spec fn line_scan(s: Seq<char>) -> (Seq<Seq<char>>, Seq<char>)
    decreases s.len(),
{
    if s.len() == 0 {
        (seq![], seq![])
    } else {
        let (done, cur) = line_scan(s.drop_last());
        if s.last() == '\n' {
            (done.push(cur), seq![])
        } else {
            (done, cur.push(s.last()))
        }
    }
}

/// The pieces of `s` between `\n` characters (one more piece than there are `\n`).
pub open spec fn lines_spec(s: Seq<char>) -> Seq<Seq<char>> {
    line_scan(s).0.push(line_scan(s).1)
}


proof fn lemma_digit_char(d: nat)
    requires
        d < 10,
    ensures
        digit_char(d) as u32 == d + 48,
        digit_spec(digit_char(d)),
{
}

proof fn lemma_decimal_digits(n: nat)
    ensures
        decimal_spec(n).len() > 0,
        all_digits(decimal_spec(n)),
        digits_value(decimal_spec(n)) == n,
    decreases n,
{
    lemma_digit_char(n % 10);
    if n >= 10 {
        lemma_decimal_digits(n / 10);
        let d = decimal_spec(n);
        assert(d.drop_last() =~= decimal_spec(n / 10));
        assert(d.last() == digit_char(n % 10));
        assert(n == (n / 10) * 10 + n % 10);
        assert(digits_value(d) == digits_value(d.drop_last()) * 10 + ((d.last() as u32) - 48) as nat);
        assert(all_digits(d)) by {
            assert forall|i: int| 0 <= i < d.len() implies #[trigger] digit_spec(d[i]) by {
                if i < d.len() - 1 {
                    assert(d[i] == decimal_spec(n / 10)[i]);
                }
            }
        }
    } else {
        let d = seq![digit_char(n)];
        assert(d.drop_last() =~= Seq::<char>::empty());
        assert(d.last() == digit_char(n));
        assert(digits_value(d) == digits_value(d.drop_last()) * 10 + ((d.last() as u32) - 48) as nat);
        assert(decimal_spec(n) == d);
    }
}

/// Reading back what was written: the decimal text of any `u32` parses to that same number.
pub proof fn decimal_parses_back(n: u32)
    ensures
        parse_u32_spec(decimal_spec(n as nat)) == Some(n),
{
    lemma_decimal_digits(n as nat);
    let d = decimal_spec(n as nat);
    assert(digit_spec(d[0]));
}

proof fn lemma_word_scan_shape(s: Seq<char>)
    ensures
        forall|k: int|
            0 <= k < word_scan(s).0.len() ==> (#[trigger] word_scan(s).0[k]).len() > 0,
        forall|k: int, j: int|
            0 <= k < word_scan(s).0.len() && 0 <= j < word_scan(s).0[k].len()
                ==> !white_space_spec(#[trigger] word_scan(s).0[k][j]),
        forall|j: int|
            0 <= j < word_scan(s).1.len() ==> !white_space_spec(#[trigger] word_scan(s).1[j]),
    decreases s.len(),
{
    if s.len() > 0 {
        lemma_word_scan_shape(s.drop_last());
        let (done, cur) = word_scan(s.drop_last());
        let c = s.last();
        if !white_space_spec(c) {
            assert forall|j: int| 0 <= j < cur.push(c).len() implies !white_space_spec(
                #[trigger] cur.push(c)[j],
            ) by {
                if j < cur.len() {
                    assert(cur.push(c)[j] == cur[j]);
                }
            }
        } else if cur.len() > 0 {
            assert forall|k: int| 0 <= k < done.push(cur).len() implies (#[trigger] done.push(
                cur,
            )[k]).len() > 0 by {
                if k < done.len() {
                    assert(done.push(cur)[k] == done[k]);
                }
            }
            assert forall|k: int, j: int|
                0 <= k < done.push(cur).len() && 0 <= j < done.push(cur)[k].len()
                    implies !white_space_spec(#[trigger] done.push(cur)[k][j]) by {
                if k < done.len() {
                    assert(done.push(cur)[k] == done[k]);
                }
            }
        }
    }
}

/// Every piece that splitting at white space yields is non-empty and holds no white space.
pub proof fn words_are_nonempty_and_blank_free(s: Seq<char>)
    ensures
        forall|k: int| 0 <= k < words_spec(s).len() ==> (#[trigger] words_spec(s)[k]).len() > 0,
        forall|k: int, j: int|
            0 <= k < words_spec(s).len() && 0 <= j < words_spec(s)[k].len() ==> !white_space_spec(
                #[trigger] words_spec(s)[k][j],
            ),
{
    lemma_word_scan_shape(s);
}

} // verus!
