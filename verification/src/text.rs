//! Text primitives over the character view of strings: substring search,
//! splitting on a character, dropping a character, and decimal numbers.

use vstd::prelude::*;

verus! {

// ---------------------------------------------------------------------------
// Substring search
// ---------------------------------------------------------------------------

/// `pat` occurs in `s` starting at character position `i`.
pub open spec fn occurs_at(s: Seq<char>, pat: Seq<char>, i: int) -> bool {
    &&& 0 <= i
    &&& i + pat.len() <= s.len()
    &&& s.subrange(i, i + pat.len()) == pat
}

/// `pat` occurs somewhere in `s` (what `str::contains` answers).
pub open spec fn contains_seq(s: Seq<char>, pat: Seq<char>) -> bool {
    exists|i: int| #[trigger] occurs_at(s, pat, i)
}

/// The characters of `s`, one by one.
pub fn chars_of(s: &str) -> (v: Vec<char>)
    ensures
        v@ == s@,
{
    broadcast use vstd::string::group_string_axioms;

    let mut v: Vec<char> = Vec::new();
    for c in it: s.chars()
        invariant
            v@ == it.seq().take(it.index() as int),
    {
        v.push(c);
    }
    v
}

/// Whether `pat` occurs at position `i` of `hs`.
fn matches_at(hs: &Vec<char>, p: &Vec<char>, i: usize) -> (r: bool)
    requires
        i + p.len() <= hs.len(),
    ensures
        r == occurs_at(hs@, p@, i as int),
{
    let mut j: usize = 0;
    while j < p.len()
        invariant
            i + p.len() <= hs.len(),
            j <= p@.len(),
            forall|t: int| 0 <= t < j ==> hs@[i + t] == p@[t],
        decreases p@.len() - j,
    {
        if hs[i + j] != p[j] {
            assert(hs@.subrange(i as int, i + p@.len())[j as int] != p@[j as int]);
            return false;
        }
        j += 1;
    }
    assert(hs@.subrange(i as int, i + p@.len()) =~= p@);
    true
}

/// Whether `p` occurs in `hs`.
fn contains_chars(hs: &Vec<char>, p: &Vec<char>) -> (r: bool)
    ensures
        r == contains_seq(hs@, p@),
{
    if p.len() > hs.len() {
        assert forall|k: int| !occurs_at(hs@, p@, k) by {}
        return false;
    }
    let last = hs.len() - p.len();
    let mut i: usize = 0;
    loop
        invariant
            last == hs@.len() - p@.len(),
            i <= last,
            forall|k: int| 0 <= k < i ==> !#[trigger] occurs_at(hs@, p@, k),
        decreases last - i,
    {
        if matches_at(hs, p, i) {
            return true;
        }
        if i == last {
            assert forall|k: int| !#[trigger] occurs_at(hs@, p@, k) by {
                if 0 <= k <= last {
                    assert(k < i || k == i);
                }
            }
            return false;
        }
        i += 1;
    }
}

/// Whether `pat` occurs in `s`.
pub fn contains(s: &str, pat: &str) -> (r: bool)
    ensures
        r == contains_seq(s@, pat@),
{
    let hs = chars_of(s);
    let p = chars_of(pat);
    contains_chars(&hs, &p)
}

// ---------------------------------------------------------------------------
// Splitting on a character, and dropping a character
// ---------------------------------------------------------------------------

/// The pieces of `s` between occurrences of `c`, in order: what
/// `str::split(c)` yields. There is always at least one piece.
pub open spec fn split_char(s: Seq<char>, c: char) -> Seq<Seq<char>>
    decreases s.len(),
{
    if s.len() == 0 {
        seq![Seq::<char>::empty()]
    } else {
        let prev = split_char(s.drop_last(), c);
        if s.last() == c {
            prev.push(Seq::<char>::empty())
        } else {
            prev.update(prev.len() - 1, prev.last().push(s.last()))
        }
    }
}

/// `s` with every occurrence of `c` removed: what `str::replace` answers when
/// the pattern is the one-character string of `c` and the replacement is empty.
pub open spec fn remove_char(s: Seq<char>, c: char) -> Seq<char>
    decreases s.len(),
{
    if s.len() == 0 {
        s
    } else {
        let rest = remove_char(s.drop_last(), c);
        if s.last() == c {
            rest
        } else {
            rest.push(s.last())
        }
    }
}

/// Removing `c` leaves no `c`, keeps every other character in order (a
/// text free of `c` comes back unchanged), and never lengthens the text.
pub proof fn law_remove_char(s: Seq<char>, c: char)
    ensures
        forall|i: int| 0 <= i < remove_char(s, c).len() ==> #[trigger] remove_char(s, c)[i] != c,
        (forall|i: int| 0 <= i < s.len() ==> s[i] != c) ==> remove_char(s, c) == s,
        remove_char(s, c).len() <= s.len(),
    decreases s.len(),
{
    if s.len() > 0 {
        law_remove_char(s.drop_last(), c);
        if forall|i: int| 0 <= i < s.len() ==> s[i] != c {
            assert forall|i: int| 0 <= i < s.drop_last().len() implies s.drop_last()[i] != c by {
                assert(s.drop_last()[i] == s[i]);
            }
            assert(s.last() != c);
            assert(remove_char(s, c) =~= s.drop_last().push(s.last()));
        }
    }
}

/// Removing `c` from two texts joined is removing it from each.
pub proof fn law_remove_char_concat(a: Seq<char>, b: Seq<char>, c: char)
    ensures
        remove_char(a + b, c) == remove_char(a, c) + remove_char(b, c),
    decreases b.len(),
{
    if b.len() == 0 {
        assert(a + b =~= a);
        assert(remove_char(a, c) + remove_char(b, c) =~= remove_char(a, c));
    } else {
        law_remove_char_concat(a, b.drop_last(), c);
        assert((a + b).drop_last() =~= a + b.drop_last());
        assert((a + b).last() == b.last());
        if b.last() == c {
        } else {
            assert(remove_char(a, c) + remove_char(b, c) =~= (remove_char(a, c) + remove_char(
                b.drop_last(),
                c,
            )).push(b.last()));
        }
    }
}

/// Splitting always yields at least one piece.
pub proof fn lemma_split_nonempty(s: Seq<char>, c: char)
    ensures
        split_char(s, c).len() >= 1,
    decreases s.len(),
{
    if s.len() > 0 {
        lemma_split_nonempty(s.drop_last(), c);
    }
}

/// Splitting `a`, a separator, then a piece `b` free of separators gives
/// the pieces of `a` followed by `b`.
pub proof fn lemma_split_append_piece(a: Seq<char>, c: char, b: Seq<char>)
    requires
        forall|i: int| 0 <= i < b.len() ==> b[i] != c,
    ensures
        split_char(a.push(c) + b, c) == split_char(a, c).push(b),
    decreases b.len(),
{
    lemma_split_nonempty(a, c);
    if b.len() == 0 {
        assert(a.push(c) + b =~= a.push(c));
        assert((a.push(c)).drop_last() =~= a);
        assert(split_char(a.push(c) + b, c) =~~= split_char(a, c).push(b));
    } else {
        let s = a.push(c) + b;
        let b0 = b.drop_last();
        lemma_split_append_piece(a, c, b0);
        assert(s.drop_last() =~= a.push(c) + b0);
        assert(s.last() == b.last());
        assert(b0.push(b.last()) =~= b);
        assert(split_char(s, c) =~~= split_char(a, c).push(b));
    }
}

/// A text free of separators is a single piece.
pub proof fn lemma_split_single_piece(b: Seq<char>, c: char)
    requires
        forall|i: int| 0 <= i < b.len() ==> b[i] != c,
    ensures
        split_char(b, c) == seq![b],
    decreases b.len(),
{
    if b.len() > 0 {
        lemma_split_single_piece(b.drop_last(), c);
        assert(b.drop_last().push(b.last()) =~= b);
        assert(split_char(b, c) =~~= seq![b]);
    } else {
        assert(split_char(b, c) =~~= seq![b]);
    }
}

/// The first piece of a split is the text up to the first separator: all of
/// it where there is no separator.
pub proof fn lemma_split_first_piece(s: Seq<char>, c: char)
    ensures
        split_char(s, c).len() >= 1,
        split_char(s, c)[0].len() <= s.len(),
        s.take(split_char(s, c)[0].len() as int) == split_char(s, c)[0],
        split_char(s, c).len() == 1 ==> split_char(s, c)[0] == s,
        split_char(s, c).len() >= 2 ==> split_char(s, c)[0].len() < s.len() && s[split_char(
            s,
            c,
        )[0].len() as int] == c,
    decreases s.len(),
{
    if s.len() == 0 {
        assert(s.take(0) =~= Seq::<char>::empty());
    } else {
        let t = s.drop_last();
        lemma_split_first_piece(t, c);
        lemma_split_nonempty(t, c);
        let p0 = split_char(t, c)[0];
        assert(t.take(p0.len() as int) =~= s.take(p0.len() as int));
        if s.last() == c {
            assert(split_char(s, c)[0] == p0);
            if split_char(t, c).len() == 1 {
                assert(p0 == t);
                assert(s[t.len() as int] == c);
            }
        } else {
            if split_char(t, c).len() == 1 {
                assert(p0 == t);
                assert(t.push(s.last()) =~= s);
                assert(split_char(s, c)[0] == s);
                assert(s.take(s.len() as int) =~= s);
            } else {
                assert(split_char(s, c)[0] == p0);
            }
        }
    }
}

/// The owned string holding the characters `from..to` of `s`.
fn piece(s: &str, from: usize, to: usize) -> (r: String)
    requires
        from <= to <= s@.len(),
    ensures
        r@ == s@.subrange(from as int, to as int),
{
    String::from_str(s.substring_char(from, to))
}

/// The pieces of `s` between occurrences of `c`, as `str::split(c)` gives them.
pub fn split_on(s: &str, c: char) -> (r: Vec<String>)
    ensures
        r.deep_view() == split_char(s@, c),
        r@.len() >= 1,
{
    let v = chars_of(s);
    let mut pieces: Vec<String> = Vec::new();
    let mut start: usize = 0;
    let mut i: usize = 0;
    assert(pieces.deep_view().push(s@.subrange(0, 0)) =~~= split_char(s@.take(0), c));
    while i < v.len()
        invariant
            v@ == s@,
            start <= i <= v@.len(),
            pieces.deep_view().push(s@.subrange(start as int, i as int)) == split_char(
                s@.take(i as int),
                c,
            ),
        decreases v@.len() - i,
    {
        let ghost before = pieces.deep_view();
        assert(s@.take(i + 1).drop_last() =~= s@.take(i as int));
        assert(s@.take(i + 1).last() == s@[i as int]);
        if v[i] == c {
            let ghost old_start = start;
            let p = piece(s, start, i);
            pieces.push(p);
            start = i + 1;
            assert(pieces.deep_view() =~= before.push(s@.subrange(old_start as int, i as int)));
            assert(s@.subrange(start as int, (i + 1) as int) =~= Seq::<char>::empty());
        } else {
            assert(s@.subrange(start as int, (i + 1) as int) =~= s@.subrange(
                start as int,
                i as int,
            ).push(s@[i as int]));
        }
        i += 1;
        assert(pieces.deep_view().push(s@.subrange(start as int, i as int)) =~= split_char(
            s@.take(i as int),
            c,
        ));
    }
    let ghost before = pieces.deep_view();
    let last = piece(s, start, v.len());
    pieces.push(last);
    assert(s@.take(v@.len() as int) =~= s@);
    assert(pieces.deep_view() =~= before.push(s@.subrange(start as int, v@.len() as int)));
    pieces
}

/// `s` without any occurrence of `c`.
pub fn without_char(s: &str, c: char) -> (r: String)
    ensures
        r@ == remove_char(s@, c),
{
    let v = chars_of(s);
    let mut r = String::new();
    let mut i: usize = 0;
    while i < v.len()
        invariant
            v@ == s@,
            i <= v@.len(),
            r@ == remove_char(s@.take(i as int), c),
        decreases v@.len() - i,
    {
        assert(s@.take(i + 1).drop_last() =~= s@.take(i as int));
        assert(s@.take(i + 1).last() == s@[i as int]);
        if v[i] != c {
            let one = s.substring_char(i, i + 1);
            assert(one@ =~= seq![s@[i as int]]);
            r.append(one);
        }
        i += 1;
    }
    assert(s@.take(v@.len() as int) =~= s@);
    r
}

// ---------------------------------------------------------------------------
// Decimal numbers
// ---------------------------------------------------------------------------

/// An ASCII decimal digit.
pub open spec fn is_digit(c: char) -> bool {
    '0' <= c && c <= '9'
}

/// The value of a decimal digit.
pub open spec fn digit_value(c: char) -> int {
    (c as int) - ('0' as int)
}

/// Every character of `s` is a decimal digit.
pub open spec fn all_digits(s: Seq<char>) -> bool {
    forall|i: int| 0 <= i < s.len() ==> is_digit(#[trigger] s[i])
}

/// The number that the digits `s` spell, most significant first.
pub open spec fn decimal_value(s: Seq<char>) -> int
    decreases s.len(),
{
    if s.len() == 0 {
        0
    } else {
        decimal_value(s.drop_last()) * 10 + digit_value(s.last())
    }
}

/// What `str::parse::<u32>` gives for `s`: an optional `+`, then one or more
/// decimal digits whose value fits in 32 bits; anything else is refused.
pub open spec fn parse_u32_spec(s: Seq<char>) -> Option<u32> {
    let d = if s.len() > 0 && s[0] == '+' {
        s.drop_first()
    } else {
        s
    };
    if d.len() > 0 && all_digits(d) && decimal_value(d) <= u32::MAX {
        Some(decimal_value(d) as u32)
    } else {
        None
    }
}

/// The digit character for `d` (`0 <= d < 10`).
pub open spec fn digit_char(d: int) -> char {
    if d == 0 {
        '0'
    } else if d == 1 {
        '1'
    } else if d == 2 {
        '2'
    } else if d == 3 {
        '3'
    } else if d == 4 {
        '4'
    } else if d == 5 {
        '5'
    } else if d == 6 {
        '6'
    } else if d == 7 {
        '7'
    } else if d == 8 {
        '8'
    } else {
        '9'
    }
}

/// The decimal spelling of `n`, without sign or leading zeros: what
/// `u32::to_string` and `{}` formatting give.
pub open spec fn decimal_of(n: nat) -> Seq<char>
    decreases n,
{
    if n < 10 {
        seq![digit_char(n as int)]
    } else {
        decimal_of(n / 10).push(digit_char((n % 10) as int))
    }
}

/// The digit characters spell their values.
pub proof fn lemma_digit_char(d: int)
    requires
        0 <= d < 10,
    ensures
        is_digit(digit_char(d)),
        digit_value(digit_char(d)) == d,
        digit_char(d) != '+',
{
}

/// A string of digits spells a number that is not negative.
pub proof fn lemma_decimal_value_nonneg(s: Seq<char>)
    requires
        all_digits(s),
    ensures
        decimal_value(s) >= 0,
    decreases s.len(),
{
    if s.len() > 0 {
        lemma_decimal_value_nonneg(s.drop_last());
    }
}

/// A prefix of a digit string never spells more than the whole string.
pub proof fn lemma_decimal_prefix_le(s: Seq<char>, j: int)
    requires
        all_digits(s),
        0 <= j <= s.len(),
    ensures
        decimal_value(s.take(j)) <= decimal_value(s),
    decreases s.len(),
{
    if j < s.len() {
        let t = s.drop_last();
        assert(all_digits(t));
        lemma_decimal_prefix_le(t, j);
        assert(t.take(j) =~= s.take(j));
        lemma_decimal_value_nonneg(t);
        assert(is_digit(s[s.len() - 1]));
    } else {
        assert(s.take(j) =~= s);
    }
}

/// The decimal spelling of a number is a non-empty digit string that spells it.
pub proof fn lemma_decimal_of_spells(n: nat)
    ensures
        decimal_of(n).len() >= 1,
        all_digits(decimal_of(n)),
        decimal_value(decimal_of(n)) == n,
        decimal_of(n)[0] != '+',
    decreases n,
{
    if n < 10 {
        lemma_digit_char(n as int);
        assert(decimal_of(n).drop_last() =~= Seq::<char>::empty());
        assert(decimal_value(Seq::<char>::empty()) == 0);
    } else {
        lemma_digit_char((n % 10) as int);
        lemma_decimal_of_spells(n / 10);
        let s = decimal_of(n);
        assert(s.drop_last() =~= decimal_of(n / 10));
        assert forall|i: int| 0 <= i < s.len() implies is_digit(#[trigger] s[i]) by {
            if i < s.len() - 1 {
                assert(s[i] == decimal_of(n / 10)[i]);
            }
        }
    }
}

/// Reading back the decimal spelling of a `u32` gives the number.
pub proof fn lemma_decimal_roundtrip(n: u32)
    ensures
        parse_u32_spec(decimal_of(n as nat)) == Some(n),
{
    lemma_decimal_of_spells(n as nat);
}

/// The one-character string of the digit `d`.
fn digit_str(d: u32) -> (r: &'static str)
    requires
        d < 10,
    ensures
        r@ == seq![digit_char(d as int)],
{
    if d == 0 {
        proof { reveal_strlit("0"); }
        "0"
    } else if d == 1 {
        proof { reveal_strlit("1"); }
        "1"
    } else if d == 2 {
        proof { reveal_strlit("2"); }
        "2"
    } else if d == 3 {
        proof { reveal_strlit("3"); }
        "3"
    } else if d == 4 {
        proof { reveal_strlit("4"); }
        "4"
    } else if d == 5 {
        proof { reveal_strlit("5"); }
        "5"
    } else if d == 6 {
        proof { reveal_strlit("6"); }
        "6"
    } else if d == 7 {
        proof { reveal_strlit("7"); }
        "7"
    } else if d == 8 {
        proof { reveal_strlit("8"); }
        "8"
    } else {
        proof { reveal_strlit("9"); }
        "9"
    }
}

/// The decimal spelling of `n`.
pub fn decimal_string(n: u32) -> (r: String)
    ensures
        r@ == decimal_of(n as nat),
    decreases n,
{
    if n < 10 {
        String::from_str(digit_str(n))
    } else {
        let mut r = decimal_string(n / 10);
        r.append(digit_str(n % 10));
        r
    }
}

/// Reads `s` as `str::parse::<u32>` does.
pub fn parse_u32(s: &str) -> (r: Option<u32>)
    ensures
        r == parse_u32_spec(s@),
{
    let v = chars_of(s);
    let n = v.len();
    let start: usize = if n > 0 && v[0] == '+' {
        1
    } else {
        0
    };
    let ghost d = if s@.len() > 0 && s@[0] == '+' {
        s@.drop_first()
    } else {
        s@
    };
    assert(d =~= s@.subrange(start as int, n as int));
    if start >= n {
        return None;
    }
    let mut acc: u64 = 0;
    let mut i: usize = start;
    while i < n
        invariant
            v@ == s@,
            n == v@.len(),
            start <= i <= n,
            d == s@.subrange(start as int, n as int),
            d == (if s@.len() > 0 && s@[0] == '+' {
                s@.drop_first()
            } else {
                s@
            }),
            all_digits(d.take(i - start)),
            acc == decimal_value(d.take(i - start)),
            acc <= u32::MAX,
        decreases n - i,
    {
        let c = v[i];
        assert(d[i - start] == c);
        if !(c >= '0' && c <= '9') {
            assert(!is_digit(d[i - start]));
            assert(!all_digits(d));
            assert(parse_u32_spec(s@) is None);
            return None;
        }
        let digit = (c as u32 - '0' as u32) as u64;
        let ghost prefix = d.take(i - start + 1);
        assert(prefix.drop_last() =~= d.take(i - start));
        assert(prefix.last() == c);
        acc = acc * 10 + digit;
        assert(acc == decimal_value(prefix));
        assert forall|k: int| 0 <= k < prefix.len() implies is_digit(#[trigger] prefix[k]) by {
            if k < prefix.len() - 1 {
                assert(prefix[k] == d.take(i - start)[k]);
            }
        }
        if acc > 0xffff_ffffu64 {
            proof {
                if all_digits(d) {
                    lemma_decimal_prefix_le(d, i - start + 1);
                    assert(decimal_value(d) > u32::MAX);
                }
                assert(parse_u32_spec(s@) is None);
            }
            return None;
        }
        i += 1;
    }
    assert(d.take(n - start) =~= d);
    Some(acc as u32)
}

} // verus!
