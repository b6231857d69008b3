//! Character-level helpers shared by the toolchain parsers and the
//! command-line builders: decimal parsing and formatting, splitting,
//! substring search, and trimming, all specified over `Seq<char>`.

use vstd::prelude::*;

verus! {

/// ASCII decimal digit.
pub open spec fn is_digit(c: char) -> bool {
    '0' <= c && c <= '9'
}

/// Numeric value of a decimal digit character.
pub open spec fn digit_val(c: char) -> nat {
    (c as nat - '0' as nat) as nat
}

/// The digit character for a value below ten.
pub open spec fn digit_char(d: nat) -> char {
    (('0' as u8) + d as u8) as char
}

/// Every character of `s` is a decimal digit and there is at least one.
pub open spec fn is_dec_str(s: Seq<char>) -> bool {
    s.len() > 0 && forall|i: int| 0 <= i < s.len() ==> is_digit(#[trigger] s[i])
}

/// Value of a digit string read as a base-ten number.
pub open spec fn dec_val(s: Seq<char>) -> nat
    decreases s.len(),
{
    if s.len() == 0 {
        0
    } else {
        dec_val(s.drop_last()) * 10 + digit_val(s.last())
    }
}

/// Whether an exec character is a decimal digit.
pub fn char_is_digit(c: char) -> (r: bool)
    ensures
        r == is_digit(c),
{
    c >= '0' && c <= '9'
}

/// A digit string is worth at least its prefix.
pub proof fn lemma_dec_val_prefix_le(s: Seq<char>, i: int)
    requires
        0 <= i <= s.len(),
    ensures
        dec_val(s.take(i)) <= dec_val(s),
    decreases s.len(),
{
    if i < s.len() {
        assert(s.drop_last().take(i) =~= s.take(i));
        lemma_dec_val_prefix_le(s.drop_last(), i);
        assert(dec_val(s) == dec_val(s.drop_last()) * 10 + digit_val(s.last()));
        assert(dec_val(s.drop_last()) * 10 >= dec_val(s.drop_last())) by (nonlinear_arith);
    } else {
        assert(s.take(i) =~= s);
    }
}

/// Parse a non-empty all-digit string as a `u64`; `None` when a character
/// is not a digit, the string is empty, or the value does not fit.
pub open spec fn spec_parse_u64(s: Seq<char>) -> Option<u64> {
    if is_dec_str(s) && dec_val(s) <= u64::MAX {
        Some(dec_val(s) as u64)
    } else {
        None
    }
}

/// Exec decimal parser matching `spec_parse_u64`.
pub fn parse_u64_dec(s: &str) -> (r: Option<u64>)
    ensures
        r == spec_parse_u64(s@),
{
    let n = s.unicode_len();
    if n == 0 {
        return None;
    }
    let mut val: u64 = 0;
    let mut i: usize = 0;
    while i < n
        invariant
            0 < n == s@.len(),
            0 <= i <= n,
            is_dec_str(s@.take(i as int)) || i == 0,
            forall|j: int| 0 <= j < i ==> is_digit(#[trigger] s@[j]),
            val == dec_val(s@.take(i as int)),
        decreases n - i,
    {
        let c = s.get_char(i);
        if !char_is_digit(c) {
            return None;
        }
        let d: u64 = (c as u32 as u64) - ('0' as u32 as u64);
        proof {
            assert(s@.take(i + 1).drop_last() =~= s@.take(i as int));
            assert(s@.take(i + 1).last() == s@[i as int]);
        }
        if val > (u64::MAX - d) / 10 {
            proof {
                assert(dec_val(s@.take(i + 1)) == val * 10 + d);
                assert(val * 10 + d > u64::MAX) by (nonlinear_arith)
                    requires
                        val > (u64::MAX - d) / 10,
                        d < 10,
                ;
                lemma_dec_val_prefix_le(s@, i + 1);
            }
            return None;
        }
        proof {
            assert(val * 10 + d <= u64::MAX) by (nonlinear_arith)
                requires
                    val <= (u64::MAX - d) / 10,
                    d < 10,
            ;
        }
        val = val * 10 + d;
        i = i + 1;
    }
    proof {
        assert(s@.take(n as int) =~= s@);
    }
    Some(val)
}

/// Decimal rendering of a number, most significant digit first.
pub open spec fn spec_dec(n: nat) -> Seq<char>
    decreases n,
{
    if n < 10 {
        seq![digit_char(n)]
    } else {
        spec_dec(n / 10).push(digit_char(n % 10))
    }
}

/// A digit character round-trips through its numeric value.
pub proof fn lemma_digit_char_val(d: nat)
    requires
        d < 10,
    ensures
        is_digit(digit_char(d)),
        digit_val(digit_char(d)) == d,
{
    assert((('0' as u8) + (d as u8)) < 128);
    assert(digit_char(d) as nat == '0' as nat + d);
}

/// Rendering a number yields only digit characters.
pub proof fn lemma_spec_dec_digits(n: nat)
    ensures
        is_dec_str(spec_dec(n)),
        dec_val(spec_dec(n)) == n,
    decreases n,
{
    if n < 10 {
        lemma_digit_char_val(n);
        assert(spec_dec(n) =~= seq![digit_char(n)]);
        assert(spec_dec(n).drop_last() =~= Seq::<char>::empty());
        assert(dec_val(spec_dec(n)) == dec_val(Seq::<char>::empty()) * 10 + digit_val(
            digit_char(n),
        ));
    } else {
        lemma_spec_dec_digits(n / 10);
        lemma_digit_char_val(n % 10);
        assert(spec_dec(n) == spec_dec(n / 10).push(digit_char(n % 10)));
        assert(spec_dec(n).drop_last() =~= spec_dec(n / 10));
        assert(spec_dec(n).last() == digit_char(n % 10));
        assert(dec_val(spec_dec(n)) == dec_val(spec_dec(n / 10)) * 10 + digit_val(
            digit_char(n % 10),
        ));
        assert(n / 10 * 10 + n % 10 == n);
        assert(forall|i: int|
            0 <= i < spec_dec(n).len() ==> is_digit(#[trigger] spec_dec(n)[i])) by {
            assert(forall|i: int|
                0 <= i < spec_dec(n / 10).len() ==> spec_dec(n)[i] == #[trigger] spec_dec(
                    n / 10,
                )[i]);
        }
    }
}

/// Formatting then parsing is the identity: the decimal rendering of a
/// value parses back to exactly that value.
pub proof fn lemma_dec_round_trip(n: u64)
    ensures
        spec_parse_u64(spec_dec(n as nat)) == Some(n),
{
    lemma_spec_dec_digits(n as nat);
}

/// The one-character string for a digit value.
pub fn digit_to_str(d: u8) -> (r: &'static str)
    requires
        d < 10,
    ensures
        r@ =~= seq![digit_char(d as nat)],
{
    proof {
        reveal_strlit("0");
        reveal_strlit("1");
        reveal_strlit("2");
        reveal_strlit("3");
        reveal_strlit("4");
        reveal_strlit("5");
        reveal_strlit("6");
        reveal_strlit("7");
        reveal_strlit("8");
        reveal_strlit("9");
    }
    match d {
        0 => "0",
        1 => "1",
        2 => "2",
        3 => "3",
        4 => "4",
        5 => "5",
        6 => "6",
        7 => "7",
        8 => "8",
        _ => "9",
    }
}

/// Append the decimal rendering of `n` to `out`.
pub fn push_u64_dec(out: &mut String, n: u64)
    ensures
        final(out)@ == old(out)@ + spec_dec(n as nat),
{
    let mut digits: Vec<u8> = Vec::new();
    let mut m: u64 = n;
    loop
        invariant_except_break
            spec_dec(n as nat) =~= spec_dec(m as nat) + Seq::new(
                digits@.len(),
                |i: int| digit_char(digits@[digits@.len() - 1 - i] as nat),
            ),
            forall|i: int| 0 <= i < digits@.len() ==> #[trigger] digits@[i] < 10,
        ensures
            spec_dec(n as nat) =~= Seq::new(
                digits@.len(),
                |i: int| digit_char(digits@[digits@.len() - 1 - i] as nat),
            ),
            forall|i: int| 0 <= i < digits@.len() ==> #[trigger] digits@[i] < 10,
        decreases m,
    {
        let d: u8 = (m % 10) as u8;
        let m2: u64 = m / 10;
        proof {
            let rev0 = Seq::new(digits@.len(), |i: int| digit_char(digits@[digits@.len() - 1 - i] as nat));
            let ds = digits@.push(d);
            let rev1 = Seq::new(ds.len(), |i: int| digit_char(ds[ds.len() - 1 - i] as nat));
            if m2 == 0 {
                assert(spec_dec(m as nat) =~= seq![digit_char(d as nat)]);
            } else {
                assert(spec_dec(m as nat) =~= spec_dec(m2 as nat).push(digit_char(d as nat)));
            }
            assert(rev1 =~= seq![digit_char(d as nat)] + rev0);
        }
        digits.push(d);
        m = m2;
        if m == 0 {
            break;
        }
    }
    let k = digits.len();
    let ghost target = spec_dec(n as nat);
    let mut j: usize = 0;
    while j < k
        invariant
            k == digits@.len(),
            0 <= j <= k,
            forall|i: int| 0 <= i < digits@.len() ==> #[trigger] digits@[i] < 10,
            target =~= Seq::new(
                digits@.len(),
                |i: int| digit_char(digits@[digits@.len() - 1 - i] as nat),
            ),
            out@ =~= old(out)@ + target.take(j as int),
        decreases k - j,
    {
        let d = digits[k - 1 - j];
        out.append(digit_to_str(d));
        proof {
            assert(target.take(j + 1) =~= target.take(j as int).push(digit_char(d as nat)));
        }
        j = j + 1;
    }
    proof {
        assert(target.take(k as int) =~= target);
    }
}

/// `s` left-padded with zero characters up to width `w`.
pub open spec fn spec_zero_pad(s: Seq<char>, w: nat) -> Seq<char> {
    if s.len() >= w {
        s
    } else {
        Seq::new((w - s.len()) as nat, |i: int| '0') + s
    }
}

/// Append the decimal rendering of `n`, zero-padded to at least `width`.
pub fn push_u64_dec_pad(out: &mut String, n: u64, width: usize)
    ensures
        final(out)@ == old(out)@ + spec_zero_pad(spec_dec(n as nat), width as nat),
{
    proof {
        reveal_strlit("0");
    }
    let mut t = String::new();
    push_u64_dec(&mut t, n);
    let len = t.as_str().unicode_len();
    let pad: usize = if len >= width {
        0
    } else {
        width - len
    };
    let mut j: usize = 0;
    while j < pad
        invariant
            0 <= j <= pad,
            out@ =~= old(out)@ + Seq::new(j as nat, |i: int| '0'),
        decreases pad - j,
    {
        out.append("0");
        proof {
            reveal_strlit("0");
            assert(Seq::new((j + 1) as nat, |i: int| '0') =~= Seq::new(j as nat, |i: int| '0')
                + "0"@);
        }
        j = j + 1;
    }
    out.append(t.as_str());
    proof {
        assert(final(out)@ =~= old(out)@ + spec_zero_pad(spec_dec(n as nat), width as nat));
    }
}

/// Milliseconds rendered as seconds with three decimal places,
/// the way the toolchain expects seek and duration arguments.
pub open spec fn spec_secs3(ms: nat) -> Seq<char> {
    spec_dec(ms / 1000) + seq!['.'] + spec_zero_pad(spec_dec(ms % 1000), 3)
}

/// Render a millisecond count as `seconds.mmm`.
pub fn ms_to_secs3(ms: u64) -> (r: String)
    ensures
        r@ == spec_secs3(ms as nat),
{
    proof {
        reveal_strlit(".");
    }
    let mut out = String::new();
    push_u64_dec(&mut out, ms / 1000);
    out.append(".");
    push_u64_dec_pad(&mut out, ms % 1000, 3);
    proof {
        assert(out@ =~= spec_secs3(ms as nat));
    }
    out
}

/// The decimal rendering of `n` as a fresh string.
pub fn u64_to_dec(n: u64) -> (r: String)
    ensures
        r@ == spec_dec(n as nat),
{
    let mut out = String::new();
    push_u64_dec(&mut out, n);
    out
}

/// Bounds on the value of short digit strings.
pub proof fn lemma_dec_val_small(s: Seq<char>)
    requires
        s.len() <= 3,
        forall|i: int| 0 <= i < s.len() ==> is_digit(#[trigger] s[i]),
    ensures
        s.len() <= 1 ==> dec_val(s) < 10,
        s.len() <= 2 ==> dec_val(s) < 100,
        dec_val(s) < 1000,
    decreases s.len(),
{
    if s.len() > 0 {
        lemma_dec_val_small(s.drop_last());
        assert(digit_val(s.last()) <= 9);
    }
}

/// Fields of `s` split on every occurrence of `sep`.
/// There is always at least one field; separators are not kept.
pub open spec fn spec_split(s: Seq<char>, sep: char) -> Seq<Seq<char>>
    decreases s.len(),
{
    if s.len() == 0 {
        seq![Seq::<char>::empty()]
    } else {
        let prev = spec_split(s.drop_last(), sep);
        if s.last() == sep {
            prev.push(Seq::<char>::empty())
        } else {
            prev.update(prev.len() - 1, prev.last().push(s.last()))
        }
    }
}

/// Splitting yields one field more than there are separators.
pub proof fn lemma_spec_split_len(s: Seq<char>, sep: char)
    ensures
        spec_split(s, sep).len() >= 1,
    decreases s.len(),
{
    if s.len() > 0 {
        lemma_spec_split_len(s.drop_last(), sep);
    }
}

/// Exec split matching `spec_split`.
pub fn split_str(s: &str, sep: char) -> (r: Vec<String>)
    ensures
        r.deep_view() == spec_split(s@, sep),
{
    let n = s.unicode_len();
    let mut out: Vec<String> = Vec::new();
    let mut start: usize = 0;
    let mut i: usize = 0;
    proof {
        assert(out.deep_view() =~= Seq::<Seq<char>>::empty());
        assert(s@.take(0) =~= Seq::<char>::empty());
        assert(s@.subrange(0, 0) =~= Seq::<char>::empty());
        assert(spec_split(s@.take(0), sep) =~= out.deep_view().push(s@.subrange(0, 0)));
    }
    while i < n
        invariant
            n == s@.len(),
            0 <= start <= i <= n,
            spec_split(s@.take(i as int), sep) =~= out.deep_view().push(
                s@.subrange(start as int, i as int),
            ),
        decreases n - i,
    {
        let c = s.get_char(i);
        proof {
            lemma_spec_split_len(s@.take(i as int), sep);
            assert(s@.take(i + 1).drop_last() =~= s@.take(i as int));
            assert(s@.take(i + 1).last() == s@[i as int]);
        }
        if c == sep {
            let field = s.substring_char(start, i).to_owned();
            let ghost dv0 = out.deep_view();
            out.push(field);
            proof {
                assert(out.deep_view() =~= dv0.push(s@.subrange(start as int, i as int)));
                assert(spec_split(s@.take(i + 1), sep) =~= out.deep_view().push(
                    Seq::<char>::empty(),
                ));
                assert(s@.subrange(i + 1, i + 1) =~= Seq::<char>::empty());
            }
            start = i + 1;
        } else {
            proof {
                let prev = out.deep_view().push(s@.subrange(start as int, i as int));
                assert(prev.last() == s@.subrange(start as int, i as int));
                assert(prev.last().push(s@[i as int]) =~= s@.subrange(start as int, i + 1));
                assert(spec_split(s@.take(i + 1), sep) =~= out.deep_view().push(
                    s@.subrange(start as int, i + 1),
                ));
            }
        }
        i = i + 1;
    }
    let last_field = s.substring_char(start, n).to_owned();
    proof {
        assert(s@.take(n as int) =~= s@);
    }
    let ghost dvf = out.deep_view();
    out.push(last_field);
    proof {
        assert(out.deep_view() =~= dvf.push(s@.subrange(start as int, n as int)));
        assert(out.deep_view() =~= spec_split(s@, sep));
    }
    out
}

/// The pattern occurs in `s` starting at position `i`.
pub open spec fn is_match_at(s: Seq<char>, pat: Seq<char>, i: int) -> bool {
    0 <= i && i + pat.len() <= s.len() && s.subrange(i, i + pat.len()) == pat
}

/// First match of `pat` in `s` at or after position `i`.
pub open spec fn spec_find_from(s: Seq<char>, pat: Seq<char>, i: int) -> Option<int>
    decreases s.len() - i,
{
    if i < 0 || i + pat.len() > s.len() {
        None
    } else if is_match_at(s, pat, i) {
        Some(i)
    } else if pat.len() == 0 {
        // never reached: an empty pattern matches everywhere
        None
    } else {
        spec_find_from(s, pat, i + 1)
    }
}

/// A found position really is a match position.
pub proof fn lemma_find_from_some(s: Seq<char>, pat: Seq<char>, i: int, j: int)
    requires
        spec_find_from(s, pat, i) == Some(j),
    ensures
        is_match_at(s, pat, j),
        i <= j,
    decreases s.len() - i,
{
    if i < 0 || i + pat.len() > s.len() {
    } else if is_match_at(s, pat, i) {
    } else if pat.len() == 0 {
    } else {
        lemma_find_from_some(s, pat, i + 1, j);
    }
}

/// Last match of `pat` in `s` at or before position `i`.
pub open spec fn spec_rfind_from(s: Seq<char>, pat: Seq<char>, i: int) -> Option<int>
    decreases i + 1,
{
    if i < 0 {
        None
    } else if is_match_at(s, pat, i) {
        Some(i)
    } else {
        spec_rfind_from(s, pat, i - 1)
    }
}

/// Whether `pat` occurs at position `i` of `s`.
pub fn match_at(s: &str, pat: &str, i: usize) -> (r: bool)
    requires
        i + pat@.len() <= s@.len(),
        s@.len() <= usize::MAX,
    ensures
        r == is_match_at(s@, pat@, i as int),
{
    let m = pat.unicode_len();
    let mut j: usize = 0;
    while j < m
        invariant
            m == pat@.len(),
            i + m <= s@.len(),
            s@.len() <= usize::MAX,
            0 <= j <= m,
            forall|k: int| 0 <= k < j ==> s@[i + k] == pat@[k],
        decreases m - j,
    {
        if s.get_char(i + j) != pat.get_char(j) {
            proof {
                assert(s@.subrange(i as int, i + m) != pat@) by {
                    assert(s@.subrange(i as int, i + m)[j as int] == s@[i + j]);
                }
            }
            return false;
        }
        j = j + 1;
    }
    proof {
        assert(s@.subrange(i as int, i + m) =~= pat@);
    }
    true
}

/// First occurrence of `pat` in `s`, if any.
pub fn find_sub(s: &str, pat: &str) -> (r: Option<usize>)
    ensures
        match r {
            Some(i) => spec_find_from(s@, pat@, 0) == Some(i as int),
            None => spec_find_from(s@, pat@, 0) is None,
        },
{
    let n = s.unicode_len();
    let m = pat.unicode_len();
    if m > n {
        return None;
    }
    if m == 0 {
        proof {
            assert(s@.subrange(0, 0) =~= pat@);
        }
        return Some(0);
    }
    let mut i: usize = 0;
    while i <= n - m
        invariant
            n == s@.len(),
            m == pat@.len(),
            1 <= m <= n,
            0 <= i <= n - m + 1,
            spec_find_from(s@, pat@, 0) == spec_find_from(s@, pat@, i as int),
        decreases n - i,
    {
        if match_at(s, pat, i) {
            return Some(i);
        }
        i = i + 1;
    }
    None
}

/// Whether `pat` occurs anywhere in `s`.
pub fn contains_sub(s: &str, pat: &str) -> (r: bool)
    ensures
        r == (spec_find_from(s@, pat@, 0) is Some),
{
    find_sub(s, pat).is_some()
}

/// Last occurrence of `pat` in `s`, if any.
pub fn rfind_sub(s: &str, pat: &str) -> (r: Option<usize>)
    ensures
        match r {
            Some(i) => spec_rfind_from(s@, pat@, s@.len() - pat@.len()) == Some(i as int),
            None => spec_rfind_from(s@, pat@, s@.len() - pat@.len()) is None,
        },
{
    let n = s.unicode_len();
    let m = pat.unicode_len();
    if m > n {
        proof {
            lemma_rfind_none_when_too_long(s@, pat@, n - m);
        }
        return None;
    }
    if m == 0 {
        proof {
            assert(s@.subrange(n as int, n as int) =~= pat@);
        }
        return Some(n);
    }
    let bound = n - m;
    let mut k: usize = 0;
    while k <= bound
        invariant
            n == s@.len(),
            m == pat@.len(),
            1 <= m <= n,
            bound == n - m,
            0 <= k <= bound + 1,
            spec_rfind_from(s@, pat@, bound as int) == spec_rfind_from(s@, pat@, bound - k),
        decreases bound - k + 1,
    {
        let i = bound - k;
        if match_at(s, pat, i) {
            return Some(i);
        }
        k = k + 1;
    }
    None
}

/// `spec_rfind_from` finds nothing when the pattern is longer than the text.
proof fn lemma_rfind_none_when_too_long(s: Seq<char>, pat: Seq<char>, i: int)
    requires
        pat.len() > s.len(),
    ensures
        spec_rfind_from(s, pat, i) is None,
    decreases i + 1,
{
    if i >= 0 {
        lemma_rfind_none_when_too_long(s, pat, i - 1);
    }
}

/// A position that `spec_rfind_from` found really is a match position.
pub proof fn lemma_rfind_from_some(s: Seq<char>, pat: Seq<char>, i: int, j: int)
    requires
        spec_rfind_from(s, pat, i) == Some(j),
    ensures
        is_match_at(s, pat, j),
        j <= i,
    decreases i + 1,
{
    if i >= 0 && !is_match_at(s, pat, i) {
        lemma_rfind_from_some(s, pat, i - 1, j);
    }
}

/// Whether `s` begins with `pat`.
pub fn starts_with_str(s: &str, pat: &str) -> (r: bool)
    ensures
        r == is_match_at(s@, pat@, 0),
{
    let n = s.unicode_len();
    let m = pat.unicode_len();
    if m > n {
        false
    } else {
        match_at(s, pat, 0)
    }
}

/// First occurrence of the character `c` in `s`, if any.
pub fn find_char(s: &str, c: char) -> (r: Option<usize>)
    ensures
        match r {
            Some(i) => 0 <= i < s@.len() && s@[i as int] == c && forall|j: int|
                0 <= j < i ==> s@[j] != c,
            None => forall|j: int| 0 <= j < s@.len() ==> s@[j] != c,
        },
{
    let n = s.unicode_len();
    let mut i: usize = 0;
    while i < n
        invariant
            n == s@.len(),
            0 <= i <= n,
            forall|j: int| 0 <= j < i ==> s@[j] != c,
        decreases n - i,
    {
        if s.get_char(i) == c {
            return Some(i);
        }
        i = i + 1;
    }
    None
}

/// Whitespace that the toolchain's diagnostic text pads fields with.
pub open spec fn is_space(c: char) -> bool {
    c == ' ' || c == '\t' || c == '\r' || c == '\n'
}

/// Whether an exec character counts as whitespace.
pub fn char_is_space(c: char) -> (r: bool)
    ensures
        r == is_space(c),
{
    c == ' ' || c == '\t' || c == '\r' || c == '\n'
}

/// `s` with leading whitespace removed.
pub open spec fn spec_trim_start(s: Seq<char>) -> Seq<char>
    decreases s.len(),
{
    if s.len() > 0 && is_space(s[0]) {
        spec_trim_start(s.drop_first())
    } else {
        s
    }
}

/// `s` with trailing whitespace removed.
pub open spec fn spec_trim_end(s: Seq<char>) -> Seq<char>
    decreases s.len(),
{
    if s.len() > 0 && is_space(s.last()) {
        spec_trim_end(s.drop_last())
    } else {
        s
    }
}

/// `s` with whitespace removed from both ends.
pub open spec fn spec_trim(s: Seq<char>) -> Seq<char> {
    spec_trim_end(spec_trim_start(s))
}

/// Exec trim matching `spec_trim`.
pub fn trim_str(s: &str) -> (r: String)
    ensures
        r@ == spec_trim(s@),
{
    let n = s.unicode_len();
    let mut a: usize = 0;
    proof {
        assert(s@.skip(0) =~= s@);
    }
    while a < n && char_is_space(s.get_char(a))
        invariant
            n == s@.len(),
            0 <= a <= n,
            spec_trim_start(s@) == spec_trim_start(s@.skip(a as int)),
        decreases n - a,
    {
        proof {
            assert(s@.skip(a as int).drop_first() =~= s@.skip(a + 1));
        }
        a = a + 1;
    }
    let ghost t = spec_trim_start(s@);
    proof {
        if a == n {
            assert(s@.skip(a as int) =~= Seq::<char>::empty());
        }
        assert(t == s@.skip(a as int));
    }
    let mut b: usize = n;
    proof {
        assert(t.take(n - a) =~= t);
    }
    while b > a && char_is_space(s.get_char(b - 1))
        invariant
            n == s@.len(),
            0 <= a <= b <= n,
            t == s@.skip(a as int),
            spec_trim_end(t) == spec_trim_end(t.take(b - a)),
        decreases b,
    {
        proof {
            assert(t.take(b - a).last() == s@[b - 1]);
            assert(t.take(b - a).drop_last() =~= t.take(b - 1 - a));
        }
        b = b - 1;
    }
    proof {
        if b == a {
            assert(t.take(0) =~= Seq::<char>::empty());
        } else {
            assert(t.take(b - a).last() == s@[b - 1]);
        }
        assert(s@.subrange(a as int, b as int) =~= t.take(b - a));
    }
    s.substring_char(a, b).to_owned()
}

} // verus!
