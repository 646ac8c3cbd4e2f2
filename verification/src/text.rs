//! Character-level text utilities shared by the monitor parsers: whitespace
//! tokenizing and decimal number parsing, with exact specifications over
//! `Seq<char>`.

use vstd::prelude::*;
use vstd::string::StrSliceExecFns;

verus! {

/// The whitespace characters recognized by the parsers in this crate
/// (the ASCII whitespace set).
pub open spec fn is_space(c: char) -> bool {
    c == ' ' || c == '\t' || c == '\n' || c == '\r' || c == '\u{b}' || c == '\u{c}'
}

/// Runtime test for [`is_space`].
pub fn space_char(c: char) -> (r: bool)
    ensures
        r == is_space(c),
{
    c == ' ' || c == '\t' || c == '\n' || c == '\r' || c == '\u{b}' || c == '\u{c}'
}

/// A decimal digit.
pub open spec fn is_digit(c: char) -> bool {
    48 <= c as u32 <= 57
}

/// Numeric value of a decimal digit.
pub open spec fn digit_val(c: char) -> int {
    c as u32 - 48
}

/// Runtime test for [`is_digit`].
pub fn digit_char(c: char) -> (r: bool)
    ensures
        r == is_digit(c),
{
    let u = c as u32;
    48 <= u && u <= 57
}

/// Copies the characters of a string slice into a vector.
pub fn chars_of(s: &str) -> (v: Vec<char>)
    ensures
        v@ == s@,
{
    let n = s.unicode_len();
    let mut v: Vec<char> = Vec::new();
    let mut i: usize = 0;
    while i < n
        invariant
            i <= n,
            n == s@.len(),
            v@ == s@.subrange(0, i as int),
        decreases n - i,
    {
        v.push(s.get_char(i));
        assert(v@ =~= s@.subrange(0, i + 1));
        i += 1;
    }
    assert(v@ =~= s@);
    v
}

/// Copies the characters of `s` in the range `[from, to)` into a new vector.
pub fn copy_range(s: &Vec<char>, from: usize, to: usize) -> (v: Vec<char>)
    requires
        from <= to <= s@.len(),
    ensures
        v@ == s@.subrange(from as int, to as int),
{
    let mut v: Vec<char> = Vec::new();
    let mut i: usize = from;
    while i < to
        invariant
            from <= i <= to <= s@.len(),
            v@ == s@.subrange(from as int, i as int),
        decreases to - i,
    {
        v.push(s[i]);
        assert(v@ =~= s@.subrange(from as int, i + 1));
        i += 1;
    }
    v
}

/// Index of the first occurrence of `c` in `s` at or after `i`, or the length
/// of `s` if there is none.
pub open spec fn find_char(s: Seq<char>, c: char, i: int) -> int
    decreases s.len() - i,
{
    if i < 0 || i >= s.len() {
        s.len() as int
    } else if s[i] == c {
        i
    } else {
        find_char(s, c, i + 1)
    }
}

pub proof fn lemma_find_char(s: Seq<char>, c: char, i: int)
    requires
        0 <= i <= s.len(),
    ensures
        i <= find_char(s, c, i) <= s.len(),
        forall|k: int| i <= k < find_char(s, c, i) ==> s[k] != c,
        find_char(s, c, i) < s.len() ==> s[find_char(s, c, i)] == c,
    decreases s.len() - i,
{
    if i < s.len() && s[i] != c {
        lemma_find_char(s, c, i + 1);
    }
}

/// Runtime search matching [`find_char`].
pub fn find_char_at(s: &Vec<char>, c: char, i: usize) -> (j: usize)
    requires
        i <= s@.len(),
    ensures
        j == find_char(s@, c, i as int),
    decreases s@.len() - i,
{
    if i == s.len() {
        i
    } else if s[i] == c {
        i
    } else {
        find_char_at(s, c, i + 1)
    }
}

/// End of the token that starts at `i`: the index of the next whitespace
/// character at or after `i`, or the length of `s`.
pub open spec fn token_end(s: Seq<char>, i: int) -> int
    decreases s.len() - i,
{
    if i < 0 || i >= s.len() {
        s.len() as int
    } else if is_space(s[i]) {
        i
    } else {
        token_end(s, i + 1)
    }
}

pub proof fn lemma_token_end(s: Seq<char>, i: int)
    requires
        0 <= i <= s.len(),
    ensures
        i <= token_end(s, i) <= s.len(),
        forall|k: int| i <= k < token_end(s, i) ==> !is_space(s[k]),
        token_end(s, i) < s.len() ==> is_space(s[token_end(s, i)]),
    decreases s.len() - i,
{
    if i < s.len() && !is_space(s[i]) {
        lemma_token_end(s, i + 1);
    }
}

/// Runtime scan matching [`token_end`].
pub fn token_end_at(s: &Vec<char>, i: usize) -> (j: usize)
    requires
        i <= s@.len(),
    ensures
        j == token_end(s@, i as int),
    decreases s@.len() - i,
{
    if i == s.len() {
        i
    } else if space_char(s[i]) {
        i
    } else {
        token_end_at(s, i + 1)
    }
}

/// The deep view of a vector of characters is its plain view.
pub proof fn lemma_chars_deep_view(v: Vec<char>)
    ensures
        v.deep_view() =~= v@,
{
}

/// The whitespace-separated tokens of `s` from index `i` on, in order.
pub open spec fn tokens_from(s: Seq<char>, i: int) -> Seq<Seq<char>>
    decreases s.len() - i,
    when i >= 0
    via tokens_from_decreases
{
    if i >= s.len() {
        Seq::empty()
    } else if is_space(s[i]) {
        tokens_from(s, i + 1)
    } else {
        seq![s.subrange(i, token_end(s, i))] + tokens_from(s, token_end(s, i))
    }
}

#[via_fn]
proof fn tokens_from_decreases(s: Seq<char>, i: int) {
    if 0 <= i < s.len() && !is_space(s[i]) {
        lemma_token_end(s, i + 1);
        assert(token_end(s, i) == token_end(s, i + 1));
    }
}

/// The whitespace-separated tokens of a whole string.
pub open spec fn tokens_of(s: Seq<char>) -> Seq<Seq<char>> {
    tokens_from(s, 0)
}

/// Splits `s` into its whitespace-separated tokens, starting at index `i`.
pub fn split_tokens_from(s: &Vec<char>, i: usize) -> (ts: Vec<Vec<char>>)
    requires
        i <= s@.len(),
    ensures
        ts.deep_view() == tokens_from(s@, i as int),
    decreases s@.len() - i,
{
    if i == s.len() {
        let ts: Vec<Vec<char>> = Vec::new();
        assert(ts.deep_view() =~= tokens_from(s@, i as int));
        ts
    } else if space_char(s[i]) {
        split_tokens_from(s, i + 1)
    } else {
        proof {
            lemma_token_end(s@, i as int);
        }
        let e = token_end_at(s, i);
        let tok = copy_range(s, i, e);
        let mut ts = split_tokens_from(s, e);
        let ghost prev = ts@;
        let ghost rest = tokens_from(s@, token_end(s@, i as int));
        ts.insert(0, tok);
        proof {
            let whole = tokens_from(s@, i as int);
            assert(whole == seq![s@.subrange(i as int, token_end(s@, i as int))] + rest);
            assert(ts@ == prev.insert(0, tok));
            assert forall|k: int| 0 <= k < ts@.len() implies #[trigger] ts.deep_view()[k]
                =~= whole[k] by {
                if k == 0 {
                    assert(ts@[0] == tok);
                    lemma_chars_deep_view(tok);
                } else {
                    assert(ts@[k] == prev[k - 1]);
                    assert(ts.deep_view()[k] == prev[k - 1].deep_view());
                }
            }
            assert(ts.deep_view() =~~= whole);
        }
        ts
    }
}

/// Splits a whole string into whitespace-separated tokens.
pub fn split_tokens(s: &Vec<char>) -> (ts: Vec<Vec<char>>)
    ensures
        ts.deep_view() == tokens_of(s@),
{
    split_tokens_from(s, 0)
}

/// Whether two character vectors hold the same characters.
pub fn chars_eq(a: &Vec<char>, b: &Vec<char>) -> (r: bool)
    ensures
        r == (a@ == b@),
{
    if a.len() != b.len() {
        return false;
    }
    let mut i: usize = 0;
    while i < a.len()
        invariant
            i <= a@.len(),
            a@.len() == b@.len(),
            forall|k: int| 0 <= k < i ==> a@[k] == b@[k],
        decreases a@.len() - i,
    {
        if a[i] != b[i] {
            return false;
        }
        i += 1;
    }
    proof {
        assert(a@ =~= b@);
    }
    true
}

/// The lines of `s` from index `i` on: pieces separated by `'\n'`, each with
/// a `'\r'` directly before the `'\n'` stripped, the final line break
/// optional — the splitting `str::lines` performs.
pub open spec fn lines_from(s: Seq<char>, i: int) -> Seq<Seq<char>>
    decreases s.len() - i,
    when i >= 0
    via lines_from_decreases
{
    if i >= s.len() {
        Seq::empty()
    } else {
        let j = find_char(s, '\n', i);
        if j >= s.len() {
            seq![s.subrange(i, j)]
        } else {
            let e = if j > i && s[j - 1] == '\r' {
                j - 1
            } else {
                j
            };
            seq![s.subrange(i, e)] + lines_from(s, j + 1)
        }
    }
}

#[via_fn]
proof fn lines_from_decreases(s: Seq<char>, i: int) {
    if 0 <= i < s.len() {
        lemma_find_char(s, '\n', i);
    }
}

/// The lines of a whole string.
pub open spec fn lines_of(s: Seq<char>) -> Seq<Seq<char>> {
    lines_from(s, 0)
}

/// Splits `s` into lines, starting at index `i`.
pub fn split_lines_from(s: &Vec<char>, i: usize) -> (ls: Vec<Vec<char>>)
    requires
        i <= s@.len(),
    ensures
        ls.deep_view() == lines_from(s@, i as int),
    decreases s@.len() - i,
{
    if i >= s.len() {
        let ls: Vec<Vec<char>> = Vec::new();
        assert(ls.deep_view() =~= lines_from(s@, i as int));
        ls
    } else {
        let j = find_char_at(s, '\n', i);
        proof {
            lemma_find_char(s@, '\n', i as int);
        }
        if j >= s.len() {
            let line = copy_range(s, i, j);
            let mut ls: Vec<Vec<char>> = Vec::new();
            ls.push(line);
            proof {
                lemma_chars_deep_view(line);
                assert(ls.deep_view() =~~= lines_from(s@, i as int));
            }
            ls
        } else {
            let e: usize = if j > i && s[j - 1] == '\r' {
                j - 1
            } else {
                j
            };
            let line = copy_range(s, i, e);
            let mut ls = split_lines_from(s, j + 1);
            let ghost prev = ls@;
            let ghost rest = lines_from(s@, j + 1);
            ls.insert(0, line);
            proof {
                let whole = lines_from(s@, i as int);
                assert(whole == seq![s@.subrange(i as int, e as int)] + rest);
                assert(ls@ == prev.insert(0, line));
                assert forall|k: int| 0 <= k < ls@.len() implies #[trigger] ls.deep_view()[k]
                    =~= whole[k] by {
                    if k == 0 {
                        assert(ls@[0] == line);
                        lemma_chars_deep_view(line);
                    } else {
                        assert(ls@[k] == prev[k - 1]);
                        assert(ls.deep_view()[k] == prev[k - 1].deep_view());
                    }
                }
                assert(ls.deep_view() =~~= whole);
            }
            ls
        }
    }
}

/// Splits a whole string into its lines.
pub fn split_lines(s: &Vec<char>) -> (ls: Vec<Vec<char>>)
    ensures
        ls.deep_view() == lines_of(s@),
{
    split_lines_from(s, 0)
}

/// All characters of `s` are decimal digits.
pub open spec fn all_digits(s: Seq<char>) -> bool {
    forall|i: int| 0 <= i < s.len() ==> is_digit(#[trigger] s[i])
}

/// Numeric value of a string of decimal digits, most significant first.
pub open spec fn digits_val(s: Seq<char>) -> int
    decreases s.len(),
{
    if s.len() == 0 {
        0
    } else {
        digits_val(s.drop_last()) * 10 + digit_val(s.last())
    }
}

pub proof fn lemma_digits_val_nonneg(s: Seq<char>)
    requires
        all_digits(s),
    ensures
        digits_val(s) >= 0,
    decreases s.len(),
{
    if s.len() > 0 {
        assert(all_digits(s.drop_last()));
        lemma_digits_val_nonneg(s.drop_last());
    }
}

/// Extending a digit string to the right can only increase its value.
pub proof fn lemma_digits_val_prefix(s: Seq<char>, i: int)
    requires
        all_digits(s),
        0 <= i <= s.len(),
    ensures
        digits_val(s.subrange(0, i)) <= digits_val(s),
    decreases s.len() - i,
{
    if i < s.len() {
        lemma_digits_val_prefix(s, i + 1);
        let p = s.subrange(0, i + 1);
        assert(p.drop_last() =~= s.subrange(0, i));
        assert(all_digits(s.subrange(0, i)));
        lemma_digits_val_nonneg(s.subrange(0, i));
        assert(digits_val(p) == digits_val(s.subrange(0, i)) * 10 + digit_val(s[i]));
        assert(digits_val(s.subrange(0, i)) <= digits_val(p));
    } else {
        assert(s.subrange(0, i) =~= s);
    }
}

/// The digit part of a decimal token: an optional leading `+` sign is
/// accepted and skipped, as the standard integer parser does.
pub open spec fn unsigned_digits(s: Seq<char>) -> Seq<char> {
    if s.len() > 0 && s[0] == '+' {
        s.drop_first()
    } else {
        s
    }
}

/// Whether a token is a well-formed decimal representation of a `u64`.
pub open spec fn is_u64_token(s: Seq<char>) -> bool {
    let d = unsigned_digits(s);
    d.len() > 0 && all_digits(d) && digits_val(d) <= u64::MAX
}

/// The `u64` value of a token, where [`is_u64_token`] holds.
pub open spec fn u64_token_val(s: Seq<char>) -> int {
    digits_val(unsigned_digits(s))
}

/// What parsing a token as a `u64` yields: the value on a well-formed
/// decimal token, nothing otherwise (empty, stray characters, overflow).
pub open spec fn spec_parse_u64(s: Seq<char>) -> Option<u64> {
    if is_u64_token(s) {
        Some(u64_token_val(s) as u64)
    } else {
        None
    }
}

/// Parses a whole token as a decimal `u64`.
pub fn parse_u64(t: &Vec<char>) -> (r: Option<u64>)
    ensures
        r == spec_parse_u64(t@),
{
    let ghost d = unsigned_digits(t@);
    let start: usize = if t.len() > 0 && t[0] == '+' {
        1
    } else {
        0
    };
    assert(d =~= t@.subrange(start as int, t@.len() as int));
    if t.len() == start {
        return None;
    }
    let mut acc: u64 = 0;
    let mut i: usize = start;
    while i < t.len()
        invariant
            start <= i <= t@.len(),
            start < t@.len(),
            d == unsigned_digits(t@),
            d == t@.subrange(start as int, t@.len() as int),
            all_digits(d.subrange(0, i - start)),
            acc == digits_val(d.subrange(0, i - start)),
        decreases t@.len() - i,
    {
        let c = t[i];
        if !digit_char(c) {
            assert(!all_digits(d)) by {
                assert(d[i - start] == c);
            }
            return None;
        }
        let dv: u64 = (c as u32 - 48) as u64;
        let ghost pre = d.subrange(0, i - start);
        let ghost pre1 = d.subrange(0, i + 1 - start);
        assert(pre1.drop_last() =~= pre && pre1.last() == c);
        let next = match acc.checked_mul(10) {
            Some(m) => m.checked_add(dv),
            None => None,
        };
        match next {
            Some(n) => {
                acc = n;
            },
            None => {
                // The value of the digits seen so far already exceeds u64::MAX,
                // so the whole token overflows.
                proof {
                    assert(digits_val(pre1) > u64::MAX);
                    if all_digits(d) {
                        lemma_digits_val_prefix(d, i + 1 - start);
                        assert(digits_val(d) > u64::MAX);
                    }
                }
                return None;
            },
        }
        i += 1;
    }
    assert(d =~= d.subrange(0, i - start));
    Some(acc)
}

/// The digit part of a signed decimal token: an optional leading `+` or `-`
/// sign is accepted and skipped.
pub open spec fn signed_digits(s: Seq<char>) -> Seq<char> {
    if s.len() > 0 && (s[0] == '+' || s[0] == '-') {
        s.drop_first()
    } else {
        s
    }
}

/// The sign a decimal token denotes.
pub open spec fn token_sign(s: Seq<char>) -> int {
    if s.len() > 0 && s[0] == '-' {
        -1
    } else {
        1
    }
}

/// Whether a token is a well-formed decimal representation of an `i64`.
pub open spec fn is_i64_token(s: Seq<char>) -> bool {
    let d = signed_digits(s);
    d.len() > 0 && all_digits(d) && i64::MIN <= token_sign(s) * digits_val(d) <= i64::MAX
}

/// The `i64` value of a token, where [`is_i64_token`] holds.
pub open spec fn i64_token_val(s: Seq<char>) -> int {
    token_sign(s) * digits_val(signed_digits(s))
}

/// What parsing a token as an `i64` yields.
pub open spec fn spec_parse_i64(s: Seq<char>) -> Option<i64> {
    if is_i64_token(s) {
        Some(i64_token_val(s) as i64)
    } else {
        None
    }
}

/// Parses a whole token as a signed decimal `i64`.
pub fn parse_i64(t: &Vec<char>) -> (r: Option<i64>)
    ensures
        r == spec_parse_i64(t@),
{
    let ghost d = signed_digits(t@);
    let neg = t.len() > 0 && t[0] == '-';
    let start: usize = if t.len() > 0 && (t[0] == '-' || t[0] == '+') {
        1
    } else {
        0
    };
    assert(d =~= t@.subrange(start as int, t@.len() as int));
    if t.len() == start {
        return None;
    }
    let mut mag: u64 = 0;
    let mut i: usize = start;
    while i < t.len()
        invariant
            start <= i <= t@.len(),
            start < t@.len(),
            d == signed_digits(t@),
            d == t@.subrange(start as int, t@.len() as int),
            neg == (t@.len() > 0 && t@[0] == '-'),
            all_digits(d.subrange(0, i - start)),
            mag == digits_val(d.subrange(0, i - start)),
        decreases t@.len() - i,
    {
        let c = t[i];
        if !digit_char(c) {
            proof {
                assert(d[i - start] == c);
                assert(!all_digits(d));
            }
            return None;
        }
        let dv: u64 = (c as u32 - 48) as u64;
        let ghost pre = d.subrange(0, i - start);
        let ghost pre1 = d.subrange(0, i + 1 - start);
        assert(pre1.drop_last() =~= pre && pre1.last() == c);
        let next = match mag.checked_mul(10) {
            Some(m) => m.checked_add(dv),
            None => None,
        };
        match next {
            Some(n) => {
                mag = n;
            },
            None => {
                // The magnitude already exceeds u64::MAX, so the token is
                // out of range for i64 whatever its sign.
                proof {
                    assert(digits_val(pre1) > u64::MAX);
                    if all_digits(d) {
                        lemma_digits_val_prefix(d, i + 1 - start);
                        assert(digits_val(d) > u64::MAX);
                    }
                }
                return None;
            },
        }
        i += 1;
    }
    assert(d =~= d.subrange(0, i - start));
    if neg {
        if mag > 9223372036854775808u64 {
            None
        } else if mag == 9223372036854775808u64 {
            Some(i64::MIN)
        } else {
            Some(-(mag as i64))
        }
    } else {
        if mag > 9223372036854775807u64 {
            None
        } else {
            Some(mag as i64)
        }
    }
}

/// The character denoting a single decimal digit.
pub open spec fn digit_to_char(d: int) -> char {
    if d == 0 {
        '0'
    } else if d == 1 {
        '1'
    } else if d == 2 {
        '2'
    } else if d == 3 {
        '3'
    } else if d == 4 {
        '4'
    } else if d == 5 {
        '5'
    } else if d == 6 {
        '6'
    } else if d == 7 {
        '7'
    } else if d == 8 {
        '8'
    } else {
        '9'
    }
}

/// The decimal rendering of a non-negative number, most significant digit
/// first, without leading zeros (a single `'0'` for zero).
pub open spec fn dec_digits(n: int) -> Seq<char>
    decreases n,
{
    if n < 10 {
        seq![digit_to_char(n)]
    } else {
        dec_digits(n / 10).push(digit_to_char(n % 10))
    }
}

/// A one-character string slice holding one decimal digit.
pub fn digit_str(d: u64) -> (r: &'static str)
    requires
        d < 10,
    ensures
        r@ =~= seq![digit_to_char(d as int)],
{
    proof {
        reveal_strlit("0");
        reveal_strlit("1");
        reveal_strlit("2");
        reveal_strlit("3");
        reveal_strlit("4");
        reveal_strlit("5");
        reveal_strlit("6");
        reveal_strlit("7");
        reveal_strlit("8");
        reveal_strlit("9");
    }
    if d == 0 {
        "0"
    } else if d == 1 {
        "1"
    } else if d == 2 {
        "2"
    } else if d == 3 {
        "3"
    } else if d == 4 {
        "4"
    } else if d == 5 {
        "5"
    } else if d == 6 {
        "6"
    } else if d == 7 {
        "7"
    } else if d == 8 {
        "8"
    } else {
        "9"
    }
}

/// Renders a number in decimal.
pub fn u64_to_string(n: u64) -> (s: String)
    ensures
        s@ == dec_digits(n as int),
    decreases n,
{
    if n < 10 {
        digit_str(n).to_owned()
    } else {
        let mut s = u64_to_string(n / 10);
        s.append(digit_str(n % 10));
        s
    }
}

/// The decimal rendering of a signed number.
pub open spec fn dec_int(v: int) -> Seq<char> {
    if v < 0 {
        "-"@ + dec_digits(-v)
    } else {
        dec_digits(v)
    }
}

/// Renders a signed number in decimal.
pub fn i64_to_string(v: i64) -> (s: String)
    ensures
        s@ == dec_int(v as int),
{
    if v < 0 {
        let mag: u64 = if v == i64::MIN {
            9223372036854775808u64
        } else {
            (-v) as u64
        };
        let mut s = "-".to_owned();
        let m = u64_to_string(mag);
        s.append(m.as_str());
        s
    } else {
        u64_to_string(v as u64)
    }
}

/// The decimal rendering of a non-negative number, zero-padded on the left
/// to at least two digits.
pub open spec fn two_digits(n: int) -> Seq<char> {
    if n < 10 {
        seq!['0', digit_to_char(n)]
    } else {
        dec_digits(n)
    }
}

/// Renders a number zero-padded to at least two digits.
pub fn two_digit_string(n: u64) -> (s: String)
    ensures
        s@ == two_digits(n as int),
{
    if n < 10 {
        let mut s = "0".to_owned();
        s.append(digit_str(n));
        proof {
            reveal_strlit("0");
            assert(s@ =~= two_digits(n as int));
        }
        s
    } else {
        u64_to_string(n)
    }
}

/// Whether `pat` occurs in `s` starting at index `i`.
pub open spec fn contains_at(s: Seq<char>, pat: Seq<char>, i: int) -> bool {
    0 <= i && i + pat.len() <= s.len() && s.subrange(i, i + pat.len()) == pat
}

/// Whether `pat` occurs anywhere in `s`.
pub open spec fn contains_seq(s: Seq<char>, pat: Seq<char>) -> bool {
    exists|i: int| contains_at(s, pat, i)
}

/// Whether `s` starts with `pat`.
pub open spec fn starts_with(s: Seq<char>, pat: Seq<char>) -> bool {
    pat.len() <= s.len() && s.subrange(0, pat.len() as int) == pat
}

/// Whether `s` ends with `pat`.
pub open spec fn ends_with(s: Seq<char>, pat: Seq<char>) -> bool {
    pat.len() <= s.len() && s.subrange(s.len() - pat.len(), s.len() as int) == pat
}

/// Compares `pat` against the characters of `s` at index `i`.
pub fn match_at(s: &Vec<char>, pat: &Vec<char>, i: usize) -> (r: bool)
    requires
        i + pat@.len() <= s@.len(),
    ensures
        r == contains_at(s@, pat@, i as int),
{
    let n = s.len();
    let mut j: usize = 0;
    while j < pat.len()
        invariant
            j <= pat@.len(),
            i + pat@.len() <= s@.len(),
            n == s@.len(),
            forall|k: int| 0 <= k < j ==> s@[i + k] == pat@[k],
        decreases pat@.len() - j,
    {
        if s[i + j] != pat[j] {
            proof {
                assert(s@.subrange(i as int, i + pat@.len())[j as int] != pat@[j as int]);
            }
            return false;
        }
        j += 1;
    }
    proof {
        assert(s@.subrange(i as int, i + pat@.len()) =~= pat@);
    }
    true
}

/// Searches `s` for an occurrence of `pat`.
pub fn contains_chars(s: &Vec<char>, pat: &Vec<char>) -> (r: bool)
    ensures
        r == contains_seq(s@, pat@),
{
    if pat.len() > s.len() {
        proof {
            assert(forall|i: int| !contains_at(s@, pat@, i));
        }
        return false;
    }
    if pat.len() == 0 {
        proof {
            assert(s@.subrange(0, 0) =~= pat@);
            assert(contains_at(s@, pat@, 0));
        }
        return true;
    }
    let n = s.len();
    let last = n - pat.len();
    let mut i: usize = 0;
    loop
        invariant
            i <= last + 1,
            last == s@.len() - pat@.len(),
            pat@.len() > 0,
            n == s@.len(),
            forall|k: int| 0 <= k < i ==> !contains_at(s@, pat@, k),
        decreases last + 1 - i,
    {
        if i > last {
            proof {
                assert(forall|k: int| contains_at(s@, pat@, k) ==> 0 <= k <= last);
            }
            return false;
        }
        if match_at(s, pat, i) {
            return true;
        }
        i += 1;
    }
}

/// Whether the characters of `s` start with `pat`.
pub fn starts_with_chars(s: &Vec<char>, pat: &Vec<char>) -> (r: bool)
    ensures
        r == starts_with(s@, pat@),
{
    if pat.len() > s.len() {
        return false;
    }
    match_at(s, pat, 0)
}

/// Whether the characters of `s` end with `pat`.
pub fn ends_with_chars(s: &Vec<char>, pat: &Vec<char>) -> (r: bool)
    ensures
        r == ends_with(s@, pat@),
{
    if pat.len() > s.len() {
        return false;
    }
    let r = match_at(s, pat, s.len() - pat.len());
    proof {
        assert(contains_at(s@, pat@, s@.len() - pat@.len()) == ends_with(s@, pat@));
    }
    r
}

/// Index of the first non-whitespace character at or after `i`, or the
/// length of `s`.
pub open spec fn skip_spaces(s: Seq<char>, i: int) -> int
    decreases s.len() - i,
{
    if i < 0 || i >= s.len() {
        s.len() as int
    } else if is_space(s[i]) {
        skip_spaces(s, i + 1)
    } else {
        i
    }
}

pub proof fn lemma_skip_spaces(s: Seq<char>, i: int)
    requires
        0 <= i <= s.len(),
    ensures
        i <= skip_spaces(s, i) <= s.len(),
        forall|k: int| i <= k < skip_spaces(s, i) ==> is_space(s[k]),
        skip_spaces(s, i) < s.len() ==> !is_space(s[skip_spaces(s, i)]),
    decreases s.len() - i,
{
    if i < s.len() && is_space(s[i]) {
        lemma_skip_spaces(s, i + 1);
    }
}

/// Runtime scan matching [`skip_spaces`].
pub fn skip_spaces_at(s: &Vec<char>, i: usize) -> (j: usize)
    requires
        i <= s@.len(),
    ensures
        j == skip_spaces(s@, i as int),
    decreases s@.len() - i,
{
    if i == s.len() {
        i
    } else if space_char(s[i]) {
        skip_spaces_at(s, i + 1)
    } else {
        i
    }
}

/// One past the last non-whitespace character strictly before index `j`,
/// or zero.
pub open spec fn rskip_spaces(s: Seq<char>, j: int) -> int
    decreases j,
{
    if j <= 0 {
        0
    } else if is_space(s[j - 1]) {
        rskip_spaces(s, j - 1)
    } else {
        j
    }
}

pub proof fn lemma_rskip_spaces(s: Seq<char>, j: int)
    requires
        0 <= j <= s.len(),
    ensures
        0 <= rskip_spaces(s, j) <= j,
    decreases j,
{
    if j > 0 && is_space(s[j - 1]) {
        lemma_rskip_spaces(s, j - 1);
    }
}

/// Runtime scan matching [`rskip_spaces`].
pub fn rskip_spaces_at(s: &Vec<char>, j: usize) -> (k: usize)
    requires
        j <= s@.len(),
    ensures
        k == rskip_spaces(s@, j as int),
    decreases j,
{
    if j == 0 {
        0
    } else if space_char(s[j - 1]) {
        rskip_spaces_at(s, j - 1)
    } else {
        j
    }
}

/// `s` with leading and trailing whitespace removed.
pub open spec fn trimmed(s: Seq<char>) -> Seq<char> {
    let a = skip_spaces(s, 0);
    let b = rskip_spaces(s, s.len() as int);
    if a >= b {
        Seq::empty()
    } else {
        s.subrange(a, b)
    }
}

/// The bounds of the trimmed middle of `s`: the trimmed text is the
/// characters in `[r.0, r.1)`, an empty range for all-whitespace text.
pub fn trim_bounds(s: &Vec<char>) -> (r: (usize, usize))
    ensures
        r.0 <= r.1 <= s@.len(),
        trimmed(s@) == s@.subrange(r.0 as int, r.1 as int),
{
    let a = skip_spaces_at(s, 0);
    let b = rskip_spaces_at(s, s.len());
    proof {
        lemma_skip_spaces(s@, 0);
        lemma_rskip_spaces(s@, s@.len() as int);
    }
    if a >= b {
        proof {
            assert(s@.subrange(a as int, a as int) =~= Seq::<char>::empty());
        }
        (a, a)
    } else {
        (a, b)
    }
}

/// Index of the first occurrence of `pat` in `s` at or after `i`, or the
/// length of `s` if there is none.
pub open spec fn find_seq(s: Seq<char>, pat: Seq<char>, i: int) -> int
    decreases s.len() - i,
    when i >= 0 && pat.len() > 0
{
    if i + pat.len() > s.len() {
        s.len() as int
    } else if s.subrange(i, i + pat.len()) == pat {
        i
    } else {
        find_seq(s, pat, i + 1)
    }
}

pub proof fn lemma_find_seq(s: Seq<char>, pat: Seq<char>, i: int)
    requires
        0 <= i <= s.len(),
        pat.len() > 0,
    ensures
        i <= find_seq(s, pat, i) <= s.len(),
        forall|k: int| i <= k < find_seq(s, pat, i) ==> !contains_at(s, pat, k),
        find_seq(s, pat, i) + pat.len() <= s.len() ==> contains_at(s, pat, find_seq(s, pat, i)),
    decreases s.len() - i,
{
    if i + pat.len() <= s.len() && s.subrange(i, i + pat.len()) != pat {
        lemma_find_seq(s, pat, i + 1);
    }
}

/// Runtime search matching [`find_seq`].
pub fn find_chars_at(s: &Vec<char>, pat: &Vec<char>, i: usize) -> (j: usize)
    requires
        i <= s@.len(),
        pat@.len() > 0,
    ensures
        j == find_seq(s@, pat@, i as int),
    decreases s@.len() - i,
{
    if pat.len() > s.len() - i {
        s.len()
    } else if match_at(s, pat, i) {
        i
    } else {
        find_chars_at(s, pat, i + 1)
    }
}

/// Whether the characters of `s` in `[a, b)` equal `pat`.
pub fn range_eq(s: &Vec<char>, a: usize, b: usize, pat: &Vec<char>) -> (r: bool)
    requires
        a <= b <= s@.len(),
    ensures
        r == (s@.subrange(a as int, b as int) == pat@),
{
    if b - a != pat.len() {
        proof {
            assert(s@.subrange(a as int, b as int).len() != pat@.len());
        }
        return false;
    }
    let r = match_at(s, pat, a);
    proof {
        assert(s@.subrange(a as int, a + pat@.len()) == s@.subrange(a as int, b as int));
    }
    r
}

/// Whether the index pair `r` marks, in `s`, exactly the text `t`.
pub open spec fn range_denotes(s: Seq<char>, r: (usize, usize), t: Seq<char>) -> bool {
    r.0 <= r.1 <= s.len() && s.subrange(r.0 as int, r.1 as int) == t
}

/// The token boundaries matching [`tokens_from`]: for each token its start
/// and end index in `s`.
pub fn token_ranges_from(s: &Vec<char>, i: usize) -> (rs: Vec<(usize, usize)>)
    requires
        i <= s@.len(),
    ensures
        rs@.len() == tokens_from(s@, i as int).len(),
        forall|k: int|
            0 <= k < rs@.len() ==> range_denotes(
                s@,
                #[trigger] rs@[k],
                tokens_from(s@, i as int)[k],
            ),
    decreases s@.len() - i,
{
    if i == s.len() {
        Vec::new()
    } else if space_char(s[i]) {
        token_ranges_from(s, i + 1)
    } else {
        proof {
            lemma_token_end(s@, i as int);
        }
        let e = token_end_at(s, i);
        let mut rs = token_ranges_from(s, e);
        let ghost prev = rs@;
        let ghost rest = tokens_from(s@, e as int);
        rs.insert(0, (i, e));
        proof {
            let whole = tokens_from(s@, i as int);
            assert(whole == seq![s@.subrange(i as int, e as int)] + rest);
            assert(rs@ == prev.insert(0, (i, e)));
            assert forall|k: int| 0 <= k < rs@.len() implies range_denotes(
                s@,
                #[trigger] rs@[k],
                whole[k],
            ) by {
                if k > 0 {
                    assert(rs@[k] == prev[k - 1]);
                    assert(whole[k] == rest[k - 1]);
                    assert(range_denotes(s@, prev[k - 1], rest[k - 1]));
                }
            }
        }
        rs
    }
}

/// The ranges `rs` mark, in order, exactly the tokens of `s`.
pub open spec fn ranges_of_tokens(s: Seq<char>, rs: Seq<(usize, usize)>) -> bool {
    &&& rs.len() == tokens_of(s).len()
    &&& forall|k: int| 0 <= k < rs.len() ==> range_denotes(s, #[trigger] rs[k], tokens_of(s)[k])
}

/// The ranges `rs` mark, in order, exactly the lines of `s`.
pub open spec fn ranges_of_lines(s: Seq<char>, rs: Seq<(usize, usize)>) -> bool {
    &&& rs.len() == lines_of(s).len()
    &&& forall|k: int| 0 <= k < rs.len() ==> range_denotes(s, #[trigger] rs[k], lines_of(s)[k])
}

/// The token boundaries of a whole string.
pub fn token_ranges(s: &Vec<char>) -> (rs: Vec<(usize, usize)>)
    ensures
        ranges_of_tokens(s@, rs@),
{
    token_ranges_from(s, 0)
}

/// The line boundaries matching [`lines_from`]: for each line its start
/// and end index in `s`.
pub fn line_ranges_from(s: &Vec<char>, i: usize) -> (rs: Vec<(usize, usize)>)
    requires
        i <= s@.len(),
    ensures
        rs@.len() == lines_from(s@, i as int).len(),
        forall|k: int|
            0 <= k < rs@.len() ==> range_denotes(
                s@,
                #[trigger] rs@[k],
                lines_from(s@, i as int)[k],
            ),
    decreases s@.len() - i,
{
    if i >= s.len() {
        Vec::new()
    } else {
        let j = find_char_at(s, '\n', i);
        proof {
            lemma_find_char(s@, '\n', i as int);
        }
        if j >= s.len() {
            let mut rs: Vec<(usize, usize)> = Vec::new();
            rs.push((i, j));
            rs
        } else {
            let e: usize = if j > i && s[j - 1] == '\r' {
                j - 1
            } else {
                j
            };
            let mut rs = line_ranges_from(s, j + 1);
            let ghost prev = rs@;
            let ghost rest = lines_from(s@, j + 1);
            rs.insert(0, (i, e));
            proof {
                let whole = lines_from(s@, i as int);
                assert(whole == seq![s@.subrange(i as int, e as int)] + rest);
                assert(rs@ == prev.insert(0, (i, e)));
                assert forall|k: int| 0 <= k < rs@.len() implies range_denotes(
                    s@,
                    #[trigger] rs@[k],
                    whole[k],
                ) by {
                    if k > 0 {
                        assert(rs@[k] == prev[k - 1]);
                        assert(whole[k] == rest[k - 1]);
                        assert(range_denotes(s@, prev[k - 1], rest[k - 1]));
                    }
                }
            }
            rs
        }
    }
}

/// The line boundaries of a whole string.
pub fn line_ranges(s: &Vec<char>) -> (rs: Vec<(usize, usize)>)
    ensures
        ranges_of_lines(s@, rs@),
{
    line_ranges_from(s, 0)
}

/// Index of the first token at or after `i` equal to `x`, or the number of
/// tokens if there is none.
pub open spec fn find_token(toks: Seq<Seq<char>>, x: Seq<char>, i: int) -> int
    decreases toks.len() - i,
    when i >= 0
{
    if i >= toks.len() {
        toks.len() as int
    } else if toks[i] == x {
        i
    } else {
        find_token(toks, x, i + 1)
    }
}

/// Searches the tokens marked by `trs` for one equal to `pat`, from token
/// index `k` on.
pub fn find_token_at(s: &Vec<char>, trs: &Vec<(usize, usize)>, pat: &Vec<char>, k: usize) -> (r:
    usize)
    requires
        ranges_of_tokens(s@, trs@),
        k <= trs@.len(),
    ensures
        r == find_token(tokens_of(s@), pat@, k as int),
        r <= trs@.len(),
    decreases trs@.len() - k,
{
    if k >= trs.len() {
        trs.len()
    } else {
        let rg = trs[k];
        if range_eq(s, rg.0, rg.1, pat) {
            k
        } else {
            find_token_at(s, trs, pat, k + 1)
        }
    }
}

/// First index at or after `a`, below `b`, whose character is not `ch`; or
/// `b`.
pub open spec fn lskip_char(s: Seq<char>, ch: char, a: int, b: int) -> int
    decreases b - a,
{
    if a < 0 || a >= b {
        b
    } else if s[a] == ch {
        lskip_char(s, ch, a + 1, b)
    } else {
        a
    }
}

pub proof fn lemma_lskip_char(s: Seq<char>, ch: char, a: int, b: int)
    requires
        0 <= a <= b,
    ensures
        a <= lskip_char(s, ch, a, b) <= b,
    decreases b - a,
{
    if a < b && s[a] == ch {
        lemma_lskip_char(s, ch, a + 1, b);
    }
}

/// Runtime scan matching [`lskip_char`].
pub fn lskip_char_at(s: &Vec<char>, ch: char, a: usize, b: usize) -> (r: usize)
    requires
        a <= b <= s@.len(),
    ensures
        r == lskip_char(s@, ch, a as int, b as int),
        a <= r <= b,
    decreases b - a,
{
    proof {
        lemma_lskip_char(s@, ch, a as int, b as int);
    }
    if a >= b {
        b
    } else if s[a] == ch {
        lskip_char_at(s, ch, a + 1, b)
    } else {
        a
    }
}

/// One past the last index at or after `a`, strictly below `b`, whose
/// character is not `ch`; or `a`.
pub open spec fn rskip_char(s: Seq<char>, ch: char, a: int, b: int) -> int
    decreases b - a,
{
    if b <= a {
        a
    } else if s[b - 1] == ch {
        rskip_char(s, ch, a, b - 1)
    } else {
        b
    }
}

pub proof fn lemma_rskip_char(s: Seq<char>, ch: char, a: int, b: int)
    requires
        0 <= a <= b,
    ensures
        a <= rskip_char(s, ch, a, b) <= b,
    decreases b - a,
{
    if b > a && s[b - 1] == ch {
        lemma_rskip_char(s, ch, a, b - 1);
    }
}

/// Runtime scan matching [`rskip_char`].
pub fn rskip_char_at(s: &Vec<char>, ch: char, a: usize, b: usize) -> (r: usize)
    requires
        a <= b <= s@.len(),
    ensures
        r == rskip_char(s@, ch, a as int, b as int),
        a <= r <= b,
    decreases b - a,
{
    proof {
        lemma_rskip_char(s@, ch, a as int, b as int);
    }
    if b <= a {
        a
    } else if s[b - 1] == ch {
        rskip_char_at(s, ch, a, b - 1)
    } else {
        b
    }
}

/// The text in `[a, b)` with every leading and trailing `ch` removed —
/// what `str::trim_matches(ch)` leaves of it.
pub open spec fn trim_char_range(s: Seq<char>, ch: char, a: int, b: int) -> Seq<char> {
    let x = lskip_char(s, ch, a, b);
    let y = rskip_char(s, ch, x, b);
    s.subrange(x, y)
}

pub proof fn lemma_lskip_shift(s: Seq<char>, ch: char, a: int, b: int, i: int)
    requires
        0 <= a <= i <= b <= s.len(),
    ensures
        lskip_char(s.subrange(a, b), ch, i - a, b - a) == lskip_char(s, ch, i, b) - a,
    decreases b - i,
{
    if i < b && s[i] == ch {
        lemma_lskip_shift(s, ch, a, b, i + 1);
    }
}

pub proof fn lemma_rskip_shift(s: Seq<char>, ch: char, a: int, b: int, x: int, j: int)
    requires
        0 <= a <= x <= j <= b <= s.len(),
    ensures
        rskip_char(s.subrange(a, b), ch, x - a, j - a) == rskip_char(s, ch, x, j) - a,
    decreases j,
{
    if j > x && s[j - 1] == ch {
        lemma_rskip_shift(s, ch, a, b, x, j - 1);
    }
}

/// Trimming a character inside a subrange gives the same text as trimming
/// it over the whole sequence within the same bounds.
pub proof fn lemma_trim_char_shift(s: Seq<char>, ch: char, a: int, b: int)
    requires
        0 <= a <= b <= s.len(),
    ensures
        trim_char_range(s.subrange(a, b), ch, 0, b - a) == trim_char_range(s, ch, a, b),
{
    let t = s.subrange(a, b);
    lemma_lskip_shift(s, ch, a, b, a);
    let x = lskip_char(s, ch, a, b);
    lemma_lskip_char(s, ch, a, b);
    lemma_rskip_shift(s, ch, a, b, x, b);
    let y = rskip_char(s, ch, x, b);
    lemma_rskip_char(s, ch, x, b);
    assert(t.subrange(x - a, y - a) =~= s.subrange(x, y));
}

/// The bounds of [`trim_char_range`] on `[a, b)`.
pub fn trim_char_bounds(s: &Vec<char>, ch: char, a: usize, b: usize) -> (r: (usize, usize))
    requires
        a <= b <= s@.len(),
    ensures
        r.0 <= r.1 <= s@.len(),
        trim_char_range(s@, ch, a as int, b as int) == s@.subrange(r.0 as int, r.1 as int),
{
    let x = lskip_char_at(s, ch, a, b);
    let y = rskip_char_at(s, ch, x, b);
    (x, y)
}

/// `s` with every trailing repetition of `pat` removed — what
/// `str::trim_end_matches` produces.
pub open spec fn strip_suffix_all(s: Seq<char>, pat: Seq<char>) -> Seq<char>
    decreases s.len(),
    when pat.len() > 0
{
    if ends_with(s, pat) && s.len() >= pat.len() {
        strip_suffix_all(s.take(s.len() - pat.len()), pat)
    } else {
        s
    }
}

/// Removes every trailing repetition of `pat` from the token in `[a, b)`,
/// returning the shortened end index.
pub fn strip_suffix_all_at(s: &Vec<char>, pat: &Vec<char>, a: usize, b: usize) -> (r: usize)
    requires
        a <= b <= s@.len(),
        pat@.len() > 0,
    ensures
        a <= r <= b,
        strip_suffix_all(s@.subrange(a as int, b as int), pat@) == s@.subrange(a as int, r as int),
    decreases b - a,
{
    let ghost t = s@.subrange(a as int, b as int);
    if b - a >= pat.len() && match_at(s, pat, b - pat.len()) {
        proof {
            assert(t.subrange(t.len() - pat@.len(), t.len() as int) =~= s@.subrange(
                b - pat@.len(),
                b as int,
            ));
            assert(ends_with(t, pat@));
            assert(t.take(t.len() - pat@.len()) =~= s@.subrange(a as int, b - pat@.len()));
        }
        strip_suffix_all_at(s, pat, a, b - pat.len())
    } else {
        proof {
            if t.len() >= pat@.len() {
                assert(t.subrange(t.len() - pat@.len(), t.len() as int) =~= s@.subrange(
                    b - pat@.len(),
                    b as int,
                ));
            }
        }
        b
    }
}

/// `s` with every occurrence of `pat` replaced by `rep`, scanning left to
/// right without rescanning replacements — what `str::replace` produces.
pub open spec fn replace_seq(s: Seq<char>, pat: Seq<char>, rep: Seq<char>) -> Seq<char>
    decreases s.len(),
    when pat.len() > 0
{
    if s.len() < pat.len() {
        s
    } else if s.subrange(0, pat.len() as int) == pat {
        rep + replace_seq(s.skip(pat.len() as int), pat, rep)
    } else {
        seq![s[0]] + replace_seq(s.drop_first(), pat, rep)
    }
}

/// Replaces occurrences of `pat` in the tail of `s` that starts at
/// character index `i`.
fn replace_from(s: &str, sv: &Vec<char>, pat: &Vec<char>, rep: &str, i: usize) -> (r: String)
    requires
        sv@ == s@,
        pat@.len() > 0,
        i <= s@.len(),
    ensures
        r@ == replace_seq(s@.skip(i as int), pat@, rep@),
    decreases s@.len() - i,
{
    let ghost tail = s@.skip(i as int);
    if sv.len() - i < pat.len() {
        let r = s.substring_char(i, sv.len()).to_owned();
        proof {
            assert(r@ =~= tail);
        }
        r
    } else if match_at(sv, pat, i) {
        let mut out = rep.to_owned();
        let rest = replace_from(s, sv, pat, rep, i + pat.len());
        out.append(rest.as_str());
        proof {
            assert(tail.subrange(0, pat@.len() as int) =~= s@.subrange(
                i as int,
                i + pat@.len(),
            ));
            assert(tail.skip(pat@.len() as int) =~= s@.skip(i + pat@.len()));
            assert(out@ =~= replace_seq(tail, pat@, rep@));
        }
        out
    } else {
        let mut out = s.substring_char(i, i + 1).to_owned();
        let rest = replace_from(s, sv, pat, rep, i + 1);
        out.append(rest.as_str());
        proof {
            assert(tail.subrange(0, pat@.len() as int) =~= s@.subrange(
                i as int,
                i + pat@.len(),
            ));
            assert(tail.drop_first() =~= s@.skip(i + 1));
            assert(seq![tail[0]] =~= s@.subrange(i as int, i + 1));
            assert(out@ =~= replace_seq(tail, pat@, rep@));
        }
        out
    }
}

/// `s` with every occurrence of `pat` replaced by `rep`, scanning left to
/// right — the literal substitution `str::replace` performs.
pub fn replace_str(s: &str, pat: &str, rep: &str) -> (r: String)
    requires
        pat@.len() > 0,
    ensures
        r@ == replace_seq(s@, pat@, rep@),
{
    let sv = chars_of(s);
    let pv = chars_of(pat);
    let r = replace_from(s, &sv, &pv, rep, 0);
    proof {
        assert(s@.skip(0) =~= s@);
    }
    r
}

} // verus!
