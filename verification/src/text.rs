//! Character-level string operations with their meaning stated over `Seq<char>`.
use vstd::prelude::*;

verus! {

/// `String::push`: appends one character.
#[verifier::external_body]
pub(crate) fn push_char(s: &mut String, c: char)
    ensures
        final(s)@ == old(s)@.push(c),
{
    s.push(c);
}

/// The characters of `s`, one by one.
pub fn chars_of(s: &str) -> (v: Vec<char>)
    ensures
        v@ == s@,
{
    let n = s.unicode_len();
    let mut v: Vec<char> = Vec::new();
    let mut i: usize = 0;
    while i < n
        invariant
            n == s@.len(),
            i <= n,
            v@ == s@.take(i as int),
        decreases n - i,
    {
        let c = s.get_char(i);
        v.push(c);
        i = i + 1;
        assert(v@ =~= s@.take(i as int));
    }
    assert(s@.take(n as int) =~= s@);
    v
}

/// The string made of the characters of `v`.
pub fn string_of(v: &Vec<char>) -> (s: String)
    ensures
        s@ == v@,
{
    let mut s = String::new();
    let mut i: usize = 0;
    while i < v.len()
        invariant
            i <= v.len(),
            s@ == v@.take(i as int),
        decreases v.len() - i,
    {
        push_char(&mut s, v[i]);
        i = i + 1;
        assert(s@ =~= v@.take(i as int));
    }
    assert(v@.take(v.len() as int) =~= v@);
    s
}

/// Appends the characters of `t` to `s`.
pub fn append_chars(s: &mut Vec<char>, t: &str)
    ensures
        final(s)@ == old(s)@ + t@,
{
    let n = t.unicode_len();
    let mut i: usize = 0;
    let ghost s0 = s@;
    while i < n
        invariant
            n == t@.len(),
            i <= n,
            s@ == s0 + t@.take(i as int),
        decreases n - i,
    {
        s.push(t.get_char(i));
        i = i + 1;
        assert(s@ =~= s0 + t@.take(i as int));
    }
    assert(t@.take(n as int) =~= t@);
}

/// Equality of two strings.
pub fn str_eq(a: &str, b: &str) -> (r: bool)
    ensures
        r == (a@ == b@),
{
    let n = a.unicode_len();
    if n != b.unicode_len() {
        return false;
    }
    let mut i: usize = 0;
    while i < n
        invariant
            n == a@.len(),
            n == b@.len(),
            i <= n,
            forall|j: int| 0 <= j < i ==> a@[j] == b@[j],
        decreases n - i,
    {
        if a.get_char(i) != b.get_char(i) {
            return false;
        }
        i = i + 1;
    }
    assert(a@ =~= b@);
    true
}

/// The character sequences of a sequence of strings.
pub open spec fn strings(v: Seq<String>) -> Seq<Seq<char>> {
    v.map_values(|s: String| s@)
}

/// Equality of two character sequences.
pub fn chars_equal(a: &Vec<char>, b: &Vec<char>) -> (r: bool)
    ensures
        r == (a@ == b@),
{
    if a.len() != b.len() {
        return false;
    }
    let mut i: usize = 0;
    while i < a.len()
        invariant
            a.len() == b.len(),
            i <= a.len(),
            forall|j: int| 0 <= j < i ==> a@[j] == b@[j],
        decreases a.len() - i,
    {
        if a[i] != b[i] {
            return false;
        }
        i = i + 1;
    }
    assert(a@ =~= b@);
    true
}

/// The characters that Unicode gives the White_Space property; these are
/// the characters on which `str::split_whitespace` splits.
pub open spec fn is_whitespace(c: char) -> bool {
    ||| ('\u{9}' <= c && c <= '\u{d}')
    ||| c == ' '
    ||| c == '\u{85}'
    ||| c == '\u{a0}'
    ||| c == '\u{1680}'
    ||| ('\u{2000}' <= c && c <= '\u{200a}')
    ||| c == '\u{2028}'
    ||| c == '\u{2029}'
    ||| c == '\u{202f}'
    ||| c == '\u{205f}'
    ||| c == '\u{3000}'
}

pub fn char_is_whitespace(c: char) -> (r: bool)
    ensures
        r == is_whitespace(c),
{
    ('\u{9}' <= c && c <= '\u{d}') || c == ' ' || c == '\u{85}' || c == '\u{a0}' || c == '\u{1680}'
        || ('\u{2000}' <= c && c <= '\u{200a}') || c == '\u{2028}' || c == '\u{2029}' || c
        == '\u{202f}' || c == '\u{205f}' || c == '\u{3000}'
}

/// The first index at or after `i` whose character is not white space
/// (or the length, when there is none).
pub open spec fn skip_space(s: Seq<char>, i: int) -> int
    decreases s.len() - i,
{
    if i < 0 || i >= s.len() {
        if i < 0 { 0 } else { s.len() as int }
    } else if is_whitespace(s[i]) {
        skip_space(s, i + 1)
    } else {
        i
    }
}

/// The first index at or after `i` whose character is white space
/// (or the length, when there is none).
pub open spec fn word_end(s: Seq<char>, i: int) -> int
    decreases s.len() - i,
{
    if i < 0 || i >= s.len() {
        if i < 0 { 0 } else { s.len() as int }
    } else if is_whitespace(s[i]) {
        i
    } else {
        word_end(s, i + 1)
    }
}

pub proof fn lemma_skip_space_bounds(s: Seq<char>, i: int)
    requires
        0 <= i <= s.len(),
    ensures
        i <= skip_space(s, i) <= s.len(),
        skip_space(s, i) < s.len() ==> !is_whitespace(s[skip_space(s, i)]),
        forall|j: int| i <= j < skip_space(s, i) ==> is_whitespace(#[trigger] s[j]),
    decreases s.len() - i,
{
    if i < s.len() && is_whitespace(s[i]) {
        lemma_skip_space_bounds(s, i + 1);
    }
}

pub proof fn lemma_word_end_bounds(s: Seq<char>, i: int)
    requires
        0 <= i <= s.len(),
    ensures
        i <= word_end(s, i) <= s.len(),
        word_end(s, i) < s.len() ==> is_whitespace(s[word_end(s, i)]),
        forall|j: int| i <= j < word_end(s, i) ==> !is_whitespace(#[trigger] s[j]),
    decreases s.len() - i,
{
    if i < s.len() && !is_whitespace(s[i]) {
        lemma_word_end_bounds(s, i + 1);
    }
}

/// The word of `s` that `split_whitespace` yields first, or the empty
/// sequence when `s` has none.
pub open spec fn first_word(s: Seq<char>) -> Seq<char> {
    let a = skip_space(s, 0);
    s.subrange(a, word_end(s, a))
}

/// The word of `s` that `split_whitespace` yields second, or the empty
/// sequence when `s` has fewer than two.
pub open spec fn second_word(s: Seq<char>) -> Seq<char> {
    let a = skip_space(s, 0);
    let b = word_end(s, a);
    let c = skip_space(s, b);
    s.subrange(c, word_end(s, c))
}

fn exec_skip_space(s: &Vec<char>, i: usize) -> (r: usize)
    requires
        i <= s@.len(),
    ensures
        r == skip_space(s@, i as int),
{
    let mut j = i;
    while j < s.len() && char_is_whitespace(s[j])
        invariant
            i <= j <= s@.len(),
            skip_space(s@, i as int) == skip_space(s@, j as int),
        decreases s.len() - j,
    {
        j = j + 1;
    }
    j
}

fn exec_word_end(s: &Vec<char>, i: usize) -> (r: usize)
    requires
        i <= s@.len(),
    ensures
        r == word_end(s@, i as int),
{
    let mut j = i;
    while j < s.len() && !char_is_whitespace(s[j])
        invariant
            i <= j <= s@.len(),
            word_end(s@, i as int) == word_end(s@, j as int),
        decreases s.len() - j,
    {
        j = j + 1;
    }
    j
}

fn subrange_of(s: &Vec<char>, from: usize, to: usize) -> (r: Vec<char>)
    requires
        from <= to <= s@.len(),
    ensures
        r@ == s@.subrange(from as int, to as int),
{
    let mut r: Vec<char> = Vec::new();
    let mut k = from;
    while k < to
        invariant
            from <= k <= to <= s@.len(),
            r@ == s@.subrange(from as int, k as int),
        decreases to - k,
    {
        r.push(s[k]);
        k = k + 1;
        assert(r@ =~= s@.subrange(from as int, k as int));
    }
    r
}

/// The first two words of `s` in the sense of `str::split_whitespace`,
/// each empty where `s` has no such word.
pub fn first_two_words(s: &str) -> (r: (String, String))
    ensures
        r.0@ == first_word(s@),
        r.1@ == second_word(s@),
{
    let v = chars_of(s);
    let a = exec_skip_space(&v, 0);
    proof { lemma_skip_space_bounds(v@, 0); }
    let b = exec_word_end(&v, a);
    proof { lemma_word_end_bounds(v@, a as int); }
    let c = exec_skip_space(&v, b);
    proof { lemma_skip_space_bounds(v@, b as int); }
    let d = exec_word_end(&v, c);
    proof { lemma_word_end_bounds(v@, c as int); }
    let w1 = subrange_of(&v, a, b);
    let w2 = subrange_of(&v, c, d);
    (string_of(&w1), string_of(&w2))
}

/// The first index at or after `i` holding `c` (or the length).
pub open spec fn find_char(s: Seq<char>, c: char, i: int) -> int
    decreases s.len() - i,
{
    if i < 0 || i >= s.len() {
        if i < 0 { 0 } else { s.len() as int }
    } else if s[i] == c {
        i
    } else {
        find_char(s, c, i + 1)
    }
}

pub proof fn lemma_find_char_bounds(s: Seq<char>, c: char, i: int)
    requires
        0 <= i <= s.len(),
    ensures
        i <= find_char(s, c, i) <= s.len(),
        find_char(s, c, i) < s.len() ==> s[find_char(s, c, i)] == c,
        forall|j: int| i <= j < find_char(s, c, i) ==> #[trigger] s[j] != c,
    decreases s.len() - i,
{
    if i < s.len() && s[i] != c {
        lemma_find_char_bounds(s, c, i + 1);
    }
}

fn exec_find_char(s: &Vec<char>, c: char, i: usize) -> (r: usize)
    requires
        i <= s@.len(),
    ensures
        r == find_char(s@, c, i as int),
{
    let mut j = i;
    while j < s.len() && s[j] != c
        invariant
            i <= j <= s@.len(),
            find_char(s@, c, i as int) == find_char(s@, c, j as int),
        decreases s.len() - j,
    {
        j = j + 1;
    }
    j
}

/// The piece that `str::split(c)` yields first: everything before the
/// first `c`.
pub open spec fn first_piece(s: Seq<char>, c: char) -> Seq<char> {
    s.take(find_char(s, c, 0))
}

/// The piece that `str::split(c)` yields second, or the empty sequence
/// when `s` holds no `c`.
pub open spec fn second_piece(s: Seq<char>, c: char) -> Seq<char> {
    let a = find_char(s, c, 0);
    if a >= s.len() {
        Seq::empty()
    } else {
        s.subrange(a + 1, find_char(s, c, a + 1))
    }
}

/// The first two pieces of `s` split at `c`, the second one empty where
/// `s` holds no `c`.
pub fn first_two_pieces(s: &str, c: char) -> (r: (String, String))
    ensures
        r.0@ == first_piece(s@, c),
        r.1@ == second_piece(s@, c),
{
    let v = chars_of(s);
    let a = exec_find_char(&v, c, 0);
    proof { lemma_find_char_bounds(v@, c, 0); }
    let w1 = subrange_of(&v, 0, a);
    assert(v@.subrange(0, a as int) =~= v@.take(a as int));
    if a >= v.len() {
        (string_of(&w1), String::new())
    } else {
        let b = exec_find_char(&v, c, a + 1);
        proof { lemma_find_char_bounds(v@, c, (a + 1) as int); }
        let w2 = subrange_of(&v, a + 1, b);
        (string_of(&w1), string_of(&w2))
    }
}

/// All the pieces of `s` split at every `c`, as `str::split(c)` yields
/// them: always at least one, empty pieces included.
pub open spec fn pieces(s: Seq<char>, c: char) -> Seq<Seq<char>>
    decreases s.len(),
{
    let a = find_char(s, c, 0);
    if a >= s.len() {
        seq![s]
    } else {
        proof {
            lemma_find_char_bounds(s, c, 0);
        }
        seq![s.take(a)] + pieces(s.skip(a + 1), c)
    }
}

proof fn lemma_find_char_shift(s: Seq<char>, c: char, k: int, i: int)
    requires
        0 <= k <= s.len(),
        0 <= i <= s.len() - k,
    ensures
        find_char(s.skip(k), c, i) + k == find_char(s, c, i + k),
    decreases s.len() - k - i,
{
    if i < s.len() - k && s.skip(k)[i] != c {
        lemma_find_char_shift(s, c, k, i + 1);
    }
}

/// Splits `s` at every `c`, as `str::split(c)` does.
pub fn split_at_char(s: &str, c: char) -> (r: Vec<String>)
    ensures
        r@.len() == pieces(s@, c).len(),
        forall|i: int| 0 <= i < r@.len() ==> #[trigger] r@[i]@ == pieces(s@, c)[i],
{
    let v = chars_of(s);
    let mut out: Vec<String> = Vec::new();
    let mut start: usize = 0;
    proof {
        assert(v@.skip(0) =~= v@);
    }
    loop
        invariant
            start <= v@.len(),
            v@ == s@,
            out@.len() + pieces(v@.skip(start as int), c).len() == pieces(v@, c).len(),
            forall|i: int| 0 <= i < out@.len() ==> #[trigger] out@[i]@ == pieces(v@, c)[i],
            forall|i: int|
                0 <= i < pieces(v@.skip(start as int), c).len() ==> #[trigger] pieces(
                    v@.skip(start as int),
                    c,
                )[i] == pieces(v@, c)[out@.len() + i],
        decreases v@.len() - start,
    {
        let ghost rest = v@.skip(start as int);
        let e = exec_find_char(&v, c, start);
        proof {
            lemma_find_char_bounds(v@, c, start as int);
            lemma_find_char_shift(v@, c, start as int, 0);
        }
        let piece = subrange_of(&v, start, e);
        let ps = string_of(&piece);
        let ghost n0: int = out@.len() as int;
        if e >= v.len() {
            proof {
                assert(rest =~= piece@);
                assert(pieces(rest, c) == seq![rest]);
                assert(pieces(rest, c)[0] == pieces(v@, c)[n0 + 0]);
            }
            out.push(ps);
            assert forall|i: int| 0 <= i < out@.len() implies #[trigger] out@[i]@ == pieces(v@, c)[i] by {
                if i < n0 {
                } else {
                    assert(i == n0);
                }
            }
            return out;
        }
        let ghost rest2 = v@.skip(e + 1);
        proof {
            assert(rest.take(e - start) =~= piece@);
            assert(rest.skip(e - start + 1) =~= rest2);
            assert(pieces(rest, c) == seq![rest.take(e - start)] + pieces(rest2, c));
            assert(pieces(rest, c)[0] == pieces(v@, c)[n0 + 0]);
            assert forall|i: int| 0 <= i < pieces(rest2, c).len() implies #[trigger] pieces(rest2, c)[i]
                == pieces(v@, c)[n0 + 1 + i] by {
                assert(pieces(rest, c)[1 + i] == pieces(rest2, c)[i]);
                assert(pieces(rest, c)[1 + i] == pieces(v@, c)[n0 + (1 + i)]);
            }
        }
        out.push(ps);
        start = e + 1;
        assert forall|i: int| 0 <= i < out@.len() implies #[trigger] out@[i]@ == pieces(v@, c)[i] by {
            if i < n0 {
            } else {
                assert(i == n0);
            }
        }
    }
}

/// `s` with every `from` replaced by `to`.
pub open spec fn replace_char(s: Seq<char>, from: char, to: char) -> Seq<char> {
    s.map_values(|x: char| if x == from { to } else { x })
}

pub fn replace_char_exec(s: &Vec<char>, from: char, to: char) -> (r: Vec<char>)
    ensures
        r@ == replace_char(s@, from, to),
{
    let mut r: Vec<char> = Vec::new();
    let mut i: usize = 0;
    while i < s.len()
        invariant
            i <= s@.len(),
            r@ == replace_char(s@.take(i as int), from, to),
        decreases s.len() - i,
    {
        let x = s[i];
        r.push(if x == from { to } else { x });
        i = i + 1;
        assert(r@ =~= replace_char(s@.take(i as int), from, to));
    }
    assert(s@.take(s@.len() as int) =~= s@);
    r
}

/// Whether `s` ends with `p`.
pub open spec fn ends_with(s: Seq<char>, p: Seq<char>) -> bool {
    p.len() <= s.len() && s.skip(s.len() - p.len()) == p
}

pub fn ends_with_exec(s: &Vec<char>, p: &Vec<char>) -> (r: bool)
    ensures
        r == ends_with(s@, p@),
{
    if p.len() > s.len() {
        return false;
    }
    let off = s.len() - p.len();
    let mut i: usize = 0;
    while i < p.len()
        invariant
            off + p.len() == s.len(),
            i <= p@.len(),
            forall|j: int| 0 <= j < i ==> s@[off + j] == p@[j],
        decreases p.len() - i,
    {
        if s[off + i] != p[i] {
            assert(s@.skip(off as int)[i as int] != p@[i as int]);
            return false;
        }
        i = i + 1;
    }
    assert(s@.skip(off as int) =~= p@);
    true
}

/// `s` with every trailing copy of `p` removed, as
/// `str::trim_end_matches(p)` returns it (an empty `p` removes nothing).
pub open spec fn trim_end_all(s: Seq<char>, p: Seq<char>) -> Seq<char>
    decreases s.len(),
{
    if p.len() > 0 && ends_with(s, p) {
        trim_end_all(s.take(s.len() - p.len()), p)
    } else {
        s
    }
}

pub fn trim_end_all_exec(s: &Vec<char>, p: &Vec<char>) -> (r: Vec<char>)
    ensures
        r@ == trim_end_all(s@, p@),
{
    let mut cur = s.clone();
    assert(cur@ =~= s@);
    if p.len() == 0 {
        return cur;
    }
    while ends_with_exec(&cur, p)
        invariant
            p@.len() > 0,
            trim_end_all(cur@, p@) == trim_end_all(s@, p@),
        decreases cur@.len(),
    {
        let n = cur.len() - p.len();
        let ghost before = cur@;
        cur.truncate(n);
        assert(cur@ =~= before.take(n as int));
    }
    cur
}

/// The decimal digit character of `d` (`0 <= d < 10`).
pub open spec fn digit_char(d: nat) -> char {
    if d == 0 { '0' }
    else if d == 1 { '1' }
    else if d == 2 { '2' }
    else if d == 3 { '3' }
    else if d == 4 { '4' }
    else if d == 5 { '5' }
    else if d == 6 { '6' }
    else if d == 7 { '7' }
    else if d == 8 { '8' }
    else if d == 9 { '9' }
    else if d == 10 { 'a' }
    else if d == 11 { 'b' }
    else if d == 12 { 'c' }
    else if d == 13 { 'd' }
    else if d == 14 { 'e' }
    else { 'f' }
}

fn exec_digit_char(d: u64) -> (c: char)
    requires
        d < 16,
    ensures
        c == digit_char(d as nat),
{
    if d == 0 { '0' }
    else if d == 1 { '1' }
    else if d == 2 { '2' }
    else if d == 3 { '3' }
    else if d == 4 { '4' }
    else if d == 5 { '5' }
    else if d == 6 { '6' }
    else if d == 7 { '7' }
    else if d == 8 { '8' }
    else if d == 9 { '9' }
    else if d == 10 { 'a' }
    else if d == 11 { 'b' }
    else if d == 12 { 'c' }
    else if d == 13 { 'd' }
    else if d == 14 { 'e' }
    else { 'f' }
}

/// The digits of `n` in base `b` (2 to 16), most significant first, with
/// no leading zero; `0` is written `0`. This is how `{}` and `{:x}` print
/// an unsigned integer.
pub open spec fn digits(n: nat, b: nat) -> Seq<char>
    decreases n,
{
    if b < 2 || n < b {
        seq![digit_char(n)]
    } else {
        proof {
            assert(n / b < n) by (nonlinear_arith)
                requires
                    2 <= b,
                    b <= n,
            ;
        }
        digits(n / b, b).push(digit_char(n % b))
    }
}

/// The digits of `n` in base `b`, as characters.
pub fn digits_exec(n: u128, b: u128) -> (r: Vec<char>)
    requires
        2 <= b <= 16,
    ensures
        r@ == digits(n as nat, b as nat),
        r@.len() >= 1,
    decreases n,
{
    if n < b {
        let mut r: Vec<char> = Vec::new();
        r.push(exec_digit_char(n as u64));
        assert(r@ =~= seq![digit_char(n as nat)]);
        r
    } else {
        assert(n / b < n && n % b < b) by (nonlinear_arith)
            requires
                2 <= b,
                b <= n,
        ;
        let mut r = digits_exec(n / b, b);
        r.push(exec_digit_char((n % b) as u64));
        r
    }
}

/// The `k` lowest hexadecimal digits of `n`, most significant first,
/// zeros included.
pub open spec fn fixed_hex(n: nat, k: nat) -> Seq<char>
    decreases k,
{
    if k == 0 {
        Seq::empty()
    } else {
        fixed_hex(n / 16, (k - 1) as nat).push(digit_char(n % 16))
    }
}

pub fn fixed_hex_exec(n: u128, k: usize) -> (r: Vec<char>)
    ensures
        r@ == fixed_hex(n as nat, k as nat),
        r@.len() == k,
    decreases k,
{
    if k == 0 {
        Vec::new()
    } else {
        let mut r = fixed_hex_exec(n / 16, k - 1);
        r.push(exec_digit_char((n % 16) as u64));
        r
    }
}

/// A 128-bit identifier in the hyphenated lower-case form that
/// `uuid::Uuid` displays: 8-4-4-4-12 hexadecimal digits.
pub open spec fn spec_uuid_text(id: u128) -> Seq<char> {
    spec_uuid_prefix(fixed_hex(id as nat, 32), 32)
}

pub fn uuid_text(id: u128) -> (r: String)
    ensures
        r@ == spec_uuid_text(id),
{
    let h = fixed_hex_exec(id, 32);
    let mut out: Vec<char> = Vec::new();
    let mut i: usize = 0;
    while i < 32
        invariant
            h@.len() == 32,
            i <= 32,
            out@ == spec_uuid_prefix(h@, i as int),
        decreases 32 - i,
    {
        if i == 8 || i == 12 || i == 16 || i == 20 {
            out.push('-');
        }
        out.push(h[i]);
        i = i + 1;
        proof {
            lemma_uuid_prefix_step(h@, (i - 1) as int);
        }
    }
    string_of(&out)
}

/// The text of the first `i` digits of `h` with the hyphens of a UUID
/// before digits 8, 12, 16 and 20.
pub open spec fn spec_uuid_prefix(h: Seq<char>, i: int) -> Seq<char>
    decreases i,
{
    if i <= 0 {
        Seq::empty()
    } else if i - 1 == 8 || i - 1 == 12 || i - 1 == 16 || i - 1 == 20 {
        spec_uuid_prefix(h, i - 1).push('-').push(h[i - 1])
    } else {
        spec_uuid_prefix(h, i - 1).push(h[i - 1])
    }
}

proof fn lemma_uuid_prefix_step(h: Seq<char>, i: int)
    requires
        0 <= i < 32,
    ensures
        spec_uuid_prefix(h, i + 1) == (if i == 8 || i == 12 || i == 16 || i == 20 {
            spec_uuid_prefix(h, i).push('-').push(h[i])
        } else {
            spec_uuid_prefix(h, i).push(h[i])
        }),
{
}

/// `n` printed in decimal, as `n.to_string()` prints it.
pub fn decimal_string(n: u128) -> (s: String)
    ensures
        s@ == digits(n as nat, 10),
{
    let v = digits_exec(n, 10);
    string_of(&v)
}

} // verus!
