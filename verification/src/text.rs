//! Small text helpers with exact contracts: string comparison and decimal
//! rendering of integers.

use vstd::prelude::*;
use vstd::string::StringSliceAdditionalSpecFns;

verus! {

/// The character of a decimal digit `d` (0 through 9).
pub open spec fn digit_char(d: nat) -> char {
    if d == 0 { '0' }
    else if d == 1 { '1' }
    else if d == 2 { '2' }
    else if d == 3 { '3' }
    else if d == 4 { '4' }
    else if d == 5 { '5' }
    else if d == 6 { '6' }
    else if d == 7 { '7' }
    else if d == 8 { '8' }
    else { '9' }
}

/// The decimal representation of `n`, without leading zeros.
pub open spec fn decimal(n: nat) -> Seq<char>
    decreases n,
{
    if n < 10 {
        seq![digit_char(n)]
    } else {
        decimal(n / 10).push(digit_char(n % 10))
    }
}

/// Whether two strings hold the same characters.
pub fn str_eq(a: &str, b: &str) -> (r: bool)
    ensures
        r == (a@ == b@),
{
    let x: String = a.to_owned();
    let y: String = b.to_owned();
    x == y
}

/// The one-character string of a decimal digit.
pub fn digit_str(d: u64) -> (r: &'static str)
    requires
        d < 10,
    ensures
        r@ == seq![digit_char(d as nat)],
{
    proof {
        reveal_strlit("0");
        reveal_strlit("1");
        reveal_strlit("2");
        reveal_strlit("3");
        reveal_strlit("4");
        reveal_strlit("5");
        reveal_strlit("6");
        reveal_strlit("7");
        reveal_strlit("8");
        reveal_strlit("9");
    }
    if d == 0 { "0" }
    else if d == 1 { "1" }
    else if d == 2 { "2" }
    else if d == 3 { "3" }
    else if d == 4 { "4" }
    else if d == 5 { "5" }
    else if d == 6 { "6" }
    else if d == 7 { "7" }
    else if d == 8 { "8" }
    else { "9" }
}

/// Renders `n` in decimal.
pub fn u64_to_string(n: u64) -> (r: String)
    ensures
        r@ == decimal(n as nat),
    decreases n,
{
    if n < 10 {
        String::from_str(digit_str(n))
    } else {
        let mut s = u64_to_string(n / 10);
        s.append(digit_str(n % 10));
        s
    }
}

/// An owned copy of a string slice.
pub fn owned(x: &str) -> (r: String)
    ensures
        r@ == x@,
{
    String::from_str(x)
}

/// The character views of a sequence of strings.
pub open spec fn strs(v: Seq<String>) -> Seq<Seq<char>> {
    v.map_values(|x: String| x@)
}

/// Whether `v` holds a string equal to `x`.
pub fn contains_str(v: &Vec<String>, x: &str) -> (r: bool)
    ensures
        r == strs(v@).contains(x@),
{
    let mut i: usize = 0;
    while i < v.len()
        invariant
            i <= v@.len(),
            forall|j: int| 0 <= j < i ==> v@[j]@ != x@,
        decreases v@.len() - i,
    {
        if str_eq(v[i].as_str(), x) {
            assert(strs(v@)[i as int] == x@);
            return true;
        }
        i = i + 1;
    }
    assert forall|j: int| 0 <= j < strs(v@).len() implies strs(v@)[j] != x@ by {
        assert(strs(v@)[j] == v@[j]@);
    }
    false
}

/// Concatenates two strings.
pub fn concat(a: &str, b: &str) -> (r: String)
    ensures
        r@ == a@ + b@,
{
    let mut s = String::from_str(a);
    s.append(b);
    s
}


/// ASCII lower-casing of one character; other characters are kept.
pub open spec fn lower_char(c: char) -> char {
    if c == 'A' { 'a' } else if c == 'B' { 'b' } else if c == 'C' { 'c' }
    else if c == 'D' { 'd' } else if c == 'E' { 'e' } else if c == 'F' { 'f' }
    else if c == 'G' { 'g' } else if c == 'H' { 'h' } else if c == 'I' { 'i' }
    else if c == 'J' { 'j' } else if c == 'K' { 'k' } else if c == 'L' { 'l' }
    else if c == 'M' { 'm' } else if c == 'N' { 'n' } else if c == 'O' { 'o' }
    else if c == 'P' { 'p' } else if c == 'Q' { 'q' } else if c == 'R' { 'r' }
    else if c == 'S' { 's' } else if c == 'T' { 't' } else if c == 'U' { 'u' }
    else if c == 'V' { 'v' } else if c == 'W' { 'w' } else if c == 'X' { 'x' }
    else if c == 'Y' { 'y' } else if c == 'Z' { 'z' } else { c }
}

/// ASCII lower-casing of a whole character sequence.
pub open spec fn lower(s: Seq<char>) -> Seq<char> {
    s.map_values(|c: char| lower_char(c))
}

/// The sequence without its leading run of `c`.
pub open spec fn strip_leading(s: Seq<char>, c: char) -> Seq<char>
    decreases s.len(),
{
    if s.len() > 0 && s[0] == c {
        strip_leading(s.drop_first(), c)
    } else {
        s
    }
}

pub fn ascii_lower(c: char) -> (r: char)
    ensures
        r == lower_char(c),
{
    if c == 'A' { 'a' } else if c == 'B' { 'b' } else if c == 'C' { 'c' }
    else if c == 'D' { 'd' } else if c == 'E' { 'e' } else if c == 'F' { 'f' }
    else if c == 'G' { 'g' } else if c == 'H' { 'h' } else if c == 'I' { 'i' }
    else if c == 'J' { 'j' } else if c == 'K' { 'k' } else if c == 'L' { 'l' }
    else if c == 'M' { 'm' } else if c == 'N' { 'n' } else if c == 'O' { 'o' }
    else if c == 'P' { 'p' } else if c == 'Q' { 'q' } else if c == 'R' { 'r' }
    else if c == 'S' { 's' } else if c == 'T' { 't' } else if c == 'U' { 'u' }
    else if c == 'V' { 'v' } else if c == 'W' { 'w' } else if c == 'X' { 'x' }
    else if c == 'Y' { 'y' } else if c == 'Z' { 'z' } else { c }
}

proof fn lemma_strip_step(s: Seq<char>, i: int, c: char)
    requires
        0 <= i < s.len(),
        s[i] == c,
    ensures
        strip_leading(s.skip(i), c) == strip_leading(s.skip(i + 1), c),
{
    assert(s.skip(i).drop_first() =~= s.skip(i + 1));
}

/// The number of leading `c` characters of `s`; `s` without them is
/// `strip_leading(s@, c)`.
pub fn leading_count(s: &str, c: char) -> (n: usize)
    ensures
        n <= s@.len(),
        strip_leading(s@, c) == s@.skip(n as int),
{
    let len = s.unicode_len();
    let mut i: usize = 0;
    assert(s@.skip(0) =~= s@);
    while i < len && s.get_char(i) == c
        invariant
            len == s@.len(),
            i <= len,
            strip_leading(s@, c) == strip_leading(s@.skip(i as int), c),
        decreases len - i,
    {
        proof {
            lemma_strip_step(s@, i as int, c);
        }
        i = i + 1;
    }
    proof {
        if i < len {
            assert(s@.skip(i as int)[0] == s@[i as int]);
        }
    }
    i
}

/// Whether the characters of `s` from position `start` on, lower-cased,
/// spell `word`.
pub fn lower_matches(s: &str, start: usize, word: &str) -> (r: bool)
    requires
        start <= s@.len(),
    ensures
        r == (lower(s@.skip(start as int)) == word@),
{
    let n = s.unicode_len();
    let m = word.unicode_len();
    if n - start != m {
        assert(lower(s@.skip(start as int)).len() != word@.len());
        return false;
    }
    let mut k: usize = 0;
    while k < m
        invariant
            n == s@.len(),
            m == word@.len(),
            n - start == m,
            start <= n,
            k <= m,
            forall|j: int| 0 <= j < k ==> lower_char(#[trigger] s@[start + j]) == word@[j],
        decreases m - k,
    {
        if ascii_lower(s.get_char(start + k)) != word.get_char(k) {
            assert(lower(s@.skip(start as int))[k as int] != word@[k as int]);
            return false;
        }
        k = k + 1;
    }
    assert forall|j: int| 0 <= j < m implies #[trigger] lower(s@.skip(start as int))[j] == word@[j] by {
        assert(s@.skip(start as int)[j] == s@[start + j]);
    }
    assert(lower(s@.skip(start as int)) =~= word@);
    true
}


/// Unicode's White_Space property, which `char::is_whitespace` tests.
pub open spec fn white_space(c: char) -> bool {
    ||| '\u{9}' <= c <= '\u{d}'
    ||| c == ' '
    ||| c == '\u{85}'
    ||| c == '\u{a0}'
    ||| c == '\u{1680}'
    ||| '\u{2000}' <= c <= '\u{200a}'
    ||| c == '\u{2028}'
    ||| c == '\u{2029}'
    ||| c == '\u{202f}'
    ||| c == '\u{205f}'
    ||| c == '\u{3000}'
}

/// Whether `c` is white space.
pub fn is_white_space(c: char) -> (r: bool)
    ensures
        r == white_space(c),
{
    ('\u{9}' <= c && c <= '\u{d}') || c == ' ' || c == '\u{85}' || c == '\u{a0}' || c == '\u{1680}' || ('\u{2000}'
        <= c && c <= '\u{200a}') || c == '\u{2028}' || c == '\u{2029}' || c == '\u{202f}' || c == '\u{205f}' || c
        == '\u{3000}'
}

/// The number of leading white-space characters of `s`.
pub open spec fn blank_prefix(s: Seq<char>) -> nat
    decreases s.len(),
{
    if s.len() > 0 && white_space(s[0]) {
        1 + blank_prefix(s.drop_first())
    } else {
        0
    }
}

/// The number of leading characters of `s` that are not white space.
pub open spec fn word_prefix(s: Seq<char>) -> nat
    decreases s.len(),
{
    if s.len() > 0 && !white_space(s[0]) {
        1 + word_prefix(s.drop_first())
    } else {
        0
    }
}

/// The leading run of white space, and the leading word, lie within the
/// text; a text that starts with a letter starts with a word of at least
/// one character and no white space.
pub proof fn lemma_prefix_bounds(s: Seq<char>)
    ensures
        blank_prefix(s) <= s.len(),
        word_prefix(s) <= s.len(),
        s.len() > 0 && !white_space(s[0]) ==> word_prefix(s) >= 1,
        s.len() > 0 && !white_space(s[0]) ==> blank_prefix(s) == 0,
    decreases s.len(),
{
    if s.len() > 0 {
        lemma_prefix_bounds(s.drop_first());
    }
}

/// The words of `s`: its maximal runs of characters that are not white
/// space, in order, as `str::split_whitespace` yields them.
pub open spec fn words(s: Seq<char>) -> Seq<Seq<char>>
    decreases s.len(),
{
    let t = s.skip(blank_prefix(s) as int);
    if t.len() == 0 {
        seq![]
    } else {
        proof {
            lemma_prefix_bounds(s);
            lemma_prefix_bounds(t);
            if blank_prefix(s) < s.len() {
                lemma_blank_prefix_ends(s);
            }
        }
        seq![t.take(word_prefix(t) as int)] + words(t.skip(word_prefix(t) as int))
    }
}

/// The leading run of white space is all white space, and what follows it
/// is not.
pub proof fn lemma_blank_prefix_ends(s: Seq<char>)
    requires
        blank_prefix(s) < s.len(),
    ensures
        !white_space(s[blank_prefix(s) as int]),
        forall|k: int| 0 <= k < blank_prefix(s) ==> white_space(s[k]),
    decreases s.len(),
{
    lemma_prefix_bounds(s);
    if s.len() > 0 && white_space(s[0]) {
        lemma_blank_prefix_ends(s.drop_first());
        assert forall|k: int| 0 <= k < blank_prefix(s) implies white_space(s[k]) by {
            if k > 0 {
                assert(s[k] == s.drop_first()[k - 1]);
            }
        }
    }
}

proof fn lemma_word_prefix_at(s: Seq<char>, n: int)
    requires
        0 <= n <= s.len(),
        forall|k: int| 0 <= k < n ==> !white_space(s[k]),
        n == s.len() || white_space(s[n]),
    ensures
        word_prefix(s) == n,
    decreases s.len(),
{
    if n > 0 {
        assert forall|k: int| 0 <= k < n - 1 implies !white_space(s.drop_first()[k]) by {
            assert(s.drop_first()[k] == s[k + 1]);
        }
        if n < s.len() {
            assert(s.drop_first()[n - 1] == s[n]);
        }
        lemma_word_prefix_at(s.drop_first(), n - 1);
    }
}

/// A leading white-space character adds no word.
proof fn lemma_words_skip_blank(s: Seq<char>)
    requires
        s.len() > 0,
        white_space(s[0]),
    ensures
        words(s) == words(s.drop_first()),
{
    lemma_prefix_bounds(s.drop_first());
    assert(blank_prefix(s) == 1 + blank_prefix(s.drop_first()));
    assert(s.skip(blank_prefix(s) as int) =~= s.drop_first().skip(blank_prefix(s.drop_first()) as int));
}

/// A leading word of `n` characters followed by white space or the end is
/// the first word.
proof fn lemma_words_take_word(s: Seq<char>, n: int)
    requires
        0 < n <= s.len(),
        forall|k: int| 0 <= k < n ==> !white_space(s[k]),
        n == s.len() || white_space(s[n]),
    ensures
        words(s) == seq![s.take(n)] + words(s.skip(n)),
{
    lemma_prefix_bounds(s);
    assert(s.skip(0) =~= s);
    lemma_word_prefix_at(s, n);
}

/// The words of `s`, as `str::split_whitespace` yields them.
pub fn split_words(s: &str) -> (r: Vec<String>)
    ensures
        strs(r@) == words(s@),
{
    let len = s.unicode_len();
    let mut out: Vec<String> = Vec::new();
    let mut i: usize = 0;
    assert(s@.skip(0) =~= s@);
    while i < len
        invariant
            len == s@.len(),
            i <= len,
            words(s@) == strs(out@) + words(s@.skip(i as int)),
        decreases len - i,
    {
        if is_white_space(s.get_char(i)) {
            proof {
                lemma_words_skip_blank(s@.skip(i as int));
                assert(s@.skip(i as int).drop_first() =~= s@.skip(i + 1));
            }
            i = i + 1;
        } else {
            let mut j: usize = i + 1;
            while j < len && !is_white_space(s.get_char(j))
                invariant
                    len == s@.len(),
                    i < j <= len,
                    forall|k: int| i <= k < j ==> !white_space(s@[k]),
                decreases len - j,
            {
                j = j + 1;
            }
            let word = s.substring_char(i, j);
            let ghost before = out@;
            out.push(owned(word));
            proof {
                let t = s@.skip(i as int);
                assert forall|k: int| 0 <= k < j - i implies !white_space(t[k]) by {
                    assert(t[k] == s@[i + k]);
                }
                if j < len {
                    assert(t[j - i] == s@[j as int]);
                }
                lemma_words_take_word(t, j - i);
                assert(t.take(j - i) =~= word@);
                assert(t.skip(j - i) =~= s@.skip(j as int));
                assert(strs(out@) =~= strs(before).push(word@));
                assert(strs(before) + words(s@.skip(i as int)) =~= strs(out@) + words(s@.skip(j as int)));
            }
            i = j;
        }
    }
    proof {
        assert(s@.skip(i as int) =~= Seq::<char>::empty());
        assert(strs(out@) + words(s@.skip(i as int)) =~= strs(out@));
    }
    out
}

/// The words joined with single spaces between them.
pub open spec fn join_spaced(ws: Seq<Seq<char>>) -> Seq<char>
    decreases ws.len(),
{
    if ws.len() == 0 {
        seq![]
    } else if ws.len() == 1 {
        ws[0]
    } else {
        join_spaced(ws.drop_last()) + " "@ + ws.last()
    }
}

/// `parts[from..]` joined with single spaces between them.
pub fn join_from(parts: &Vec<String>, from: usize) -> (r: String)
    requires
        from <= parts@.len(),
    ensures
        r@ == join_spaced(strs(parts@).skip(from as int)),
{
    let mut out = String::new();
    let mut k: usize = from;
    proof {
        assert(strs(parts@).skip(from as int).take(0) =~= Seq::<Seq<char>>::empty());
    }
    while k < parts.len()
        invariant
            from <= k <= parts@.len(),
            out@ == join_spaced(strs(parts@).skip(from as int).take(k - from)),
        decreases parts@.len() - k,
    {
        let ghost ws = strs(parts@).skip(from as int);
        proof {
            assert(ws.take(k - from + 1).drop_last() =~= ws.take(k - from));
            assert(ws.take(k - from + 1).last() == parts@[k as int]@);
        }
        if k > from {
            out.append(" ");
        } else {
            assert(ws.take(k - from) =~= Seq::<Seq<char>>::empty());
        }
        out.append(parts[k].as_str());
        k = k + 1;
    }
    proof {
        assert(strs(parts@).skip(from as int).take(k - from) =~= strs(parts@).skip(from as int));
    }
    out
}

/// In an ASCII string every byte position is a character boundary.
pub proof fn lemma_ascii_boundary(s: &str, k: int)
    requires
        vstd::utf8::is_ascii_chars(s@),
        0 <= k <= s.spec_bytes().len(),
    ensures
        vstd::utf8::is_char_boundary(s.spec_bytes(), k),
{
    let b = s.spec_bytes();
    vstd::utf8::encode_utf8_valid_utf8(s@);
    vstd::utf8::is_ascii_chars_encode_utf8(s@);
    if k == b.len() {
        vstd::utf8::is_char_boundary_start_end_of_seq(b);
    } else {
        vstd::utf8::is_char_boundary_iff_not_is_continuation_byte(b, k);
        assert(s@[k] as u8 == b[k]);
        assert(s@[k] <= '\u{7f}');
    }
}

/// A copy of a list of strings.
pub fn copy_strings(v: &Vec<String>) -> (r: Vec<String>)
    ensures
        r@ == v@,
{
    let mut out: Vec<String> = Vec::new();
    let mut i: usize = 0;
    while i < v.len()
        invariant
            i <= v@.len(),
            out@ == v@.take(i as int),
        decreases v@.len() - i,
    {
        out.push(v[i].clone());
        i = i + 1;
        assert(out@ =~= v@.take(i as int));
    }
    assert(v@.take(i as int) =~= v@);
    out
}
} // verus!
