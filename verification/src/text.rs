use vstd::prelude::*;

verus! {

/// Whether `c` has the Unicode `White_Space` property, the property that
/// `char::is_whitespace` tests and that `str::trim` strips.
pub open spec fn is_white_space(c: char) -> bool {
    let u = c as int;
    ||| 0x09 <= u <= 0x0d
    ||| u == 0x20
    ||| u == 0x85
    ||| u == 0xa0
    ||| u == 0x1680
    ||| 0x2000 <= u <= 0x200a
    ||| u == 0x2028
    ||| u == 0x2029
    ||| u == 0x202f
    ||| u == 0x205f
    ||| u == 0x3000
}

/// `s` without its leading white space.
pub open spec fn trim_start(s: Seq<char>) -> Seq<char>
    decreases s.len(),
{
    if s.len() > 0 && is_white_space(s[0]) {
        trim_start(s.drop_first())
    } else {
        s
    }
}

/// `s` without its trailing white space.
pub open spec fn trim_end(s: Seq<char>) -> Seq<char>
    decreases s.len(),
{
    if s.len() > 0 && is_white_space(s.last()) {
        trim_end(s.drop_last())
    } else {
        s
    }
}

/// `s` without leading and trailing white space, as `str::trim` gives it.
pub open spec fn trim(s: Seq<char>) -> Seq<char> {
    trim_end(trim_start(s))
}

/// The code point that `char::to_ascii_lowercase` gives for `c`: ASCII
/// upper-case letters are mapped to lower case, everything else is kept.
pub open spec fn ascii_lower_code(c: char) -> int {
    let u = c as int;
    if 0x41 <= u <= 0x5a {
        u + 0x20
    } else {
        u
    }
}

/// Whether `s.to_ascii_lowercase()` is `target`.
pub open spec fn lowercase_equals(s: Seq<char>, target: Seq<char>) -> bool {
    &&& s.len() == target.len()
    &&& forall|i: int| 0 <= i < s.len() ==> ascii_lower_code(#[trigger] s[i]) == target[i] as int
}

/// `char::is_whitespace`.
pub fn is_white_space_char(c: char) -> (b: bool)
    ensures
        b == is_white_space(c),
{
    let u = c as u32;
    (0x09 <= u && u <= 0x0d) || u == 0x20 || u == 0x85 || u == 0xa0 || u == 0x1680 || (0x2000
        <= u && u <= 0x200a) || u == 0x2028 || u == 0x2029 || u == 0x202f || u == 0x205f || u
        == 0x3000
}

/// The character positions `(start, end)` of `s.trim()` within `s`.
pub fn trim_bounds(s: &str) -> (r: (usize, usize))
    ensures
        r.0 <= r.1 <= s@.len(),
        s@.subrange(r.0 as int, r.1 as int) == trim(s@),
{
    let n = s.unicode_len();
    let mut i: usize = 0;
    assert(s@.subrange(0, n as int) =~= s@);
    while i < n
        invariant
            i <= n,
            n == s@.len(),
            trim_start(s@) == trim_start(s@.subrange(i as int, n as int)),
        ensures
            i == n || !is_white_space(s@[i as int]),
        decreases n - i,
    {
        if !is_white_space_char(s.get_char(i)) {
            break;
        }
        assert(s@.subrange(i as int, n as int).drop_first() =~= s@.subrange(i + 1, n as int));
        i = i + 1;
    }
    assert(trim_start(s@) == s@.subrange(i as int, n as int)) by {
        if i == n {
            assert(s@.subrange(i as int, n as int).len() == 0);
        } else {
            assert(s@.subrange(i as int, n as int)[0] == s@[i as int]);
        }
    }
    let mut j: usize = n;
    while j > i
        invariant
            i <= j <= n,
            n == s@.len(),
            trim_end(s@.subrange(i as int, n as int)) == trim_end(s@.subrange(i as int, j as int)),
        ensures
            j == i || !is_white_space(s@[j - 1]),
        decreases j,
    {
        if !is_white_space_char(s.get_char(j - 1)) {
            break;
        }
        assert(s@.subrange(i as int, j as int).drop_last() =~= s@.subrange(i as int, j - 1));
        j = j - 1;
    }
    assert(trim_end(s@.subrange(i as int, j as int)) == s@.subrange(i as int, j as int)) by {
        if j > i {
            assert(s@.subrange(i as int, j as int).last() == s@[j - 1]);
        }
    }
    (i, j)
}

/// Whether the characters `start..end` of `s`, turned to ASCII lower case,
/// are exactly `target`.
pub fn lowercase_range_equals(s: &str, start: usize, end: usize, target: &str) -> (b: bool)
    requires
        start <= end <= s@.len(),
    ensures
        b == lowercase_equals(s@.subrange(start as int, end as int), target@),
{
    let len = target.unicode_len();
    if end - start != len {
        return false;
    }
    let ghost part = s@.subrange(start as int, end as int);
    let mut k: usize = 0;
    while k < len
        invariant
            k <= len,
            len == target@.len(),
            end - start == len,
            start <= end <= s@.len(),
            part == s@.subrange(start as int, end as int),
            forall|i: int| 0 <= i < k ==> ascii_lower_code(#[trigger] part[i]) == target@[i] as int,
        decreases len - k,
    {
        let c = s.get_char(start + k);
        let t = target.get_char(k);
        let u = c as u32;
        let lower = if 0x41 <= u && u <= 0x5a {
            u + 0x20
        } else {
            u
        };
        assert(part[k as int] == c);
        if lower != t as u32 {
            return false;
        }
        k = k + 1;
    }
    true
}


/// Whether `s` and `t` differ at most in the ASCII case of their letters.
pub open spec fn ascii_case_equivalent(s: Seq<char>, t: Seq<char>) -> bool {
    &&& s.len() == t.len()
    &&& forall|i: int| 0 <= i < s.len() ==> ascii_lower_code(#[trigger] s[i]) == ascii_lower_code(t[i])
}

/// Whether every character of `s` is white space.
pub open spec fn all_white_space(s: Seq<char>) -> bool {
    forall|i: int| 0 <= i < s.len() ==> is_white_space(#[trigger] s[i])
}

/// Two characters that differ at most in ASCII case are both white space or
/// neither is.
proof fn lemma_white_space_case(a: char, b: char)
    requires
        ascii_lower_code(a) == ascii_lower_code(b),
    ensures
        is_white_space(a) == is_white_space(b),
{
}

/// Stripping leading white space keeps two strings equivalent up to ASCII case.
proof fn lemma_trim_start_case(s: Seq<char>, t: Seq<char>)
    requires
        ascii_case_equivalent(s, t),
    ensures
        ascii_case_equivalent(trim_start(s), trim_start(t)),
    decreases s.len(),
{
    if s.len() > 0 {
        lemma_white_space_case(s[0], t[0]);
        if is_white_space(s[0]) {
            assert(ascii_case_equivalent(s.drop_first(), t.drop_first())) by {
                assert forall|i: int| 0 <= i < s.len() - 1 implies ascii_lower_code(
                    #[trigger] s.drop_first()[i],
                ) == ascii_lower_code(t.drop_first()[i]) by {
                    assert(s.drop_first()[i] == s[i + 1]);
                    assert(t.drop_first()[i] == t[i + 1]);
                }
            }
            lemma_trim_start_case(s.drop_first(), t.drop_first());
        }
    }
}

/// Stripping trailing white space keeps two strings equivalent up to ASCII case.
proof fn lemma_trim_end_case(s: Seq<char>, t: Seq<char>)
    requires
        ascii_case_equivalent(s, t),
    ensures
        ascii_case_equivalent(trim_end(s), trim_end(t)),
    decreases s.len(),
{
    if s.len() > 0 {
        lemma_white_space_case(s.last(), t.last());
        if is_white_space(s.last()) {
            assert(ascii_case_equivalent(s.drop_last(), t.drop_last())) by {
                assert forall|i: int| 0 <= i < s.len() - 1 implies ascii_lower_code(
                    #[trigger] s.drop_last()[i],
                ) == ascii_lower_code(t.drop_last()[i]) by {
                    assert(s.drop_last()[i] == s[i]);
                    assert(t.drop_last()[i] == t[i]);
                }
            }
            lemma_trim_end_case(s.drop_last(), t.drop_last());
        }
    }
}

/// Trimming keeps two strings equivalent up to ASCII case, so the trimmed
/// strings match the same lower-case words.
pub proof fn lemma_trim_case(s: Seq<char>, t: Seq<char>, target: Seq<char>)
    requires
        ascii_case_equivalent(s, t),
    ensures
        lowercase_equals(trim(s), target) == lowercase_equals(trim(t), target),
{
    lemma_trim_start_case(s, t);
    lemma_trim_end_case(trim_start(s), trim_start(t));
    let a = trim(s);
    let b = trim(t);
    if lowercase_equals(a, target) {
        assert forall|i: int| 0 <= i < b.len() implies ascii_lower_code(#[trigger] b[i])
            == target[i] as int by {
            assert(ascii_lower_code(a[i]) == ascii_lower_code(b[i]));
        }
    }
    if lowercase_equals(b, target) {
        assert forall|i: int| 0 <= i < a.len() implies ascii_lower_code(#[trigger] a[i])
            == target[i] as int by {
            assert(ascii_lower_code(a[i]) == ascii_lower_code(b[i]));
        }
    }
}

/// Leading white space is stripped whatever follows it.
proof fn lemma_trim_start_white_prefix(w: Seq<char>, x: Seq<char>)
    requires
        all_white_space(w),
    ensures
        trim_start(w + x) == trim_start(x),
    decreases w.len(),
{
    if w.len() > 0 {
        assert((w + x)[0] == w[0]);
        assert((w + x).drop_first() =~= w.drop_first() + x);
        assert(all_white_space(w.drop_first())) by {
            assert forall|i: int| 0 <= i < w.len() - 1 implies is_white_space(
                #[trigger] w.drop_first()[i],
            ) by {
                assert(w.drop_first()[i] == w[i + 1]);
            }
        }
        lemma_trim_start_white_prefix(w.drop_first(), x);
    } else {
        assert(w + x =~= x);
    }
}

/// Trailing white space is stripped whatever precedes it.
proof fn lemma_trim_end_white_suffix(x: Seq<char>, w: Seq<char>)
    requires
        all_white_space(w),
    ensures
        trim_end(x + w) == trim_end(x),
    decreases w.len(),
{
    if w.len() > 0 {
        assert((x + w).last() == w.last());
        assert((x + w).drop_last() =~= x + w.drop_last());
        assert(all_white_space(w.drop_last())) by {
            assert forall|i: int| 0 <= i < w.len() - 1 implies is_white_space(
                #[trigger] w.drop_last()[i],
            ) by {
                assert(w.drop_last()[i] == w[i]);
            }
        }
        lemma_trim_end_white_suffix(x, w.drop_last());
    } else {
        assert(x + w =~= x);
    }
}

/// Trailing white space does not change what trimming gives.
proof fn lemma_trim_white_suffix(s: Seq<char>, w: Seq<char>)
    requires
        all_white_space(w),
    ensures
        trim(s + w) == trim(s),
    decreases s.len(),
{
    if s.len() == 0 {
        assert(s + w =~= w + s);
        lemma_trim_start_white_prefix(w, s);
    } else {
        assert((s + w)[0] == s[0]);
        if is_white_space(s[0]) {
            assert((s + w).drop_first() =~= s.drop_first() + w);
            lemma_trim_white_suffix(s.drop_first(), w);
        } else {
            lemma_trim_end_white_suffix(s, w);
        }
    }
}

/// White space before and after a string does not change what trimming gives.
pub proof fn lemma_trim_white_padding(before: Seq<char>, s: Seq<char>, after: Seq<char>)
    requires
        all_white_space(before),
        all_white_space(after),
    ensures
        trim(before + s + after) == trim(s),
{
    assert(before + s + after =~= before + (s + after));
    lemma_trim_start_white_prefix(before, s + after);
    lemma_trim_white_suffix(s, after);
}

/// Whether `s` is `lower` with some of its lower-case ASCII letters (`a` to
/// `z`) written as the matching upper-case letters (`A` to `Z`).
pub open spec fn ascii_case_variant(s: Seq<char>, lower: Seq<char>) -> bool {
    &&& s.len() == lower.len()
    &&& forall|i: int|
        0 <= i < s.len() ==> (#[trigger] s[i] == lower[i] || ('a' <= lower[i] <= 'z' && s[i] as int
            == lower[i] as int - ('a' as int - 'A' as int)))
}

/// Whether `s` holds no upper-case ASCII letter.
pub open spec fn has_no_ascii_upper(s: Seq<char>) -> bool {
    forall|i: int| 0 <= i < s.len() ==> !('A' <= #[trigger] s[i] <= 'Z')
}

/// A string turned to ASCII lower case is a text written in lower case
/// exactly where the string is that text with any of its letters `a` to `z`
/// written in upper case: every letter `A` to `Z`, both included, is lowered,
/// and nothing else changes.
pub proof fn law_lowercase_equals_is_case_variant(s: Seq<char>, lower: Seq<char>)
    requires
        has_no_ascii_upper(lower),
    ensures
        lowercase_equals(s, lower) == ascii_case_variant(s, lower),
{
    if lowercase_equals(s, lower) {
        assert forall|i: int| 0 <= i < s.len() implies (#[trigger] s[i] == lower[i] || ('a'
            <= lower[i] <= 'z' && s[i] as int == lower[i] as int - ('a' as int - 'A' as int))) by {
            assert(ascii_lower_code(s[i]) == lower[i] as int);
            if !('A' <= s[i] <= 'Z') {
                assert(s[i] as int == lower[i] as int);
            }
        }
    }
    if ascii_case_variant(s, lower) {
        assert forall|i: int| 0 <= i < s.len() implies ascii_lower_code(#[trigger] s[i])
            == lower[i] as int by {
            assert(!('A' <= lower[i] <= 'Z'));
        }
    }
}

/// Whether `c` is one of the characters with the Unicode `White_Space`
/// property: U+0009 to U+000D, U+0020, U+0085, U+00A0, U+1680, U+2000 to
/// U+200A, U+2028, U+2029, U+202F, U+205F and U+3000.
pub open spec fn in_white_space_table(c: char) -> bool {
    ||| c == '\t'
    ||| c == '\n'
    ||| c == '\u{0B}'
    ||| c == '\u{0C}'
    ||| c == '\r'
    ||| c == ' '
    ||| c == '\u{85}'
    ||| c == '\u{A0}'
    ||| c == '\u{1680}'
    ||| ('\u{2000}' <= c <= '\u{200A}')
    ||| c == '\u{2028}'
    ||| c == '\u{2029}'
    ||| c == '\u{202F}'
    ||| c == '\u{205F}'
    ||| c == '\u{3000}'
}

/// Whether every character of `s` has the Unicode `White_Space` property.
pub open spec fn all_in_white_space_table(s: Seq<char>) -> bool {
    forall|i: int| 0 <= i < s.len() ==> in_white_space_table(#[trigger] s[i])
}

/// Trimming strips exactly the characters with the Unicode `White_Space`
/// property: such a character before or after a string does not change what
/// trimming gives, and any other character is kept.
pub proof fn law_trim_strips_unicode_white_space(c: char, s: Seq<char>)
    ensures
        in_white_space_table(c) ==> trim(seq![c] + s) == trim(s) && trim(s + seq![c]) == trim(s),
        !in_white_space_table(c) ==> trim(seq![c]) == seq![c],
{
    assert(in_white_space_table(c) == is_white_space(c));
    if in_white_space_table(c) {
        let w = seq![c];
        let e = Seq::<char>::empty();
        lemma_trim_white_padding(w, s, e);
        lemma_trim_white_padding(e, s, w);
        assert(w + s + e =~= seq![c] + s);
        assert(e + s + w =~= s + seq![c]);
    } else {
        let w = seq![c];
        assert(trim_start(w) == w);
        assert(trim_end(w) == w);
    }
}

/// White space made of characters with the Unicode `White_Space` property
/// before and after a string does not change what trimming gives.
pub proof fn law_trim_ignores_unicode_white_space(before: Seq<char>, s: Seq<char>, after: Seq<char>)
    requires
        all_in_white_space_table(before),
        all_in_white_space_table(after),
    ensures
        trim(before + s + after) == trim(s),
{
    assert forall|i: int| 0 <= i < before.len() implies is_white_space(#[trigger] before[i]) by {
        assert(in_white_space_table(before[i]));
    }
    assert forall|i: int| 0 <= i < after.len() implies is_white_space(#[trigger] after[i]) by {
        assert(in_white_space_table(after[i]));
    }
    lemma_trim_white_padding(before, s, after);
}

} // verus!
