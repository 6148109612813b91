//! Verified text helpers shared by the task runner and the command plans:
//! joining argument lists, substring search, splitting, and trimming.

use vstd::prelude::*;

verus! {

/// The elements of `items` laid end to end with a single space between
/// consecutive elements (and nothing added around an empty list).
pub open spec fn joined_with_spaces(items: Seq<Seq<char>>) -> Seq<char>
    decreases items.len(),
{
    if items.len() == 0 {
        Seq::empty()
    } else if items.len() == 1 {
        items[0]
    } else {
        items[0] + seq![' '] + joined_with_spaces(items.skip(1))
    }
}

proof fn lemma_joined_push(items: Seq<Seq<char>>, last: Seq<char>)
    ensures
        joined_with_spaces(items.push(last)) == if items.len() == 0 {
            last
        } else {
            joined_with_spaces(items) + seq![' '] + last
        },
    decreases items.len(),
{
    if items.len() == 0 {
        assert(items.push(last) =~= seq![last]);
        assert(joined_with_spaces(seq![last]) == last);
    } else if items.len() == 1 {
        assert(items.push(last).skip(1) =~= seq![last]);
        assert(joined_with_spaces(items.push(last))
            == items[0] + seq![' '] + joined_with_spaces(seq![last]));
    } else {
        lemma_joined_push(items.skip(1), last);
        assert(items.push(last).skip(1) =~= items.skip(1).push(last));
        assert(joined_with_spaces(items) + seq![' '] + last
            =~= items[0] + seq![' '] + (joined_with_spaces(items.skip(1)) + seq![' '] + last));
    }
}

/// Join the strings in `items` with a single space between them.
pub fn join_with_spaces(items: &Vec<String>) -> (r: String)
    ensures
        r@ == joined_with_spaces(items.deep_view()),
{
    let mut out = String::new();
    let mut i: usize = 0;
    while i < items.len()
        invariant
            i <= items.len(),
            out@ == joined_with_spaces(items.deep_view().take(i as int)),
        decreases items.len() - i,
    {
        if i > 0 {
            out.append(" ");
        }
        out.append(items[i].as_str());
        proof {
            lemma_joined_push(items.deep_view().take(i as int), items.deep_view()[i as int]);
            assert(items.deep_view().take(i + 1 as int)
                =~= items.deep_view().take(i as int).push(items.deep_view()[i as int]));
            reveal_strlit(" ");
        }
        i = i + 1;
    }
    proof {
        assert(items.deep_view().take(items@.len() as int) =~= items.deep_view());
    }
    out
}

/// Whether `s` begins with `prefix`.
pub open spec fn starts_with(s: Seq<char>, prefix: Seq<char>) -> bool {
    prefix.len() <= s.len() && s.subrange(0, prefix.len() as int) == prefix
}

/// Check whether `s` begins with `prefix`.
pub fn str_starts_with(s: &str, prefix: &str) -> (r: bool)
    ensures
        r == starts_with(s@, prefix@),
{
    let slen = s.unicode_len();
    let plen = prefix.unicode_len();
    if plen > slen {
        return false;
    }
    let mut i: usize = 0;
    while i < plen
        invariant
            i <= plen,
            plen <= slen,
            slen == s@.len(),
            plen == prefix@.len(),
            forall|j: int| 0 <= j < i ==> s@[j] == prefix@[j],
        decreases plen - i,
    {
        if s.get_char(i) != prefix.get_char(i) {
            proof {
                assert(s@.subrange(0, plen as int)[i as int] == s@[i as int]);
            }
            return false;
        }
        i = i + 1;
    }
    proof {
        assert(s@.subrange(0, plen as int) =~= prefix@);
    }
    true
}

/// Whether `s` ends with `suffix`.
pub open spec fn ends_with(s: Seq<char>, suffix: Seq<char>) -> bool {
    suffix.len() <= s.len() && s.subrange(s.len() - suffix.len(), s.len() as int) == suffix
}

/// Check whether `s` ends with `suffix`.
pub fn str_ends_with(s: &str, suffix: &str) -> (r: bool)
    ensures
        r == ends_with(s@, suffix@),
{
    let slen = s.unicode_len();
    let xlen = suffix.unicode_len();
    if xlen > slen {
        return false;
    }
    let base = slen - xlen;
    let mut j: usize = 0;
    while j < xlen
        invariant
            j <= xlen,
            base == slen - xlen,
            xlen <= slen,
            slen == s@.len(),
            xlen == suffix@.len(),
            forall|k: int| 0 <= k < j ==> s@[base + k] == suffix@[k],
        decreases xlen - j,
    {
        if s.get_char(base + j) != suffix.get_char(j) {
            proof {
                assert(s@.subrange(base as int, slen as int)[j as int] == s@[base + j]);
            }
            return false;
        }
        j = j + 1;
    }
    proof {
        assert(s@.subrange(base as int, slen as int) =~= suffix@);
    }
    true
}

/// Find the first occurrence of `c` in `s`.
pub fn find_char(s: &str, c: char) -> (r: Option<usize>)
    ensures
        r matches Some(i) ==> i < s@.len() && s@[i as int] == c && (forall|j: int|
            0 <= j < i ==> s@[j] != c),
        r is None ==> forall|j: int| 0 <= j < s@.len() ==> s@[j] != c,
{
    let len = s.unicode_len();
    let mut i: usize = 0;
    while i < len
        invariant
            i <= len,
            len == s@.len(),
            forall|j: int| 0 <= j < i ==> s@[j] != c,
        decreases len - i,
    {
        if s.get_char(i) == c {
            return Some(i);
        }
        i = i + 1;
    }
    None
}

/// Whether `needle` occurs in `hay` beginning at position `i`.
pub open spec fn is_substring_at(hay: Seq<char>, needle: Seq<char>, i: int) -> bool {
    0 <= i && i + needle.len() <= hay.len() && hay.subrange(i, i + needle.len()) == needle
}

/// Whether `needle` occurs anywhere in `hay` (an empty `needle` occurs in
/// everything).
pub open spec fn has_substring(hay: Seq<char>, needle: Seq<char>) -> bool {
    exists|i: int| is_substring_at(hay, needle, i)
}

/// Check whether `needle` occurs at position `i` of `hay`.
fn matches_at(hay: &str, needle: &str, i: usize) -> (r: bool)
    requires
        i + needle@.len() <= hay@.len(),
        hay@.len() <= usize::MAX,
    ensures
        r == is_substring_at(hay@, needle@, i as int),
{
    let nlen = needle.unicode_len();
    let mut j: usize = 0;
    while j < nlen
        invariant
            j <= nlen,
            nlen == needle@.len(),
            i + nlen <= hay@.len(),
            hay@.len() <= usize::MAX,
            forall|k: int| 0 <= k < j ==> hay@[i + k] == needle@[k],
        decreases nlen - j,
    {
        if hay.get_char(i + j) != needle.get_char(j) {
            proof {
                assert(hay@.subrange(i as int, i + nlen as int)[j as int] == hay@[i + j]);
            }
            return false;
        }
        j = j + 1;
    }
    proof {
        assert(hay@.subrange(i as int, i + nlen as int) =~= needle@);
    }
    true
}

/// Check whether `needle` occurs anywhere in `hay`.
pub fn contains_substring(hay: &str, needle: &str) -> (r: bool)
    ensures
        r == has_substring(hay@, needle@),
{
    let hlen = hay.unicode_len();
    let nlen = needle.unicode_len();
    if nlen > hlen {
        proof {
            assert(forall|i: int| !is_substring_at(hay@, needle@, i));
        }
        return false;
    }
    if nlen == 0 {
        proof {
            assert(hay@.subrange(0, 0) =~= needle@);
            assert(is_substring_at(hay@, needle@, 0));
        }
        return true;
    }
    let last = hlen - nlen;
    let mut i: usize = 0;
    while i <= last
        invariant
            i <= last + 1,
            last == hlen - nlen,
            0 < nlen <= hlen,
            hlen == hay@.len(),
            nlen == needle@.len(),
            forall|k: int| 0 <= k < i ==> !is_substring_at(hay@, needle@, k),
        decreases last + 1 - i,
    {
        if matches_at(hay, needle, i) {
            proof {
                assert(has_substring(hay@, needle@));
            }
            return true;
        }
        i = i + 1;
    }
    proof {
        assert(forall|k: int| is_substring_at(hay@, needle@, k) ==> 0 <= k <= last as int);
    }
    false
}

/// The position of the first occurrence of `c` in `s`.
pub open spec fn first_index_of(s: Seq<char>, c: char) -> Option<int>
    decreases s.len(),
{
    if s.len() == 0 {
        None
    } else if s[0] == c {
        Some(0int)
    } else {
        match first_index_of(s.skip(1), c) {
            Some(i) => Some(i + 1),
            None => None,
        }
    }
}

pub proof fn lemma_first_index_of(s: Seq<char>, c: char)
    ensures
        match first_index_of(s, c) {
            Some(i) => 0 <= i < s.len() && s[i] == c && (forall|j: int| 0 <= j < i ==> s[j] != c),
            None => forall|j: int| 0 <= j < s.len() ==> s[j] != c,
        },
    decreases s.len(),
{
    if s.len() == 0 {
    } else if s[0] == c {
    } else {
        let t = s.skip(1);
        lemma_first_index_of(t, c);
        assert(forall|j: int| 0 <= j < t.len() ==> t[j] == s[j + 1]);
        match first_index_of(t, c) {
            Some(i) => {
                assert(s[i + 1] == t[i]);
                assert forall|j: int| 0 <= j < i + 1 implies s[j] != c by {
                    if j >= 1 {
                        assert(s[j] == t[j - 1]);
                    }
                }
            },
            None => {
                assert forall|j: int| 0 <= j < s.len() implies s[j] != c by {
                    if j >= 1 {
                        assert(s[j] == t[j - 1]);
                    }
                }
            },
        }
    }
}

/// The segments of `s` between occurrences of the separator `c`: splitting
/// never yields an empty list, the separator itself appears in no segment,
/// and consecutive separators yield empty segments.
pub open spec fn split_at_char(s: Seq<char>, c: char) -> Seq<Seq<char>>
    decreases s.len(),
{
    match first_index_of(s, c) {
        Some(i) => {
            if 0 <= i < s.len() {
                seq![s.subrange(0, i)] + split_at_char(s.subrange(i + 1, s.len() as int), c)
            } else {
                seq![s]
            }
        },
        None => seq![s],
    }
}

/// Split `s` on every occurrence of `c`, keeping empty segments.
pub fn split_on_char(s: &str, c: char) -> (r: Vec<String>)
    ensures
        r.deep_view() == split_at_char(s@, c),
        r@.len() >= 1,
{
    let len = s.unicode_len();
    let mut acc: Vec<String> = Vec::new();
    let mut start: usize = 0;
    let mut i: usize = 0;
    proof {
        assert(s@.subrange(0, len as int) =~= s@);
    }
    while i < len
        invariant
            start <= i <= len,
            len == s@.len(),
            forall|j: int| start <= j < i ==> s@[j] != c,
            split_at_char(s@, c) == acc.deep_view() + split_at_char(
                s@.subrange(start as int, len as int),
                c,
            ),
        decreases len - i,
    {
        if s.get_char(i) == c {
            let seg = s.substring_char(start, i);
            let ghost rest = s@.subrange(start as int, len as int);
            let ghost old_acc = acc.deep_view();
            acc.push(seg.to_owned());
            proof {
                lemma_first_index_of(rest, c);
                assert(rest[i - start] == c);
                assert(first_index_of(rest, c) matches Some(k) && k == i - start) by {
                    assert(rest[i - start] == c);
                    if first_index_of(rest, c) is None {
                        assert(rest[i - start] != c);
                    }
                }
                assert(split_at_char(rest, c) == seq![rest.subrange(0, i - start)]
                    + split_at_char(rest.subrange(i - start + 1, rest.len() as int), c));
                assert(rest.subrange(0, i - start) =~= seg@);
                assert(rest.subrange(i - start + 1, rest.len() as int) =~= s@.subrange(
                    i + 1,
                    len as int,
                ));
                assert(acc.deep_view() =~= old_acc.push(seg@));
                assert(old_acc + (seq![seg@] + split_at_char(s@.subrange(i + 1, len as int), c))
                    =~= old_acc.push(seg@) + split_at_char(s@.subrange(i + 1, len as int), c));
            }
            start = i + 1;
        }
        i = i + 1;
    }
    let lastseg = s.substring_char(start, len);
    let ghost rest = s@.subrange(start as int, len as int);
    let ghost old_acc = acc.deep_view();
    acc.push(lastseg.to_owned());
    proof {
        lemma_first_index_of(rest, c);
        assert(forall|j: int| 0 <= j < rest.len() ==> rest[j] == s@[start + j]);
        assert(first_index_of(rest, c) is None) by {
            if first_index_of(rest, c) is Some {
                let k = first_index_of(rest, c)->Some_0;
                assert(rest[k] == s@[start + k]);
            }
        }
        assert(split_at_char(rest, c) == seq![rest]);
        assert(rest =~= lastseg@);
        assert(acc.deep_view() =~= old_acc.push(lastseg@));
        assert(old_acc + seq![lastseg@] =~= old_acc.push(lastseg@));
    }
    acc
}

/// A whitespace character as the trimming helpers understand it.
pub open spec fn is_space_char(c: char) -> bool {
    c == ' ' || c == '\t' || c == '\r' || c == '\n'
}

/// `s` without its leading whitespace.
pub open spec fn trim_front(s: Seq<char>) -> Seq<char>
    decreases s.len(),
{
    if s.len() > 0 && is_space_char(s[0]) {
        trim_front(s.skip(1))
    } else {
        s
    }
}

/// `s` without its trailing whitespace.
pub open spec fn trim_back(s: Seq<char>) -> Seq<char>
    decreases s.len(),
{
    if s.len() > 0 && is_space_char(s[s.len() - 1]) {
        trim_back(s.take(s.len() - 1))
    } else {
        s
    }
}

/// `s` without leading and trailing whitespace.
pub open spec fn trimmed(s: Seq<char>) -> Seq<char> {
    trim_back(trim_front(s))
}

proof fn lemma_trim_front_is_suffix(s: Seq<char>, a: int)
    requires
        0 <= a <= s.len(),
        forall|j: int| 0 <= j < a ==> is_space_char(s[j]),
        a < s.len() ==> !is_space_char(s[a]),
    ensures
        trim_front(s) == s.subrange(a, s.len() as int),
    decreases a,
{
    if a == 0 {
        assert(s.subrange(0, s.len() as int) =~= s);
    } else {
        assert(is_space_char(s[0]));
        lemma_trim_front_is_suffix(s.skip(1), a - 1);
        assert(s.skip(1).subrange(a - 1, s.skip(1).len() as int) =~= s.subrange(
            a,
            s.len() as int,
        ));
    }
}

proof fn lemma_trim_back_is_prefix(s: Seq<char>, b: int)
    requires
        0 <= b <= s.len(),
        forall|j: int| b <= j < s.len() ==> is_space_char(s[j]),
        b > 0 ==> !is_space_char(s[b - 1]),
    ensures
        trim_back(s) == s.subrange(0, b),
    decreases s.len() - b,
{
    if b == s.len() {
        assert(s.subrange(0, b) =~= s);
    } else {
        assert(is_space_char(s[s.len() - 1]));
        lemma_trim_back_is_prefix(s.take(s.len() - 1), b);
        assert(s.take(s.len() - 1).subrange(0, b) =~= s.subrange(0, b));
    }
}

/// Remove leading and trailing whitespace (space, tab, carriage return,
/// newline) from `s`.
pub fn trim_str(s: &str) -> (r: String)
    ensures
        r@ == trimmed(s@),
{
    let len = s.unicode_len();
    let mut a: usize = 0;
    while a < len && is_space(s.get_char(a))
        invariant
            a <= len,
            len == s@.len(),
            forall|j: int| 0 <= j < a ==> is_space_char(s@[j]),
        decreases len - a,
    {
        a = a + 1;
    }
    if a == len {
        proof {
            lemma_trim_front_is_suffix(s@, len as int);
            assert(s@.subrange(len as int, len as int) =~= Seq::<char>::empty());
            assert(trim_back(Seq::<char>::empty()) == Seq::<char>::empty());
        }
        return String::new();
    }
    let mut b: usize = len;
    while b > a && is_space(s.get_char(b - 1))
        invariant
            a <= b <= len,
            len == s@.len(),
            a < len,
            !is_space_char(s@[a as int]),
            forall|j: int| b <= j < len ==> is_space_char(s@[j]),
        decreases b,
    {
        b = b - 1;
    }
    let out = s.substring_char(a, b);
    proof {
        lemma_trim_front_is_suffix(s@, a as int);
        let t = s@.subrange(a as int, len as int);
        lemma_trim_back_is_prefix(t, b - a as int);
        assert(t.subrange(0, b - a as int) =~= s@.subrange(a as int, b as int));
    }
    out.to_owned()
}

/// Check whether `c` counts as whitespace for trimming.
fn is_space(c: char) -> (r: bool)
    ensures
        r == is_space_char(c),
{
    c == ' ' || c == '\t' || c == '\r' || c == '\n'
}

/// A decimal digit.
pub open spec fn is_digit_char(c: char) -> bool {
    '0' as int <= c as int && c as int <= '9' as int
}

/// Every character of `s` is a decimal digit.
pub open spec fn all_digits(s: Seq<char>) -> bool {
    forall|i: int| 0 <= i < s.len() ==> is_digit_char(s[i])
}

/// The number the digit string `s` denotes, read left to right.
pub open spec fn digits_value(s: Seq<char>) -> int
    decreases s.len(),
{
    if s.len() == 0 {
        0
    } else {
        digits_value(s.take(s.len() - 1)) * 10 + (s.last() as int - '0' as int)
    }
}

/// The signed 32-bit number `s` denotes: digits with an optional leading
/// minus sign, and 0 for anything else (empty, stray characters, or a value
/// outside the 32-bit range).
pub open spec fn parsed_i32_or_zero(s: Seq<char>) -> int {
    if s.len() >= 2 && s[0] == '-' && all_digits(s.skip(1)) && digits_value(s.skip(1))
        <= 2147483648 {
        -digits_value(s.skip(1))
    } else if s.len() >= 1 && all_digits(s) && digits_value(s) <= 2147483647 {
        digits_value(s)
    } else {
        0
    }
}

/// Parse `s` as a signed 32-bit decimal number, yielding 0 when `s` is not
/// one (empty, a stray character, or out of range).
pub fn parse_i32_or_zero(s: &str) -> (r: i32)
    ensures
        r as int == parsed_i32_or_zero(s@),
{
    let len = s.unicode_len();
    if len == 0 {
        return 0;
    }
    let neg = s.get_char(0) == '-';
    let start: usize = if neg {
        1
    } else {
        0
    };
    if start == len {
        return 0;
    }
    let mut i: usize = start;
    let mut acc: u64 = 0;
    let mut over = false;
    proof {
        assert(s@.subrange(start as int, start as int) =~= Seq::<char>::empty());
    }
    while i < len
        invariant
            start <= i <= len,
            0 < len == s@.len(),
            start <= 1,
            neg ==> start == 1 && s@[0] == '-',
            !neg ==> start == 0 && s@[0] != '-',
            forall|j: int| start <= j < i ==> is_digit_char(s@[j]),
            !over ==> acc == digits_value(s@.subrange(start as int, i as int)) && acc
                <= 2147483648,
            over ==> digits_value(s@.subrange(start as int, i as int)) > 2147483648,
        decreases len - i,
    {
        let c = s.get_char(i);
        let d = c as u32;
        if d < 48 || d > 57 {
            proof {
                assert(!is_digit_char(s@[i as int]));
                if neg {
                    assert(!all_digits(s@.skip(1))) by {
                        assert(s@.skip(1)[i - 1] == s@[i as int]);
                    }
                } else {
                    assert(!all_digits(s@));
                }
            }
            return 0;
        }
        let ghost pref = s@.subrange(start as int, i as int);
        let ghost next_pref = s@.subrange(start as int, i + 1 as int);
        proof {
            assert(next_pref.take(next_pref.len() - 1) =~= pref);
            assert(next_pref.last() == s@[i as int]);
            assert(digits_value(next_pref) == digits_value(pref) * 10 + (s@[i as int] as int
                - '0' as int));
        }
        let dv = (d - 48) as u64;
        if !over {
            let next = acc * 10 + dv;
            if next > 2147483648 {
                over = true;
            } else {
                acc = next;
            }
        } else {
            proof {
                assert(digits_value(next_pref) > 2147483648) by {
                    assert(digits_value(pref) * 10 == digits_value(pref) + 9 * digits_value(pref));
                }
            }
        }
        i = i + 1;
    }
    proof {
        if neg {
            assert(s@.subrange(1, len as int) =~= s@.skip(1));
        } else {
            assert(s@.subrange(0, len as int) =~= s@);
        }
    }
    if over {
        return 0;
    }
    if neg {
        if acc == 2147483648 {
            i32::MIN
        } else {
            -(acc as i32)
        }
    } else {
        if acc > 2147483647 {
            0
        } else {
            acc as i32
        }
    }
}

} // verus!
