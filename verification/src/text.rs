//! Text utilities the resolution pipeline is built on: prefix tests,
//! splitting on separators, and decimal formatting of device numbers,
//! each with an exact mathematical description.

use vstd::prelude::*;
use vstd::string::StrSliceExecFns;
use vstd::string::StringExecFns;

verus! {

/// `p` is a prefix of `s`.
pub open spec fn is_prefix_of(p: Seq<char>, s: Seq<char>) -> bool {
    p.len() <= s.len() && s.subrange(0, p.len() as int) == p
}

/// The suffix of `s` after the last occurrence of `sep`; all of `s` when
/// `sep` does not occur.
pub open spec fn suffix_after_last(s: Seq<char>, sep: char) -> Seq<char>
    decreases s.len(),
{
    if s.len() == 0 {
        s
    } else if s.last() == sep {
        Seq::empty()
    } else {
        suffix_after_last(s.drop_last(), sep).push(s.last())
    }
}

/// The prefix of `s` before the first occurrence of `sep`; all of `s` when
/// `sep` does not occur.
pub open spec fn prefix_before_first(s: Seq<char>, sep: char) -> Seq<char>
    decreases s.len(),
{
    if s.len() == 0 {
        s
    } else if s[0] == sep {
        Seq::empty()
    } else {
        seq![s[0]] + prefix_before_first(s.drop_first(), sep)
    }
}

pub proof fn lemma_prefix_before_first_len(s: Seq<char>, sep: char)
    ensures
        prefix_before_first(s, sep).len() <= s.len(),
    decreases s.len(),
{
    if s.len() != 0 && s[0] != sep {
        lemma_prefix_before_first_len(s.drop_first(), sep);
    }
}

/// Where the first `sep` stands at position `k` (or `s` ends there), the
/// prefix before it is exactly `s.subrange(0, k)`.
pub proof fn lemma_prefix_before_first_at(s: Seq<char>, sep: char, k: int)
    requires
        0 <= k <= s.len(),
        forall|j: int| 0 <= j < k ==> s[j] != sep,
        k == s.len() || s[k] == sep,
    ensures
        prefix_before_first(s, sep) == s.subrange(0, k),
    decreases s.len(),
{
    if s.len() == 0 {
        assert(prefix_before_first(s, sep) =~= s.subrange(0, 0));
    } else if k == 0 {
        assert(prefix_before_first(s, sep) =~= s.subrange(0, 0));
    } else {
        let s1 = s.drop_first();
        assert forall|j: int| 0 <= j < k - 1 implies s1[j] != sep by {
            assert(s1[j] == s[j + 1]);
        }
        lemma_prefix_before_first_at(s1, sep, k - 1);
        assert(seq![s[0]] + s1.subrange(0, k - 1) =~= s.subrange(0, k));
    }
}

/// Where the last `sep` stands at position `k`, the suffix after it is
/// exactly `s.subrange(k + 1, s.len())`.
pub proof fn lemma_suffix_after_last_at(s: Seq<char>, sep: char, k: int)
    requires
        0 <= k < s.len(),
        s[k] == sep,
        forall|j: int| k < j < s.len() ==> s[j] != sep,
    ensures
        suffix_after_last(s, sep) == s.subrange(k + 1, s.len() as int),
    decreases s.len(),
{
    if k == s.len() - 1 {
        assert(suffix_after_last(s, sep) =~= s.subrange(k + 1, s.len() as int));
    } else {
        let s1 = s.drop_last();
        assert forall|j: int| k < j < s1.len() implies s1[j] != sep by {
            assert(s1[j] == s[j]);
        }
        lemma_suffix_after_last_at(s1, sep, k);
        assert(s1.subrange(k + 1, s1.len() as int).push(s.last()) =~= s.subrange(
            k + 1,
            s.len() as int,
        ));
    }
}

/// Where `sep` does not occur in `s`, the suffix after its last occurrence
/// is all of `s`.
pub proof fn lemma_suffix_after_last_absent(s: Seq<char>, sep: char)
    requires
        forall|j: int| 0 <= j < s.len() ==> s[j] != sep,
    ensures
        suffix_after_last(s, sep) == s,
    decreases s.len(),
{
    if s.len() != 0 {
        lemma_suffix_after_last_absent(s.drop_last(), sep);
        assert(s.drop_last().push(s.last()) =~= s);
    }
}

/// The value of the first newline-separated line of `text` that starts
/// with `key`: the text after the last `=` of that line (the whole line
/// where it has no `=`). Empty where no line matches.
pub open spec fn spec_uevent_value(text: Seq<char>, key: Seq<char>) -> Seq<char>
    decreases text.len(),
    via spec_uevent_value_dec
{
    let line = prefix_before_first(text, '\n');
    if is_prefix_of(key, line) {
        suffix_after_last(line, '=')
    } else if line.len() == text.len() {
        Seq::empty()
    } else {
        spec_uevent_value(text.subrange(line.len() + 1 as int, text.len() as int), key)
    }
}

#[via_fn]
proof fn spec_uevent_value_dec(text: Seq<char>, key: Seq<char>) {
    lemma_prefix_before_first_len(text, '\n');
}

/// Compares two strings character by character.
pub fn str_eq(a: &str, b: &str) -> (r: bool)
    ensures
        r == (a@ == b@),
{
    let alen = a.unicode_len();
    let blen = b.unicode_len();
    if alen != blen {
        return false;
    }
    let mut i: usize = 0;
    while i < alen
        invariant
            i <= alen,
            alen == a@.len(),
            alen == b@.len(),
            forall|j: int| 0 <= j < i ==> a@[j] == b@[j],
        decreases alen - i,
    {
        if a.get_char(i) != b.get_char(i) {
            return false;
        }
        i += 1;
    }
    proof {
        assert(a@ =~= b@);
    }
    true
}

/// Tests whether `s` starts with `p`, character by character.
pub fn str_starts_with(s: &str, p: &str) -> (r: bool)
    ensures
        r == is_prefix_of(p@, s@),
{
    let slen = s.unicode_len();
    let plen = p.unicode_len();
    if plen > slen {
        return false;
    }
    let mut i: usize = 0;
    while i < plen
        invariant
            i <= plen,
            plen <= slen,
            slen == s@.len(),
            plen == p@.len(),
            forall|j: int| 0 <= j < i ==> s@[j] == p@[j],
        decreases plen - i,
    {
        if s.get_char(i) != p.get_char(i) {
            proof {
                assert(s@.subrange(0, p@.len() as int)[i as int] != p@[i as int]);
            }
            return false;
        }
        i += 1;
    }
    proof {
        assert(s@.subrange(0, p@.len() as int) =~= p@);
    }
    true
}

/// The first position at or after `from` where `c` stands in `s`, if any.
pub(crate) fn find_char_from(s: &str, from: usize, len: usize, c: char) -> (r: Option<usize>)
    requires
        from <= len,
        len == s@.len(),
    ensures
        match r {
            Some(i) => from <= i < len && s@[i as int] == c && forall|j: int|
                from <= j < i ==> s@[j] != c,
            None => forall|j: int| from <= j < len ==> s@[j] != c,
        },
{
    let mut i: usize = from;
    while i < len
        invariant
            from <= i <= len,
            len == s@.len(),
            forall|j: int| from <= j < i ==> s@[j] != c,
        decreases len - i,
    {
        if s.get_char(i) == c {
            return Some(i);
        }
        i += 1;
    }
    None
}

/// The last position in `[from, to)` where `c` stands in `s`, if any.
pub(crate) fn rfind_char_in(s: &str, from: usize, to: usize, c: char) -> (r: Option<usize>)
    requires
        from <= to,
        to <= s@.len(),
    ensures
        match r {
            Some(i) => from <= i < to && s@[i as int] == c && forall|j: int|
                i < j < to ==> s@[j] != c,
            None => forall|j: int| from <= j < to ==> s@[j] != c,
        },
{
    let mut i: usize = to;
    while i > from
        invariant
            from <= i <= to,
            to <= s@.len(),
            forall|j: int| i <= j < to ==> s@[j] != c,
        decreases i,
    {
        i -= 1;
        if s.get_char(i) == c {
            return Some(i);
        }
    }
    None
}

/// The character that writes a single decimal digit.
pub open spec fn spec_digit_char(d: u64) -> char {
    if d == 0 {
        '0'
    } else if d == 1 {
        '1'
    } else if d == 2 {
        '2'
    } else if d == 3 {
        '3'
    } else if d == 4 {
        '4'
    } else if d == 5 {
        '5'
    } else if d == 6 {
        '6'
    } else if d == 7 {
        '7'
    } else if d == 8 {
        '8'
    } else {
        '9'
    }
}

/// The decimal digit string of `n`, most significant digit first, with no
/// leading zeros (a single `'0'` for zero).
pub open spec fn spec_decimal(n: u64) -> Seq<char>
    decreases n,
{
    if n < 10 {
        seq![spec_digit_char(n)]
    } else {
        spec_decimal(n / 10).push(spec_digit_char(n % 10))
    }
}

fn digit_str(d: u64) -> (r: &'static str)
    requires
        d < 10,
    ensures
        r@ == seq![spec_digit_char(d)],
{
    let r: &'static str = if d == 0 {
        "0"
    } else if d == 1 {
        "1"
    } else if d == 2 {
        "2"
    } else if d == 3 {
        "3"
    } else if d == 4 {
        "4"
    } else if d == 5 {
        "5"
    } else if d == 6 {
        "6"
    } else if d == 7 {
        "7"
    } else if d == 8 {
        "8"
    } else {
        "9"
    };
    proof {
        reveal_strlit("0");
        reveal_strlit("1");
        reveal_strlit("2");
        reveal_strlit("3");
        reveal_strlit("4");
        reveal_strlit("5");
        reveal_strlit("6");
        reveal_strlit("7");
        reveal_strlit("8");
        reveal_strlit("9");
        assert(r@ =~= seq![spec_digit_char(d)]);
    }
    r
}

/// Writes `n` in decimal.
pub fn u64_to_decimal(n: u64) -> (r: String)
    ensures
        r@ == spec_decimal(n),
    decreases n,
{
    if n < 10 {
        String::from_str(digit_str(n))
    } else {
        let mut s = u64_to_decimal(n / 10);
        s.append(digit_str(n % 10));
        proof {
            assert(spec_decimal(n / 10) + seq![spec_digit_char(n % 10)] =~= spec_decimal(n / 10).push(
                spec_digit_char(n % 10),
            ));
        }
        s
    }
}

} // verus!
