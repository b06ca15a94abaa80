//! Character-level text helpers shared by the editor.
//!
//! Strings are modelled by their view, a `Seq<char>`; a list of strings by
//! [`strs`]. The few standard-library calls that have no specification in
//! `vstd` are wrapped here, each with the contract the rest of the crate
//! relies on.
use vstd::prelude::*;
use vstd::string::StrSliceExecFns;
use vstd::string::StringExecFns;

verus! {

/// The model of a list of strings: the sequence of their character sequences.
pub open spec fn strs(v: Seq<String>) -> Seq<Seq<char>> {
    Seq::new(v.len(), |i: int| v[i]@)
}

/// The model of an optional string.
pub open spec fn opt_str(o: Option<String>) -> Option<Seq<char>> {
    match o {
        Some(s) => Some(s@),
        None => None,
    }
}

/// `needle` occurs in `hay` as a contiguous run of characters.
pub open spec fn is_substring(needle: Seq<char>, hay: Seq<char>) -> bool {
    exists|i: int|
        0 <= i && i + needle.len() <= hay.len() && #[trigger] hay.subrange(
            i,
            i + needle.len(),
        ) == needle
}

/// Lexicographic order on strings by code point, the order of `str`.
pub open spec fn str_le(a: Seq<char>, b: Seq<char>) -> bool
    decreases a.len(),
{
    if a.len() == 0 {
        true
    } else if b.len() == 0 {
        false
    } else if a[0] != b[0] {
        (a[0] as u32) < (b[0] as u32)
    } else {
        str_le(a.drop_first(), b.drop_first())
    }
}

/// The list is in ascending [`str_le`] order.
pub open spec fn strs_sorted(v: Seq<Seq<char>>) -> bool {
    forall|i: int, j: int| 0 <= i < j < v.len() ==> str_le(#[trigger] v[i], #[trigger] v[j])
}

/// The lower-case form of a string as Unicode defines it.
pub uninterp spec fn lowercase(s: Seq<char>) -> Seq<char>;

/// A string without its leading and trailing Unicode white space.
pub uninterp spec fn trimmed(s: Seq<char>) -> Seq<char>;

/// The character for one decimal digit.
pub open spec fn digit_char(d: int) -> char {
    if d == 0 {
        '0'
    } else if d == 1 {
        '1'
    } else if d == 2 {
        '2'
    } else if d == 3 {
        '3'
    } else if d == 4 {
        '4'
    } else if d == 5 {
        '5'
    } else if d == 6 {
        '6'
    } else if d == 7 {
        '7'
    } else if d == 8 {
        '8'
    } else {
        '9'
    }
}

/// The value of one decimal digit character, if it is one.
pub open spec fn digit_value(c: char) -> Option<int> {
    if '0' <= c && c <= '9' {
        Some(c as int - '0' as int)
    } else {
        None
    }
}

/// Decimal notation of a natural number, without leading zeros.
pub open spec fn decimal(n: nat) -> Seq<char>
    decreases n,
{
    if n < 10 {
        seq![digit_char(n as int)]
    } else {
        decimal(n / 10).push(digit_char((n % 10) as int))
    }
}

/// Decimal notation of an integer, with a minus sign when negative.
pub open spec fn signed_decimal(n: int) -> Seq<char> {
    if n < 0 {
        seq!['-'] + decimal((-n) as nat)
    } else {
        decimal(n as nat)
    }
}

/// Every character is a decimal digit.
pub open spec fn all_digits(s: Seq<char>) -> bool {
    forall|i: int| 0 <= i < s.len() ==> digit_value(#[trigger] s[i]) is Some
}

/// The number that a run of decimal digits denotes.
pub open spec fn digits_value(s: Seq<char>) -> int
    decreases s.len(),
{
    if s.len() == 0 {
        0
    } else {
        digits_value(s.drop_last()) * 10 + (s.last() as int - '0' as int)
    }
}

/// The integer that a text denotes: an optional sign, then one or more
/// decimal digits and nothing else.
pub open spec fn integer_text_value(s: Seq<char>) -> Option<int> {
    let signed = s.len() > 0 && (s[0] == '-' || s[0] == '+');
    let body = if signed {
        s.drop_first()
    } else {
        s
    };
    if body.len() > 0 && all_digits(body) {
        if signed && s[0] == '-' {
            Some(-digits_value(body))
        } else {
            Some(digits_value(body))
        }
    } else {
        None
    }
}

/// What parsing a text as a 64-bit signed integer gives.
pub open spec fn parsed_i64(s: Seq<char>) -> Option<i64> {
    match integer_text_value(s) {
        Some(v) => if i64::MIN <= v && v <= i64::MAX {
            Some(v as i64)
        } else {
            None
        },
        None => None,
    }
}

/// A control code: general category Cc, the ranges U+0000..U+001F and
/// U+007F..U+009F.
pub open spec fn is_control_code(c: char) -> bool {
    (c as u32) <= 0x1f || (0x7f <= (c as u32) && (c as u32) <= 0x9f)
}

/// `s` without the characters equal to `c` at its start.
pub open spec fn strip_leading(s: Seq<char>, c: char) -> Seq<char>
    decreases s.len(),
{
    if s.len() > 0 && s[0] == c {
        strip_leading(s.drop_first(), c)
    } else {
        s
    }
}

/// `s` without the characters equal to `c` at its end.
pub open spec fn strip_trailing(s: Seq<char>, c: char) -> Seq<char>
    decreases s.len(),
{
    if s.len() > 0 && s.last() == c {
        strip_trailing(s.drop_last(), c)
    } else {
        s
    }
}

/// `s` without the characters equal to `c` at either end.
pub open spec fn strip_both(s: Seq<char>, c: char) -> Seq<char> {
    strip_trailing(strip_leading(s, c), c)
}

/// The strings of `parts` with `sep` between each two neighbours.
pub open spec fn joined(parts: Seq<Seq<char>>, sep: Seq<char>) -> Seq<char>
    decreases parts.len(),
{
    if parts.len() == 0 {
        Seq::empty()
    } else if parts.len() == 1 {
        parts[0]
    } else {
        joined(parts.drop_last(), sep) + sep + parts.last()
    }
}

/// Index of the first string equal to `s`, if any.
pub open spec fn first_index_of(v: Seq<Seq<char>>, s: Seq<char>) -> Option<int>
    decreases v.len(),
{
    if v.len() == 0 {
        None
    } else {
        match first_index_of(v.drop_last(), s) {
            Some(i) => Some(i),
            None => if v.last() == s {
                Some(v.len() - 1)
            } else {
                None
            },
        }
    }
}

/// Index of the last string equal to `s`, if any.
pub open spec fn last_index_of(v: Seq<Seq<char>>, s: Seq<char>) -> Option<int>
    decreases v.len(),
{
    if v.len() == 0 {
        None
    } else if v.last() == s {
        Some(v.len() - 1)
    } else {
        last_index_of(v.drop_last(), s)
    }
}

/// `str`'s `==`: two string slices are equal exactly when they hold the same
/// characters.
#[verifier::external_body]
pub(crate) fn str_eq(a: &str, b: &str) -> (r: bool)
    ensures
        r == (a@ == b@),
{
    a == b
}

/// `String::push`: appends one character.
#[verifier::external_body]
pub(crate) fn push_char(s: &mut String, c: char)
    ensures
        final(s)@ == old(s)@.push(c),
{
    s.push(c)
}

/// `str::to_lowercase`: the result is named [`lowercase`], a function of the
/// characters alone.
#[verifier::external_body]
pub(crate) fn to_lowercase(s: &str) -> (r: String)
    ensures
        r@ == lowercase(s@),
{
    s.to_lowercase()
}

/// `str::contains` with a string pattern: true exactly when the pattern
/// occurs as a contiguous run.
#[verifier::external_body]
pub(crate) fn contains_str(hay: &str, needle: &str) -> (r: bool)
    ensures
        r == is_substring(needle@, hay@),
{
    hay.contains(needle)
}

/// `str::trim`: the result is named [`trimmed`], a function of the characters
/// alone.
#[verifier::external_body]
pub(crate) fn trim(s: &str) -> (r: &str)
    ensures
        r@ == trimmed(s@),
{
    s.trim()
}

/// `str::parse::<i64>`: accepts an optional sign followed by decimal digits
/// whose value fits, and nothing else.
#[verifier::external_body]
pub(crate) fn parse_i64(s: &str) -> (r: Option<i64>)
    ensures
        r == parsed_i64(s@),
{
    s.parse::<i64>().ok()
}

/// `slice::sort` on strings: the same strings, in ascending order.
#[verifier::external_body]
pub(crate) fn sort_strings(v: &mut Vec<String>)
    ensures
        strs(final(v)@).to_multiset() == strs(old(v)@).to_multiset(),
        strs_sorted(strs(final(v)@)),
        final(v)@.len() == old(v)@.len(),
{
    v.sort()
}

/// Whether `c` is a control code.
pub fn is_control(c: char) -> (r: bool)
    ensures
        r == is_control_code(c),
{
    let n: u32 = c as u32;
    n <= 0x1f || (0x7f <= n && n <= 0x9f)
}

/// The character for one decimal digit.
fn digit_to_char(d: u64) -> (c: char)
    requires
        d < 10,
    ensures
        c == digit_char(d as int),
{
    if d == 0 {
        '0'
    } else if d == 1 {
        '1'
    } else if d == 2 {
        '2'
    } else if d == 3 {
        '3'
    } else if d == 4 {
        '4'
    } else if d == 5 {
        '5'
    } else if d == 6 {
        '6'
    } else if d == 7 {
        '7'
    } else if d == 8 {
        '8'
    } else {
        '9'
    }
}

/// Decimal notation of `n`.
pub fn u64_to_decimal(n: u64) -> (r: String)
    ensures
        r@ == decimal(n as nat),
    decreases n,
{
    if n < 10 {
        let mut r = String::new();
        push_char(&mut r, digit_to_char(n));
        assert(r@ =~= seq![digit_char(n as int)]);
        r
    } else {
        let mut r = u64_to_decimal(n / 10);
        push_char(&mut r, digit_to_char(n % 10));
        r
    }
}

/// Decimal notation of `n`, with a minus sign when negative.
pub fn i64_to_decimal(n: i64) -> (r: String)
    ensures
        r@ == signed_decimal(n as int),
{
    if n >= 0 {
        u64_to_decimal(n as u64)
    } else {
        let mag: u64 = (-(n + 1)) as u64 + 1;
        let digits = u64_to_decimal(mag);
        let mut r = String::new();
        push_char(&mut r, '-');
        r.append(digits.as_str());
        assert(r@ =~= seq!['-'] + decimal((-n) as nat));
        r
    }
}

/// A copy of `s` with `c` inserted before position `pos`, counted in
/// characters.
pub fn insert_char_at(s: &str, pos: usize, c: char) -> (r: String)
    requires
        pos <= s@.len(),
    ensures
        r@ == s@.insert(pos as int, c),
{
    let n = s.unicode_len();
    let head = s.substring_char(0, pos);
    let tail = s.substring_char(pos, n);
    let mut r = String::from_str(head);
    push_char(&mut r, c);
    r.append(tail);
    assert(r@ =~= s@.insert(pos as int, c));
    r
}

/// A copy of `s` without the character at position `pos`, counted in
/// characters.
pub fn remove_char_at(s: &str, pos: usize) -> (r: String)
    requires
        pos < s@.len(),
    ensures
        r@ == s@.remove(pos as int),
{
    let n = s.unicode_len();
    let head = s.substring_char(0, pos);
    let tail = s.substring_char(pos + 1, n);
    let mut r = String::from_str(head);
    r.append(tail);
    assert(r@ =~= s@.remove(pos as int));
    r
}

/// A copy of a list of strings.
pub fn clone_strings(v: &Vec<String>) -> (r: Vec<String>)
    ensures
        strs(r@) == strs(v@),
{
    let mut r: Vec<String> = Vec::new();
    let mut i: usize = 0;
    while i < v.len()
        invariant
            i <= v.len(),
            r.len() == i,
            forall|k: int| 0 <= k < i ==> r@[k]@ == v@[k]@,
        decreases v.len() - i,
    {
        r.push(v[i].clone());
        i += 1;
    }
    assert(strs(r@) =~= strs(v@));
    r
}

/// A copy of an optional string.
pub fn clone_opt_string(o: &Option<String>) -> (r: Option<String>)
    ensures
        opt_str(r) == opt_str(*o),
{
    match o {
        Some(s) => Some(s.clone()),
        None => None,
    }
}

/// Position of the first string of `v` equal to `s`.
pub fn position_of(v: &Vec<String>, s: &str) -> (r: Option<usize>)
    ensures
        match r {
            Some(i) => first_index_of(strs(v@), s@) == Some(i as int) && i < v.len(),
            None => first_index_of(strs(v@), s@) is None,
        },
{
    let mut i: usize = 0;
    while i < v.len()
        invariant
            i <= v.len(),
            first_index_of(strs(v@).take(i as int), s@) is None,
        decreases v.len() - i,
    {
        proof {
            let stepped = strs(v@).take(i + 1);
            assert(stepped.drop_last() =~= strs(v@).take(i as int));
            assert(stepped.last() == v@[i as int]@);
        }
        if str_eq(v[i].as_str(), s) {
            proof {
                lemma_first_index_prefix(strs(v@), s@, i + 1);
            }
            return Some(i);
        }
        i += 1;
    }
    assert(strs(v@).take(v.len() as int) =~= strs(v@));
    None
}

/// A match found in a prefix is the match of the whole list.
pub proof fn lemma_first_index_prefix(v: Seq<Seq<char>>, s: Seq<char>, n: int)
    requires
        0 <= n <= v.len(),
        first_index_of(v.take(n), s) is Some,
    ensures
        first_index_of(v, s) == first_index_of(v.take(n), s),
    decreases v.len() - n,
{
    if n < v.len() {
        let stepped = v.take(n + 1);
        assert(stepped.drop_last() =~= v.take(n));
        lemma_first_index_prefix(v, s, n + 1);
    } else {
        assert(v.take(n) =~= v);
    }
}

/// What [`first_index_of`] finds: the position of a string equal to `s`
/// before which none is equal to it; and nothing exactly when no string is.
pub proof fn lemma_first_index_of(v: Seq<Seq<char>>, s: Seq<char>)
    ensures
        match first_index_of(v, s) {
            Some(i) => 0 <= i < v.len() && v[i] == s && forall|j: int| 0 <= j < i ==> v[j] != s,
            None => forall|j: int| 0 <= j < v.len() ==> v[j] != s,
        },
    decreases v.len(),
{
    if v.len() > 0 {
        let rest = v.drop_last();
        lemma_first_index_of(rest, s);
        assert forall|j: int| 0 <= j < rest.len() implies rest[j] == v[j] by {}
    }
}

/// What [`last_index_of`] finds: the position of a string equal to `s`
/// behind which none is equal to it; and nothing exactly when no string is.
pub proof fn lemma_last_index_of(v: Seq<Seq<char>>, s: Seq<char>)
    ensures
        match last_index_of(v, s) {
            Some(i) => 0 <= i < v.len() && v[i] == s && forall|j: int|
                i < j < v.len() ==> v[j] != s,
            None => forall|j: int| 0 <= j < v.len() ==> v[j] != s,
        },
    decreases v.len(),
{
    if v.len() > 0 && v.last() != s {
        let rest = v.drop_last();
        lemma_last_index_of(rest, s);
        assert forall|j: int| 0 <= j < rest.len() implies rest[j] == v[j] by {}
    }
}

/// The strings of `parts` with `sep` between each two neighbours.
pub fn join(parts: &Vec<String>, sep: &str) -> (r: String)
    ensures
        r@ == joined(strs(parts@), sep@),
{
    let mut r = String::new();
    let mut i: usize = 0;
    while i < parts.len()
        invariant
            i <= parts.len(),
            r@ == joined(strs(parts@).take(i as int), sep@),
        decreases parts.len() - i,
    {
        proof {
            let stepped = strs(parts@).take(i + 1);
            assert(stepped.drop_last() =~= strs(parts@).take(i as int));
            assert(stepped.last() == parts@[i as int]@);
            if i == 0 {
                assert(stepped[0] == parts@[0]@);
            }
        }
        if i > 0 {
            r.append(sep);
        }
        r.append(parts[i].as_str());
        proof {
            if i == 0 {
                assert(r@ =~= parts@[0]@);
            }
        }
        i += 1;
    }
    assert(strs(parts@).take(parts.len() as int) =~= strs(parts@));
    r
}

/// Leading characters equal to `c` can be skipped before stripping.
proof fn lemma_strip_leading_skip(s: Seq<char>, c: char, i: int)
    requires
        0 <= i <= s.len(),
        forall|k: int| 0 <= k < i ==> s[k] == c,
    ensures
        strip_leading(s, c) == strip_leading(s.skip(i), c),
    decreases i,
{
    if i > 0 {
        assert(s.drop_first().skip(i - 1) =~= s.skip(i));
        lemma_strip_leading_skip(s.drop_first(), c, i - 1);
    } else {
        assert(s.skip(0) =~= s);
    }
}

/// Trailing characters equal to `c` can be cut before stripping.
proof fn lemma_strip_trailing_take(s: Seq<char>, c: char, j: int)
    requires
        0 <= j <= s.len(),
        forall|k: int| j <= k < s.len() ==> s[k] == c,
    ensures
        strip_trailing(s, c) == strip_trailing(s.take(j), c),
    decreases s.len() - j,
{
    if j < s.len() {
        assert(s.drop_last().take(j) =~= s.take(j));
        lemma_strip_trailing_take(s.drop_last(), c, j);
    } else {
        assert(s.take(j) =~= s);
    }
}

/// A copy of `s` without the characters equal to `c` at either end.
pub fn strip_char(s: &str, c: char) -> (r: String)
    ensures
        r@ == strip_both(s@, c),
{
    let n = s.unicode_len();
    let mut i: usize = 0;
    while i < n && s.get_char(i) == c
        invariant
            n == s@.len(),
            i <= n,
            forall|k: int| 0 <= k < i ==> s@[k] == c,
        decreases n - i,
    {
        i += 1;
    }
    let mut j: usize = n;
    while j > i && s.get_char(j - 1) == c
        invariant
            n == s@.len(),
            i <= j <= n,
            forall|k: int| j <= k < n ==> s@[k] == c,
        decreases j,
    {
        j -= 1;
    }
    let r = String::from_str(s.substring_char(i, j));
    proof {
        lemma_strip_leading_skip(s@, c, i as int);
        let rest = s@.skip(i as int);
        assert(strip_leading(rest, c) == rest);
        lemma_strip_trailing_take(rest, c, j - i);
        let core = rest.take(j - i);
        assert(strip_trailing(core, c) == core);
        assert(core =~= s@.subrange(i as int, j as int));
    }
    r
}

} // verus!
