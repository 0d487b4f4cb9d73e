//! Character-level string helpers shared by the pipeline, CRD and preflight logic.
//!
//! Every helper is stated over `Seq<char>` views: splitting at a separator,
//! replacing a character, decimal rendering with zero padding, and parsing of
//! unsigned decimal integers as `str::parse` does for unsigned types.
use vstd::prelude::*;
use vstd::string::*;

verus! {

/// Appends one character to a `String` (`String::push`).
#[verifier::external_body]
pub(crate) fn push_char(s: &mut String, c: char)
    ensures
        final(s)@ == old(s)@.push(c),
{
    s.push(c);
}

/// Result of `str::to_lowercase` on a string: Unicode lower-case mapping.
pub uninterp spec fn unicode_lowercase(s: Seq<char>) -> Seq<char>;

/// Result of `str::to_uppercase` on a string: Unicode upper-case mapping.
pub uninterp spec fn unicode_uppercase(s: Seq<char>) -> Seq<char>;

/// `str::to_lowercase`: the Unicode lower-case mapping of the whole string.
/// Its result is named, not described: the mapping tables are Unicode's.
#[verifier::external_body]
pub(crate) fn to_lowercase(s: &str) -> (r: String)
    ensures
        r@ == unicode_lowercase(s@),
{
    s.to_lowercase()
}

/// `str::to_uppercase`: the Unicode upper-case mapping of the whole string.
/// Its result is named, not described: the mapping tables are Unicode's.
#[verifier::external_body]
pub(crate) fn to_uppercase(s: &str) -> (r: String)
    ensures
        r@ == unicode_uppercase(s@),
{
    s.to_uppercase()
}

/// Index of the first occurrence of `c` in `s`, or `s.len()` when absent.
pub open spec fn char_pos(s: Seq<char>, c: char) -> nat
    decreases s.len(),
{
    if s.len() == 0 {
        0
    } else if s[0] == c {
        0
    } else {
        1 + char_pos(s.drop_first(), c)
    }
}

/// The part of `s` before the first `c` (all of `s` when `c` does not occur):
/// the first item of `s.split(c)`.
pub open spec fn before(s: Seq<char>, c: char) -> Seq<char> {
    s.take(char_pos(s, c) as int)
}

/// The part of `s` after the first `c`, or `None` when `c` does not occur.
pub open spec fn after(s: Seq<char>, c: char) -> Option<Seq<char>> {
    if char_pos(s, c) < s.len() {
        Some(s.skip(char_pos(s, c) as int + 1))
    } else {
        None
    }
}

/// `s` with every `c` replaced by `r` (`str::replace` with a char pattern).
pub open spec fn replace_char(s: Seq<char>, c: char, r: Seq<char>) -> Seq<char>
    decreases s.len(),
{
    if s.len() == 0 {
        Seq::empty()
    } else if s.last() == c {
        replace_char(s.drop_last(), c, r) + r
    } else {
        replace_char(s.drop_last(), c, r).push(s.last())
    }
}

/// The ASCII digit for `d` (`d < 10`).
pub open spec fn digit_char(d: nat) -> char {
    ((d + 48) as u8) as char
}

/// Decimal rendering of a natural number, without leading zeros.
pub open spec fn decimal(n: nat) -> Seq<char>
    decreases n,
{
    if n < 10 {
        seq![digit_char(n)]
    } else {
        decimal(n / 10).push(digit_char(n % 10))
    }
}

/// `s` left-padded with `'0'` to at least `width` characters (`{:0width}`).
pub open spec fn zero_pad(s: Seq<char>, width: nat) -> Seq<char> {
    if s.len() >= width {
        s
    } else {
        Seq::new((width - s.len()) as nat, |i: int| '0') + s
    }
}

pub open spec fn is_digit(c: char) -> bool {
    '0' <= c && c <= '9'
}

pub open spec fn all_digits(s: Seq<char>) -> bool {
    forall|i: int| 0 <= i < s.len() ==> is_digit(#[trigger] s[i])
}

/// Value of a string of ASCII digits.
pub open spec fn digits_value(s: Seq<char>) -> nat
    decreases s.len(),
{
    if s.len() == 0 {
        0
    } else {
        digits_value(s.drop_last()) * 10 + ((s.last() as u32 - 48) as nat)
    }
}

/// What `str::parse` accepts for an unsigned integer: an optional `+`,
/// then one or more ASCII digits; `None` for anything else.
pub open spec fn unsigned_value(s: Seq<char>) -> Option<nat> {
    let t = if s.len() > 0 && s[0] == '+' { s.drop_first() } else { s };
    if t.len() > 0 && all_digits(t) {
        Some(digits_value(t))
    } else {
        None
    }
}

/// `str::parse` for an unsigned type whose largest value is `max`.
pub open spec fn parse_bounded(s: Seq<char>, max: nat) -> Option<nat> {
    match unsigned_value(s) {
        Some(v) => if v <= max {
            Some(v)
        } else {
            None
        },
        None => None,
    }
}

proof fn lemma_char_pos(s: Seq<char>, c: char, k: int)
    requires
        0 <= k <= s.len(),
        forall|j: int| 0 <= j < k ==> s[j] != c,
        k < s.len() ==> s[k] == c,
    ensures
        char_pos(s, c) == k,
    decreases k,
{
    if k > 0 {
        let t = s.drop_first();
        assert forall|j: int| 0 <= j < k - 1 implies t[j] != c by {
            assert(t[j] == s[j + 1]);
        }
        lemma_char_pos(t, c, k - 1);
    }
}

pub proof fn lemma_char_pos_bound(s: Seq<char>, c: char)
    ensures
        char_pos(s, c) <= s.len(),
        char_pos(s, c) < s.len() ==> s[char_pos(s, c) as int] == c,
        forall|j: int| 0 <= j < char_pos(s, c) ==> s[j] != c,
    decreases s.len(),
{
    if s.len() > 0 && s[0] != c {
        let t = s.drop_first();
        lemma_char_pos_bound(t, c);
        assert forall|j: int| 0 <= j < char_pos(s, c) implies s[j] != c by {
            if j > 0 {
                assert(s[j] == t[j - 1]);
            }
        }
    }
}

/// The first `c` of `a + b`, when `a` has none, is the first `c` of `b`
/// shifted by `a`'s length.
pub proof fn lemma_char_pos_concat(a: Seq<char>, b: Seq<char>, c: char)
    requires
        forall|i: int| 0 <= i < a.len() ==> a[i] != c,
    ensures
        char_pos(a + b, c) == a.len() + char_pos(b, c),
{
    lemma_char_pos_bound(b, c);
    let k: int = (a.len() + char_pos(b, c)) as int;
    let s = a + b;
    assert forall|j: int| 0 <= j < k implies s[j] != c by {
        if j >= a.len() {
            assert(s[j] == b[j - a.len()]);
        }
    }
    if k < s.len() {
        assert(s[k] == b[char_pos(b, c) as int]);
    }
    lemma_char_pos(s, c, k);
}

/// Converts a string slice into its characters.
pub fn chars_of(s: &str) -> (v: Vec<char>)
    ensures
        v@ == s@,
{
    let mut v: Vec<char> = Vec::new();
    for c in it: s.chars()
        invariant
            v@ == it.seq().take(it.index() as int),
            it.seq() == s@,
    {
        v.push(c);
    }
    v
}

/// Builds a `String` from characters.
pub fn string_of(v: &Vec<char>) -> (s: String)
    ensures
        s@ == v@,
{
    let mut s = String::new();
    let mut i: usize = 0;
    while i < v.len()
        invariant
            i <= v.len(),
            s@ == v@.take(i as int),
        decreases v.len() - i,
    {
        push_char(&mut s, v[i]);
        proof {
            assert(v@.take(i as int + 1) == v@.take(i as int).push(v@[i as int]));
        }
        i = i + 1;
    }
    proof {
        assert(v@.take(v.len() as int) == v@);
    }
    s
}

/// Builds a `String` from a sub-range of characters.
pub fn string_of_range(v: &Vec<char>, lo: usize, hi: usize) -> (s: String)
    requires
        lo <= hi <= v.len(),
    ensures
        s@ == v@.subrange(lo as int, hi as int),
{
    let mut s = String::new();
    let mut i: usize = lo;
    while i < hi
        invariant
            lo <= i <= hi <= v.len(),
            s@ == v@.subrange(lo as int, i as int),
        decreases hi - i,
    {
        push_char(&mut s, v[i]);
        proof {
            assert(v@.subrange(lo as int, i as int + 1) == v@.subrange(lo as int, i as int).push(
                v@[i as int],
            ));
        }
        i = i + 1;
    }
    s
}

/// Position of the first `c` at or after `from`, or `v.len()`.
pub fn find_char_from(v: &Vec<char>, c: char, from: usize) -> (k: usize)
    requires
        from <= v.len(),
    ensures
        from <= k <= v.len(),
        forall|j: int| from <= j < k ==> v@[j] != c,
        k < v.len() ==> v@[k as int] == c,
{
    let mut k: usize = from;
    while k < v.len() && v[k] != c
        invariant
            from <= k <= v.len(),
            forall|j: int| from <= j < k ==> v@[j] != c,
        decreases v.len() - k,
    {
        k = k + 1;
    }
    k
}

/// Position of the first `c` in `v`, which is `char_pos(v@, c)`.
pub fn find_char(v: &Vec<char>, c: char) -> (k: usize)
    ensures
        k == char_pos(v@, c),
        k <= v.len(),
{
    let k = find_char_from(v, c, 0);
    proof {
        lemma_char_pos(v@, c, k as int);
    }
    k
}

/// The part of `s` before the first `c`.
pub fn text_before(s: &str, c: char) -> (r: String)
    ensures
        r@ == before(s@, c),
{
    let v = chars_of(s);
    let k = find_char(&v, c);
    string_of_range(&v, 0, k)
}

/// The part of `s` after the first `c`, if `c` occurs.
pub fn text_after(s: &str, c: char) -> (r: Option<String>)
    ensures
        match r {
            Some(t) => after(s@, c) == Some(t@),
            None => after(s@, c) is None,
        },
{
    let v = chars_of(s);
    let k = find_char(&v, c);
    if k < v.len() {
        Some(string_of_range(&v, k + 1, v.len()))
    } else {
        None
    }
}

/// `s` with every `c` replaced by `r`.
pub fn replace_char_with(s: &str, c: char, r: &str) -> (out: String)
    ensures
        out@ == replace_char(s@, c, r@),
{
    let v = chars_of(s);
    let mut out = String::new();
    let mut i: usize = 0;
    while i < v.len()
        invariant
            i <= v.len(),
            v@ == s@,
            out@ == replace_char(v@.take(i as int), c, r@),
        decreases v.len() - i,
    {
        let ghost pre = v@.take(i as int);
        proof {
            assert(v@.take(i as int + 1).drop_last() == pre);
            assert(v@.take(i as int + 1).last() == v@[i as int]);
        }
        if v[i] == c {
            out.append(r);
        } else {
            push_char(&mut out, v[i]);
        }
        i = i + 1;
    }
    proof {
        assert(v@.take(v.len() as int) == v@);
    }
    out
}

/// Appends the decimal rendering of `n`.
pub fn push_decimal(out: &mut Vec<char>, n: u64)
    ensures
        final(out)@ == old(out)@ + decimal(n as nat),
    decreases n,
{
    if n < 10 {
        out.push(((n as u8) + 48) as char);
        proof {
            assert(old(out)@.push(digit_char(n as nat)) == old(out)@ + seq![digit_char(n as nat)]);
        }
    } else {
        push_decimal(out, n / 10);
        let d: u8 = (n % 10) as u8;
        out.push((d + 48) as char);
        proof {
            assert(decimal(n as nat) == decimal((n / 10) as nat).push(digit_char((n % 10) as nat)));
        }
    }
}

/// Appends `'0'` characters so that `len` more characters reach `width`.
fn push_zeros(out: &mut Vec<char>, count: usize)
    ensures
        final(out)@ == old(out)@ + Seq::new(count as nat, |i: int| '0'),
{
    let mut i: usize = 0;
    while i < count
        invariant
            i <= count,
            out@ == old(out)@ + Seq::new(i as nat, |j: int| '0'),
        decreases count - i,
    {
        out.push('0');
        proof {
            assert(Seq::new(i as nat + 1, |j: int| '0') == Seq::new(i as nat, |j: int| '0').push(
                '0',
            ));
        }
        i = i + 1;
    }
}

/// The decimal rendering of `n`, left-padded with zeros to `width` (`{n:0width}`).
pub fn padded_decimal(n: u64, width: usize) -> (s: Vec<char>)
    ensures
        s@ == zero_pad(decimal(n as nat), width as nat),
{
    let mut digits: Vec<char> = Vec::new();
    push_decimal(&mut digits, n);
    assert(digits@ == decimal(n as nat));
    if digits.len() >= width {
        digits
    } else {
        let mut out: Vec<char> = Vec::new();
        push_zeros(&mut out, width - digits.len());
        let mut i: usize = 0;
        let ghost z = out@;
        while i < digits.len()
            invariant
                i <= digits.len(),
                out@ == z + digits@.take(i as int),
            decreases digits.len() - i,
        {
            out.push(digits[i]);
            proof {
                assert(digits@.take(i as int + 1) == digits@.take(i as int).push(digits@[i as int]));
            }
            i = i + 1;
        }
        proof {
            assert(digits@.take(digits.len() as int) == digits@);
        }
        out
    }
}

proof fn lemma_digits_value_push(s: Seq<char>, c: char)
    ensures
        digits_value(s.push(c)) == digits_value(s) * 10 + ((c as u32 - 48) as nat),
{
    assert(s.push(c).drop_last() == s);
}

proof fn lemma_digits_value_grows(s: Seq<char>, k: int)
    requires
        0 <= k <= s.len(),
        all_digits(s),
    ensures
        digits_value(s) >= digits_value(s.take(k)),
    decreases s.len() - k,
{
    if k < s.len() {
        lemma_digits_value_grows(s, k + 1);
        assert(s.take(k + 1) == s.take(k).push(s[k]));
        lemma_digits_value_push(s.take(k), s[k]);
    } else {
        assert(s.take(k) == s);
    }
}

/// `str::parse` for an unsigned integer type whose largest value is `max`.
pub fn parse_unsigned(s: &str, max: u64) -> (r: Option<u64>)
    requires
        max < 0xffff_ffff_ffff,
    ensures
        match r {
            Some(v) => parse_bounded(s@, max as nat) == Some(v as nat),
            None => parse_bounded(s@, max as nat) is None,
        },
{
    let v = chars_of(s);
    let start: usize = if v.len() > 0 && v[0] == '+' { 1 } else { 0 };
    let ghost t = if s@.len() > 0 && s@[0] == '+' { s@.drop_first() } else { s@ };
    proof {
        assert(t == v@.skip(start as int));
    }
    if start >= v.len() {
        return None;
    }
    let mut acc: u64 = 0;
    let mut i: usize = start;
    while i < v.len()
        invariant
            start <= i <= v.len(),
            t == v@.skip(start as int),
            v@ == s@,
            t == (if s@.len() > 0 && s@[0] == '+' { s@.drop_first() } else { s@ }),
            t.len() == v.len() - start,
            t.len() > 0,
            all_digits(t.take(i - start)),
            acc as nat == digits_value(t.take(i - start)),
            acc <= max,
            max < 0xffff_ffff_ffff,
        decreases v.len() - i,
    {
        let c = v[i];
        if !('0' <= c && c <= '9') {
            proof {
                assert(t[i - start] == c);
                assert(!all_digits(t));
            }
            return None;
        }
        let d: u64 = (c as u32 - 48) as u64;
        let next: u64 = acc * 10 + d;
        proof {
            assert(t.take(i - start + 1) == t.take(i - start).push(c));
            lemma_digits_value_push(t.take(i - start), c);
            assert(all_digits(t.take(i - start + 1)));
        }
        if next > max {
            proof {
                if all_digits(t) {
                    lemma_digits_value_grows(t, i - start + 1);
                }
            }
            return None;
        }
        acc = next;
        i = i + 1;
    }
    proof {
        assert(t.take(i - start) == t);
    }
    Some(acc)
}

/// Whether two string slices hold the same characters.
pub fn text_eq(a: &str, b: &str) -> (r: bool)
    ensures
        r == (a@ == b@),
{
    let x = chars_of(a);
    let y = chars_of(b);
    if x.len() != y.len() {
        return false;
    }
    let mut i: usize = 0;
    while i < x.len()
        invariant
            i <= x.len(),
            x.len() == y.len(),
            x@ == a@,
            y@ == b@,
            forall|j: int| 0 <= j < i ==> x@[j] == y@[j],
        decreases x.len() - i,
    {
        if x[i] != y[i] {
            proof {
                assert(x@[i as int] != y@[i as int]);
                assert(x@ != y@);
            }
            return false;
        }
        i = i + 1;
    }
    proof {
        assert(x@ == y@);
    }
    true
}

/// Index of the last occurrence of `c` in `s`, or -1 when absent.
pub open spec fn last_pos(s: Seq<char>, c: char) -> int
    decreases s.len(),
{
    if s.len() == 0 {
        -1
    } else if s.last() == c {
        s.len() - 1
    } else {
        last_pos(s.drop_last(), c)
    }
}

/// The part of `s` after its last `c` (all of `s` when `c` does not occur):
/// the last item of `s.split(c)`.
pub open spec fn after_last(s: Seq<char>, c: char) -> Seq<char> {
    s.skip(last_pos(s, c) + 1)
}

pub proof fn lemma_last_pos_bound(s: Seq<char>, c: char)
    ensures
        -1 <= last_pos(s, c) < s.len(),
    decreases s.len(),
{
    if s.len() > 0 && s.last() != c {
        lemma_last_pos_bound(s.drop_last(), c);
    }
}

/// Appending text without `c` leaves the last `c` where it was.
pub proof fn lemma_last_pos_append(s: Seq<char>, t: Seq<char>, c: char)
    requires
        forall|i: int| 0 <= i < t.len() ==> t[i] != c,
    ensures
        last_pos(s + t, c) == last_pos(s, c),
    decreases t.len(),
{
    if t.len() > 0 {
        let t0 = t.drop_last();
        assert((s + t).drop_last() =~= s + t0);
        assert((s + t).last() == t.last());
        lemma_last_pos_append(s, t0, c);
    } else {
        assert(s + t =~= s);
    }
}

/// Position one past the last `c` in `v`, 0 when absent.
pub fn find_last_char(v: &Vec<char>, c: char) -> (k: usize)
    ensures
        k as int == last_pos(v@, c) + 1,
        k <= v.len(),
{
    let mut k: usize = v.len();
    proof {
        assert(v@.take(k as int) == v@);
    }
    while k > 0 && v[k - 1] != c
        invariant
            k <= v@.len(),
            last_pos(v@.take(k as int), c) == last_pos(v@, c),
        decreases k,
    {
        proof {
            assert(v@.take(k as int - 1) == v@.take(k as int).drop_last());
        }
        k = k - 1;
    }
    proof {
        if k > 0 {
            assert(v@.take(k as int).last() == c);
        } else {
            assert(v@.take(0) =~= Seq::<char>::empty());
        }
    }
    k
}

/// The text after the last `c` of `s` (all of `s` when there is none).
pub fn text_after_last(s: &str, c: char) -> (r: String)
    ensures
        r@ == after_last(s@, c),
{
    let v = chars_of(s);
    let k = find_last_char(&v, c);
    string_of_range(&v, k, v.len())
}

/// Appends the decimal rendering of `n` to a `String`.
pub fn append_decimal(s: &mut String, n: u64)
    ensures
        final(s)@ == old(s)@ + decimal(n as nat),
{
    let mut digits: Vec<char> = Vec::new();
    push_decimal(&mut digits, n);
    let t = string_of(&digits);
    s.append(t.as_str());
}

/// The parts joined with `sep` between consecutive parts (`[T]::join`).
pub open spec fn join(parts: Seq<Seq<char>>, sep: Seq<char>) -> Seq<char>
    decreases parts.len(),
{
    if parts.len() == 0 {
        Seq::empty()
    } else if parts.len() == 1 {
        parts[0]
    } else {
        join(parts.drop_last(), sep) + sep + parts.last()
    }
}

/// Joins strings with a separator.
pub fn join_strings(parts: &Vec<String>, sep: &str) -> (r: String)
    ensures
        r@ == join(parts@.map_values(|p: String| p@), sep@),
{
    let ghost views = parts@.map_values(|p: String| p@);
    let mut r = String::new();
    let mut i: usize = 0;
    while i < parts.len()
        invariant
            i <= parts@.len(),
            views == parts@.map_values(|p: String| p@),
            r@ == join(views.take(i as int), sep@),
        decreases parts.len() - i,
    {
        proof {
            assert(views.take(i as int + 1).drop_last() == views.take(i as int));
            assert(views.take(i as int + 1).last() == parts@[i as int]@);
        }
        if i > 0 {
            r.append(sep);
        } else {
            proof {
                assert(views.take(1).len() == 1);
                assert(r@ == Seq::<char>::empty());
                assert(r@ + parts@[0]@ == parts@[0]@);
            }
        }
        r.append(parts[i].as_str());
        i = i + 1;
    }
    proof {
        assert(views.take(parts@.len() as int) == views);
    }
    r
}

/// The Unicode `White_Space` property (`char::is_whitespace`): tab, line
/// feed, vertical tab, form feed, carriage return, space, next line,
/// no-break space, ogham space mark, the spaces U+2000 to U+200A, line and
/// paragraph separators, narrow no-break space, medium mathematical space
/// and ideographic space.
pub open spec fn unicode_whitespace(c: char) -> bool {
    let u = c as u32;
    ||| 0x09 <= u <= 0x0D
    ||| u == 0x20
    ||| u == 0x85
    ||| u == 0xA0
    ||| u == 0x1680
    ||| 0x2000 <= u <= 0x200A
    ||| u == 0x2028
    ||| u == 0x2029
    ||| u == 0x202F
    ||| u == 0x205F
    ||| u == 0x3000
}

/// Whether `c` has the Unicode `White_Space` property.
pub(crate) fn is_whitespace(c: char) -> (b: bool)
    ensures
        b == unicode_whitespace(c),
{
    let u = c as u32;
    (0x09 <= u && u <= 0x0D) || u == 0x20 || u == 0x85 || u == 0xA0 || u == 0x1680 || (0x2000 <= u
        && u <= 0x200A) || u == 0x2028 || u == 0x2029 || u == 0x202F || u == 0x205F || u == 0x3000
}

/// Number of leading whitespace characters.
pub open spec fn leading_whitespace(s: Seq<char>) -> nat
    decreases s.len(),
{
    if s.len() > 0 && unicode_whitespace(s[0]) {
        1 + leading_whitespace(s.drop_first())
    } else {
        0
    }
}

/// `s` without leading whitespace (`str::trim_start`).
pub open spec fn trim_start(s: Seq<char>) -> Seq<char> {
    s.skip(leading_whitespace(s) as int)
}

/// `s` without its leading run of `c` (`str::trim_start_matches` with a char).
pub open spec fn trim_leading(s: Seq<char>, c: char) -> Seq<char>
    decreases s.len(),
{
    if s.len() > 0 && s[0] == c {
        trim_leading(s.drop_first(), c)
    } else {
        s
    }
}

/// `s` without a final carriage return.
pub open spec fn strip_cr(s: Seq<char>) -> Seq<char> {
    if s.len() > 0 && s.last() == '\r' {
        s.drop_last()
    } else {
        s
    }
}

/// The lines of `s` (`str::lines`): split at `\n`, a `\r` right before a
/// `\n` dropped, no empty line after a final `\n`.
pub open spec fn lines(s: Seq<char>) -> Seq<Seq<char>>
    decreases s.len(),
{
    if s.len() == 0 {
        Seq::empty()
    } else if char_pos(s, '\n') < s.len() {
        seq![strip_cr(s.take(char_pos(s, '\n') as int))] + lines(
            s.skip(char_pos(s, '\n') as int + 1),
        )
    } else {
        seq![s]
    }
}

/// Whether `s` starts with `p`.
pub open spec fn starts_with(s: Seq<char>, p: Seq<char>) -> bool {
    p.len() <= s.len() && s.take(p.len() as int) == p
}

/// Splits text into lines as `str::lines` does.
pub fn split_lines(s: &str) -> (r: Vec<String>)
    ensures
        r@.map_values(|l: String| l@) == lines(s@),
{
    let v = chars_of(s);
    let mut r: Vec<String> = Vec::new();
    let mut start: usize = 0;
    proof {
        assert(v@.skip(0) == v@);
    }
    while start < v.len()
        invariant
            start <= v@.len(),
            v@ == s@,
            r@.map_values(|l: String| l@) + lines(v@.skip(start as int)) == lines(s@),
        decreases v.len() - start,
    {
        let k = find_char_from(&v, '\n', start);
        let ghost rest = v@.skip(start as int);
        proof {
            lemma_char_pos(rest, '\n', k - start);
            assert(rest.take(k - start) == v@.subrange(start as int, k as int));
        }
        if k < v.len() {
            let end: usize = if k > start && v[k - 1] == '\r' { k - 1 } else { k };
            let line = string_of_range(&v, start, end);
            proof {
                assert(line@ == strip_cr(rest.take(k - start)));
                assert(rest.skip(k - start + 1) == v@.skip(k as int + 1));
                let before = r@.map_values(|l: String| l@);
                assert(lines(rest) == seq![line@] + lines(v@.skip(k as int + 1)));
                assert(before + lines(rest) == before.push(line@) + lines(v@.skip(k as int + 1)));
            }
            let ghost before_r = r@;
            r.push(line);
            proof {
                assert(r@.map_values(|l: String| l@) =~= before_r.map_values(|l: String| l@).push(
                    r@.last()@,
                ));
            }
            start = k + 1;
        } else {
            let line = string_of_range(&v, start, v.len());
            proof {
                assert(rest.take(k - start) == rest);
                assert(lines(rest) == seq![line@]);
                assert(v@.skip(v@.len() as int) =~= Seq::<char>::empty());
            }
            let ghost before_r = r@;
            r.push(line);
            proof {
                assert(r@.map_values(|l: String| l@) =~= before_r.map_values(|l: String| l@).push(
                    r@.last()@,
                ));
                assert(lines(v@.skip(v@.len() as int)) == Seq::<Seq<char>>::empty());
                assert(r@.map_values(|l: String| l@) + lines(v@.skip(v@.len() as int)) =~= r@.map_values(|l: String| l@));
            }
            start = v.len();
        }
    }
    proof {
        assert(v@.skip(start as int) =~= Seq::<char>::empty());
        assert(r@.map_values(|l: String| l@) + Seq::<Seq<char>>::empty() =~= r@.map_values(|l: String| l@));
    }
    r
}

/// `s` without leading whitespace.
pub fn text_trim_start(s: &str) -> (r: String)
    ensures
        r@ == trim_start(s@),
{
    let v = chars_of(s);
    let mut k: usize = 0;
    proof {
        assert(v@.skip(0) == v@);
    }
    while k < v.len() && is_whitespace(v[k])
        invariant
            k <= v@.len(),
            v@ == s@,
            leading_whitespace(s@) == k + leading_whitespace(v@.skip(k as int)),
        decreases v.len() - k,
    {
        proof {
            assert(v@.skip(k as int).drop_first() == v@.skip(k as int + 1));
        }
        k = k + 1;
    }
    proof {
        assert(v@.skip(k as int).skip(0) == v@.skip(k as int));
        assert(s@.skip(k as int) == v@.subrange(k as int, v@.len() as int));
    }
    string_of_range(&v, k, v.len())
}

/// `s` without its leading run of `c`.
pub fn text_trim_leading(s: &str, c: char) -> (r: String)
    ensures
        r@ == trim_leading(s@, c),
{
    let v = chars_of(s);
    let mut k: usize = 0;
    proof {
        assert(v@.skip(0) == v@);
    }
    while k < v.len() && v[k] == c
        invariant
            k <= v@.len(),
            v@ == s@,
            trim_leading(s@, c) == trim_leading(v@.skip(k as int), c),
        decreases v.len() - k,
    {
        proof {
            assert(v@.skip(k as int).drop_first() == v@.skip(k as int + 1));
        }
        k = k + 1;
    }
    proof {
        assert(v@.skip(k as int) == v@.subrange(k as int, v@.len() as int));
    }
    string_of_range(&v, k, v.len())
}

/// Whether `s` starts with `p`.
pub fn text_starts_with(s: &str, p: &str) -> (b: bool)
    ensures
        b == starts_with(s@, p@),
{
    let x = chars_of(s);
    let y = chars_of(p);
    if y.len() > x.len() {
        return false;
    }
    let mut i: usize = 0;
    while i < y.len()
        invariant
            i <= y@.len() <= x@.len(),
            x@ == s@,
            y@ == p@,
            forall|j: int| 0 <= j < i ==> x@[j] == y@[j],
        decreases y.len() - i,
    {
        if x[i] != y[i] {
            proof {
                assert(x@.take(y@.len() as int)[i as int] != y@[i as int]);
            }
            return false;
        }
        i = i + 1;
    }
    proof {
        assert(x@.take(y@.len() as int) =~= y@);
    }
    true
}

/// Number of trailing whitespace characters.
pub open spec fn trailing_whitespace(s: Seq<char>) -> nat
    decreases s.len(),
{
    if s.len() > 0 && unicode_whitespace(s.last()) {
        1 + trailing_whitespace(s.drop_last())
    } else {
        0
    }
}

proof fn lemma_trailing_whitespace_bound(s: Seq<char>)
    ensures
        trailing_whitespace(s) <= s.len(),
    decreases s.len(),
{
    if s.len() > 0 && unicode_whitespace(s.last()) {
        lemma_trailing_whitespace_bound(s.drop_last());
    }
}

/// `s` without whitespace at either end (`str::trim`).
pub open spec fn trim(s: Seq<char>) -> Seq<char> {
    let t = trim_start(s);
    t.take(t.len() - trailing_whitespace(t))
}

/// `s` without whitespace at either end.
pub fn text_trim(s: &str) -> (r: String)
    ensures
        r@ == trim(s@),
{
    let v = chars_of(s);
    let mut k: usize = 0;
    proof {
        assert(v@.skip(0) == v@);
    }
    while k < v.len() && is_whitespace(v[k])
        invariant
            k <= v@.len(),
            v@ == s@,
            leading_whitespace(s@) == k + leading_whitespace(v@.skip(k as int)),
        decreases v.len() - k,
    {
        proof {
            assert(v@.skip(k as int).drop_first() == v@.skip(k as int + 1));
        }
        k = k + 1;
    }
    let ghost t = v@.skip(k as int);
    proof {
        assert(t.skip(0) == t);
        assert(trim_start(s@) == t);
    }
    let mut e: usize = v.len();
    proof {
        assert(t == v@.subrange(k as int, e as int));
    }
    while e > k && is_whitespace(v[e - 1])
        invariant
            k <= e <= v@.len(),
            v@ == s@,
            t == v@.skip(k as int),
            trailing_whitespace(t) == (v@.len() - e) + trailing_whitespace(v@.subrange(k as int, e as int)),
        decreases e - k,
    {
        proof {
            assert(v@.subrange(k as int, e as int).drop_last() == v@.subrange(k as int, e as int - 1));
            assert(v@.subrange(k as int, e as int).last() == v@[e as int - 1]);
        }
        e = e - 1;
    }
    proof {
        lemma_trailing_whitespace_bound(t);
        assert(t.take(t.len() - trailing_whitespace(t)) == v@.subrange(k as int, e as int));
    }
    string_of_range(&v, k, e)
}

/// `p` occurs in `s` at position `i`.
pub open spec fn occurs_at(s: Seq<char>, p: Seq<char>, i: int) -> bool {
    0 <= i && i + p.len() <= s.len() && s.subrange(i, i + p.len()) == p
}

/// `p` occurs somewhere in `s` (`str::contains` with a string pattern).
pub open spec fn has_substring(s: Seq<char>, p: Seq<char>) -> bool {
    exists|i: int| #[trigger] occurs_at(s, p, i)
}

/// Whether `p` occurs in `s`.
pub fn text_contains(s: &str, p: &str) -> (b: bool)
    ensures
        b == has_substring(s@, p@),
{
    let x = chars_of(s);
    let y = chars_of(p);
    if y.len() > x.len() {
        proof {
            assert forall|i: int| !#[trigger] occurs_at(s@, p@, i) by {}
        }
        return false;
    }
    let xl: usize = x.len();
    let mut i: usize = 0;
    while y.len() <= x.len() - i
        invariant
            xl == x@.len(),
            i <= x@.len(),
            x@ == s@,
            y@ == p@,
            forall|j: int| 0 <= j < i ==> !#[trigger] occurs_at(s@, p@, j),
        decreases x@.len() - i,
    {
        let mut j: usize = 0;
        while j < y.len() && x[i + j] == y[j]
            invariant
                j <= y@.len(),
                xl == x@.len(),
                i + y@.len() <= x@.len(),
                x@ == s@,
                y@ == p@,
                forall|m: int| 0 <= m < j ==> x@[i + m] == y@[m],
            decreases y.len() - j,
        {
            j = j + 1;
        }
        if j == y.len() {
            proof {
                assert(x@.subrange(i as int, i + y@.len()) =~= y@);
                assert(occurs_at(s@, p@, i as int));
            }
            return true;
        }
        proof {
            assert(x@.subrange(i as int, i + y@.len())[j as int] != y@[j as int]);
            assert(!occurs_at(s@, p@, i as int));
        }
        i = i + 1;
    }
    proof {
        assert forall|k: int| !#[trigger] occurs_at(s@, p@, k) by {
            if 0 <= k < i {
            }
        }
    }
    false
}

} // verus!
