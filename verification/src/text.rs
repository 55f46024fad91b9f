//! Character-level text helpers shared by the formatters, parsers and
//! path utilities of the library.  Every function is specified over the
//! `Seq<char>` view of its strings.
use vstd::prelude::*;
use vstd::string::*;

verus! {

// ---------------------------------------------------------------------
// Specifications
// ---------------------------------------------------------------------

/// The ASCII digit for `d` (`d < 10`).
pub open spec fn digit_char(d: nat) -> char {
    (48 + d) as char
}

/// Decimal rendering of a natural number, as `u64::to_string` writes it.
pub open spec fn decimal(n: nat) -> Seq<char>
    decreases n,
{
    if n < 10 {
        seq![digit_char(n)]
    } else {
        decimal(n / 10).push(digit_char(n % 10))
    }
}

/// Decimal rendering of a signed integer, as `i64::to_string` writes it.
pub open spec fn signed_decimal(n: int) -> Seq<char> {
    if n < 0 {
        seq!['-'] + decimal((-n) as nat)
    } else {
        decimal(n as nat)
    }
}

/// Two-digit zero padded rendering (`{:02}`).
pub open spec fn decimal_pad2(n: nat) -> Seq<char> {
    if n < 10 {
        seq!['0'] + decimal(n)
    } else {
        decimal(n)
    }
}

/// `s` begins with `p`.
pub open spec fn starts_with(s: Seq<char>, p: Seq<char>) -> bool {
    p.len() <= s.len() && s.take(p.len() as int) == p
}

/// `s` ends with `p`.
pub open spec fn ends_with(s: Seq<char>, p: Seq<char>) -> bool {
    p.len() <= s.len() && s.skip(s.len() - p.len()) == p
}

/// `p` occurs in `s` starting at index `i`.
pub open spec fn occurs_at(s: Seq<char>, p: Seq<char>, i: int) -> bool {
    0 <= i && i + p.len() <= s.len() && s.subrange(i, i + p.len()) == p
}

/// `p` occurs somewhere in `s`.
pub open spec fn contains_seq(s: Seq<char>, p: Seq<char>) -> bool {
    exists|i: int| occurs_at(s, p, i)
}

/// Unicode `White_Space`, the set `char::is_whitespace` and `str::trim` use.
pub open spec fn is_ws(c: char) -> bool {
    let u = c as u32;
    (9 <= u && u <= 13) || u == 32 || u == 0x85 || u == 0xA0 || u == 0x1680 || (0x2000 <= u
        && u <= 0x200A) || u == 0x2028 || u == 0x2029 || u == 0x202F || u == 0x205F || u == 0x3000
}

/// `s` without its leading whitespace.
pub open spec fn trim_start_seq(s: Seq<char>) -> Seq<char>
    decreases s.len(),
{
    if s.len() > 0 && is_ws(s[0]) {
        trim_start_seq(s.drop_first())
    } else {
        s
    }
}

/// `s` without its trailing whitespace.
pub open spec fn trim_end_seq(s: Seq<char>) -> Seq<char>
    decreases s.len(),
{
    if s.len() > 0 && is_ws(s.last()) {
        trim_end_seq(s.drop_last())
    } else {
        s
    }
}

/// `str::trim`: leading and trailing white space removed.
pub open spec fn trim_seq(s: Seq<char>) -> Seq<char> {
    trim_end_seq(trim_start_seq(s))
}

/// An ASCII capital letter.
pub open spec fn is_ascii_upper(c: char) -> bool {
    'A' <= c && c <= 'Z'
}

/// The ASCII lowercase of a character; others unchanged.
pub open spec fn lower_char(c: char) -> char {
    if is_ascii_upper(c) {
        ((c as u32) + 32) as char
    } else {
        c
    }
}

/// `str::to_ascii_lowercase`.
pub open spec fn ascii_lower(s: Seq<char>) -> Seq<char> {
    s.map_values(|c: char| lower_char(c))
}

/// An ASCII letter or digit.
pub open spec fn is_ascii_alnum(c: char) -> bool {
    ('0' <= c && c <= '9') || ('a' <= c && c <= 'z') || ('A' <= c && c <= 'Z')
}

/// `str::split(c)` on one character: the pieces between separators.
pub open spec fn split_seq(s: Seq<char>, c: char) -> Seq<Seq<char>>
    decreases s.len(),
{
    if s.len() == 0 {
        seq![Seq::<char>::empty()]
    } else {
        let r = split_seq(s.drop_last(), c);
        if s.last() == c {
            r.push(Seq::<char>::empty())
        } else {
            r.update(r.len() - 1, r.last().push(s.last()))
        }
    }
}

/// One trailing carriage return removed.
pub open spec fn strip_cr(s: Seq<char>) -> Seq<char> {
    if s.len() > 0 && s.last() == '\r' {
        s.drop_last()
    } else {
        s
    }
}

/// `str::lines`: pieces between `\n` (a `\r` before the `\n` dropped); a
/// final empty piece is not a line.
pub open spec fn lines_seq(s: Seq<char>) -> Seq<Seq<char>> {
    let parts = split_seq(s, '\n');
    let n = parts.len() - 1;
    let body = Seq::new(n as nat, |i: int| strip_cr(parts[i]));
    if parts.last().len() == 0 {
        body
    } else {
        body.push(parts.last())
    }
}

/// `str::replace(pat, rep)` for a non-empty pattern: non-overlapping
/// matches replaced from left to right.
pub open spec fn replace_seq(s: Seq<char>, pat: Seq<char>, rep: Seq<char>) -> Seq<char>
    decreases s.len(),
{
    if pat.len() == 0 || s.len() < pat.len() {
        s
    } else if s.take(pat.len() as int) == pat {
        rep + replace_seq(s.skip(pat.len() as int), pat, rep)
    } else {
        seq![s[0]] + replace_seq(s.drop_first(), pat, rep)
    }
}

/// Pieces joined with a separator between neighbours.
pub open spec fn join_seq(parts: Seq<Seq<char>>, sep: Seq<char>) -> Seq<char>
    decreases parts.len(),
{
    if parts.len() == 0 {
        Seq::empty()
    } else if parts.len() == 1 {
        parts[0]
    } else {
        join_seq(parts.drop_last(), sep) + sep + parts.last()
    }
}

/// The views of a sequence of strings.
pub open spec fn views(v: Seq<String>) -> Seq<Seq<char>> {
    v.map_values(|s: String| s@)
}

// ---------------------------------------------------------------------
// Lemmas
// ---------------------------------------------------------------------

/// Splitting gives at least one piece.
pub proof fn lemma_split_nonempty(s: Seq<char>, c: char)
    ensures
        split_seq(s, c).len() >= 1,
    decreases s.len(),
{
    if s.len() > 0 {
        lemma_split_nonempty(s.drop_last(), c);
    }
}

/// Every number has at least one digit.
pub proof fn lemma_decimal_nonempty(n: nat)
    ensures
        decimal(n).len() >= 1,
    decreases n,
{
    if n >= 10 {
        lemma_decimal_nonempty(n / 10);
    }
}

/// Trimming the start leaves a suffix that starts with no whitespace.
pub proof fn lemma_trim_start_suffix(s: Seq<char>)
    ensures
        trim_start_seq(s).len() <= s.len(),
        trim_start_seq(s) == s.skip(s.len() - trim_start_seq(s).len()),
        trim_start_seq(s).len() > 0 ==> !is_ws(trim_start_seq(s)[0]),
    decreases s.len(),
{
    if s.len() > 0 && is_ws(s[0]) {
        lemma_trim_start_suffix(s.drop_first());
        assert(s.drop_first().skip(s.drop_first().len() - trim_start_seq(s).len()) == s.skip(
            s.len() - trim_start_seq(s).len(),
        ));
    } else {
        assert(s.skip(0) == s);
    }
}

/// Trimming the end leaves a prefix.
pub proof fn lemma_trim_end_prefix(s: Seq<char>)
    ensures
        trim_end_seq(s).len() <= s.len(),
        trim_end_seq(s) == s.take(trim_end_seq(s).len() as int),
    decreases s.len(),
{
    if s.len() > 0 && is_ws(s.last()) {
        lemma_trim_end_prefix(s.drop_last());
        assert(s.drop_last().take(trim_end_seq(s).len() as int) == s.take(
            trim_end_seq(s).len() as int,
        ));
    } else {
        assert(s.take(s.len() as int) == s);
    }
}

// ---------------------------------------------------------------------
// Executable helpers
// ---------------------------------------------------------------------

/// Appends one character to a string (`String::push`).
#[verifier::external_body]
pub(crate) fn push_char(s: &mut String, c: char)
    ensures
        final(s)@ == old(s)@.push(c),
{
    s.push(c);
}

/// Appends a string slice.
pub fn push_str(s: &mut String, t: &str)
    ensures
        final(s)@ == old(s)@ + t@,
{
    s.append(t);
}

/// An owned copy of a string slice.
pub fn owned(s: &str) -> (r: String)
    ensures
        r@ == s@,
{
    let mut r = String::new();
    r.append(s);
    r
}

/// The characters of a string slice, in order.
pub fn chars_of(s: &str) -> (v: Vec<char>)
    ensures
        v@ == s@,
{
    let mut v: Vec<char> = Vec::new();
    for c in it: s.chars()
        invariant
            v@ == it.seq().take(it.index() as int),
            it.seq() == s@,
    {
        v.push(c);
    }
    v
}

/// The string made of `v[lo..hi]`.
pub fn string_of_range(v: &Vec<char>, lo: usize, hi: usize) -> (s: String)
    requires
        lo <= hi <= v.len(),
    ensures
        s@ == v@.subrange(lo as int, hi as int),
{
    let mut s = String::new();
    let mut i = lo;
    while i < hi
        invariant
            lo <= i <= hi <= v.len(),
            s@ == v@.subrange(lo as int, i as int),
        decreases hi - i,
    {
        push_char(&mut s, v[i]);
        i += 1;
        assert(s@ == v@.subrange(lo as int, i as int));
    }
    s
}

/// The string made of all characters of `v`.
pub fn string_of_chars(v: &Vec<char>) -> (s: String)
    ensures
        s@ == v@,
{
    let s = string_of_range(v, 0, v.len());
    assert(v@.subrange(0, v@.len() as int) == v@);
    s
}

/// Appends the decimal rendering of `n`.
pub fn push_decimal(s: &mut String, n: u64)
    ensures
        final(s)@ == old(s)@ + decimal(n as nat),
    decreases n,
{
    if n >= 10 {
        push_decimal(s, n / 10);
    }
    let d = (n % 10) as u8;
    let c = (48u8 + d) as char;
    assert(c == digit_char((n % 10) as nat));
    push_char(s, c);
}

/// Appends the decimal rendering of a signed integer.
pub fn push_signed(s: &mut String, n: i64)
    ensures
        final(s)@ == old(s)@ + signed_decimal(n as int),
{
    if n < 0 {
        push_char(s, '-');
        let m: u64 = if n == i64::MIN {
            9223372036854775808u64
        } else {
            (-n) as u64
        };
        push_decimal(s, m);
    } else {
        push_decimal(s, n as u64);
    }
}

/// Decimal rendering of `n` (`n.to_string()`).
pub fn decimal_string(n: u64) -> (s: String)
    ensures
        s@ == decimal(n as nat),
{
    let mut s = String::new();
    push_decimal(&mut s, n);
    s
}

/// Appends `n` padded to two digits (`{:02}`).
pub fn push_pad2(s: &mut String, n: u64)
    ensures
        final(s)@ == old(s)@ + decimal_pad2(n as nat),
{
    if n < 10 {
        push_char(s, '0');
    }
    push_decimal(s, n);
}

/// Character-wise equality of two string slices.
pub fn str_eq(a: &str, b: &str) -> (r: bool)
    ensures
        r == (a@ == b@),
{
    let va = chars_of(a);
    let vb = chars_of(b);
    if va.len() != vb.len() {
        return false;
    }
    let mut i: usize = 0;
    while i < va.len()
        invariant
            va@ == a@,
            vb@ == b@,
            va.len() == vb.len(),
            i <= va.len(),
            forall|j: int| 0 <= j < i ==> va@[j] == vb@[j],
        decreases va.len() - i,
    {
        if va[i] != vb[i] {
            return false;
        }
        i += 1;
    }
    assert(va@ == vb@);
    true
}

/// Whether `v[at..]` begins with `p`.
pub fn chars_match_at(v: &Vec<char>, p: &Vec<char>, at: usize) -> (r: bool)
    ensures
        r == occurs_at(v@, p@, at as int),
{
    if at > v.len() || p.len() > v.len() - at {
        return false;
    }
    let mut j: usize = 0;
    while j < p.len()
        invariant
            at + p.len() <= v.len(),
            j <= p.len(),
            forall|k: int| 0 <= k < j ==> v@[at + k] == p@[k],
        decreases p.len() - j,
    {
        if v[at + j] != p[j] {
            assert(v@.subrange(at as int, at + p.len())[j as int] != p@[j as int]);
            return false;
        }
        j += 1;
    }
    assert(v@.subrange(at as int, at + p.len()) == p@);
    true
}

/// `s.starts_with(p)`.
pub fn str_starts_with(s: &str, p: &str) -> (r: bool)
    ensures
        r == starts_with(s@, p@),
{
    let v = chars_of(s);
    let pv = chars_of(p);
    let r = chars_match_at(&v, &pv, 0);
    assert(r == starts_with(s@, p@)) by {
        if pv.len() <= v.len() {
            assert(v@.subrange(0, pv@.len() as int) == v@.take(pv@.len() as int));
        }
    }
    r
}

/// `s.ends_with(p)`.
pub fn str_ends_with(s: &str, p: &str) -> (r: bool)
    ensures
        r == ends_with(s@, p@),
{
    let v = chars_of(s);
    let pv = chars_of(p);
    if pv.len() > v.len() {
        return false;
    }
    let r = chars_match_at(&v, &pv, v.len() - pv.len());
    assert(v@.subrange((v@.len() - pv@.len()) as int, v@.len() as int) == v@.skip(
        v@.len() - pv@.len(),
    ));
    r
}

/// `s.contains(p)`.
pub fn str_contains(s: &str, p: &str) -> (r: bool)
    ensures
        r == contains_seq(s@, p@),
{
    let v = chars_of(s);
    let pv = chars_of(p);
    let mut i: usize = 0;
    while i < v.len()
        invariant
            v@ == s@,
            pv@ == p@,
            i <= v.len(),
            forall|k: int| 0 <= k < i ==> !occurs_at(v@, pv@, k),
        decreases v.len() - i,
    {
        if chars_match_at(&v, &pv, i) {
            return true;
        }
        i += 1;
    }
    if chars_match_at(&v, &pv, v.len()) {
        return true;
    }
    assert forall|k: int| !occurs_at(v@, pv@, k) by {
        if 0 <= k && k > v@.len() {
            assert(k + pv@.len() > v@.len());
        }
    }
    false
}

/// Whether character `c` occurs in `s`.
pub fn str_has_char(s: &str, c: char) -> (r: bool)
    ensures
        r == s@.contains(c),
{
    let v = chars_of(s);
    let mut i: usize = 0;
    while i < v.len()
        invariant
            v@ == s@,
            i <= v.len(),
            forall|k: int| 0 <= k < i ==> v@[k] != c,
        decreases v.len() - i,
    {
        if v[i] == c {
            return true;
        }
        i += 1;
    }
    false
}

/// Whether a character is Unicode white space.
pub fn char_is_ws(c: char) -> (r: bool)
    ensures
        r == is_ws(c),
{
    let u = c as u32;
    (9 <= u && u <= 13) || u == 32 || u == 0x85 || u == 0xA0 || u == 0x1680 || (0x2000 <= u && u
        <= 0x200A) || u == 0x2028 || u == 0x2029 || u == 0x202F || u == 0x205F || u == 0x3000
}

/// `str::trim`.
pub fn trim(s: &str) -> (r: String)
    ensures
        r@ == trim_seq(s@),
{
    let v = chars_of(s);
    let mut lo: usize = 0;
    assert(v@.skip(0) == v@);
    while lo < v.len() && char_is_ws(v[lo])
        invariant
            v@ == s@,
            lo <= v.len(),
            trim_start_seq(v@.skip(lo as int)) == trim_start_seq(v@),
        decreases v.len() - lo,
    {
        assert(v@.skip(lo as int).drop_first() == v@.skip(lo + 1));
        lo += 1;
    }
    assert(trim_start_seq(v@) == v@.skip(lo as int));
    let mut hi: usize = v.len();
    while hi > lo && char_is_ws(v[hi - 1])
        invariant
            lo <= hi <= v.len(),
            trim_end_seq(v@.subrange(lo as int, hi as int)) == trim_end_seq(v@.skip(lo as int)),
        decreases hi - lo,
    {
        assert(v@.subrange(lo as int, hi as int).drop_last() == v@.subrange(
            lo as int,
            hi - 1,
        ));
        hi -= 1;
    }
    assert(v@.skip(lo as int) == v@.subrange(lo as int, v@.len() as int));
    string_of_range(&v, lo, hi)
}

/// Whether a string is empty after trimming (`s.trim().is_empty()`).
pub fn is_blank(s: &str) -> (r: bool)
    ensures
        r == (trim_seq(s@).len() == 0),
{
    let t = trim(s);
    t.as_str().unicode_len() == 0
}

/// `char::to_ascii_lowercase`.
pub fn char_lower(c: char) -> (r: char)
    ensures
        r == lower_char(c),
{
    if 'A' <= c && c <= 'Z' {
        ((c as u32) + 32) as u8 as char
    } else {
        c
    }
}

/// `str::to_ascii_lowercase`.
pub fn to_ascii_lower(s: &str) -> (r: String)
    ensures
        r@ == ascii_lower(s@),
{
    let v = chars_of(s);
    let mut r = String::new();
    let mut i: usize = 0;
    while i < v.len()
        invariant
            v@ == s@,
            i <= v.len(),
            r@ == ascii_lower(v@.take(i as int)),
        decreases v.len() - i,
    {
        push_char(&mut r, char_lower(v[i]));
        assert(ascii_lower(v@.take(i + 1)) == ascii_lower(v@.take(i as int)).push(
            lower_char(v@[i as int]),
        ));
        i += 1;
    }
    assert(v@.take(v@.len() as int) == v@);
    r
}

/// The first `n` characters of `s` (`s.chars().take(n).collect()`).
pub fn take_chars(s: &str, n: usize) -> (r: String)
    ensures
        r@ == s@.take(if n <= s@.len() { n as int } else { s@.len() as int }),
{
    let v = chars_of(s);
    let hi: usize = if n <= v.len() {
        n
    } else {
        v.len()
    };
    let r = string_of_range(&v, 0, hi);
    assert(v@.subrange(0, hi as int) == v@.take(hi as int));
    r
}

/// `s.split(c)` collected into owned pieces.
pub fn split_char(s: &str, c: char) -> (parts: Vec<String>)
    ensures
        views(parts@) == split_seq(s@, c),
{
    let v = chars_of(s);
    let mut parts: Vec<String> = Vec::new();
    let mut start: usize = 0;
    let mut i: usize = 0;
    assert(v@.take(0) =~= Seq::<char>::empty());
    assert(views(parts@).push(v@.subrange(0, 0)) =~= split_seq(v@.take(0), c));
    while i < v.len()
        invariant
            v@ == s@,
            start <= i <= v.len(),
            views(parts@).push(v@.subrange(start as int, i as int)) == split_seq(
                v@.take(i as int),
                c,
            ),
        decreases v.len() - i,
    {
        let ghost prev = v@.take(i as int);
        assert(v@.take(i + 1).drop_last() == prev);
        proof {
            lemma_split_nonempty(prev, c);
        }
        if v[i] == c {
            let piece = string_of_range(&v, start, i);
            let ghost before = parts@;
            parts.push(piece);
            assert(views(parts@) =~= views(before).push(piece@));
            start = i + 1;
            assert(v@.subrange(start as int, i + 1) =~= Seq::<char>::empty());
        } else {
            assert(v@.subrange(start as int, i + 1) == v@.subrange(start as int, i as int).push(
                v@[i as int],
            ));
        }
        i += 1;
    }
    let last = string_of_range(&v, start, v.len());
    parts.push(last);
    assert(v@.take(v@.len() as int) == v@);
    assert(views(parts@) =~= views(parts@.drop_last()).push(last@));
    parts
}

/// `parts.join(sep)`.
pub fn join_strings(parts: &Vec<String>, sep: &str) -> (r: String)
    ensures
        r@ == join_seq(views(parts@), sep@),
{
    let mut r = String::new();
    let mut i: usize = 0;
    while i < parts.len()
        invariant
            i <= parts.len(),
            r@ == join_seq(views(parts@.take(i as int)), sep@),
        decreases parts.len() - i,
    {
        assert(views(parts@.take(i + 1)).drop_last() == views(parts@.take(i as int)));
        if i > 0 {
            push_str(&mut r, sep);
        }
        push_str(&mut r, parts[i].as_str());
        i += 1;
    }
    assert(parts@.take(parts@.len() as int) == parts@);
    r
}

/// `s.replace(pat, rep)` for a non-empty pattern.
pub fn replace_all(s: &str, pat: &str, rep: &str) -> (r: String)
    ensures
        r@ == replace_seq(s@, pat@, rep@),
{
    let v = chars_of(s);
    let pv = chars_of(pat);
    let mut r = String::new();
    if pv.len() == 0 {
        push_str(&mut r, s);
        return r;
    }
    let mut i: usize = 0;
    assert(v@.skip(0) == v@);
    assert(r@ + replace_seq(v@.skip(0), pv@, rep@) =~= replace_seq(v@, pv@, rep@));
    while i < v.len()
        invariant
            v@ == s@,
            pv@ == pat@,
            pv.len() > 0,
            i <= v.len(),
            r@ + replace_seq(v@.skip(i as int), pv@, rep@) == replace_seq(v@, pv@, rep@),
        decreases v.len() - i,
    {
        let ghost rest = v@.skip(i as int);
        if chars_match_at(&v, &pv, i) {
            assert(rest.take(pv@.len() as int) == pv@) by {
                assert(rest.take(pv@.len() as int) == v@.subrange(i as int, i + pv@.len()));
            }
            assert(rest.skip(pv@.len() as int) == v@.skip(i + pv@.len()));
            push_str(&mut r, rep);
            i += pv.len();
        } else {
            proof {
                if rest.len() >= pv@.len() {
                    assert(rest.take(pv@.len() as int) == v@.subrange(i as int, i + pv@.len()));
                }
            }
            assert(rest.drop_first() == v@.skip(i + 1));
            if v.len() - i < pv.len() {
                // the remainder is too short to hold a match
                assert(replace_seq(rest, pv@, rep@) == rest);
                let tail = string_of_range(&v, i, v.len());
                assert(v@.subrange(i as int, v@.len() as int) == rest);
                push_str(&mut r, tail.as_str());
                i = v.len();
                assert(replace_seq(v@.skip(i as int), pv@, rep@) =~= Seq::<char>::empty());
                assert(r@ + replace_seq(v@.skip(i as int), pv@, rep@) =~= r@);
            } else {
                push_char(&mut r, v[i]);
                assert(seq![v@[i as int]] + replace_seq(v@.skip(i + 1), pv@, rep@) == replace_seq(
                    rest,
                    pv@,
                    rep@,
                ));
                i += 1;
                assert(r@ + replace_seq(v@.skip(i as int), pv@, rep@) =~= replace_seq(
                    v@,
                    pv@,
                    rep@,
                ));
            }
        }
    }
    assert(v@.skip(i as int) =~= Seq::<char>::empty());
    r
}

/// A copy of an optional string.
pub fn clone_opt(o: &Option<String>) -> (r: Option<String>)
    ensures
        r == *o,
{
    match o {
        Some(s) => Some(s.clone()),
        None => None,
    }
}

/// The view of an optional string.
pub open spec fn opt_view(o: Option<String>) -> Option<Seq<char>> {
    match o {
        Some(s) => Some(s@),
        None => None,
    }
}

/// `Path::join` of one relative component on a Unix path: the component
/// is appended after a `/` unless the base is empty or already ends with
/// one; an absolute component replaces the base.
pub open spec fn path_join(base: Seq<char>, comp: Seq<char>) -> Seq<char> {
    if comp.len() > 0 && comp[0] == '/' {
        comp
    } else if base.len() == 0 || base.last() == '/' {
        base + comp
    } else {
        base + seq!['/'] + comp
    }
}

/// `Path::join` of one component.
pub fn join_path(base: &str, comp: &str) -> (r: String)
    ensures
        r@ == path_join(base@, comp@),
{
    let bv = chars_of(base);
    let cv = chars_of(comp);
    let mut r = String::new();
    if cv.len() > 0 && cv[0] == '/' {
        push_str(&mut r, comp);
        return r;
    }
    push_str(&mut r, base);
    if bv.len() > 0 && bv[bv.len() - 1] != '/' {
        push_char(&mut r, '/');
    }
    push_str(&mut r, comp);
    r
}

/// The number of bytes UTF-8 uses for a character.
pub open spec fn utf8_width(c: char) -> nat {
    let u = c as u32;
    if u < 0x80 {
        1
    } else if u < 0x800 {
        2
    } else if u < 0x10000 {
        3
    } else {
        4
    }
}

/// The UTF-8 byte length of a character sequence.
pub open spec fn utf8_len(s: Seq<char>) -> nat
    decreases s.len(),
{
    if s.len() == 0 {
        0
    } else {
        utf8_len(s.drop_last()) + utf8_width(s.last())
    }
}

/// UTF-8 width of one character (`char::len_utf8`).
pub fn char_width(c: char) -> (n: usize)
    ensures
        n == utf8_width(c),
{
    let u = c as u32;
    if u < 0x80 {
        1
    } else if u < 0x800 {
        2
    } else if u < 0x10000 {
        3
    } else {
        4
    }
}

/// The UTF-8 length of a prefix grows by the width of the next character.
pub proof fn lemma_utf8_len_take(s: Seq<char>, i: int)
    requires
        0 <= i < s.len(),
    ensures
        utf8_len(s.take(i + 1)) == utf8_len(s.take(i)) + utf8_width(s[i]),
{
    assert(s.take(i + 1).drop_last() == s.take(i));
}

/// A longer prefix is no shorter in UTF-8.
pub proof fn lemma_utf8_len_mono(s: Seq<char>, i: int, j: int)
    requires
        0 <= i <= j <= s.len(),
    ensures
        utf8_len(s.take(i)) <= utf8_len(s.take(j)),
    decreases j - i,
{
    if i < j {
        lemma_utf8_len_mono(s, i, j - 1);
        lemma_utf8_len_take(s, j - 1);
    }
}

/// The UTF-8 length is the width of the first character plus the rest.
pub proof fn lemma_utf8_len_first(s: Seq<char>)
    requires
        s.len() > 0,
    ensures
        utf8_len(s) == utf8_width(s[0]) + utf8_len(s.drop_first()),
    decreases s.len(),
{
    if s.len() > 1 {
        lemma_utf8_len_first(s.drop_last());
        assert(s.drop_last().drop_first() == s.drop_first().drop_last());
        assert(s.drop_last()[0] == s[0]);
        assert(s.drop_first().last() == s.last());
        assert(utf8_len(s.drop_first()) == utf8_len(s.drop_first().drop_last()) + utf8_width(
            s.drop_first().last(),
        ));
    } else {
        assert(s.drop_first().len() == 0);
        assert(s.drop_last().len() == 0);
        assert(s.last() == s[0]);
        assert(utf8_len(s.drop_first()) == 0);
        assert(utf8_len(s.drop_last()) == 0);
    }
}

/// `str::lines` collected into owned lines.
pub fn lines_of(s: &str) -> (r: Vec<String>)
    ensures
        views(r@) == lines_seq(s@),
{
    let parts = split_char(s, '\n');
    proof {
        lemma_split_nonempty(s@, '\n');
    }
    let ghost ps = views(parts@);
    let n = parts.len() - 1;
    let mut r: Vec<String> = Vec::new();
    let mut i: usize = 0;
    while i < n
        invariant
            views(parts@) == ps,
            ps == split_seq(s@, '\n'),
            n == parts.len() - 1,
            parts.len() >= 1,
            i <= n,
            views(r@) == Seq::new(i as nat, |k: int| strip_cr(ps[k])),
        decreases n - i,
    {
        let v = chars_of(parts[i].as_str());
        assert(v@ == ps[i as int]);
        let line = if v.len() > 0 && v[v.len() - 1] == '\r' {
            string_of_range(&v, 0, v.len() - 1)
        } else {
            string_of_range(&v, 0, v.len())
        };
        assert(line@ == strip_cr(ps[i as int])) by {
            assert(v@.subrange(0, v@.len() as int) == v@);
            assert(v@.subrange(0, v@.len() - 1) == v@.drop_last());
        }
        let ghost before = r@;
        r.push(line);
        assert(views(r@) =~= Seq::new((i + 1) as nat, |k: int| strip_cr(ps[k]))) by {
            assert(views(r@) =~= views(before).push(line@));
        }
        i += 1;
    }
    let last_len = parts[n].as_str().unicode_len();
    if last_len > 0 {
        let ghost before = r@;
        r.push(parts[n].clone());
        assert(views(r@) =~= views(before).push(ps.last()));
    }
    r
}

/// `text` reduced to its last `max_lines` lines (joined with `\n`).
pub open spec fn last_lines_spec(text: Seq<char>, max_lines: nat) -> Seq<char> {
    let ls = lines_seq(text);
    let keep = if ls.len() <= max_lines { ls.len() } else { max_lines };
    join_seq(ls.skip(ls.len() - keep), "\n"@)
}

/// The longest suffix of `s` whose UTF-8 length is at most `max`.
pub open spec fn byte_suffix_spec(s: Seq<char>, max: nat) -> Seq<char>
    decreases s.len(),
{
    if utf8_len(s) <= max || s.len() == 0 {
        s
    } else {
        byte_suffix_spec(s.drop_first(), max)
    }
}

/// A log tail bounded by lines and by bytes: the last `max_lines` lines,
/// then the longest suffix of at most `max_bytes` bytes.
pub open spec fn log_tail_spec(text: Seq<char>, max_lines: nat, max_bytes: nat) -> Seq<char> {
    byte_suffix_spec(last_lines_spec(text, max_lines), max_bytes)
}

/// Bounds a log excerpt by lines and bytes.
pub fn truncate_log_tail(text: &str, max_lines: usize, max_bytes: usize) -> (r: String)
    ensures
        r@ == log_tail_spec(text@, max_lines as nat, max_bytes as nat),
{
    let ls = lines_of(text);
    let keep = if ls.len() <= max_lines {
        ls.len()
    } else {
        max_lines
    };
    let start = ls.len() - keep;
    let mut tail_lines: Vec<String> = Vec::new();
    let mut i: usize = start;
    while i < ls.len()
        invariant
            start <= i <= ls.len(),
            views(tail_lines@) == views(ls@).subrange(start as int, i as int),
        decreases ls.len() - i,
    {
        let ghost before = tail_lines@;
        let item = ls[i].clone();
        tail_lines.push(item);
        assert(views(tail_lines@) =~= views(before).push(item@));
        assert(item@ == views(ls@)[i as int]);
        assert(views(tail_lines@) =~= views(ls@).subrange(start as int, i + 1));
        i += 1;
    }
    assert(views(ls@).subrange(start as int, ls@.len() as int) == views(ls@).skip(start as int));
    let joined = join_strings(&tail_lines, "\n");
    let v = chars_of(joined.as_str());
    // total UTF-8 length
    let mut total: u128 = 0;
    let mut k: usize = 0;
    while k < v.len()
        invariant
            k <= v.len(),
            total == utf8_len(v@.take(k as int)),
            total <= 4 * k,
        decreases v.len() - k,
    {
        proof {
            lemma_utf8_len_take(v@, k as int);
        }
        total = total + char_width(v[k]) as u128;
        k += 1;
    }
    assert(v@.take(v@.len() as int) == v@);
    let mut lo: usize = 0;
    assert(v@.skip(0) == v@);
    while total > max_bytes as u128 && lo < v.len()
        invariant
            lo <= v.len(),
            total == utf8_len(v@.skip(lo as int)),
            byte_suffix_spec(v@.skip(lo as int), max_bytes as nat) == byte_suffix_spec(
                v@,
                max_bytes as nat,
            ),
        decreases v.len() - lo,
    {
        proof {
            lemma_utf8_len_first(v@.skip(lo as int));
            assert(v@.skip(lo as int).drop_first() == v@.skip(lo + 1));
        }
        total = total - char_width(v[lo]) as u128;
        lo += 1;
    }
    proof {
        if lo == v.len() {
            assert(v@.skip(lo as int).len() == 0);
        }
    }
    assert(v@.skip(lo as int) == v@.subrange(lo as int, v@.len() as int));
    string_of_range(&v, lo, v.len())
}

/// The UTF-8 byte length of a string (`str::len`).
pub fn utf8_byte_len(s: &str) -> (n: u128)
    ensures
        n == utf8_len(s@),
{
    let v = chars_of(s);
    let mut total: u128 = 0;
    let mut k: usize = 0;
    while k < v.len()
        invariant
            k <= v.len(),
            total == utf8_len(v@.take(k as int)),
            total <= 4 * k,
        decreases v.len() - k,
    {
        proof {
            lemma_utf8_len_take(v@, k as int);
        }
        total = total + char_width(v[k]) as u128;
        k += 1;
    }
    assert(v@.take(v@.len() as int) == v@);
    total
}

/// How many leading characters of `s` fit in `max` UTF-8 bytes.
pub open spec fn fit_count(s: Seq<char>, max: nat) -> nat
    decreases s.len(),
{
    if s.len() == 0 {
        0
    } else if utf8_width(s[0]) <= max {
        1 + fit_count(s.drop_first(), (max - utf8_width(s[0])) as nat)
    } else {
        0
    }
}

/// The longest prefix of `s` that fits in `max` UTF-8 bytes (a cut at a
/// character boundary).
pub open spec fn utf8_prefix_spec(s: Seq<char>, max: nat) -> Seq<char> {
    s.take(fit_count(s, max) as int)
}

proof fn lemma_fit_count_bound(s: Seq<char>, max: nat)
    ensures
        fit_count(s, max) <= s.len(),
    decreases s.len(),
{
    if s.len() > 0 && utf8_width(s[0]) <= max {
        lemma_fit_count_bound(s.drop_first(), (max - utf8_width(s[0])) as nat);
    }
}

/// The longest prefix of `s` that fits in `max` UTF-8 bytes.
pub fn utf8_prefix(s: &str, max: usize) -> (r: String)
    ensures
        r@ == utf8_prefix_spec(s@, max as nat),
{
    let v = chars_of(s);
    let mut k: usize = 0;
    let mut budget: usize = max;
    proof {
        assert(v@.skip(0) == v@);
        lemma_fit_count_bound(v@, max as nat);
    }
    while k < v.len() && char_width(v[k]) <= budget
        invariant
            k <= v.len(),
            k + fit_count(v@.skip(k as int), budget as nat) == fit_count(v@, max as nat),
        decreases v.len() - k,
    {
        proof {
            assert(v@.skip(k as int).drop_first() == v@.skip(k + 1));
            assert(v@.skip(k as int)[0] == v@[k as int]);
        }
        budget = budget - char_width(v[k]);
        k += 1;
    }
    proof {
        if k < v.len() {
            assert(v@.skip(k as int)[0] == v@[k as int]);
        } else {
            assert(v@.skip(k as int).len() == 0);
        }
        assert(fit_count(v@.skip(k as int), budget as nat) == 0);
    }
    string_of_range(&v, 0, k)
}

/// A decimal digit.
pub open spec fn is_digit(c: char) -> bool {
    '0' <= c && c <= '9'
}

/// Only decimal digits.
pub open spec fn all_digits(s: Seq<char>) -> bool {
    forall|i: int| 0 <= i < s.len() ==> is_digit(#[trigger] s[i])
}

/// The value of a string of decimal digits.
pub open spec fn digits_value(s: Seq<char>) -> nat
    decreases s.len(),
{
    if s.len() == 0 {
        0
    } else {
        digits_value(s.drop_last()) * 10 + ((s.last() as u32) - 48) as nat
    }
}

/// `u64::from_str`: an optional `+`, then at least one digit, with a
/// value that fits.
pub open spec fn parse_u64_spec(s: Seq<char>) -> Option<u64> {
    let d = if s.len() > 0 && s[0] == '+' {
        s.drop_first()
    } else {
        s
    };
    if d.len() == 0 || !all_digits(d) || digits_value(d) > u64::MAX {
        None
    } else {
        Some(digits_value(d) as u64)
    }
}

proof fn lemma_digits_value_mono(s: Seq<char>, k: int)
    requires
        0 <= k <= s.len(),
        all_digits(s),
    ensures
        digits_value(s.take(k)) <= digits_value(s),
    decreases s.len() - k,
{
    if k < s.len() {
        lemma_digits_value_mono(s, k + 1);
        assert(s.take(k + 1).drop_last() == s.take(k));
        assert(is_digit(s[k]));
    } else {
        assert(s.take(k) == s);
    }
}

/// Parses a decimal `u64`.
pub fn parse_u64(s: &str) -> (r: Option<u64>)
    ensures
        r == parse_u64_spec(s@),
{
    let v = chars_of(s);
    let start: usize = if v.len() > 0 && v[0] == '+' { 1 } else { 0 };
    let ghost d = if s@.len() > 0 && s@[0] == '+' { s@.drop_first() } else { s@ };
    assert(d == v@.skip(start as int));
    if start == v.len() {
        return None;
    }
    let mut acc: u128 = 0;
    let mut i: usize = start;
    while i < v.len()
        invariant
            start <= i <= v.len(),
            d == v@.skip(start as int),
            d == (if s@.len() > 0 && s@[0] == '+' { s@.drop_first() } else { s@ }),
            d.len() > 0,
            all_digits(d.take(i - start)),
            acc == digits_value(d.take(i - start)),
            acc <= u64::MAX,
        decreases v.len() - i,
    {
        let c = v[i];
        assert(d.take(i - start + 1).drop_last() == d.take(i - start));
        assert(d[i - start] == c);
        if !('0' <= c && c <= '9') {
            proof {
                assert(!all_digits(d));
            }
            return None;
        }
        let digit = (c as u32 - 48) as u128;
        acc = acc * 10 + digit;
        i += 1;
        if acc > u64::MAX as u128 {
            proof {
                if all_digits(d) {
                    lemma_digits_value_mono(d, i - start);
                }
            }
            return None;
        }
    }
    assert(d.take(i - start) == d);
    Some(acc as u64)
}

} // verus!
