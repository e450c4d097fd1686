//! Extension versions (`MAJOR[.MINOR[.PATCH]]`) and the narrow
//! constraint syntax of the allowlist (`=X.Y.Z` exact pin, `>=X.Y.Z`
//! floor).
use vstd::prelude::*;
use crate::text::{is_prefix, is_ws, push_char, str_chars, trim, trim_bounds};

verus! {

// ── Specification ───────────────────────────────────────────────────────

/// Splits `s` at every `'.'`, as `str::split('.')` does: always at least
/// one part, empty parts kept.
pub open spec fn split_dots(s: Seq<char>) -> Seq<Seq<char>>
    decreases s.len(),
{
    if s.len() == 0 {
        seq![Seq::<char>::empty()]
    } else {
        let r = split_dots(s.drop_last());
        if s.last() == '.' {
            r.push(Seq::<char>::empty())
        } else {
            r.update(r.len() - 1, r.last().push(s.last()))
        }
    }
}

pub open spec fn is_digit(c: char) -> bool {
    '0' <= c && c <= '9'
}

pub open spec fn all_digits(s: Seq<char>) -> bool {
    forall|i: int| 0 <= i < s.len() ==> is_digit(#[trigger] s[i])
}

/// Decimal value of a digit string.
pub open spec fn digits_value(s: Seq<char>) -> nat
    decreases s.len(),
{
    if s.len() == 0 {
        0
    } else {
        digits_value(s.drop_last()) * 10 + ((s.last() as nat) - ('0' as nat)) as nat
    }
}

/// `u32::from_str`: an optional leading `'+'`, then at least one ASCII
/// digit, and a value that fits in 32 bits.
pub open spec fn spec_parse_u32(s: Seq<char>) -> Option<u32> {
    let d = if s.len() > 0 && s[0] == '+' {
        s.drop_first()
    } else {
        s
    };
    if d.len() > 0 && all_digits(d) && digits_value(d) <= u32::MAX {
        Some(digits_value(d) as u32)
    } else {
        None
    }
}

/// `Version::parse`: one to three dot-separated `u32` components; missing
/// components are zero.
pub open spec fn spec_parse_version(s: Seq<char>) -> Option<Version> {
    let parts = split_dots(s);
    if parts.len() > 3 {
        None
    } else {
        let major = spec_parse_u32(parts[0]);
        let minor = if parts.len() > 1 {
            spec_parse_u32(parts[1])
        } else {
            Some(0u32)
        };
        let patch = if parts.len() > 2 {
            spec_parse_u32(parts[2])
        } else {
            Some(0u32)
        };
        if major is Some && minor is Some && patch is Some {
            Some(Version { major: major->0, minor: minor->0, patch: patch->0 })
        } else {
            None
        }
    }
}

/// `VersionConstraint::parse`: after trimming, `>=` then a version
/// (floor), or `=` then a version (exact pin); anything else is refused.
pub open spec fn spec_parse_constraint(s: Seq<char>) -> Option<VersionConstraint> {
    let t = trim(s);
    if is_prefix(seq!['>', '='], t) {
        match spec_parse_version(trim(t.subrange(2, t.len() as int))) {
            Some(v) => Some(VersionConstraint::AtLeast(v)),
            None => None,
        }
    } else if is_prefix(seq!['='], t) {
        match spec_parse_version(trim(t.subrange(1, t.len() as int))) {
            Some(v) => Some(VersionConstraint::Exact(v)),
            None => None,
        }
    } else {
        None
    }
}

pub open spec fn digit_char(d: nat) -> char {
    (('0' as nat) + d) as char
}

/// Decimal rendering of `n` without leading zeros.
pub open spec fn decimal(n: nat) -> Seq<char>
    decreases n,
{
    if n < 10 {
        seq![digit_char(n)]
    } else {
        decimal(n / 10).push(digit_char(n % 10))
    }
}

/// `MAJOR.MINOR.PATCH`.
pub open spec fn version_text(v: Version) -> Seq<char> {
    decimal(v.major as nat) + seq!['.'] + decimal(v.minor as nat) + seq!['.'] + decimal(
        v.patch as nat,
    )
}

/// `=MAJOR.MINOR.PATCH` or `>=MAJOR.MINOR.PATCH`.
pub open spec fn constraint_text(c: VersionConstraint) -> Seq<char> {
    match c {
        VersionConstraint::Exact(v) => seq!['='] + version_text(v),
        VersionConstraint::AtLeast(v) => seq!['>', '='] + version_text(v),
    }
}

/// Lexicographic order on `(major, minor, patch)`, the derived `Ord`.
pub open spec fn version_le(a: Version, b: Version) -> bool {
    ||| a.major < b.major
    ||| (a.major == b.major && a.minor < b.minor)
    ||| (a.major == b.major && a.minor == b.minor && a.patch <= b.patch)
}

pub open spec fn spec_satisfies(c: VersionConstraint, v: Version) -> bool {
    match c {
        VersionConstraint::Exact(want) => v == want,
        VersionConstraint::AtLeast(floor) => version_le(floor, v),
    }
}

/// A version as one number: `major`, `minor` and `patch` as base-2^32
/// digits, most significant first.
pub open spec fn version_number(v: Version) -> int {
    v.major * 0x1_0000_0000_0000_0000 + v.minor * 0x1_0000_0000 + v.patch
}

/// A pin is met by exactly the pinned version; a floor is met by exactly
/// the versions whose number is at least the floor's. So raising any
/// component of a version, with the ones before it unchanged, never makes
/// it fall below a floor it met, and a version with the floor's major and
/// minor but a smaller patch does not meet it.
pub proof fn lemma_constraint_meaning(c: VersionConstraint, v: Version)
    ensures
        c matches VersionConstraint::Exact(w) ==> (spec_satisfies(c, v) <==> v == w),
        c matches VersionConstraint::AtLeast(f) ==> (spec_satisfies(c, v) <==> version_number(f)
            <= version_number(v)),
        c matches VersionConstraint::AtLeast(f) ==> (f.major == v.major && f.minor == v.minor
            && v.patch < f.patch ==> !spec_satisfies(c, v)),
{
}

/// Floors order versions totally: of two versions each meets the floor
/// set at the other exactly when they are equal.
pub proof fn lemma_floor_antisymmetric(a: Version, b: Version)
    ensures
        spec_satisfies(VersionConstraint::AtLeast(a), b) || spec_satisfies(
            VersionConstraint::AtLeast(b),
            a,
        ),
        spec_satisfies(VersionConstraint::AtLeast(a), b) && spec_satisfies(
            VersionConstraint::AtLeast(b),
            a,
        ) ==> a == b,
{
}

// ── Types ───────────────────────────────────────────────────────────────

/// SemVer-ish version as it appears in a WebExtension manifest.
#[derive(Debug, Clone, Copy, PartialEq, Eq, Hash, PartialOrd, Ord)]
pub struct Version {
    pub major: u32,
    pub minor: u32,
    pub patch: u32,
}

/// Opaque parse error for [`Version::parse`].
#[derive(Debug, Clone, Copy, PartialEq, Eq)]
pub struct VersionParseError;

/// Version constraint: exact pin or floor.
#[derive(Debug, Clone, Copy, PartialEq, Eq, Hash)]
pub enum VersionConstraint {
    Exact(Version),
    AtLeast(Version),
}

/// Opaque parse error for [`VersionConstraint::parse`].
#[derive(Debug, Clone, Copy, PartialEq, Eq)]
pub struct VersionConstraintParseError;

impl VersionParseError {
    pub fn to_string(&self) -> (r: String)
        ensures
            r@ == "invalid version"@,
    {
        String::from_str("invalid version")
    }
}

impl VersionConstraintParseError {
    pub fn to_string(&self) -> (r: String)
        ensures
            r@ == "invalid version constraint"@,
    {
        String::from_str("invalid version constraint")
    }
}

// ── Parsing ─────────────────────────────────────────────────────────────

proof fn lemma_split_nonempty(s: Seq<char>)
    ensures
        split_dots(s).len() >= 1,
    decreases s.len(),
{
    if s.len() > 0 {
        lemma_split_nonempty(s.drop_last());
    }
}

// ── Rendering and parsing are inverse ───────────────────────────────────

pub open spec fn no_dots(s: Seq<char>) -> bool {
    forall|i: int| 0 <= i < s.len() ==> s[i] != '.'
}

proof fn lemma_digit_char(k: nat)
    requires
        k < 10,
    ensures
        (digit_char(k) as nat) - ('0' as nat) == k,
        is_digit(digit_char(k)),
        digit_char(k) != '.',
{
}

proof fn lemma_decimal(n: nat)
    ensures
        decimal(n).len() >= 1,
        all_digits(decimal(n)),
        no_dots(decimal(n)),
        digits_value(decimal(n)) == n,
    decreases n,
{
    lemma_digit_char(n % 10);
    if n >= 10 {
        lemma_decimal(n / 10);
        let d = decimal(n / 10);
        let e = decimal(n);
        assert(e == d.push(digit_char(n % 10)));
        assert(e.drop_last() =~= d);
        assert(e.last() == digit_char(n % 10));
        assert(forall|i: int| 0 <= i < d.len() ==> e[i] == d[i]);
        assert(digits_value(e) == digits_value(d) * 10 + ((e.last() as nat) - ('0' as nat)) as nat);
        assert(((e.last() as nat) - ('0' as nat)) as nat == n % 10);
        assert(n == (n / 10) * 10 + n % 10);
        assert(digits_value(e) == n);
    } else {
        let e = decimal(n);
        assert(e.drop_last() =~= Seq::<char>::empty());
        assert(digits_value(Seq::<char>::empty()) == 0);
        assert(n % 10 == n);
        assert(e.last() == digit_char(n));
        assert(((e.last() as nat) - ('0' as nat)) as nat == n);
        assert(digits_value(e) == digits_value(e.drop_last()) * 10 + ((e.last() as nat) - (
        '0' as nat)) as nat);
        assert(digits_value(e) == n);
    }
}

/// Appending dot-free text extends the last part.
proof fn lemma_split_append(s: Seq<char>, t: Seq<char>)
    requires
        no_dots(t),
    ensures
        split_dots(s + t) == split_dots(s).update(
            split_dots(s).len() - 1,
            split_dots(s).last() + t,
        ),
    decreases t.len(),
{
    lemma_split_nonempty(s);
    if t.len() == 0 {
        assert(s + t =~= s);
        assert(split_dots(s).last() + t =~= split_dots(s).last());
        assert(split_dots(s).update(split_dots(s).len() - 1, split_dots(s).last())
            =~= split_dots(s));
    } else {
        let t0 = t.drop_last();
        lemma_split_append(s, t0);
        assert((s + t).drop_last() =~= s + t0);
        assert((s + t).last() == t.last());
        let r0 = split_dots(s + t0);
        assert(r0.len() == split_dots(s).len());
        assert(r0.last() == split_dots(s).last() + t0);
        assert((split_dots(s).last() + t0).push(t.last()) =~= split_dots(s).last() + t);
        assert(split_dots(s + t) =~= split_dots(s).update(
            split_dots(s).len() - 1,
            split_dots(s).last() + t,
        ));
    }
}

proof fn lemma_split_dot(s: Seq<char>)
    ensures
        split_dots(s.push('.')) == split_dots(s).push(Seq::<char>::empty()),
{
    assert(s.push('.').drop_last() =~= s);
}

proof fn lemma_split_three(a: Seq<char>, b: Seq<char>, c: Seq<char>)
    requires
        no_dots(a),
        no_dots(b),
        no_dots(c),
    ensures
        split_dots(a + seq!['.'] + b + seq!['.'] + c) == seq![a, b, c],
{
    let e = Seq::<char>::empty();
    lemma_split_append(e, a);
    assert(e + a =~= a);
    assert(split_dots(a) =~= seq![a]);
    lemma_split_dot(a);
    assert(a + seq!['.'] =~= a.push('.'));
    lemma_split_append(a + seq!['.'], b);
    assert(split_dots(a + seq!['.'] + b) =~= seq![a, b]);
    lemma_split_dot(a + seq!['.'] + b);
    assert(a + seq!['.'] + b + seq!['.'] =~= (a + seq!['.'] + b).push('.'));
    lemma_split_append(a + seq!['.'] + b + seq!['.'], c);
    assert(split_dots(a + seq!['.'] + b + seq!['.'] + c) =~= seq![a, b, c]);
}

proof fn lemma_parse_u32_decimal(n: u32)
    ensures
        spec_parse_u32(decimal(n as nat)) == Some(n),
{
    lemma_decimal(n as nat);
    let d = decimal(n as nat);
    assert(is_digit(d[0]));
}

proof fn lemma_parse_version_text(v: Version)
    ensures
        spec_parse_version(version_text(v)) == Some(v),
        version_text(v).len() >= 1,
        is_digit(version_text(v)[0]),
        is_digit(version_text(v).last()),
{
    lemma_decimal(v.major as nat);
    lemma_decimal(v.minor as nat);
    lemma_decimal(v.patch as nat);
    let a = decimal(v.major as nat);
    let b = decimal(v.minor as nat);
    let c = decimal(v.patch as nat);
    lemma_split_three(a, b, c);
    lemma_parse_u32_decimal(v.major);
    lemma_parse_u32_decimal(v.minor);
    lemma_parse_u32_decimal(v.patch);
    let t = version_text(v);
    assert(t == a + seq!['.'] + b + seq!['.'] + c);
    assert(t[0] == a[0]);
    assert(t.last() == c.last());
    assert(is_digit(c[c.len() - 1]));
}

proof fn lemma_digit_not_ws(c: char)
    requires
        is_digit(c),
    ensures
        !is_ws(c),
{
}

proof fn lemma_trim_unchanged(s: Seq<char>)
    requires
        s.len() >= 1,
        !is_ws(s[0]),
        !is_ws(s.last()),
    ensures
        trim(s) == s,
{
}

/// Rendering a constraint and parsing the text back gives the same
/// constraint: `VersionConstraint::parse(&c.to_string())` is `Ok(c)`.
pub proof fn lemma_constraint_text_roundtrip(c: VersionConstraint)
    ensures
        spec_parse_constraint(constraint_text(c)) == Some(c),
{
    let v = match c {
        VersionConstraint::Exact(v) => v,
        VersionConstraint::AtLeast(v) => v,
    };
    lemma_parse_version_text(v);
    let vt = version_text(v);
    lemma_digit_not_ws(vt[0]);
    lemma_digit_not_ws(vt.last());
    lemma_trim_unchanged(vt);
    let t = constraint_text(c);
    match c {
        VersionConstraint::Exact(_) => {
            assert(t == seq!['='] + vt);
            assert(t[0] == '=');
            assert(t.last() == vt.last());
            lemma_trim_unchanged(t);
            assert(!is_prefix(seq!['>', '='], t)) by {
                if is_prefix(seq!['>', '='], t) {
                    assert(t.subrange(0, 2)[0] == t[0]);
                }
            }
            assert(t.subrange(0, 1) =~= seq!['=']);
            assert(t.subrange(1, t.len() as int) =~= vt);
        },
        VersionConstraint::AtLeast(_) => {
            assert(t == seq!['>', '='] + vt);
            assert(t[0] == '>');
            assert(t.last() == vt.last());
            lemma_trim_unchanged(t);
            assert(t.subrange(0, 2) =~= seq!['>', '=']);
            assert(t.subrange(2, t.len() as int) =~= vt);
        },
    }
}

/// Rendering a version and parsing the text back gives the same version.
pub proof fn lemma_version_text_roundtrip(v: Version)
    ensures
        spec_parse_version(version_text(v)) == Some(v),
{
    lemma_parse_version_text(v);
}

/// `u32::from_str` on `cs[lo..hi]`.
fn parse_u32_range(cs: &Vec<char>, lo: usize, hi: usize) -> (r: Option<u32>)
    requires
        lo <= hi <= cs@.len(),
    ensures
        r == spec_parse_u32(cs@.subrange(lo as int, hi as int)),
{
    let ghost s = cs@.subrange(lo as int, hi as int);
    let mut start = lo;
    if lo < hi && cs[lo] == '+' {
        start = lo + 1;
    }
    let ghost d = cs@.subrange(start as int, hi as int);
    assert(d == (if s.len() > 0 && s[0] == '+' {
        s.drop_first()
    } else {
        s
    })) by {
        if s.len() > 0 && s[0] == '+' {
            assert(d =~= s.drop_first());
        } else {
            assert(d =~= s);
        }
    }
    if start == hi {
        return None;
    }
    let mut acc: u64 = 0;
    let mut over = false;
    let mut i = start;
    while i < hi
        invariant
            start <= i <= hi,
            hi <= cs@.len(),
            d == cs@.subrange(start as int, hi as int),
            s == cs@.subrange(lo as int, hi as int),
            d == (if s.len() > 0 && s[0] == '+' {
                s.drop_first()
            } else {
                s
            }),
            all_digits(cs@.subrange(start as int, i as int)),
            !over ==> acc == digits_value(cs@.subrange(start as int, i as int)) && acc
                <= u32::MAX,
            over ==> digits_value(cs@.subrange(start as int, i as int)) > u32::MAX,
        decreases hi - i,
    {
        let c = cs[i];
        if !('0' <= c && c <= '9') {
            assert(d[i - start] == c);
            assert(!is_digit(d[i - start]));
            assert(!all_digits(d));
            return None;
        }
        let ghost prev = cs@.subrange(start as int, i as int);
        let ghost next = cs@.subrange(start as int, i + 1);
        assert(next.drop_last() =~= prev);
        assert(next.last() == c);
        let dv = (c as u32) - ('0' as u32);
        if !over {
            acc = acc * 10 + (dv as u64);
            if acc > 0xffff_ffff {
                over = true;
            }
        }
        i = i + 1;
        assert(all_digits(next)) by {
            assert forall|k: int| 0 <= k < next.len() implies is_digit(#[trigger] next[k]) by {
                if k < prev.len() {
                    assert(next[k] == prev[k]);
                }
            }
        }
    }
    if over {
        None
    } else {
        Some(acc as u32)
    }
}

/// Parses a version from `cs[lo..hi]`.
pub fn parse_version_range(cs: &Vec<char>, lo: usize, hi: usize) -> (r: Option<Version>)
    requires
        lo <= hi <= cs@.len(),
    ensures
        r == spec_parse_version(cs@.subrange(lo as int, hi as int)),
{
    let ghost s = cs@.subrange(lo as int, hi as int);
    // Closed parts as index ranges; the open part is `cs[cur..i]`.
    let mut starts: Vec<usize> = Vec::new();
    let mut ends: Vec<usize> = Vec::new();
    let mut cur = lo;
    let mut i = lo;
    assert(cs@.subrange(lo as int, i as int) =~= Seq::<char>::empty());
    assert(split_dots(Seq::<char>::empty()) == seq![Seq::<char>::empty()]);
    assert(split_dots(cs@.subrange(lo as int, i as int)) =~= Seq::new(
        starts@.len(),
        |k: int| cs@.subrange(starts@[k] as int, ends@[k] as int),
    ).push(cs@.subrange(cur as int, i as int)));
    while i < hi
        invariant
            lo <= cur <= i <= hi,
            hi <= cs@.len(),
            starts@.len() == ends@.len(),
            starts@.len() <= i - lo,
            forall|k: int| 0 <= k < starts@.len() ==> lo <= #[trigger] starts@[k],
            forall|k: int| 0 <= k < starts@.len() ==> #[trigger] ends@[k] <= i,
            forall|k: int| 0 <= k < starts@.len() ==> #[trigger] starts@[k] <= ends@[k],
            split_dots(cs@.subrange(lo as int, i as int)) == Seq::new(
                starts@.len(),
                |k: int| cs@.subrange(starts@[k] as int, ends@[k] as int),
            ).push(cs@.subrange(cur as int, i as int)),
        decreases hi - i,
    {
        let ghost prev_parts = split_dots(cs@.subrange(lo as int, i as int));
        let ghost closed = Seq::new(
            starts@.len(),
            |k: int| cs@.subrange(starts@[k] as int, ends@[k] as int),
        );
        assert(cs@.subrange(lo as int, i + 1).drop_last() =~= cs@.subrange(lo as int, i as int));
        assert(cs@.subrange(lo as int, i + 1).last() == cs@[i as int]);
        if cs[i] == '.' {
            starts.push(cur);
            ends.push(i);
            cur = i + 1;
            i = i + 1;
            let ghost closed2 = Seq::new(
                starts@.len(),
                |k: int| cs@.subrange(starts@[k] as int, ends@[k] as int),
            );
            assert(closed2 =~= closed.push(cs@.subrange(starts@.last() as int, (i - 1) as int)));
            assert(cs@.subrange(cur as int, i as int) =~= Seq::<char>::empty());
            assert(split_dots(cs@.subrange(lo as int, i as int)) =~= closed2.push(
                cs@.subrange(cur as int, i as int),
            ));
        } else {
            i = i + 1;
            assert(cs@.subrange(cur as int, i as int) =~= cs@.subrange(
                cur as int,
                (i - 1) as int,
            ).push(cs@[i - 1]));
            assert(split_dots(cs@.subrange(lo as int, i as int)) =~= closed.push(
                cs@.subrange(cur as int, i as int),
            ));
        }
    }
    let ghost parts = split_dots(s);
    assert(parts.len() == starts@.len() + 1);
    if starts.len() >= 3 {
        return None;
    }
    let n = starts.len() + 1;
    // Part k (k < n) is `cs[starts[k]..ends[k]]`, or `cs[cur..hi]` for the last.
    let (a0, b0) = if n == 1 {
        (cur, hi)
    } else {
        (starts[0], ends[0])
    };
    assert(parts[0] == cs@.subrange(a0 as int, b0 as int));
    let major = match parse_u32_range(cs, a0, b0) {
        Some(x) => x,
        None => return None,
    };
    let minor = if n > 1 {
        let (a1, b1) = if n == 2 {
            (cur, hi)
        } else {
            (starts[1], ends[1])
        };
        assert(parts[1] == cs@.subrange(a1 as int, b1 as int));
        match parse_u32_range(cs, a1, b1) {
            Some(x) => x,
            None => return None,
        }
    } else {
        0
    };
    let patch = if n > 2 {
        assert(parts[2] == cs@.subrange(cur as int, hi as int));
        match parse_u32_range(cs, cur, hi) {
            Some(x) => x,
            None => return None,
        }
    } else {
        0
    };
    Some(Version { major, minor, patch })
}

impl Version {
    pub fn new(major: u32, minor: u32, patch: u32) -> (r: Self)
        ensures
            r == (Version { major, minor, patch }),
    {
        Self { major, minor, patch }
    }

    /// Parses `MAJOR[.MINOR[.PATCH]]`; each component is a `u32`.
    pub fn parse(s: &str) -> (r: Result<Self, VersionParseError>)
        ensures
            r == (match spec_parse_version(s@) {
                Some(v) => Ok::<Version, VersionParseError>(v),
                None => Err(VersionParseError),
            }),
    {
        let cs = str_chars(s);
        assert(cs@.subrange(0, cs@.len() as int) =~= s@);
        match parse_version_range(&cs, 0, cs.len()) {
            Some(v) => Ok(v),
            None => Err(VersionParseError),
        }
    }

    /// `MAJOR.MINOR.PATCH` (the `Display` form).
    pub fn to_string(&self) -> (r: String)
        ensures
            r@ == version_text(*self),
    {
        let mut out = String::new();
        append_version(&mut out, self);
        out
    }
}

/// Appends the decimal rendering of `n`.
pub fn append_decimal(out: &mut String, n: u32)
    ensures
        final(out)@ == old(out)@ + decimal(n as nat),
    decreases n,
{
    if n >= 10 {
        append_decimal(out, n / 10);
    }
    let d = n % 10;
    let c = (('0' as u32) + d) as u8 as char;
    assert(c == digit_char((n % 10) as nat));
    push_char(out, c);
    assert(final(out)@ =~= old(out)@ + decimal(n as nat));
}

fn append_version(out: &mut String, v: &Version)
    ensures
        final(out)@ == old(out)@ + version_text(*v),
{
    append_decimal(out, v.major);
    push_char(out, '.');
    append_decimal(out, v.minor);
    push_char(out, '.');
    append_decimal(out, v.patch);
    assert(final(out)@ =~= old(out)@ + version_text(*v));
}

impl VersionConstraint {
    /// Parses `=X.Y.Z` or `>=X.Y.Z` (surrounding whitespace ignored).
    pub fn parse(s: &str) -> (r: Result<Self, VersionConstraintParseError>)
        ensures
            r == (match spec_parse_constraint(s@) {
                Some(c) => Ok::<VersionConstraint, VersionConstraintParseError>(c),
                None => Err(VersionConstraintParseError),
            }),
    {
        let cs = str_chars(s);
        assert(cs@.subrange(0, cs@.len() as int) =~= s@);
        let (lo, hi) = trim_bounds(&cs, 0, cs.len());
        let ghost t = cs@.subrange(lo as int, hi as int);
        assert(t == trim(s@));
        if hi - lo >= 2 && cs[lo] == '>' && cs[lo + 1] == '=' {
            assert(is_prefix(seq!['>', '='], t)) by {
                assert(t.subrange(0, 2) =~= seq!['>', '=']);
            }
            let (a, b) = trim_bounds(&cs, lo + 2, hi);
            assert(cs@.subrange(lo + 2, hi as int) =~= t.subrange(2, t.len() as int));
            match parse_version_range(&cs, a, b) {
                Some(v) => Ok(VersionConstraint::AtLeast(v)),
                None => Err(VersionConstraintParseError),
            }
        } else {
            assert(!is_prefix(seq!['>', '='], t)) by {
                if is_prefix(seq!['>', '='], t) {
                    assert(t.subrange(0, 2)[0] == '>');
                    assert(t.subrange(0, 2)[1] == '=');
                }
            }
            if hi - lo >= 1 && cs[lo] == '=' {
                assert(is_prefix(seq!['='], t)) by {
                    assert(t.subrange(0, 1) =~= seq!['=']);
                }
                let (a, b) = trim_bounds(&cs, lo + 1, hi);
                assert(cs@.subrange(lo + 1, hi as int) =~= t.subrange(1, t.len() as int));
                match parse_version_range(&cs, a, b) {
                    Some(v) => Ok(VersionConstraint::Exact(v)),
                    None => Err(VersionConstraintParseError),
                }
            } else {
                assert(!is_prefix(seq!['='], t)) by {
                    if is_prefix(seq!['='], t) {
                        assert(t.subrange(0, 1)[0] == '=');
                    }
                }
                Err(VersionConstraintParseError)
            }
        }
    }

    /// Whether `v` meets the constraint (`==` for a pin, `>=` for a floor).
    pub fn satisfies(&self, v: &Version) -> (r: bool)
        ensures
            r == spec_satisfies(*self, *v),
    {
        match self {
            VersionConstraint::Exact(want) => v.major == want.major && v.minor == want.minor
                && v.patch == want.patch,
            VersionConstraint::AtLeast(floor) => floor.major < v.major || (floor.major
                == v.major && floor.minor < v.minor) || (floor.major == v.major && floor.minor
                == v.minor && floor.patch <= v.patch),
        }
    }

    /// `=X.Y.Z` or `>=X.Y.Z` (the `Display` form).
    pub fn to_string(&self) -> (r: String)
        ensures
            r@ == constraint_text(*self),
    {
        let mut out = String::new();
        match self {
            VersionConstraint::Exact(v) => {
                push_char(&mut out, '=');
                append_version(&mut out, v);
            },
            VersionConstraint::AtLeast(v) => {
                push_char(&mut out, '>');
                push_char(&mut out, '=');
                append_version(&mut out, v);
            },
        }
        assert(out@ =~= constraint_text(*self));
        out
    }
}

} // verus!
