//! Versions of the linkup binary and the choice of the release to update to.
use vstd::prelude::*;
use vstd::string::StringExecFns;
use crate::text::{chars_of, str_eq};
use crate::release::{Asset, Release, picks_asset};
use crate::domains::string_views;

verus! {

/// `str::split` on a single character: the pieces between the separators,
/// always at least one.
pub open spec fn split_on(s: Seq<char>, sep: char) -> Seq<Seq<char>>
    decreases s.len(),
{
    if s.len() == 0 {
        seq![Seq::<char>::empty()]
    } else {
        let rest = split_on(s.drop_last(), sep);
        if s.last() == sep {
            rest.push(Seq::<char>::empty())
        } else {
            rest.update(rest.len() - 1, rest.last().push(s.last()))
        }
    }
}

proof fn lemma_split_on_nonempty(s: Seq<char>, sep: char)
    ensures
        split_on(s, sep).len() >= 1,
    decreases s.len(),
{
    if s.len() > 0 {
        lemma_split_on_nonempty(s.drop_last(), sep);
    }
}

pub open spec fn is_digit(c: char) -> bool {
    '0' <= c <= '9'
}

pub open spec fn all_digits(s: Seq<char>) -> bool {
    forall|i: int| 0 <= i < s.len() ==> is_digit(#[trigger] s[i])
}

pub open spec fn digit_value(c: char) -> nat {
    (c as nat - '0' as nat) as nat
}

/// The number a string of decimal digits denotes.
pub open spec fn digits_value(s: Seq<char>) -> nat
    decreases s.len(),
{
    if s.len() == 0 {
        0
    } else {
        digits_value(s.drop_last()) * 10 + digit_value(s.last())
    }
}

/// The digits `u16::from_str` reads: the text without one leading `+`.
pub open spec fn unsigned_digits(s: Seq<char>) -> Seq<char> {
    if s.len() > 0 && s[0] == '+' {
        s.drop_first()
    } else {
        s
    }
}

/// An unsigned integer `from_str` accepts `s` for a type whose largest value
/// is `max`: an optional `+`, then one or more decimal digits whose value is
/// at most `max`.
pub open spec fn parses_within(s: Seq<char>, max: nat) -> bool {
    unsigned_digits(s).len() > 0 && all_digits(unsigned_digits(s)) && digits_value(unsigned_digits(s)) <= max
}

/// `u16::from_str` accepts `s`.
pub open spec fn parses_as_u16(s: Seq<char>) -> bool {
    parses_within(s, 0xffff)
}

proof fn lemma_digits_value_prefix(s: Seq<char>, k: int)
    requires
        0 <= k <= s.len(),
        all_digits(s),
    ensures
        digits_value(s.take(k)) <= digits_value(s),
    decreases s.len() - k,
{
    if k < s.len() {
        assert(s.take(k + 1).drop_last() =~= s.take(k));
        lemma_digits_value_prefix(s, k + 1);
    } else {
        assert(s.take(k) =~= s);
    }
}

/// `from_str` of an unsigned integer type whose largest value is `max`.
pub fn parse_unsigned(s: &Vec<char>, max: u64) -> (r: Option<u64>)
    ensures
        match r {
            Some(v) => parses_within(s@, max as nat) && v == digits_value(unsigned_digits(s@)),
            None => !parses_within(s@, max as nat),
        },
{
    let ghost d = unsigned_digits(s@);
    let start: usize = if s.len() > 0 && s[0] == '+' { 1 } else { 0 };
    assert(d =~= s@.subrange(start as int, s@.len() as int));
    if start >= s.len() {
        return None;
    }
    let mut v: u128 = 0;
    let mut i: usize = start;
    while i < s.len()
        invariant
            start <= i <= s@.len(),
            d == s@.subrange(start as int, s@.len() as int),
            d == unsigned_digits(s@),
            all_digits(d.take(i - start)),
            v == digits_value(d.take(i - start)),
            v <= max,
        decreases s@.len() - i,
    {
        let c = s[i];
        if !('0' <= c && c <= '9') {
            assert(d[i - start] == c);
            assert(!is_digit(d[i - start]));
            return None;
        }
        assert(d.take(i - start + 1).drop_last() =~= d.take(i - start));
        let nv = v * 10 + (c as u128 - '0' as u128);
        assert(d.take(i - start + 1).last() == c);
        assert(digits_value(d.take(i - start + 1)) == nv);
        assert(all_digits(d.take(i - start + 1))) by {
            assert forall|k: int| 0 <= k < i - start + 1 implies is_digit(#[trigger] d.take(i - start + 1)[k]) by {
                if k < i - start {
                    assert(d.take(i - start)[k] == d.take(i - start + 1)[k]);
                }
            }
        }
        if nv > max as u128 {
            proof {
                if all_digits(d) {
                    lemma_digits_value_prefix(d, i - start + 1);
                }
            }
            return None;
        }
        v = nv;
        i = i + 1;
    }
    assert(d.take(i - start) =~= d);
    Some(v as u64)
}

/// `u16::from_str`.
pub fn parse_u16(s: &Vec<char>) -> (r: Option<u16>)
    ensures
        match r {
            Some(v) => parses_as_u16(s@) && v == digits_value(unsigned_digits(s@)),
            None => !parses_as_u16(s@),
        },
{
    match parse_unsigned(s, 0xffff) {
        Some(v) => Some(v as u16),
        None => None,
    }
}

/// The character sequences of a list of character vectors.
pub open spec fn char_seqs(v: Seq<Vec<char>>) -> Seq<Seq<char>> {
    v.map_values(|x: Vec<char>| x@)
}

/// `str::split` on `sep`.
pub fn split_chars(s: &Vec<char>, sep: char) -> (r: Vec<Vec<char>>)
    ensures
        char_seqs(r@) == split_on(s@, sep),
{
    let mut parts: Vec<Vec<char>> = Vec::new();
    let mut cur: Vec<char> = Vec::new();
    let mut i: usize = 0;
    assert(s@.take(0) =~= Seq::<char>::empty());
    assert(char_seqs(parts@).push(cur@) =~= split_on(s@.take(0), sep));
    while i < s.len()
        invariant
            i <= s@.len(),
            char_seqs(parts@).push(cur@) == split_on(s@.take(i as int), sep),
        decreases s@.len() - i,
    {
        let c = s[i];
        assert(s@.take(i + 1).drop_last() =~= s@.take(i as int));
        assert(s@.take(i + 1).last() == c);
        let ghost before = char_seqs(parts@);
        if c == sep {
            parts.push(cur);
            cur = Vec::new();
            assert(char_seqs(parts@) =~= before.push(split_on(s@.take(i as int), sep).last()));
            assert(char_seqs(parts@).push(cur@) =~= split_on(s@.take(i + 1), sep));
        } else {
            cur.push(c);
            assert(char_seqs(parts@).push(cur@) =~= split_on(s@.take(i + 1), sep));
        }
        i = i + 1;
    }
    assert(s@.take(s@.len() as int) =~= s@);
    let ghost before = char_seqs(parts@);
    parts.push(cur);
    assert(char_seqs(parts@) =~= before.push(split_on(s@, sep).last()));
    parts
}

/// A linkup version: `major.minor.patch`.
pub struct Version {
    pub major: u16,
    pub minor: u16,
    pub patch: u16,
}

/// Errors of the update checks.
#[derive(Debug)]
pub enum UpdateError {
    /// The text is not of the form `major.minor.patch`.
    InvalidVersion(String),
}

/// The three numbers of a version text split on `.`, when there are three.
pub open spec fn version_parts(s: Seq<char>) -> Option<(Seq<char>, Seq<char>, Seq<char>)> {
    let parts = split_on(s, '.');
    if parts.len() == 3 {
        Some((parts[0], parts[1], parts[2]))
    } else {
        None
    }
}

/// Parsing `s` is defined: when it has three parts, each is a number that
/// fits in 16 bits. A part that is not is no error the parser reports: the
/// caller must not hand it such a text.
pub open spec fn version_parse_defined(s: Seq<char>) -> bool {
    match version_parts(s) {
        Some((a, b, c)) => parses_as_u16(a) && parses_as_u16(b) && parses_as_u16(c),
        None => true,
    }
}

/// The version `s` denotes, or `None` when it does not have three parts.
pub open spec fn parse_version(s: Seq<char>) -> Option<Version> {
    match version_parts(s) {
        Some((a, b, c)) => Some(
            Version {
                major: digits_value(unsigned_digits(a)) as u16,
                minor: digits_value(unsigned_digits(b)) as u16,
                patch: digits_value(unsigned_digits(c)) as u16,
            },
        ),
        None => None,
    }
}

impl Version {
    /// Whether parsing `value` is defined; where it is not, `try_from` must
    /// not be called.
    pub fn try_from_is_defined(value: &str) -> (r: bool)
        ensures
            r == version_parse_defined(value@),
    {
        let chars = chars_of(value);
        let parts = split_chars(&chars, '.');
        if parts.len() != 3 {
            return true;
        }
        assert(parts@[0]@ == char_seqs(parts@)[0]);
        assert(parts@[1]@ == char_seqs(parts@)[1]);
        assert(parts@[2]@ == char_seqs(parts@)[2]);
        parse_u16(&parts[0]).is_some() && parse_u16(&parts[1]).is_some() && parse_u16(&parts[2]).is_some()
    }

    /// Parses `major.minor.patch`.
    pub fn try_from(value: &str) -> (r: Result<Version, UpdateError>)
        requires
            version_parse_defined(value@),
        ensures
            match r {
                Ok(v) => parse_version(value@) == Some(v),
                Err(UpdateError::InvalidVersion(m)) => parse_version(value@) is None && m@ == value@,
            },
    {
        let chars = chars_of(value);
        let parts = split_chars(&chars, '.');
        if parts.len() != 3 {
            return Err(UpdateError::InvalidVersion(String::from_str(value)));
        }
        assert(parts@[0]@ == char_seqs(parts@)[0]);
        assert(parts@[1]@ == char_seqs(parts@)[1]);
        assert(parts@[2]@ == char_seqs(parts@)[2]);
        let major = parse_u16(&parts[0]);
        let minor = parse_u16(&parts[1]);
        let patch = parse_u16(&parts[2]);
        match (major, minor, patch) {
            (Some(major), Some(minor), Some(patch)) => Ok(Version { major, minor, patch }),
            _ => {
                assert(false);
                Err(UpdateError::InvalidVersion(String::from_str(value)))
            },
        }
    }

    /// `self` is older than `other`: it comes first when versions are
    /// compared by major, then minor, then patch number.
    pub open spec fn older_than(self, other: Version) -> bool {
        if self.major != other.major {
            self.major < other.major
        } else if self.minor != other.minor {
            self.minor < other.minor
        } else {
            self.patch < other.patch
        }
    }

    /// Whether `self` is outdated compared to `other`.
    pub fn is_outdated(&self, other: &Version) -> (r: bool)
        ensures
            r == self.older_than(*other),
    {
        let same_major = self.major == other.major;
        let same_minor = self.minor == other.minor;
        let same_patch = self.patch == other.patch;
        match (same_major, same_minor, same_patch) {
            (true, true, true) => false,
            (true, true, false) => self.patch < other.patch,
            (true, false, _) => self.minor < other.minor,
            (false, _, _) => self.major < other.major,
        }
    }
}

/// No version is outdated compared to itself.
pub proof fn lemma_outdated_irreflexive(v: Version)
    ensures
        !v.older_than(v),
{
}

/// Being outdated is transitive.
pub proof fn lemma_outdated_transitive(a: Version, b: Version, c: Version)
    requires
        a.older_than(b),
        b.older_than(c),
    ensures
        a.older_than(c),
{
}

/// Of two different versions, one is outdated compared to the other.
pub proof fn lemma_outdated_total(a: Version, b: Version)
    requires
        a != b,
    ensures
        a.older_than(b) || b.older_than(a),
{
}


/// Of two versions with the same major and minor number, the one with the
/// smaller patch number is the outdated one.
pub proof fn lemma_outdated_by_patch(a: Version, b: Version)
    requires
        a.major == b.major,
        a.minor == b.minor,
    ensures
        a.older_than(b) <==> a.patch < b.patch,
{
}

/// Being outdated is the numeric order of versions: by major number, then
/// minor, then patch.
pub proof fn lemma_outdated_is_numeric_order(a: Version, b: Version)
    ensures
        a.older_than(b) <==> (a.major < b.major
            || (a.major == b.major && a.minor < b.minor)
            || (a.major == b.major && a.minor == b.minor && a.patch < b.patch)),
{
}

/// An update is offered only for a release that is numerically newer than
/// the running version, and for every such release the machine's asset of
/// it is offered.
pub proof fn lemma_update_only_to_newer(current: Seq<char>, release: Release, os: Seq<char>, arch: Seq<char>,
    r: Option<Asset>, c: Version, l: Version)
    requires
        update_asset(current, release, os, arch, r),
        parse_version(current) == Some(c),
        parse_version(release.version@) == Some(l),
    ensures
        !(c.major < l.major || (c.major == l.major && c.minor < l.minor)
            || (c.major == l.major && c.minor == l.minor && c.patch < l.patch)) ==> r is None,
        (c.major < l.major || (c.major == l.major && c.minor < l.minor)
            || (c.major == l.major && c.minor == l.minor && c.patch < l.patch)) ==> picks_asset(release.assets@, os, arch, r),
{
    lemma_outdated_is_numeric_order(c, l);
}

/// The decimal digit `d`.
pub open spec fn digit_char(d: nat) -> char {
    ('0' as nat + d) as char
}

/// The decimal representation of `n`, without leading zeros.
pub open spec fn decimal(n: nat) -> Seq<char>
    decreases n,
{
    if n < 10 {
        seq![digit_char(n)]
    } else {
        decimal(n / 10).push(digit_char(n % 10))
    }
}

fn digit_str(d: u16) -> (r: &'static str)
    requires
        d < 10,
    ensures
        r@ == seq![digit_char(d as nat)],
{
    proof {
        reveal_strlit("0");
        reveal_strlit("1");
        reveal_strlit("2");
        reveal_strlit("3");
        reveal_strlit("4");
        reveal_strlit("5");
        reveal_strlit("6");
        reveal_strlit("7");
        reveal_strlit("8");
        reveal_strlit("9");
    }
    match d {
        0 => "0",
        1 => "1",
        2 => "2",
        3 => "3",
        4 => "4",
        5 => "5",
        6 => "6",
        7 => "7",
        8 => "8",
        _ => "9",
    }
}

/// The decimal representation of `n` (`u16::to_string`).
pub fn decimal_string(n: u16) -> (r: String)
    ensures
        r@ == decimal(n as nat),
    decreases n,
{
    if n < 10 {
        String::from_str(digit_str(n))
    } else {
        let mut r = decimal_string(n / 10);
        r.append(digit_str(n % 10));
        r
    }
}

/// The text of a version: `major.minor.patch`.
pub open spec fn version_text(v: Version) -> Seq<char> {
    decimal(v.major as nat) + "."@ + decimal(v.minor as nat) + "."@ + decimal(v.patch as nat)
}

impl Version {
    /// The version as `major.minor.patch` (its `Display` form).
    pub fn to_string(&self) -> (r: String)
        ensures
            r@ == version_text(*self),
    {
        let mut r = decimal_string(self.major);
        r.append(".");
        r.append(decimal_string(self.minor).as_str());
        r.append(".");
        r.append(decimal_string(self.patch).as_str());
        r
    }
}

proof fn lemma_decimal(n: nat)
    ensures
        decimal(n).len() > 0,
        all_digits(decimal(n)),
        digits_value(decimal(n)) == n,
    decreases n,
{
    let k = n % 10;
    assert(digit_value(digit_char(k)) == k);
    assert(is_digit(digit_char(k)));
    if n >= 10 {
        lemma_decimal(n / 10);
        assert(decimal(n).drop_last() =~= decimal(n / 10));
        assert((n / 10) * 10 + n % 10 == n) by (nonlinear_arith);
        assert(decimal(n).last() == digit_char(k));
        assert(digits_value(decimal(n)) == digits_value(decimal(n / 10)) * 10 + k);
        assert forall|i: int| 0 <= i < decimal(n).len() implies is_digit(#[trigger] decimal(n)[i]) by {
            if i < decimal(n).len() - 1 {
                assert(decimal(n)[i] == decimal(n / 10)[i]);
            }
        }
    } else {
        assert(decimal(n).drop_last() =~= Seq::<char>::empty());
        assert(n % 10 == n);
        assert(digits_value(decimal(n)) == digits_value(Seq::<char>::empty()) * 10 + k);
    }
}

proof fn lemma_split_without_sep(x: Seq<char>, sep: char)
    requires
        forall|i: int| 0 <= i < x.len() ==> x[i] != sep,
    ensures
        split_on(x, sep) == seq![x],
    decreases x.len(),
{
    if x.len() > 0 {
        lemma_split_without_sep(x.drop_last(), sep);
        assert(x.drop_last().push(x.last()) =~= x);
        assert(seq![x.drop_last()].update(0, x.drop_last().push(x.last())) =~= seq![x]);
    } else {
        assert(x =~= Seq::<char>::empty());
    }
}

proof fn lemma_split_concat(s: Seq<char>, t: Seq<char>, sep: char)
    ensures
        split_on(s + seq![sep] + t, sep) == split_on(s, sep) + split_on(t, sep),
    decreases t.len(),
{
    let whole = s + seq![sep] + t;
    if t.len() == 0 {
        assert(whole.drop_last() =~= s);
        assert(split_on(s, sep) + split_on(t, sep) =~= split_on(s, sep).push(Seq::<char>::empty()));
    } else {
        assert(whole.drop_last() =~= s + seq![sep] + t.drop_last());
        lemma_split_concat(s, t.drop_last(), sep);
        lemma_split_on_nonempty(t.drop_last(), sep);
        lemma_split_on_nonempty(s, sep);
        let a = split_on(s, sep);
        let b = split_on(t.drop_last(), sep);
        if t.last() == sep {
            assert((a + b).push(Seq::<char>::empty()) =~= a + b.push(Seq::<char>::empty()));
        } else {
            assert((a + b).update((a + b).len() - 1, (a + b).last().push(t.last())) =~= a + b.update(
                b.len() - 1,
                b.last().push(t.last()),
            ));
        }
    }
}

proof fn lemma_decimal_has_no_dot(n: nat)
    ensures
        forall|i: int| 0 <= i < decimal(n).len() ==> decimal(n)[i] != '.',
{
    lemma_decimal(n);
    assert forall|i: int| 0 <= i < decimal(n).len() implies decimal(n)[i] != '.' by {
        assert(is_digit(decimal(n)[i]));
    }
}

/// Parsing the text of a version gives back the version, and is defined.
pub proof fn lemma_version_text_roundtrip(v: Version)
    ensures
        version_parse_defined(version_text(v)),
        parse_version(version_text(v)) == Some(v),
{
    reveal_strlit(".");
    let a = decimal(v.major as nat);
    let b = decimal(v.minor as nat);
    let c = decimal(v.patch as nat);
    lemma_decimal(v.major as nat);
    lemma_decimal(v.minor as nat);
    lemma_decimal(v.patch as nat);
    lemma_decimal_has_no_dot(v.major as nat);
    lemma_decimal_has_no_dot(v.minor as nat);
    lemma_decimal_has_no_dot(v.patch as nat);
    assert(version_text(v) =~= a + seq!['.'] + (b + seq!['.'] + c));
    lemma_split_concat(a, b + seq!['.'] + c, '.');
    lemma_split_concat(b, c, '.');
    lemma_split_without_sep(a, '.');
    lemma_split_without_sep(b, '.');
    lemma_split_without_sep(c, '.');
    assert(split_on(version_text(v), '.') =~= seq![a, b, c]);
    assert(is_digit(a[0]) && is_digit(b[0]) && is_digit(c[0]));
    assert(unsigned_digits(a) == a);
    assert(unsigned_digits(b) == b);
    assert(unsigned_digits(c) == c);
}


/// `r` is the asset to update to: the current version and the release's both
/// parse, the current one is outdated, and `r` is the release's asset for the
/// machine; `None` otherwise.
pub open spec fn update_asset(current: Seq<char>, release: Release, os: Seq<char>, arch: Seq<char>, r: Option<Asset>) -> bool {
    match (parse_version(current), parse_version(release.version@)) {
        (Some(c), Some(l)) => if c.older_than(l) {
            picks_asset(release.assets@, os, arch, r)
        } else {
            r is None
        },
        _ => r is None,
    }
}

/// The asset to download when `release` is newer than the running version
/// `current_version`.
pub fn available_update(current_version: &str, release: &Release, os: &str, arch: &str) -> (r: Option<Asset>)
    requires
        version_parse_defined(current_version@),
        version_parse_defined(release.version@),
    ensures
        update_asset(current_version@, *release, os@, arch@, r),
{
    let current = match Version::try_from(current_version) {
        Ok(version) => version,
        Err(_) => return None,
    };
    let latest = match Version::try_from(release.version.as_str()) {
        Ok(version) => version,
        Err(_) => return None,
    };
    if current.is_outdated(&latest) {
        release.asset_for(os, arch)
    } else {
        None
    }
}

/// How linkup was installed.
#[derive(PartialEq, Eq, Structural, Clone, Copy)]
pub enum InstallationMethod {
    Brew,
    Cargo,
    Manual,
}

/// The installation method that a path component marks, if any.
pub open spec fn component_marks(c: Seq<char>) -> Option<InstallationMethod> {
    if c == "Cellar"@ {
        Some(InstallationMethod::Brew)
    } else if c == ".cargo"@ {
        Some(InstallationMethod::Cargo)
    } else {
        None
    }
}

/// The method marked by the first marking component at or after `i`.
pub open spec fn installation_from(components: Seq<Seq<char>>, i: int) -> InstallationMethod
    decreases components.len() - i,
{
    if i < 0 || i >= components.len() {
        InstallationMethod::Manual
    } else {
        match component_marks(components[i]) {
            Some(m) => m,
            None => installation_from(components, i + 1),
        }
    }
}

impl InstallationMethod {
    /// How the binary whose canonical path has these components was
    /// installed: under a Homebrew `Cellar`, under `.cargo`, or by hand.
    pub fn current(components: &[String]) -> (r: InstallationMethod)
        ensures
            r == installation_from(string_views(components@), 0),
    {
        let mut i: usize = 0;
        while i < components.len()
            invariant
                i <= components@.len(),
                installation_from(string_views(components@), 0) == installation_from(string_views(components@), i as int),
            decreases components@.len() - i,
        {
            let c = components[i].as_str();
            assert(string_views(components@)[i as int] == c@);
            if str_eq(c, "Cellar") {
                return InstallationMethod::Brew;
            } else if str_eq(c, ".cargo") {
                return InstallationMethod::Cargo;
            }
            i = i + 1;
        }
        InstallationMethod::Manual
    }
}

/// The command that updates linkup when it was installed by `method`.
pub open spec fn update_command_text(method: InstallationMethod) -> Seq<char> {
    match method {
        InstallationMethod::Brew => "brew upgrade linkup"@,
        _ => "linkup update"@,
    }
}

/// The command a user runs to update linkup.
pub fn update_command(method: InstallationMethod) -> (r: String)
    ensures
        r@ == update_command_text(method),
{
    match method {
        InstallationMethod::Brew => String::from_str("brew upgrade linkup"),
        InstallationMethod::Manual | InstallationMethod::Cargo => String::from_str("linkup update"),
    }
}

} // verus!
