//! The textual grammars of version constraints.
//!
//! Every accepted text has the shape `MAJOR[.MINOR[-STAGE.N][+META]]`, read
//! from left to right over bytes. `STAGE` is one of `alpha`, `beta`, `rc`,
//! `dev`; `META` is `local` or seven lower-case hexadecimal digits. Numbers
//! are runs of decimal digits whose value fits 32 bits.
//!
//! * a filter is `MAJOR`, `MAJOR.MINOR` or `MAJOR.0-STAGE.N` without `dev`;
//! * a specific version is `MAJOR.MINOR` or `MAJOR.0-STAGE.N`;
//! * a build is a specific version followed by `+META`.

use vstd::prelude::*;
use vstd::string::StringExecFns;
use vstd::string::StringSliceAdditionalSpecFns;
use crate::ver::{BuildMeta, Filter, FilterMinor, MinorVersion, ParseError, Shape, Specific, Stage, Version, VersionSpec};

verus! {

pub open spec fn is_digit(b: u8) -> bool {
    48 <= b <= 57
}

/// Where the run of digits that starts at `i` ends.
pub open spec fn digits_end(s: Seq<u8>, i: int) -> int
    decreases s.len() - i,
{
    if 0 <= i < s.len() && is_digit(s[i]) {
        digits_end(s, i + 1)
    } else {
        i
    }
}

/// The decimal value of the digits in `s[i..j]`.
pub open spec fn digits_value(s: Seq<u8>, i: int, j: int) -> nat
    decreases j - i,
{
    if i < j {
        digits_value(s, i, j - 1) * 10 + (s[j - 1] - 48) as nat
    } else {
        0
    }
}

/// The number that starts at `i`, with the position after it.
pub open spec fn number_at(s: Seq<u8>, i: int) -> Option<(u32, int)> {
    let j = digits_end(s, i);
    if i < j && digits_value(s, i, j) <= u32::MAX {
        Some((digits_value(s, i, j) as u32, j))
    } else {
        None
    }
}

/// Whether the bytes of `word` stand in `s` from position `i`.
pub open spec fn word_at(s: Seq<u8>, i: int, word: Seq<u8>) -> bool {
    0 <= i && i + word.len() <= s.len() && s.subrange(i, i + word.len()) == word
}

/// The lower-case name of a stage, as bytes.
pub open spec fn stage_word(stage: Stage) -> Seq<u8> {
    match stage {
        Stage::Alpha => seq![97u8, 108u8, 112u8, 104u8, 97u8],
        Stage::Beta => seq![98u8, 101u8, 116u8, 97u8],
        Stage::Rc => seq![114u8, 99u8],
        Stage::Dev => seq![100u8, 101u8, 118u8],
    }
}

/// The bytes of `local`.
pub open spec fn local_word() -> Seq<u8> {
    seq![108u8, 111u8, 99u8, 97u8, 108u8]
}

/// The stage named at `i`, with the position after the name.
pub open spec fn stage_at(s: Seq<u8>, i: int) -> Option<(Stage, int)> {
    if word_at(s, i, stage_word(Stage::Alpha)) {
        Some((Stage::Alpha, i + 5))
    } else if word_at(s, i, stage_word(Stage::Beta)) {
        Some((Stage::Beta, i + 4))
    } else if word_at(s, i, stage_word(Stage::Rc)) {
        Some((Stage::Rc, i + 2))
    } else if word_at(s, i, stage_word(Stage::Dev)) {
        Some((Stage::Dev, i + 3))
    } else {
        None
    }
}

/// The value of a lower-case hexadecimal digit.
pub open spec fn hex_value(b: u8) -> Option<int> {
    if 48 <= b <= 57 {
        Some(b - 48)
    } else if 97 <= b <= 102 {
        Some(b - 87)
    } else {
        None
    }
}

/// The value of seven hexadecimal digits, most significant first.
pub open spec fn commit_value(m: Seq<u8>) -> Option<u32> {
    if m.len() == 7 && (forall|k: int| 0 <= k < 7 ==> hex_value(#[trigger] m[k]).is_some()) {
        Some(
            ((((((hex_value(m[0]).unwrap() * 16 + hex_value(m[1]).unwrap()) * 16 + hex_value(
                m[2],
            ).unwrap()) * 16 + hex_value(m[3]).unwrap()) * 16 + hex_value(m[4]).unwrap()) * 16
                + hex_value(m[5]).unwrap()) * 16 + hex_value(m[6]).unwrap()) as u32,
        )
    } else {
        None
    }
}

/// Build metadata written as `m`.
pub open spec fn meta_of(m: Seq<u8>) -> Option<BuildMeta> {
    if m == local_word() {
        Some(BuildMeta::Local)
    } else {
        match commit_value(m) {
            Some(commit) => Some(BuildMeta::Commit(commit)),
            None => None,
        }
    }
}

/// The optional `-STAGE.N` at `q`, with the position after it.
pub open spec fn pre_at(s: Seq<u8>, q: int) -> Option<(Option<(Stage, u32)>, int)> {
    if 0 <= q < s.len() && s[q] == 45 {
        match stage_at(s, q + 1) {
            Some((stage, t)) => if t < s.len() && s[t] == 46 {
                match number_at(s, t + 1) {
                    Some((n, r)) => Some((Some((stage, n)), r)),
                    None => None,
                }
            } else {
                None
            },
            None => None,
        }
    } else {
        Some((None, q))
    }
}

/// The optional `+META` at `r`, which must reach the end of the text.
pub open spec fn meta_at(s: Seq<u8>, r: int) -> Option<Option<BuildMeta>> {
    if r == s.len() {
        Some(None)
    } else if 0 <= r < s.len() && s[r] == 43 {
        match meta_of(s.subrange(r + 1, s.len() as int)) {
            Some(meta) => Some(Some(meta)),
            None => None,
        }
    } else {
        None
    }
}

/// The parts of a whole text, if it has the common shape.
pub open spec fn spec_shape(s: Seq<u8>) -> Option<Shape> {
    match number_at(s, 0) {
        None => None,
        Some((major, p)) => if p == s.len() {
            Some(Shape { major, minor: None, pre: None, meta: None })
        } else if s[p] != 46 {
            None
        } else {
            match number_at(s, p + 1) {
                None => None,
                Some((minor, q)) => match pre_at(s, q) {
                    None => None,
                    Some((pre, r)) => match meta_at(s, r) {
                        None => None,
                        Some(meta) => Some(Shape { major, minor: Some(minor), pre, meta }),
                    },
                },
            }
        },
    }
}

/// The release that a minor number and an optional stage denote. A stage is
/// only written after minor number zero.
pub open spec fn minor_of(minor: u32, pre: Option<(Stage, u32)>) -> Option<MinorVersion> {
    match pre {
        None => Some(MinorVersion::Minor(minor)),
        Some((stage, n)) => if minor != 0 {
            None
        } else {
            Some(
                match stage {
                    Stage::Alpha => MinorVersion::Alpha(n),
                    Stage::Beta => MinorVersion::Beta(n),
                    Stage::Rc => MinorVersion::Rc(n),
                    Stage::Dev => MinorVersion::Dev(n),
                },
            )
        },
    }
}

/// The specific version that a shape without metadata denotes.
pub open spec fn specific_of(shape: Shape) -> Option<Specific> {
    match (shape.minor, shape.meta) {
        (Some(minor), None) => match minor_of(minor, shape.pre) {
            Some(m) => Some(Specific { major: shape.major, minor: m }),
            None => None,
        },
        _ => None,
    }
}

/// The build that a shape with metadata denotes.
pub open spec fn build_of(shape: Shape) -> Option<Version> {
    match (shape.minor, shape.meta) {
        (Some(minor), Some(meta)) => match minor_of(minor, shape.pre) {
            Some(m) => Some(Version { specific: Specific { major: shape.major, minor: m }, meta }),
            None => None,
        },
        _ => None,
    }
}

/// The filter that a shape denotes: no metadata, no development snapshot.
pub open spec fn filter_of(shape: Shape) -> Option<Filter> {
    if shape.meta.is_some() {
        None
    } else {
        match shape.minor {
            None => Some(Filter { major: shape.major, minor: None }),
            Some(minor) => match minor_of(minor, shape.pre) {
                Some(MinorVersion::Alpha(n)) => Some(
                    Filter { major: shape.major, minor: Some(FilterMinor::Alpha(n)) },
                ),
                Some(MinorVersion::Beta(n)) => Some(
                    Filter { major: shape.major, minor: Some(FilterMinor::Beta(n)) },
                ),
                Some(MinorVersion::Rc(n)) => Some(
                    Filter { major: shape.major, minor: Some(FilterMinor::Rc(n)) },
                ),
                Some(MinorVersion::Minor(n)) => Some(
                    Filter { major: shape.major, minor: Some(FilterMinor::Minor(n)) },
                ),
                _ => None,
            },
        }
    }
}

/// What the text says when read as a filter.
pub open spec fn spec_parse_filter(s: Seq<u8>) -> Option<Filter> {
    match spec_shape(s) {
        Some(shape) => filter_of(shape),
        None => None,
    }
}

/// What the text says when read as a specific version.
pub open spec fn spec_parse_specific(s: Seq<u8>) -> Option<Specific> {
    match spec_shape(s) {
        Some(shape) => specific_of(shape),
        None => None,
    }
}

/// What the text says when read as a build.
pub open spec fn spec_parse_build(s: Seq<u8>) -> Option<Version> {
    match spec_shape(s) {
        Some(shape) => build_of(shape),
        None => None,
    }
}

/// The constraint that a text denotes: the first of filter, specific version
/// and build that accepts it.
pub open spec fn spec_parse(s: Seq<u8>) -> Result<VersionSpec, ParseError> {
    match spec_parse_filter(s) {
        Some(filter) => Ok(VersionSpec::Filter(filter)),
        None => match spec_parse_specific(s) {
            Some(specific) => Ok(VersionSpec::Specific(specific)),
            None => match spec_parse_build(s) {
                Some(build) => Ok(VersionSpec::Build(build)),
                None => Err(ParseError),
            },
        },
    }
}

/// The filter grammar has precedence: a text that it accepts denotes that
/// filter, whichever other grammars accept the text as well.
pub proof fn lemma_filter_precedence(s: Seq<u8>)
    requires
        spec_parse_filter(s).is_some(),
    ensures
        spec_parse(s) == Ok::<VersionSpec, ParseError>(
            VersionSpec::Filter(spec_parse_filter(s).unwrap()),
        ),
{
}

/// A text that more than one grammar accepts denotes the filter that it
/// says.
pub proof fn lemma_ambiguous_text_is_filter(s: Seq<u8>)
    requires
        (spec_parse_filter(s).is_some() && spec_parse_specific(s).is_some()) || (
        spec_parse_filter(s).is_some() && spec_parse_build(s).is_some()) || (spec_parse_specific(
            s,
        ).is_some() && spec_parse_build(s).is_some()),
    ensures
        spec_parse_filter(s).is_some(),
        spec_parse(s) == Ok::<VersionSpec, ParseError>(
            VersionSpec::Filter(spec_parse_filter(s).unwrap()),
        ),
{
}

/// A specific version has precedence over a build, and the two grammars never
/// accept the same text.
pub proof fn lemma_specific_excludes_build(s: Seq<u8>)
    ensures
        !(spec_parse_specific(s).is_some() && spec_parse_build(s).is_some()),
        spec_parse_filter(s).is_none() && spec_parse_specific(s).is_some() ==> spec_parse(s)
            == Ok::<VersionSpec, ParseError>(
            VersionSpec::Specific(spec_parse_specific(s).unwrap()),
        ),
{
}

/// A text is rejected exactly when no grammar accepts it.
pub proof fn lemma_parse_error(s: Seq<u8>)
    ensures
        spec_parse(s).is_err() <==> spec_parse_filter(s).is_none() && spec_parse_specific(
            s,
        ).is_none() && spec_parse_build(s).is_none(),
{
}

fn parse_number(s: &[u8], i: usize) -> (r: Option<(u32, usize)>)
    requires
        i <= s.len(),
    ensures
        match r {
            Some((value, end)) => number_at(s@, i as int) == Some((value, end as int)) && i < end
                <= s.len(),
            None => number_at(s@, i as int).is_none(),
        },
{
    let mut j: usize = i;
    let mut acc: u64 = 0;
    let mut overflow: bool = false;
    while j < s.len() && s[j] >= 48 && s[j] <= 57
        invariant
            i <= j <= s.len(),
            digits_end(s@, i as int) == digits_end(s@, j as int),
            overflow ==> digits_value(s@, i as int, j as int) > u32::MAX,
            !overflow ==> acc == digits_value(s@, i as int, j as int) && acc <= u32::MAX,
        decreases s.len() - j,
    {
        let digit: u64 = (s[j] - 48) as u64;
        proof {
            assert(digits_value(s@, i as int, j + 1) == digits_value(s@, i as int, j as int) * 10
                + (s@[j as int] - 48) as nat);
        }
        if !overflow {
            acc = acc * 10 + digit;
            if acc > 0xffff_ffff {
                overflow = true;
            }
        }
        j = j + 1;
    }
    if j == i || overflow {
        None
    } else {
        Some((acc as u32, j))
    }
}

fn has_word(s: &[u8], i: usize, word: &Vec<u8>) -> (r: bool)
    requires
        i <= s.len(),
    ensures
        r == word_at(s@, i as int, word@),
{
    if word.len() > s.len() - i {
        return false;
    }
    let mut k: usize = 0;
    while k < word.len()
        invariant
            k <= word.len(),
            i + word.len() <= s.len(),
            forall|n: int| 0 <= n < k ==> s@[i + n] == word@[n],
        decreases word.len() - k,
    {
        if s[i + k] != word[k] {
            proof {
                assert(s@.subrange(i as int, i + word@.len())[k as int] == s@[i + k]);
            }
            return false;
        }
        k = k + 1;
    }
    proof {
        assert(s@.subrange(i as int, i + word@.len()) =~= word@);
    }
    true
}

fn parse_stage(s: &[u8], i: usize) -> (r: Option<(Stage, usize)>)
    requires
        i <= s.len(),
    ensures
        match r {
            Some((stage, end)) => stage_at(s@, i as int) == Some((stage, end as int)) && end
                <= s.len(),
            None => stage_at(s@, i as int).is_none(),
        },
{
    let alpha: Vec<u8> = vec![97u8, 108u8, 112u8, 104u8, 97u8];
    let beta: Vec<u8> = vec![98u8, 101u8, 116u8, 97u8];
    let rc: Vec<u8> = vec![114u8, 99u8];
    let dev: Vec<u8> = vec![100u8, 101u8, 118u8];
    proof {
        assert(alpha@ =~= stage_word(Stage::Alpha));
        assert(beta@ =~= stage_word(Stage::Beta));
        assert(rc@ =~= stage_word(Stage::Rc));
        assert(dev@ =~= stage_word(Stage::Dev));
    }
    if has_word(s, i, &alpha) {
        Some((Stage::Alpha, i + 5))
    } else if has_word(s, i, &beta) {
        Some((Stage::Beta, i + 4))
    } else if has_word(s, i, &rc) {
        Some((Stage::Rc, i + 2))
    } else if has_word(s, i, &dev) {
        Some((Stage::Dev, i + 3))
    } else {
        None
    }
}

fn hex_digit(b: u8) -> (r: Option<u32>)
    ensures
        match r {
            Some(value) => hex_value(b) == Some(value as int) && value < 16,
            None => hex_value(b).is_none(),
        },
{
    if b >= 48 && b <= 57 {
        Some((b - 48) as u32)
    } else if b >= 97 && b <= 102 {
        Some((b - 87) as u32)
    } else {
        None
    }
}

fn parse_commit(s: &[u8], from: usize) -> (r: Option<u32>)
    requires
        from <= s.len(),
    ensures
        r == commit_value(s@.subrange(from as int, s.len() as int)),
{
    let ghost m = s@.subrange(from as int, s.len() as int);
    if s.len() - from != 7 {
        return None;
    }
    let mut acc: u32 = 0;
    let mut k: usize = 0;
    let ghost mut values: Seq<int> = Seq::empty();
    while k < 7
        invariant
            k <= 7,
            from + 7 == s.len(),
            m == s@.subrange(from as int, s.len() as int),
            values.len() == k,
            forall|n: int| 0 <= n < k ==> hex_value(#[trigger] m[n]) == Some(values[n]) && 0
                <= values[n] < 16,
            k == 0 ==> acc == 0,
            k == 1 ==> acc == values[0],
            k == 2 ==> acc == values[0] * 16 + values[1],
            k == 3 ==> acc == (values[0] * 16 + values[1]) * 16 + values[2],
            k == 4 ==> acc == ((values[0] * 16 + values[1]) * 16 + values[2]) * 16 + values[3],
            k == 5 ==> acc == (((values[0] * 16 + values[1]) * 16 + values[2]) * 16 + values[3])
                * 16 + values[4],
            k == 6 ==> acc == ((((values[0] * 16 + values[1]) * 16 + values[2]) * 16 + values[3])
                * 16 + values[4]) * 16 + values[5],
            k == 7 ==> acc == (((((values[0] * 16 + values[1]) * 16 + values[2]) * 16
                + values[3]) * 16 + values[4]) * 16 + values[5]) * 16 + values[6],
        decreases 7 - k,
    {
        match hex_digit(s[from + k]) {
            Some(value) => {
                proof {
                    assert(m[k as int] == s@[from + k]);
                    values = values.push(value as int);
                }
                acc = acc * 16 + value;
            },
            None => {
                proof {
                    assert(m[k as int] == s@[from + k]);
                }
                return None;
            },
        }
        k = k + 1;
    }
    Some(acc)
}

fn parse_meta(s: &[u8], from: usize) -> (r: Option<BuildMeta>)
    requires
        from <= s.len(),
    ensures
        r == meta_of(s@.subrange(from as int, s.len() as int)),
{
    let local: Vec<u8> = vec![108u8, 111u8, 99u8, 97u8, 108u8];
    proof {
        assert(local@ =~= local_word());
    }
    if s.len() - from == 5 && has_word(s, from, &local) {
        return Some(BuildMeta::Local);
    }
    match parse_commit(s, from) {
        Some(commit) => Some(BuildMeta::Commit(commit)),
        None => None,
    }
}

fn parse_pre(s: &[u8], q: usize) -> (r: Option<(Option<(Stage, u32)>, usize)>)
    requires
        q <= s.len(),
    ensures
        match r {
            Some((pre, end)) => pre_at(s@, q as int) == Some((pre, end as int)) && end <= s.len(),
            None => pre_at(s@, q as int).is_none(),
        },
{
    if q < s.len() && s[q] == 45 {
        match parse_stage(s, q + 1) {
            Some((stage, t)) => {
                if t < s.len() && s[t] == 46 {
                    match parse_number(s, t + 1) {
                        Some((n, r)) => Some((Some((stage, n)), r)),
                        None => None,
                    }
                } else {
                    None
                }
            },
            None => None,
        }
    } else {
        Some((None, q))
    }
}

fn parse_meta_at(s: &[u8], r: usize) -> (res: Option<Option<BuildMeta>>)
    requires
        r <= s.len(),
    ensures
        res == meta_at(s@, r as int),
{
    if r == s.len() {
        Some(None)
    } else if s[r] == 43 {
        match parse_meta(s, r + 1) {
            Some(meta) => Some(Some(meta)),
            None => None,
        }
    } else {
        None
    }
}

/// Reads the parts of a whole text.
pub fn parse_shape(s: &[u8]) -> (r: Option<Shape>)
    ensures
        r == spec_shape(s@),
{
    match parse_number(s, 0) {
        None => None,
        Some((major, p)) => {
            if p == s.len() {
                Some(Shape { major, minor: None, pre: None, meta: None })
            } else if s[p] != 46 {
                None
            } else {
                match parse_number(s, p + 1) {
                    None => None,
                    Some((minor, q)) => match parse_pre(s, q) {
                        None => None,
                        Some((pre, r)) => match parse_meta_at(s, r) {
                            None => None,
                            Some(meta) => Some(Shape { major, minor: Some(minor), pre, meta }),
                        },
                    },
                }
            }
        },
    }
}

fn shape_minor(minor: u32, pre: Option<(Stage, u32)>) -> (r: Option<MinorVersion>)
    ensures
        r == minor_of(minor, pre),
{
    match pre {
        None => Some(MinorVersion::Minor(minor)),
        Some((stage, n)) => {
            if minor != 0 {
                None
            } else {
                Some(
                    match stage {
                        Stage::Alpha => MinorVersion::Alpha(n),
                        Stage::Beta => MinorVersion::Beta(n),
                        Stage::Rc => MinorVersion::Rc(n),
                        Stage::Dev => MinorVersion::Dev(n),
                    },
                )
            }
        },
    }
}

impl Shape {
    /// This shape as a filter.
    pub fn filter(&self) -> (r: Option<Filter>)
        ensures
            r == filter_of(*self),
    {
        if self.meta.is_some() {
            return None;
        }
        match self.minor {
            None => Some(Filter { major: self.major, minor: None }),
            Some(minor) => match shape_minor(minor, self.pre) {
                Some(MinorVersion::Alpha(n)) => Some(
                    Filter { major: self.major, minor: Some(FilterMinor::Alpha(n)) },
                ),
                Some(MinorVersion::Beta(n)) => Some(
                    Filter { major: self.major, minor: Some(FilterMinor::Beta(n)) },
                ),
                Some(MinorVersion::Rc(n)) => Some(
                    Filter { major: self.major, minor: Some(FilterMinor::Rc(n)) },
                ),
                Some(MinorVersion::Minor(n)) => Some(
                    Filter { major: self.major, minor: Some(FilterMinor::Minor(n)) },
                ),
                _ => None,
            },
        }
    }

    /// This shape as a specific version.
    pub fn specific(&self) -> (r: Option<Specific>)
        ensures
            r == specific_of(*self),
    {
        match (self.minor, self.meta) {
            (Some(minor), None) => match shape_minor(minor, self.pre) {
                Some(m) => Some(Specific { major: self.major, minor: m }),
                None => None,
            },
            _ => None,
        }
    }

    /// This shape as a build.
    pub fn build(&self) -> (r: Option<Version>)
        ensures
            r == build_of(*self),
    {
        match (self.minor, self.meta) {
            (Some(minor), Some(meta)) => match shape_minor(minor, self.pre) {
                Some(m) => Some(
                    Version { specific: Specific { major: self.major, minor: m }, meta },
                ),
                None => None,
            },
            _ => None,
        }
    }
}

/// The character of a decimal digit.
pub open spec fn digit_char(d: nat) -> char {
    if d == 0 {
        '0'
    } else if d == 1 {
        '1'
    } else if d == 2 {
        '2'
    } else if d == 3 {
        '3'
    } else if d == 4 {
        '4'
    } else if d == 5 {
        '5'
    } else if d == 6 {
        '6'
    } else if d == 7 {
        '7'
    } else if d == 8 {
        '8'
    } else {
        '9'
    }
}

/// A number in decimal digits, without leading zeros.
pub open spec fn spec_decimal(n: nat) -> Seq<char>
    decreases n,
{
    if n < 10 {
        seq![digit_char(n)]
    } else {
        spec_decimal(n / 10) + seq![digit_char(n % 10)]
    }
}

/// The text of a specific version: `MAJOR.MINOR` for a release, and
/// `MAJOR.0-STAGE.N` before it.
pub open spec fn spec_specific_text(v: Specific) -> Seq<char> {
    spec_decimal(v.major as nat) + match v.minor {
        MinorVersion::Minor(n) => "."@ + spec_decimal(n as nat),
        MinorVersion::Alpha(n) => ".0-alpha."@ + spec_decimal(n as nat),
        MinorVersion::Beta(n) => ".0-beta."@ + spec_decimal(n as nat),
        MinorVersion::Rc(n) => ".0-rc."@ + spec_decimal(n as nat),
        MinorVersion::Dev(n) => ".0-dev."@ + spec_decimal(n as nat),
    }
}

fn digit_text(d: u32) -> (r: &'static str)
    requires
        d < 10,
    ensures
        r@ == seq![digit_char(d as nat)],
{
    proof {
        reveal_strlit("0");
        reveal_strlit("1");
        reveal_strlit("2");
        reveal_strlit("3");
        reveal_strlit("4");
        reveal_strlit("5");
        reveal_strlit("6");
        reveal_strlit("7");
        reveal_strlit("8");
        reveal_strlit("9");
    }
    let text = if d == 0 {
        "0"
    } else if d == 1 {
        "1"
    } else if d == 2 {
        "2"
    } else if d == 3 {
        "3"
    } else if d == 4 {
        "4"
    } else if d == 5 {
        "5"
    } else if d == 6 {
        "6"
    } else if d == 7 {
        "7"
    } else if d == 8 {
        "8"
    } else {
        "9"
    };
    proof {
        assert(text@ =~= seq![digit_char(d as nat)]);
    }
    text
}

/// Writes a number in decimal digits.
pub fn decimal(n: u32) -> (r: String)
    ensures
        r@ == spec_decimal(n as nat),
    decreases n,
{
    if n < 10 {
        String::from_str(digit_text(n))
    } else {
        let mut text = decimal(n / 10);
        text.append(digit_text(n % 10));
        text
    }
}

impl Specific {
    /// Writes this version as text. The directory of an installed version
    /// has this name.
    pub fn to_text(&self) -> (r: String)
        ensures
            r@ == spec_specific_text(*self),
    {
        let mut text = decimal(self.major);
        let number: u32 = match self.minor {
            MinorVersion::Minor(n) => {
                text.append(".");
                n
            },
            MinorVersion::Alpha(n) => {
                text.append(".0-alpha.");
                n
            },
            MinorVersion::Beta(n) => {
                text.append(".0-beta.");
                n
            },
            MinorVersion::Rc(n) => {
                text.append(".0-rc.");
                n
            },
            MinorVersion::Dev(n) => {
                text.append(".0-dev.");
                n
            },
        };
        text.append(decimal(number).as_str());
        proof {
            assert(text@ =~= spec_specific_text(*self));
        }
        text
    }
}

/// Reads a text as a filter.
pub fn parse_filter(text: &str) -> (r: Option<Filter>)
    ensures
        r == spec_parse_filter(text.spec_bytes()),
{
    match parse_shape(text.as_bytes()) {
        Some(shape) => shape.filter(),
        None => None,
    }
}

/// Reads a text as a specific version.
pub fn parse_specific(text: &str) -> (r: Option<Specific>)
    ensures
        r == spec_parse_specific(text.spec_bytes()),
{
    match parse_shape(text.as_bytes()) {
        Some(shape) => shape.specific(),
        None => None,
    }
}

/// Reads a text as a build.
pub fn parse_build(text: &str) -> (r: Option<Version>)
    ensures
        r == spec_parse_build(text.spec_bytes()),
{
    match parse_shape(text.as_bytes()) {
        Some(shape) => shape.build(),
        None => None,
    }
}

/// Reads a constraint, trying the filter grammar first, then the specific
/// version, then the build; fails when none of them accepts the text.
pub fn parse(text: &str) -> (r: Result<VersionSpec, ParseError>)
    ensures
        r == spec_parse(text.spec_bytes()),
{
    match parse_shape(text.as_bytes()) {
        None => Err(ParseError),
        Some(shape) => match shape.filter() {
            Some(filter) => Ok(VersionSpec::Filter(filter)),
            None => match shape.specific() {
                Some(specific) => Ok(VersionSpec::Specific(specific)),
                None => match shape.build() {
                    Some(build) => Ok(VersionSpec::Build(build)),
                    None => Err(ParseError),
                },
            },
        },
    }
}

} // verus!
