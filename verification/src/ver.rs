//! Versions of the server and the constraints that select them.
//!
//! A constraint is written in one of three textual grammars, all instances of
//! one shape: `MAJOR[.MINOR[-STAGE.N][+META]]`. The grammars differ in which
//! parts of the shape they admit, and `parse` tries them in a fixed order.

use vstd::prelude::*;

verus! {

/// The part of a version after the major number.
#[derive(Clone, Copy, Debug, PartialEq, Eq, PartialOrd, Ord, Hash, Structural)]
pub enum MinorVersion {
    Alpha(u32),
    Beta(u32),
    Rc(u32),
    Dev(u32),
    Minor(u32),
}

/// A version identity that ignores build metadata.
#[derive(Clone, Copy, Debug, PartialEq, Eq, PartialOrd, Ord, Hash, Structural)]
pub struct Specific {
    pub major: u32,
    pub minor: MinorVersion,
}

/// Build metadata: a local build, or the seven hexadecimal digits of a commit.
#[derive(Clone, Copy, Debug, PartialEq, Eq, PartialOrd, Ord, Hash, Structural)]
pub enum BuildMeta {
    Local,
    Commit(u32),
}

/// An installed version: the most precise identity, build metadata included.
#[derive(Clone, Copy, Debug, PartialEq, Eq, PartialOrd, Ord, Hash, Structural)]
pub struct Version {
    pub specific: Specific,
    pub meta: BuildMeta,
}

/// A release track.
#[derive(Clone, Copy, Debug, PartialEq, Eq, Hash, Structural)]
pub enum Channel {
    Stable,
    Nightly,
}

/// The lower bound of a filter within its major line.
#[derive(Clone, Copy, Debug, PartialEq, Eq, Hash, Structural)]
pub enum FilterMinor {
    Alpha(u32),
    Beta(u32),
    Rc(u32),
    Minor(u32),
}

/// A range constraint: one major line, from a lower bound upwards.
#[derive(Clone, Copy, Debug, PartialEq, Eq, Hash)]
pub struct Filter {
    pub major: u32,
    pub minor: Option<FilterMinor>,
}

/// A channel with an optional narrowing filter.
#[derive(Clone, Copy, Debug, PartialEq, Eq, Hash)]
pub struct Query {
    pub channel: Channel,
    pub version: Option<Filter>,
}

/// A constraint on versions, from the loosest form to the most specific.
#[derive(Clone, Copy, Debug, PartialEq, Eq, Hash)]
pub enum VersionSpec {
    Query(Query),
    Filter(Filter),
    Specific(Specific),
    Build(Version),
}

/// The text is in none of the three grammars.
#[derive(Clone, Copy, Debug, PartialEq, Eq, Structural)]
pub struct ParseError;

/// The pre-release stage named in a version text.
#[derive(Clone, Copy, Debug, PartialEq, Eq, Structural)]
pub enum Stage {
    Alpha,
    Beta,
    Rc,
    Dev,
}

/// The parts read from a version text, before a grammar is chosen.
pub struct Shape {
    pub major: u32,
    pub minor: Option<u32>,
    pub pre: Option<(Stage, u32)>,
    pub meta: Option<BuildMeta>,
}

// ---------------------------------------------------------------------------
// Matching
// ---------------------------------------------------------------------------

/// Position of a release within its major line: stage first, then number.
/// Development snapshots have no position.
pub open spec fn release_rank(minor: MinorVersion) -> Option<(int, int)> {
    match minor {
        MinorVersion::Alpha(n) => Some((0int, n as int)),
        MinorVersion::Beta(n) => Some((1int, n as int)),
        MinorVersion::Rc(n) => Some((2int, n as int)),
        MinorVersion::Minor(n) => Some((3int, n as int)),
        MinorVersion::Dev(_) => None,
    }
}

/// Position of a filter's lower bound; no bound means the first stable release.
pub open spec fn bound_rank(minor: Option<FilterMinor>) -> (int, int) {
    match minor {
        Some(FilterMinor::Alpha(n)) => (0int, n as int),
        Some(FilterMinor::Beta(n)) => (1int, n as int),
        Some(FilterMinor::Rc(n)) => (2int, n as int),
        Some(FilterMinor::Minor(n)) => (3int, n as int),
        None => (3int, 0int),
    }
}

impl MinorVersion {
    fn rank(&self) -> (r: Option<(u8, u32)>)
        ensures
            match release_rank(*self) {
                Some((stage, number)) => r == Some((stage as u8, number as u32)) && stage <= 3,
                None => r.is_none(),
            },
    {
        match self {
            MinorVersion::Alpha(n) => Some((0u8, *n)),
            MinorVersion::Beta(n) => Some((1u8, *n)),
            MinorVersion::Rc(n) => Some((2u8, *n)),
            MinorVersion::Minor(n) => Some((3u8, *n)),
            MinorVersion::Dev(_) => None,
        }
    }
}

impl Version {
    /// The identity of this version without its build metadata.
    pub open spec fn spec_specific(self) -> Specific {
        self.specific
    }

    /// Whether this is a nightly development snapshot.
    pub open spec fn spec_is_nightly(self) -> bool {
        self.specific.minor is Dev
    }

    /// Whether this is a stable release, not a pre-release or a snapshot.
    pub open spec fn spec_is_stable(self) -> bool {
        self.specific.minor is Minor
    }

    pub fn specific(&self) -> (r: Specific)
        ensures
            r == self.spec_specific(),
    {
        self.specific
    }

    pub fn is_nightly(&self) -> (r: bool)
        ensures
            r == self.spec_is_nightly(),
    {
        match self.specific.minor {
            MinorVersion::Dev(_) => true,
            _ => false,
        }
    }
}

impl Filter {
    /// A version is in the range when it is on the filter's major line, is a
    /// release, and stands at or after the lower bound.
    pub open spec fn spec_matches(self, v: Version) -> bool {
        let bound = bound_rank(self.minor);
        v.specific.major == self.major && match release_rank(v.specific.minor) {
            Some(rank) => rank.0 > bound.0 || (rank.0 == bound.0 && rank.1 >= bound.1),
            None => false,
        }
    }

    fn bound(&self) -> (r: (u8, u32))
        ensures
            r.0 as int == bound_rank(self.minor).0,
            r.1 as int == bound_rank(self.minor).1,
    {
        match self.minor {
            Some(FilterMinor::Alpha(n)) => (0u8, n),
            Some(FilterMinor::Beta(n)) => (1u8, n),
            Some(FilterMinor::Rc(n)) => (2u8, n),
            Some(FilterMinor::Minor(n)) => (3u8, n),
            None => (3u8, 0u32),
        }
    }

    pub fn matches(&self, v: &Version) -> (r: bool)
        ensures
            r == self.spec_matches(*v),
    {
        if v.specific.major != self.major {
            return false;
        }
        let bound = self.bound();
        match v.specific.minor.rank() {
            Some(rank) => rank.0 > bound.0 || (rank.0 == bound.0 && rank.1 >= bound.1),
            None => false,
        }
    }
}

impl Query {
    /// The query for a whole channel, with no narrowing.
    pub open spec fn spec_from(channel: Channel) -> Query {
        Query { channel, version: None }
    }

    /// The query that stands in when none is given: the stable channel.
    pub open spec fn spec_stable() -> Query {
        Query { channel: Channel::Stable, version: None }
    }

    /// The nightly channel takes snapshots, of the narrowing filter's major
    /// line if there is one. The stable channel takes what the narrowing
    /// filter takes, or every stable release if there is none.
    pub open spec fn spec_matches(self, v: Version) -> bool {
        match self.channel {
            Channel::Nightly => v.spec_is_nightly() && match self.version {
                Some(filter) => filter.major == v.specific.major,
                None => true,
            },
            Channel::Stable => match self.version {
                Some(filter) => filter.spec_matches(v),
                None => v.spec_is_stable(),
            },
        }
    }

    pub fn from(channel: Channel) -> (r: Query)
        ensures
            r == Query::spec_from(channel),
    {
        Query { channel, version: None }
    }

    pub fn stable() -> (r: Query)
        ensures
            r == Query::spec_stable(),
    {
        Query { channel: Channel::Stable, version: None }
    }

    pub fn matches(&self, v: &Version) -> (r: bool)
        ensures
            r == self.spec_matches(*v),
    {
        match self.channel {
            Channel::Nightly => {
                if !v.is_nightly() {
                    return false;
                }
                match self.version {
                    Some(filter) => filter.major == v.specific.major,
                    None => true,
                }
            },
            Channel::Stable => match self.version {
                Some(filter) => filter.matches(v),
                None => match v.specific.minor {
                    MinorVersion::Minor(_) => true,
                    _ => false,
                },
            },
        }
    }
}

impl VersionSpec {
    /// Each form is a predicate over installed versions.
    pub open spec fn spec_matches(self, v: Version) -> bool {
        match self {
            VersionSpec::Query(query) => query.spec_matches(v),
            VersionSpec::Filter(filter) => filter.spec_matches(v),
            VersionSpec::Specific(specific) => specific == v.specific,
            VersionSpec::Build(build) => build == v,
        }
    }

    pub fn matches(&self, v: &Version) -> (r: bool)
        ensures
            r == self.spec_matches(*v),
    {
        match self {
            VersionSpec::Query(query) => query.matches(v),
            VersionSpec::Filter(filter) => filter.matches(v),
            VersionSpec::Specific(specific) => *specific == v.specific,
            VersionSpec::Build(build) => *build == *v,
        }
    }
}

/// The filter whose lower bound is the given release; a development
/// snapshot bounds no filter.
pub open spec fn filter_at(specific: Specific) -> Option<Filter> {
    match specific.minor {
        MinorVersion::Alpha(n) => Some(
            Filter { major: specific.major, minor: Some(FilterMinor::Alpha(n)) },
        ),
        MinorVersion::Beta(n) => Some(
            Filter { major: specific.major, minor: Some(FilterMinor::Beta(n)) },
        ),
        MinorVersion::Rc(n) => Some(Filter { major: specific.major, minor: Some(FilterMinor::Rc(n)) }),
        MinorVersion::Minor(n) => Some(
            Filter { major: specific.major, minor: Some(FilterMinor::Minor(n)) },
        ),
        MinorVersion::Dev(_) => None,
    }
}

/// The forms of a constraint grow more specific: what a build matches, its
/// specific version matches; what a specific release matches, the filter
/// bounded by it matches; and what a filter matches, the stable channel
/// narrowed by it matches.
pub proof fn lemma_increasing_specificity(build: Version, v: Version)
    ensures
        VersionSpec::Build(build).spec_matches(v) ==> VersionSpec::Specific(
            build.specific,
        ).spec_matches(v),
        VersionSpec::Specific(build.specific).spec_matches(v) ==> (filter_at(
            build.specific,
        ) matches Some(filter) ==> VersionSpec::Filter(filter).spec_matches(v)),
        filter_at(build.specific) matches Some(filter) ==> (VersionSpec::Filter(
            filter,
        ).spec_matches(v) ==> VersionSpec::Query(
            Query { channel: Channel::Stable, version: Some(filter) },
        ).spec_matches(v)),
{
}

} // verus!
