//! Choosing which installed versions may be removed.
//!
//! Selection starts from everything installed, keeps what satisfies every
//! supplied filter, and then sets aside what an existing instance still uses,
//! unless the caller allows used versions to go as well.

use vstd::prelude::*;
use vstd::utf8::encode_utf8;
use crate::grammar::{parse, spec_parse};
use crate::ver::{Channel, ParseError, Query, Specific, Version, VersionSpec};

verus! {

/// One installed version that an instance runs.
pub struct UsedEntry {
    pub version: Specific,
    pub instance: String,
}

/// The map that a sequence of insertions builds: a later entry for the same
/// version replaces an earlier one.
pub open spec fn used_map(entries: Seq<UsedEntry>) -> Map<Specific, Seq<char>>
    decreases entries.len(),
{
    if entries.len() == 0 {
        Map::empty()
    } else {
        used_map(entries.drop_last()).insert(entries.last().version, entries.last().instance@)
    }
}

/// Which instance runs which version, keyed by the version without its build
/// metadata.
pub struct UsedVersions {
    entries: Vec<UsedEntry>,
}

impl View for UsedVersions {
    type V = Map<Specific, Seq<char>>;

    closed spec fn view(&self) -> Map<Specific, Seq<char>> {
        used_map(self.entries@)
    }
}

impl UsedVersions {
    /// The map of a machine without instances.
    pub fn new() -> (r: UsedVersions)
        ensures
            r@ == Map::<Specific, Seq<char>>::empty(),
    {
        UsedVersions { entries: Vec::new() }
    }

    /// Records that `instance` runs `version`.
    pub fn insert(&mut self, version: Specific, instance: String)
        ensures
            final(self)@ == old(self)@.insert(version, instance@),
    {
        let ghost before = self.entries@;
        self.entries.push(UsedEntry { version, instance });
        proof {
            assert(self.entries@.drop_last() =~= before);
        }
    }

    /// The instance that runs `version`, if any does.
    pub fn get(&self, version: &Specific) -> (r: Option<&String>)
        ensures
            match r {
                Some(instance) => self@.contains_key(*version) && self@[*version] == instance@,
                None => !self@.contains_key(*version),
            },
    {
        let mut i: usize = self.entries.len();
        proof {
            assert(self.entries@.take(i as int) =~= self.entries@);
        }
        while i > 0
            invariant
                i <= self.entries.len(),
                used_map(self.entries@).contains_key(*version) == used_map(
                    self.entries@.take(i as int),
                ).contains_key(*version),
                used_map(self.entries@).contains_key(*version) ==> used_map(
                    self.entries@,
                )[*version] == used_map(self.entries@.take(i as int))[*version],
            decreases i,
        {
            proof {
                assert(self.entries@.take(i as int).drop_last() =~= self.entries@.take(i - 1));
            }
            if self.entries[i - 1].version == *version {
                return Some(&self.entries[i - 1].instance);
            }
            i = i - 1;
        }
        None
    }
}

/// A local instance and the version it runs.
pub struct InstanceInfo {
    pub name: String,
    pub version: Version,
}

/// The used versions of a list of instances: each instance, in turn, claims
/// the version it runs.
pub open spec fn spec_used_versions(instances: Seq<InstanceInfo>) -> Map<Specific, Seq<char>>
    decreases instances.len(),
{
    if instances.len() == 0 {
        Map::empty()
    } else {
        spec_used_versions(instances.drop_last()).insert(
            instances.last().version.specific,
            instances.last().name@,
        )
    }
}

/// Collects which versions are in use by going through the instances once.
pub fn used_versions(instances: &Vec<InstanceInfo>) -> (r: UsedVersions)
    ensures
        r@ == spec_used_versions(instances@),
{
    let mut used = UsedVersions::new();
    let mut i: usize = 0;
    proof {
        assert(instances@.take(0) =~= Seq::<InstanceInfo>::empty());
    }
    while i < instances.len()
        invariant
            i <= instances.len(),
            used@ == spec_used_versions(instances@.take(i as int)),
        decreases instances.len() - i,
    {
        proof {
            assert(instances@.take(i + 1).drop_last() =~= instances@.take(i as int));
        }
        used.insert(instances[i].version.specific(), instances[i].name.clone());
        i = i + 1;
    }
    proof {
        assert(instances@.take(instances.len() as int) =~= instances@);
    }
    used
}

/// The filters of one request. A candidate must satisfy each one that is set.
pub struct UninstallFilters {
    /// Keep only nightly snapshots (`true`) or only other versions (`false`).
    pub nightly: Option<bool>,
    /// Keep only versions of this channel.
    pub channel: Option<Channel>,
    /// Keep only versions that this constraint matches.
    pub version: Option<VersionSpec>,
}

impl UninstallFilters {
    /// Whether a version satisfies every filter that is set.
    pub open spec fn spec_satisfies(self, v: Version) -> bool {
        &&& (self.nightly matches Some(wanted) ==> v.spec_is_nightly() == wanted)
        &&& (self.channel matches Some(channel) ==> Query::spec_from(channel).spec_matches(v))
        &&& (self.version matches Some(spec) ==> spec.spec_matches(v))
    }

    /// The request without any filter.
    pub open spec fn spec_none() -> UninstallFilters {
        UninstallFilters { nightly: None, channel: None, version: None }
    }

    pub fn none() -> (r: UninstallFilters)
        ensures
            r == UninstallFilters::spec_none(),
    {
        UninstallFilters { nightly: None, channel: None, version: None }
    }

    pub fn satisfies(&self, v: &Version) -> (r: bool)
        ensures
            r == self.spec_satisfies(*v),
    {
        if let Some(wanted) = self.nightly {
            if v.is_nightly() != wanted {
                return false;
            }
        }
        if let Some(channel) = self.channel {
            if !Query::from(channel).matches(v) {
                return false;
            }
        }
        if let Some(spec) = &self.version {
            if !spec.matches(v) {
                return false;
            }
        }
        true
    }
}

/// The test for a candidate: it satisfies the filters.
pub open spec fn is_candidate(filters: UninstallFilters) -> spec_fn(Version) -> bool {
    |v: Version| filters.spec_satisfies(v)
}

/// The test for removal: a candidate that no instance uses, or any candidate
/// when used versions may go too.
pub open spec fn is_removable(
    filters: UninstallFilters,
    used: Map<Specific, Seq<char>>,
    force: bool,
) -> spec_fn(Version) -> bool {
    |v: Version| filters.spec_satisfies(v) && (force || !used.contains_key(v.specific))
}

/// The test for being held back: a candidate that an instance uses, while
/// used versions are protected.
pub open spec fn is_blocked(
    filters: UninstallFilters,
    used: Map<Specific, Seq<char>>,
    force: bool,
) -> spec_fn(Version) -> bool {
    |v: Version| filters.spec_satisfies(v) && !force && used.contains_key(v.specific)
}

/// The candidates, in the order in which they are installed.
pub open spec fn spec_candidates(installed: Seq<Version>, filters: UninstallFilters) -> Seq<
    Version,
> {
    installed.filter(is_candidate(filters))
}

/// The versions to remove, in the order in which they are installed.
pub open spec fn spec_removable(
    installed: Seq<Version>,
    filters: UninstallFilters,
    used: Map<Specific, Seq<char>>,
    force: bool,
) -> Seq<Version> {
    installed.filter(is_removable(filters, used, force))
}

/// The candidates held back because an instance uses them.
pub open spec fn spec_blocked(
    installed: Seq<Version>,
    filters: UninstallFilters,
    used: Map<Specific, Seq<char>>,
    force: bool,
) -> Seq<Version> {
    installed.filter(is_blocked(filters, used, force))
}

/// A candidate that stays because an instance runs it.
pub struct Blocked {
    pub version: Version,
    pub instance: String,
}

/// The versions of a list of held-back candidates.
pub open spec fn blocked_versions(blocked: Seq<Blocked>) -> Seq<Version> {
    blocked.map_values(|b: Blocked| b.version)
}

/// What a request selects.
pub struct Resolution {
    /// The versions to remove.
    pub removable: Vec<Version>,
    /// The candidates held back, each with the instance that runs it.
    pub blocked: Vec<Blocked>,
    /// Whether every candidate is removable.
    pub all_removable: bool,
}

proof fn lemma_filter_step<A>(s: Seq<A>, pred: spec_fn(A) -> bool, i: int)
    requires
        0 <= i < s.len(),
    ensures
        s.take(i + 1).filter(pred) == if pred(s[i]) {
            s.take(i).filter(pred).push(s[i])
        } else {
            s.take(i).filter(pred)
        },
{
    reveal(Seq::filter);
    assert(s.take(i + 1).drop_last() =~= s.take(i));
}

/// Whether `r` is the selection from `installed`: the removable versions and
/// the held-back ones in installed order, each held-back one with the
/// instance that runs it, and the flag that tells whether any was held back.
pub open spec fn is_resolution(
    r: Resolution,
    installed: Seq<Version>,
    filters: UninstallFilters,
    used: Map<Specific, Seq<char>>,
    force: bool,
) -> bool {
    &&& r.removable@ == spec_removable(installed, filters, used, force)
    &&& blocked_versions(r.blocked@) == spec_blocked(installed, filters, used, force)
    &&& forall|k: int|
        0 <= k < r.blocked@.len() ==> used.contains_key(
            (#[trigger] r.blocked@[k]).version.specific,
        ) && used[r.blocked@[k].version.specific] == r.blocked@[k].instance@
    &&& r.all_removable == (spec_blocked(installed, filters, used, force).len() == 0)
}

/// The installed versions that satisfy every filter, before any usage check.
pub fn candidates(installed: &Vec<Version>, filters: &UninstallFilters) -> (r: Vec<Version>)
    ensures
        r@ == spec_candidates(installed@, *filters),
{
    let mut out: Vec<Version> = Vec::new();
    let mut i: usize = 0;
    proof {
        reveal(Seq::filter);
        assert(installed@.take(0) =~= Seq::<Version>::empty());
    }
    while i < installed.len()
        invariant
            i <= installed.len(),
            out@ == installed@.take(i as int).filter(is_candidate(*filters)),
        decreases installed.len() - i,
    {
        proof {
            lemma_filter_step(installed@, is_candidate(*filters), i as int);
        }
        if filters.satisfies(&installed[i]) {
            out.push(installed[i]);
        }
        i = i + 1;
    }
    proof {
        assert(installed@.take(installed.len() as int) =~= installed@);
    }
    out
}

/// Selects the versions to remove. Candidates are the installed versions that
/// satisfy every filter. A candidate that an instance runs is held back and
/// reported with that instance, unless `force` allows used versions to go.
pub fn resolve(
    installed: &Vec<Version>,
    filters: &UninstallFilters,
    used: &UsedVersions,
    force: bool,
) -> (r: Resolution)
    ensures
        is_resolution(r, installed@, *filters, used@, force),
{
    let mut removable: Vec<Version> = Vec::new();
    let mut blocked: Vec<Blocked> = Vec::new();
    let mut i: usize = 0;
    let ghost keep = is_removable(*filters, used@, force);
    let ghost held = is_blocked(*filters, used@, force);
    proof {
        reveal(Seq::filter);
        assert(installed@.take(0) =~= Seq::<Version>::empty());
        assert(blocked_versions(blocked@) =~= Seq::<Version>::empty());
    }
    while i < installed.len()
        invariant
            i <= installed.len(),
            keep == is_removable(*filters, used@, force),
            held == is_blocked(*filters, used@, force),
            removable@ == installed@.take(i as int).filter(keep),
            blocked_versions(blocked@) == installed@.take(i as int).filter(held),
            forall|k: int|
                0 <= k < blocked@.len() ==> used@.contains_key(
                    (#[trigger] blocked@[k]).version.specific,
                ) && used@[blocked@[k].version.specific] == blocked@[k].instance@,
        decreases installed.len() - i,
    {
        let version = installed[i];
        proof {
            lemma_filter_step(installed@, keep, i as int);
            lemma_filter_step(installed@, held, i as int);
        }
        if filters.satisfies(&version) {
            if force {
                removable.push(version);
            } else {
                match used.get(&version.specific) {
                    Some(instance) => {
                        let ghost before = blocked@;
                        blocked.push(Blocked { version, instance: instance.clone() });
                        proof {
                            assert(blocked_versions(blocked@) =~= blocked_versions(before).push(
                                version,
                            ));
                        }
                    },
                    None => {
                        removable.push(version);
                    },
                }
            }
        }
        i = i + 1;
    }
    proof {
        assert(installed@.take(installed.len() as int) =~= installed@);
    }
    let all_removable = blocked.len() == 0;
    Resolution { removable, blocked, all_removable }
}

/// The options of an uninstall request, as the command line gives them.
pub struct Uninstall {
    /// Remove nightly snapshots only (`true`) or only other versions
    /// (`false`); `None` asks for neither.
    pub nightly: Option<bool>,
    /// Remove versions of this channel only.
    pub channel: Option<Channel>,
    /// Remove only the versions that this text selects.
    pub version: Option<String>,
    /// Pass over used versions silently.
    pub unused: bool,
    /// Remove versions that instances use as well.
    pub force: bool,
}

impl Uninstall {
    /// The filters that the options stand for, if the version text is in one
    /// of the grammars: the nightly and channel filters as they are given,
    /// and the constraint that the text denotes.
    pub open spec fn spec_filters(self) -> Result<UninstallFilters, ParseError> {
        match self.version {
            None => Ok(
                UninstallFilters { nightly: self.nightly, channel: self.channel, version: None },
            ),
            Some(text) => match spec_parse(encode_utf8(text@)) {
                Ok(spec) => Ok(
                    UninstallFilters {
                        nightly: self.nightly,
                        channel: self.channel,
                        version: Some(spec),
                    },
                ),
                Err(error) => Err(error),
            },
        }
    }

    /// Reads the filters from the options. A version text in none of the
    /// grammars is the only error.
    pub fn filters(&self) -> (r: Result<UninstallFilters, ParseError>)
        ensures
            r == self.spec_filters(),
    {
        match &self.version {
            None => Ok(
                UninstallFilters { nightly: self.nightly, channel: self.channel, version: None },
            ),
            Some(text) => match parse(text.as_str()) {
                Ok(spec) => Ok(
                    UninstallFilters {
                        nightly: self.nightly,
                        channel: self.channel,
                        version: Some(spec),
                    },
                ),
                Err(error) => Err(error),
            },
        }
    }
}

/// Selects what an uninstall request removes from the installed versions,
/// given which of them instances use. Fails only on a version text that is
/// in none of the grammars, and selects nothing then.
pub fn uninstall(options: &Uninstall, installed: &Vec<Version>, used: &UsedVersions) -> (r: Result<
    Resolution,
    ParseError,
>)
    ensures
        match options.spec_filters() {
            Ok(filters) => r.is_ok() && is_resolution(
                r.unwrap(),
                installed@,
                filters,
                used@,
                options.force,
            ),
            Err(error) => r == Err::<Resolution, ParseError>(error),
        },
{
    match options.filters() {
        Ok(filters) => Ok(resolve(installed, &filters, used, options.force)),
        Err(error) => Err(error),
    }
}

/// Without filters and with used versions protected, exactly the installed
/// versions that no instance runs are removed; with used versions allowed to
/// go, every installed version is.
pub proof fn lemma_resolve_without_filters(installed: Seq<Version>, used: Map<Specific, Seq<char>>)
    ensures
        forall|v: Version|
            spec_removable(installed, UninstallFilters::spec_none(), used, false).contains(v) <==> (
            installed.contains(v) && !used.contains_key(v.specific)),
        spec_removable(installed, UninstallFilters::spec_none(), used, false).to_set()
            == installed.to_set().filter(|v: Version| !used.contains_key(v.specific)),
        spec_removable(installed, UninstallFilters::spec_none(), used, true) == installed,
    decreases installed.len(),
{
    let none = UninstallFilters::spec_none();
    let keep = is_removable(none, used, false);
    let all = is_removable(none, used, true);
    let kept = installed.filter(keep);
    if installed.len() > 0 {
        reveal(Seq::filter);
        lemma_resolve_without_filters(installed.drop_last(), used);
        assert(installed.drop_last().push(installed.last()) =~= installed);
    } else {
        reveal(Seq::filter);
    }
    assert(installed.filter(all) =~= installed);
    assert forall|v: Version| kept.contains(v) <==> (installed.contains(v) && !used.contains_key(
        v.specific,
    )) by {
        if kept.contains(v) {
            let k = choose|k: int| 0 <= k < kept.len() && kept[k] == v;
            installed.lemma_filter_pred(keep, k);
            installed.lemma_filter_contains_rev(keep, v);
        }
        if installed.contains(v) && !used.contains_key(v.specific) {
            let j = choose|j: int| 0 <= j < installed.len() && installed[j] == v;
            installed.lemma_filter_contains(keep, j);
        }
    }
    assert(kept.to_set() =~= installed.to_set().filter(
        |v: Version| !used.contains_key(v.specific),
    ));
}

/// The candidates are exactly the installed versions that satisfy every
/// filter that is set. With the nightly filter set to `false`, no nightly
/// snapshot is a candidate.
pub proof fn lemma_candidates_satisfy_filters(installed: Seq<Version>, filters: UninstallFilters)
    ensures
        forall|v: Version| #[trigger]
            spec_candidates(installed, filters).contains(v) <==> installed.contains(v)
                && filters.spec_satisfies(v),
        filters.nightly == Some(false) ==> forall|v: Version| #[trigger]
            spec_candidates(installed, filters).contains(v) ==> !v.spec_is_nightly(),
{
    let wanted = is_candidate(filters);
    let kept = installed.filter(wanted);
    assert forall|v: Version| #[trigger] kept.contains(v) <==> installed.contains(v) && wanted(
        v,
    ) by {
        if kept.contains(v) {
            let k = choose|k: int| 0 <= k < kept.len() && kept[k] == v;
            installed.lemma_filter_pred(wanted, k);
            installed.lemma_filter_contains_rev(wanted, v);
        }
        if installed.contains(v) && wanted(v) {
            let j = choose|j: int| 0 <= j < installed.len() && installed[j] == v;
            installed.lemma_filter_contains(wanted, j);
        }
    }
}

/// While used versions are protected, no version that an instance runs is
/// removed: what is removed is installed, satisfies every filter and is not
/// in use, and what is held back satisfies every filter and is in use.
pub proof fn lemma_used_versions_stay(
    installed: Seq<Version>,
    filters: UninstallFilters,
    used: Map<Specific, Seq<char>>,
)
    ensures
        forall|v: Version| #[trigger]
            spec_removable(installed, filters, used, false).contains(v) ==> installed.contains(v)
                && filters.spec_satisfies(v) && !used.contains_key(v.specific),
        forall|v: Version| #[trigger]
            spec_blocked(installed, filters, used, false).contains(v) ==> installed.contains(v)
                && filters.spec_satisfies(v) && used.contains_key(v.specific),
{
    let keep = is_removable(filters, used, false);
    let held = is_blocked(filters, used, false);
    assert forall|v: Version| #[trigger]
        installed.filter(keep).contains(v) implies installed.contains(v) && keep(v) by {
        let k = choose|k: int| 0 <= k < installed.filter(keep).len() && installed.filter(keep)[k] == v;
        installed.lemma_filter_pred(keep, k);
        installed.lemma_filter_contains_rev(keep, v);
    }
    assert forall|v: Version| #[trigger]
        installed.filter(held).contains(v) implies installed.contains(v) && held(v) by {
        let k = choose|k: int| 0 <= k < installed.filter(held).len() && installed.filter(held)[k] == v;
        installed.lemma_filter_pred(held, k);
        installed.lemma_filter_contains_rev(held, v);
    }
}

/// Every candidate is either removed or held back, never both and never
/// neither.
pub proof fn lemma_candidates_split(
    installed: Seq<Version>,
    filters: UninstallFilters,
    used: Map<Specific, Seq<char>>,
    force: bool,
)
    ensures
        spec_removable(installed, filters, used, force).len() + spec_blocked(
            installed,
            filters,
            used,
            force,
        ).len() == spec_candidates(installed, filters).len(),
    decreases installed.len(),
{
    reveal(Seq::filter);
    if installed.len() > 0 {
        lemma_candidates_split(installed.drop_last(), filters, used, force);
    }
}

/// How a request ended, for the command that made it.
#[derive(Clone, Copy, Debug, PartialEq, Eq, Structural)]
pub enum UninstallOutcome {
    /// Some candidates were held back and the caller did not ask for unused
    /// versions only.
    PartialSuccess { uninstalled: usize, blocked: usize },
    /// Versions were removed and nothing needs to be reported.
    Success { uninstalled: usize },
    /// Nothing was removed and nothing needs to be reported.
    NothingToUninstall,
}

pub open spec fn spec_outcome(blocked: usize, unused_only: bool, uninstalled: usize)
    -> UninstallOutcome {
    if blocked > 0 && !unused_only {
        UninstallOutcome::PartialSuccess { uninstalled, blocked }
    } else if uninstalled > 0 {
        UninstallOutcome::Success { uninstalled }
    } else {
        UninstallOutcome::NothingToUninstall
    }
}

/// Classifies the end of a request from the number of candidates held back,
/// whether only unused versions were asked for, and the number removed.
pub fn outcome(blocked: usize, unused_only: bool, uninstalled: usize) -> (r: UninstallOutcome)
    ensures
        r == spec_outcome(blocked, unused_only, uninstalled),
{
    if blocked > 0 && !unused_only {
        UninstallOutcome::PartialSuccess { uninstalled, blocked }
    } else if uninstalled > 0 {
        UninstallOutcome::Success { uninstalled }
    } else {
        UninstallOutcome::NothingToUninstall
    }
}

/// Whether a held-back candidate is announced: only when the caller did not
/// ask for unused versions only.
pub fn warns_about_blocked(unused_only: bool) -> (r: bool)
    ensures
        r == !unused_only,
{
    !unused_only
}

/// One change to the directory of installed versions.
#[derive(Clone, Copy, Debug, PartialEq, Eq, Structural)]
pub enum RemovalStep {
    /// Delete what an interrupted removal left at the temporary path.
    DeleteStale,
    /// Move the version's directory to the temporary path.
    MoveAside,
    /// Delete the temporary path.
    DeleteMoved,
}

pub open spec fn spec_removal_steps(stale_exists: bool) -> Seq<RemovalStep> {
    if stale_exists {
        seq![RemovalStep::DeleteStale, RemovalStep::MoveAside, RemovalStep::DeleteMoved]
    } else {
        seq![RemovalStep::MoveAside, RemovalStep::DeleteMoved]
    }
}

/// The changes that remove one version, in order. A stale temporary path is
/// deleted before the directory is moved there.
pub fn removal_steps(stale_exists: bool) -> (r: Vec<RemovalStep>)
    ensures
        r@ == spec_removal_steps(stale_exists),
{
    let mut steps: Vec<RemovalStep> = Vec::new();
    if stale_exists {
        steps.push(RemovalStep::DeleteStale);
    }
    steps.push(RemovalStep::MoveAside);
    steps.push(RemovalStep::DeleteMoved);
    proof {
        assert(steps@ =~= spec_removal_steps(stale_exists));
    }
    steps
}

/// What follows the removal of one version.
#[derive(Clone, Copy, Debug, PartialEq, Eq, Structural)]
pub enum RemovalNext {
    /// Remove the version at this index next.
    Remove(usize),
    /// Every version is removed.
    Finished,
    /// A change failed: the versions that remain are left untouched.
    Aborted,
}

pub open spec fn spec_after_removal(index: usize, total: usize, ok: bool) -> RemovalNext {
    if !ok {
        RemovalNext::Aborted
    } else if index + 1 < total {
        RemovalNext::Remove((index + 1) as usize)
    } else {
        RemovalNext::Finished
    }
}

/// Decides what follows the removal of the version at `index` out of `total`:
/// the first failure ends the batch.
pub fn after_removal(index: usize, total: usize, ok: bool) -> (r: RemovalNext)
    requires
        index < total,
    ensures
        r == spec_after_removal(index, total, ok),
{
    if !ok {
        RemovalNext::Aborted
    } else if index + 1 < total {
        RemovalNext::Remove(index + 1)
    } else {
        RemovalNext::Finished
    }
}

/// Where a batch of removals stands.
#[derive(Clone, Copy, Debug, PartialEq, Eq, Structural)]
pub enum UninstallProgress {
    /// The version at this index is the next to remove.
    Pending { next: usize },
    /// Removing the version at this index failed: it and the versions after
    /// it are left as they are, and the command fails.
    Aborted { failed: usize },
    /// Every version is removed: the command ends like this.
    Finished(UninstallOutcome),
}

/// Where a batch of `total` removals stands from index `from` on, given how
/// the removals made so far ended. The first failure ends the batch, and no
/// result after it counts.
pub open spec fn spec_progress(
    results: Seq<bool>,
    from: int,
    total: usize,
    blocked: usize,
    unused_only: bool,
) -> UninstallProgress
    decreases total - from,
{
    if from < 0 || from >= total {
        UninstallProgress::Finished(spec_outcome(blocked, unused_only, total))
    } else if from >= results.len() {
        UninstallProgress::Pending { next: from as usize }
    } else if !results[from] {
        UninstallProgress::Aborted { failed: from as usize }
    } else {
        spec_progress(results, from + 1, total, blocked, unused_only)
    }
}

/// Follows a batch of `total` removals through the results of those made so
/// far, in order. A failed removal aborts the batch at once; when all are
/// made, the outcome counts every one of them as uninstalled and reports the
/// `blocked` candidates unless only unused versions were asked for.
pub fn removal_progress(results: &Vec<bool>, total: usize, blocked: usize, unused_only: bool) -> (r:
    UninstallProgress)
    ensures
        r == spec_progress(results@, 0, total, blocked, unused_only),
{
    let mut i: usize = 0;
    while i < total && i < results.len()
        invariant
            i <= total,
            spec_progress(results@, 0, total, blocked, unused_only) == spec_progress(
                results@,
                i as int,
                total,
                blocked,
                unused_only,
            ),
        decreases total - i,
    {
        match after_removal(i, total, results[i]) {
            RemovalNext::Aborted => {
                return UninstallProgress::Aborted { failed: i };
            },
            RemovalNext::Finished => {
                i = total;
            },
            RemovalNext::Remove(next) => {
                i = next;
            },
        }
    }
    if i >= total {
        UninstallProgress::Finished(outcome(blocked, unused_only, total))
    } else {
        UninstallProgress::Pending { next: i }
    }
}

/// A failed removal aborts the batch where it happens, whatever the results
/// after it say, provided every removal before it succeeded.
pub proof fn lemma_first_failure_aborts(
    results: Seq<bool>,
    at: int,
    total: usize,
    blocked: usize,
    unused_only: bool,
)
    requires
        0 <= at < results.len(),
        at < total,
        !results[at],
        forall|i: int| 0 <= i < at ==> results[i],
    ensures
        spec_progress(results, 0, total, blocked, unused_only) == (UninstallProgress::Aborted {
            failed: at as usize,
        }),
{
    lemma_progress_skips(results, 0, at, total, blocked, unused_only);
}

proof fn lemma_progress_skips(
    results: Seq<bool>,
    from: int,
    at: int,
    total: usize,
    blocked: usize,
    unused_only: bool,
)
    requires
        0 <= from <= at <= results.len(),
        at <= total,
        forall|i: int| 0 <= i < at ==> results[i],
    ensures
        spec_progress(results, from, total, blocked, unused_only) == spec_progress(
            results,
            at,
            total,
            blocked,
            unused_only,
        ),
    decreases at - from,
{
    if from < at {
        lemma_progress_skips(results, from + 1, at, total, blocked, unused_only);
    }
}

} // verus!
