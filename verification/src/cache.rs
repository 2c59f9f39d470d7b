//! The cache of all packages: one snapshot per generation, replaced and never
//! changed, under a version that only grows.
use vstd::prelude::*;
use crate::package::{
    base_views, listed_package, package_views, BasePackageView, IdentityView, PackageInfo,
    PackageInfoView, RepositoryIdentity, TauriBasePackageInfo, TauriPackage,
};

verus! {

/// A repository as it was read for the cache: what it says of itself and
/// every version of every package it lists, in its order.
#[derive(Debug, PartialEq, Eq)]
pub struct CachedRepository {
    pub identity: RepositoryIdentity,
    pub packages: Vec<TauriBasePackageInfo>,
}

/// The model of a [`CachedRepository`].
pub struct CachedRepositoryView {
    pub identity: IdentityView,
    pub packages: Seq<BasePackageView>,
}

impl View for CachedRepository {
    type V = CachedRepositoryView;

    open spec fn view(&self) -> CachedRepositoryView {
        CachedRepositoryView { identity: self.identity@, packages: base_views(self.packages@) }
    }
}

/// All that a snapshot is computed from: the repositories, in their order,
/// and the packages of the user's own folders, in their order.
#[derive(Debug, PartialEq, Eq)]
pub struct PackageSources {
    pub repositories: Vec<CachedRepository>,
    pub user_packages: Vec<TauriBasePackageInfo>,
}

/// The model of [`PackageSources`].
pub struct PackageSourcesView {
    pub repositories: Seq<CachedRepositoryView>,
    pub user_packages: Seq<BasePackageView>,
}

impl View for PackageSources {
    type V = PackageSourcesView;

    open spec fn view(&self) -> PackageSourcesView {
        PackageSourcesView {
            repositories: self.repositories@.map_values(|repo: CachedRepository| repo@),
            user_packages: base_views(self.user_packages@),
        }
    }
}

/// Holds of the versions that are not yanked.
pub open spec fn not_yanked() -> spec_fn(BasePackageView) -> bool {
    |package: BasePackageView| !package.is_yanked
}

/// Makes of a version a package of the source `repo`.
pub open spec fn entry_from(repo: Option<IdentityView>) -> spec_fn(BasePackageView)
    -> PackageInfoView {
    |package: BasePackageView| PackageInfoView { json: package, repo }
}

/// The versions among `packages` that are not yanked, in order, each as a
/// package of the source `repo`.
pub open spec fn entries_from(
    repo: Option<IdentityView>,
    packages: Seq<BasePackageView>,
) -> Seq<PackageInfoView> {
    packages.filter(not_yanked()).map_values(entry_from(repo))
}

/// What one repository gives to a snapshot, as a function.
pub open spec fn entries_of_repository() -> spec_fn(CachedRepositoryView) -> Seq<PackageInfoView> {
    |repo: CachedRepositoryView| repository_entries(repo)
}

/// The packages that one repository gives to a snapshot.
pub open spec fn repository_entries(repo: CachedRepositoryView) -> Seq<PackageInfoView> {
    entries_from(Some(repo.identity), repo.packages)
}

/// The packages of a snapshot: those of the repositories, repository by
/// repository, then those of the user's own folders; yanked versions are
/// left out.
pub open spec fn merged_packages(sources: PackageSourcesView) -> Seq<PackageInfoView> {
    sources.repositories.flat_map(entries_of_repository()) + entries_from(
        None,
        sources.user_packages,
    )
}

/// Appends to `merged` the versions among `packages` that are not yanked,
/// each as a package of the source `repo`.
fn append_entries(
    merged: &mut Vec<PackageInfo>,
    repo: Option<&RepositoryIdentity>,
    packages: &Vec<TauriBasePackageInfo>,
)
    ensures
        package_views(final(merged)@) == package_views(old(merged)@) + entries_from(
            match repo {
                Some(identity) => Some(identity@),
                None => None,
            },
            base_views(packages@),
        ),
{
    let ghost source = match repo {
        Some(identity) => Some(identity@),
        None => None,
    };
    let ghost kept = not_yanked();
    let ghost entry = entry_from(source);
    let ghost all = base_views(packages@);
    let ghost start = package_views(merged@);
    let mut i: usize = 0;
    proof {
        assert(all.take(0).filter(kept) =~= Seq::empty()) by {
            reveal(Seq::filter);
        }
    }
    while i < packages.len()
        invariant
            i <= packages.len(),
            all == base_views(packages@),
            kept == not_yanked(),
            entry == entry_from(source),
            source == match repo {
                Some(identity) => Some(identity@),
                None => None,
            },
            package_views(merged@) == start + all.take(i as int).filter(kept).map_values(entry),
        decreases packages.len() - i,
    {
        let ghost before = package_views(merged@);
        proof {
            assert(all.take(i + 1) =~= all.take(i as int).push(all[i as int]));
            all.take(i as int).lemma_filter_push(all[i as int], kept);
        }
        if !packages[i].is_yanked {
            let repo = match repo {
                Some(identity) => Some(identity.clone()),
                None => None,
            };
            let package = PackageInfo { json: packages[i].clone(), repo };
            merged.push(package);
            assert(package_views(merged@) =~= before.push(entry(all[i as int])));
        }
        i = i + 1;
    }
    assert(all.take(i as int) =~= all);
}

/// Computes the packages of a snapshot from its sources.
pub fn merge_packages(sources: &PackageSources) -> (merged: Vec<PackageInfo>)
    ensures
        package_views(merged@) == merged_packages(sources@),
{
    let ghost entries = entries_of_repository();
    let ghost repositories = sources@.repositories;
    let mut merged: Vec<PackageInfo> = Vec::new();
    let mut i: usize = 0;
    while i < sources.repositories.len()
        invariant
            i <= sources.repositories.len(),
            repositories == sources@.repositories,
            entries == entries_of_repository(),
            package_views(merged@) == repositories.take(i as int).flat_map(entries),
        decreases sources.repositories.len() - i,
    {
        proof {
            assert(repositories.take(i + 1) =~= repositories.take(i as int).push(
                repositories[i as int],
            ));
            repositories.take(i as int).lemma_flat_map_push(entries, repositories[i as int]);
        }
        let repo = &sources.repositories[i];
        append_entries(&mut merged, Some(&repo.identity), &repo.packages);
        i = i + 1;
    }
    assert(repositories.take(i as int) =~= repositories);
    append_entries(&mut merged, None, &sources.user_packages);
    merged
}

/// The packages of one generation of the cache, under the version of that
/// generation. A snapshot is never changed after it was built.
#[derive(Debug, PartialEq, Eq)]
pub struct PackageCacheSnapshot {
    version: u32,
    packages: Vec<PackageInfo>,
}

/// The model of a [`PackageCacheSnapshot`].
pub struct SnapshotView {
    pub version: nat,
    pub packages: Seq<PackageInfoView>,
}

impl View for PackageCacheSnapshot {
    type V = SnapshotView;

    closed spec fn view(&self) -> SnapshotView {
        SnapshotView { version: self.version as nat, packages: package_views(self.packages@) }
    }
}

impl PackageCacheSnapshot {
    /// The version of the generation that this snapshot belongs to.
    pub fn version(&self) -> (version: u32)
        ensures
            version == self@.version,
    {
        self.version
    }

    /// The packages of the snapshot, in their order.
    pub fn packages(&self) -> (packages: &Vec<PackageInfo>)
        ensures
            package_views(packages@) == self@.packages,
    {
        &self.packages
    }
}

/// The model of a [`PackagesState`]: the version of the latest generation,
/// and the snapshot of that generation unless the cache is empty.
pub struct CacheView {
    pub version: nat,
    pub snapshot: Option<SnapshotView>,
}

impl CacheView {
    /// A cache that was never loaded.
    pub open spec fn empty() -> CacheView {
        CacheView { version: 0, snapshot: None }
    }

    /// A snapshot in the cache carries the version of the cache.
    pub open spec fn wf(self) -> bool {
        self.snapshot is Some ==> self.snapshot->Some_0.version == self.version
    }

    /// The cache after it was emptied: the snapshot is gone, the version
    /// stays.
    pub open spec fn clear_cache(self) -> CacheView {
        CacheView { version: self.version, snapshot: None }
    }

    /// The cache after a forced load: a new generation, one version up, with
    /// the packages merged from `sources`.
    pub open spec fn load_force(self, sources: PackageSourcesView) -> CacheView {
        CacheView {
            version: self.version + 1,
            snapshot: Some(
                SnapshotView { version: self.version + 1, packages: merged_packages(sources) },
            ),
        }
    }

    /// The cache after a load: unchanged where it holds a snapshot, else
    /// as after a forced load.
    pub open spec fn load(self, sources: PackageSourcesView) -> CacheView {
        if self.snapshot is Some {
            self
        } else {
            self.load_force(sources)
        }
    }
}

/// The cache of all packages. It is empty, or it holds the snapshot of its
/// latest generation.
#[derive(Debug, PartialEq, Eq)]
pub struct PackagesState {
    version: u32,
    loaded: Option<PackageCacheSnapshot>,
}

impl View for PackagesState {
    type V = CacheView;

    closed spec fn view(&self) -> CacheView {
        CacheView {
            version: self.version as nat,
            snapshot: match self.loaded {
                Some(snapshot) => Some(snapshot@),
                None => None,
            },
        }
    }
}

impl PackagesState {
    #[verifier::type_invariant]
    spec fn snapshot_is_of_latest_generation(self) -> bool {
        self@.wf()
    }

    /// An empty cache that was never loaded.
    pub fn new() -> (state: PackagesState)
        ensures
            state@ == CacheView::empty(),
    {
        PackagesState { version: 0, loaded: None }
    }

    /// The version of the latest generation.
    pub fn version(&self) -> (version: u32)
        ensures
            version == self@.version,
            self@.wf(),
    {
        proof {
            use_type_invariant(self);
        }
        self.version
    }

    /// The snapshot that the cache holds, or `None` where the cache is
    /// empty and the next load has to read the sources.
    pub fn loaded(&self) -> (snapshot: Option<&PackageCacheSnapshot>)
        ensures
            self@.wf(),
            match snapshot {
                Some(snapshot) => self@.snapshot == Some(snapshot@),
                None => self@.snapshot is None,
            },
    {
        proof {
            use_type_invariant(self);
        }
        self.loaded.as_ref()
    }

    /// Empties the cache. Nothing is computed here: the next load is.
    pub fn clear_cache(&mut self)
        ensures
            final(self)@ == old(self)@.clear_cache(),
    {
        *self = PackagesState { version: self.version, loaded: None };
    }

    /// Builds the next generation from `sources` and puts it in place of
    /// whatever the cache held.
    pub fn load_force(&mut self, sources: &PackageSources) -> (snapshot: &PackageCacheSnapshot)
        requires
            old(self)@.version < u32::MAX,
        ensures
            final(self)@ == old(self)@.load_force(sources@),
            final(self)@.snapshot == Some(snapshot@),
    {
        let version = self.version + 1;
        let packages = merge_packages(sources);
        *self = PackagesState {
            version,
            loaded: Some(PackageCacheSnapshot { version, packages }),
        };
        self.loaded.as_ref().unwrap()
    }

    /// Hands back the snapshot that the cache holds; only where it holds
    /// none, builds the next generation from `sources` first.
    pub fn load(&mut self, sources: &PackageSources) -> (snapshot: &PackageCacheSnapshot)
        requires
            old(self)@.snapshot is None ==> old(self)@.version < u32::MAX,
        ensures
            final(self)@ == old(self)@.load(sources@),
            final(self)@.snapshot == Some(snapshot@),
    {
        if self.loaded.is_none() {
            self.load_force(sources)
        } else {
            self.loaded.as_ref().unwrap()
        }
    }
}

/// Lists the packages of a snapshot: each with the version of the snapshot
/// and its place in it.
pub fn environment_packages(packages: &PackageCacheSnapshot) -> (listed: Vec<TauriPackage>)
    requires
        forall|i: int|
            0 <= i < packages@.packages.len() ==> (#[trigger] packages@.packages[i]).has_source(),
    ensures
        listed.len() == packages@.packages.len(),
        forall|i: int|
            0 <= i < listed.len() ==> (#[trigger] listed[i])@ == listed_package(
                packages@.version as u32,
                i as usize,
                packages@.packages[i],
            ),
{
    let version = packages.version();
    let entries = packages.packages();
    let mut listed: Vec<TauriPackage> = Vec::new();
    let mut index: usize = 0;
    while index < entries.len()
        invariant
            index <= entries.len(),
            listed.len() == index,
            version == packages@.version,
            package_views(entries@) == packages@.packages,
            forall|i: int|
                0 <= i < packages@.packages.len() ==> (
                #[trigger] packages@.packages[i]).has_source(),
            forall|i: int|
                0 <= i < index ==> (#[trigger] listed[i])@ == listed_package(
                    version,
                    i as usize,
                    packages@.packages[i],
                ),
        decreases entries.len() - index,
    {
        assert(package_views(entries@)[index as int] == entries[index as int]@);
        listed.push(TauriPackage::new(version, index, &entries[index]));
        index = index + 1;
    }
    listed
}

/// One call on the cache.
pub enum CacheCall {
    Load(PackageSourcesView),
    LoadForce(PackageSourcesView),
    ClearCache,
}

impl CacheView {
    /// The cache after one call.
    pub open spec fn after_call(self, call: CacheCall) -> CacheView {
        match call {
            CacheCall::Load(sources) => self.load(sources),
            CacheCall::LoadForce(sources) => self.load_force(sources),
            CacheCall::ClearCache => self.clear_cache(),
        }
    }

    /// The cache after a run of calls, made in order.
    pub open spec fn after_calls(self, calls: Seq<CacheCall>) -> CacheView
        decreases calls.len(),
    {
        if calls.len() == 0 {
            self
        } else {
            self.after_calls(calls.drop_last()).after_call(calls.last())
        }
    }
}

/// A second load with no call between the two finds the cache as the first
/// left it, whatever sources it is given: the same version and the same
/// packages in the same order.
pub proof fn law_load_is_idempotent(
    cache: CacheView,
    first: PackageSourcesView,
    second: PackageSourcesView,
)
    ensures
        cache.load(first).snapshot is Some,
        cache.load(first).load(second) == cache.load(first),
{
}

/// Every call keeps the snapshot at the version of the cache, and no call
/// lowers that version.
pub proof fn law_version_never_falls(cache: CacheView, calls: Seq<CacheCall>, count: int)
    requires
        cache.wf(),
        0 <= count <= calls.len(),
    ensures
        cache.after_calls(calls).wf(),
        cache.after_calls(calls.take(count)).wf(),
        cache.after_calls(calls.take(count)).version <= cache.after_calls(calls).version,
    decreases calls.len(),
{
    if count == calls.len() {
        assert(calls.take(count) =~= calls);
        if calls.len() > 0 {
            law_version_never_falls(cache, calls.drop_last(), count - 1);
        }
    } else {
        assert(calls.drop_last().take(count) =~= calls.take(count));
        law_version_never_falls(cache, calls.drop_last(), count);
    }
}

/// Emptying the cache and loading it gives a snapshot one version above the
/// cache's, and so of a version strictly greater than that of any snapshot
/// that the cache held at any time before.
pub proof fn law_clear_then_load_is_newer(
    cache: CacheView,
    calls: Seq<CacheCall>,
    count: int,
    sources: PackageSourcesView,
)
    requires
        cache.wf(),
        0 <= count <= calls.len(),
    ensures
        ({
            let earlier = cache.after_calls(calls.take(count));
            let now = cache.after_calls(calls);
            let reloaded = now.clear_cache().load(sources);
            &&& reloaded.snapshot is Some
            &&& reloaded.snapshot->Some_0.version == now.version + 1
            &&& reloaded.snapshot->Some_0.packages == merged_packages(sources)
            &&& earlier.snapshot is Some ==> earlier.snapshot->Some_0.version
                < reloaded.snapshot->Some_0.version
        }),
{
    law_version_never_falls(cache, calls, count);
}

} // verus!
