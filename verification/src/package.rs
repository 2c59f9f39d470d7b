//! Packages, the repositories they come from, and how a repository is named.
use vstd::prelude::*;

verus! {

/// The text of an optional string.
pub open spec fn text_of(value: Option<String>) -> Option<Seq<char>> {
    match value {
        Some(text) => Some(text@),
        None => None,
    }
}

/// A copy of an optional string.
pub fn copy_text(value: &Option<String>) -> (copy: Option<String>)
    ensures
        text_of(copy) == text_of(*value),
{
    match value {
        Some(text) => Some(text.clone()),
        None => None,
    }
}

/// What the lists of packages show of one version of a package.
#[derive(Debug, PartialEq, Eq)]
pub struct TauriBasePackageInfo {
    pub name: String,
    pub version: String,
    pub is_yanked: bool,
}

/// The model of a [`TauriBasePackageInfo`].
pub struct BasePackageView {
    pub name: Seq<char>,
    pub version: Seq<char>,
    pub is_yanked: bool,
}

impl View for TauriBasePackageInfo {
    type V = BasePackageView;

    open spec fn view(&self) -> BasePackageView {
        BasePackageView { name: self.name@, version: self.version@, is_yanked: self.is_yanked }
    }
}

impl Clone for TauriBasePackageInfo {
    fn clone(&self) -> (copy: Self)
        ensures
            copy@ == self@,
    {
        TauriBasePackageInfo {
            name: self.name.clone(),
            version: self.version.clone(),
            is_yanked: self.is_yanked,
        }
    }
}

/// The models of a list of package versions, in order.
pub open spec fn base_views(packages: Seq<TauriBasePackageInfo>) -> Seq<BasePackageView> {
    packages.map_values(|package: TauriBasePackageInfo| package@)
}

/// A copy of a list of package versions.
pub fn copy_packages(packages: &Vec<TauriBasePackageInfo>) -> (copy: Vec<TauriBasePackageInfo>)
    ensures
        base_views(copy@) == base_views(packages@),
{
    let mut copy: Vec<TauriBasePackageInfo> = Vec::new();
    let mut i: usize = 0;
    while i < packages.len()
        invariant
            i <= packages.len(),
            copy.len() == i,
            forall|j: int| 0 <= j < i ==> (#[trigger] copy[j])@ == packages[j]@,
        decreases packages.len() - i,
    {
        copy.push(packages[i].clone());
        i = i + 1;
    }
    copy
}

/// What a repository says of itself: each of the three may be missing.
#[derive(Debug, PartialEq, Eq)]
pub struct RepositoryIdentity {
    pub id: Option<String>,
    pub url: Option<String>,
    pub name: Option<String>,
}

/// The model of a [`RepositoryIdentity`].
pub struct IdentityView {
    pub id: Option<Seq<char>>,
    pub url: Option<Seq<char>>,
    pub name: Option<Seq<char>>,
}

impl View for RepositoryIdentity {
    type V = IdentityView;

    open spec fn view(&self) -> IdentityView {
        IdentityView { id: text_of(self.id), url: text_of(self.url), name: text_of(self.name) }
    }
}

impl Clone for RepositoryIdentity {
    fn clone(&self) -> (copy: Self)
        ensures
            copy@ == self@,
    {
        RepositoryIdentity {
            id: copy_text(&self.id),
            url: copy_text(&self.url),
            name: copy_text(&self.name),
        }
    }
}

impl IdentityView {
    /// A stored repository can be named when it has an id or a URL.
    pub open spec fn is_named(self) -> bool {
        self.id is Some || self.url is Some
    }

    /// The id a stored repository goes by: its own, else its URL.
    pub open spec fn stored_id(self) -> Seq<char>
        recommends
            self.is_named(),
    {
        match self.id {
            Some(id) => id,
            None => self.url->Some_0,
        }
    }

    /// The name a stored repository is shown under: its own, else its id.
    pub open spec fn stored_display_name(self) -> Seq<char>
        recommends
            self.is_named(),
    {
        match self.name {
            Some(name) => name,
            None => self.stored_id(),
        }
    }

    /// The URL of a fetched repository: the one its document declares, else
    /// the URL it was fetched from.
    pub open spec fn resolved_url(self, fetch_url: Seq<char>) -> Seq<char> {
        match self.url {
            Some(url) => url,
            None => fetch_url,
        }
    }

    /// The id of a fetched repository: the one its document declares, else
    /// its resolved URL.
    pub open spec fn resolved_id(self, fetch_url: Seq<char>) -> Seq<char> {
        match self.id {
            Some(id) => id,
            None => self.resolved_url(fetch_url),
        }
    }

    /// The display name of a fetched repository: the one its document
    /// declares, else its resolved id.
    pub open spec fn resolved_display_name(self, fetch_url: Seq<char>) -> Seq<char> {
        match self.name {
            Some(name) => name,
            None => self.resolved_id(fetch_url),
        }
    }
}

/// The canonical id, URL and display name of a fetched repository.
#[derive(Debug, PartialEq, Eq)]
pub struct ResolvedIdentity {
    pub id: String,
    pub url: String,
    pub display_name: String,
}

impl RepositoryIdentity {
    /// The id a stored repository goes by.
    pub fn stored_id(&self) -> (id: String)
        requires
            self@.is_named(),
        ensures
            id@ == self@.stored_id(),
    {
        match &self.id {
            Some(id) => id.clone(),
            None => self.url.as_ref().unwrap().clone(),
        }
    }

    /// The name a stored repository is shown under.
    pub fn stored_display_name(&self) -> (name: String)
        requires
            self@.is_named(),
        ensures
            name@ == self@.stored_display_name(),
    {
        match &self.name {
            Some(name) => name.clone(),
            None => self.stored_id(),
        }
    }

    /// Names a fetched repository: the document's URL if it declares one, else
    /// `fetch_url`; its id if it declares one, else that URL; its name if it
    /// declares one, else that id.
    pub fn resolve(&self, fetch_url: &String) -> (resolved: ResolvedIdentity)
        ensures
            resolved.url@ == self@.resolved_url(fetch_url@),
            resolved.id@ == self@.resolved_id(fetch_url@),
            resolved.display_name@ == self@.resolved_display_name(fetch_url@),
    {
        let url = match &self.url {
            Some(url) => url.clone(),
            None => fetch_url.clone(),
        };
        let id = match &self.id {
            Some(id) => id.clone(),
            None => url.clone(),
        };
        let display_name = match &self.name {
            Some(name) => name.clone(),
            None => id.clone(),
        };
        ResolvedIdentity { id, url, display_name }
    }
}

/// One version of a package together with where it comes from: a repository,
/// or a folder of the user's own when `repo` is `None`.
#[derive(Debug, PartialEq, Eq)]
pub struct PackageInfo {
    pub json: TauriBasePackageInfo,
    pub repo: Option<RepositoryIdentity>,
}

/// The model of a [`PackageInfo`].
pub struct PackageInfoView {
    pub json: BasePackageView,
    pub repo: Option<IdentityView>,
}

impl View for PackageInfo {
    type V = PackageInfoView;

    open spec fn view(&self) -> PackageInfoView {
        PackageInfoView {
            json: self.json@,
            repo: match self.repo {
                Some(repo) => Some(repo@),
                None => None,
            },
        }
    }
}

impl PackageInfoView {
    /// A package of a repository needs a repository that can be named.
    pub open spec fn has_source(self) -> bool {
        self.repo is Some ==> self.repo->Some_0.is_named()
    }
}

/// The models of a list of packages, in order.
pub open spec fn package_views(packages: Seq<PackageInfo>) -> Seq<PackageInfoView> {
    packages.map_values(|package: PackageInfo| package@)
}

/// Where a listed package comes from.
#[derive(Debug, PartialEq, Eq)]
pub enum TauriPackageSource {
    LocalUser,
    Remote { id: String, display_name: String },
}

/// The model of a [`TauriPackageSource`].
pub enum PackageSourceView {
    LocalUser,
    Remote { id: Seq<char>, display_name: Seq<char> },
}

impl View for TauriPackageSource {
    type V = PackageSourceView;

    open spec fn view(&self) -> PackageSourceView {
        match self {
            TauriPackageSource::LocalUser => PackageSourceView::LocalUser,
            TauriPackageSource::Remote { id, display_name } => PackageSourceView::Remote {
                id: id@,
                display_name: display_name@,
            },
        }
    }
}

/// A package as the list of all packages shows it: the version of the cache
/// it was read from, its place in that cache, the package and its source.
#[derive(Debug, PartialEq, Eq)]
pub struct TauriPackage {
    pub env_version: u32,
    pub index: usize,
    pub base: TauriBasePackageInfo,
    pub source: TauriPackageSource,
}

/// The model of a [`TauriPackage`].
pub struct TauriPackageView {
    pub env_version: u32,
    pub index: usize,
    pub base: BasePackageView,
    pub source: PackageSourceView,
}

impl View for TauriPackage {
    type V = TauriPackageView;

    open spec fn view(&self) -> TauriPackageView {
        TauriPackageView {
            env_version: self.env_version,
            index: self.index,
            base: self.base@,
            source: self.source@,
        }
    }
}

/// The source shown for a package: the user's own folders for a package
/// without a repository; else the repository's stored id and display name.
pub open spec fn source_of(package: PackageInfoView) -> PackageSourceView {
    match package.repo {
        Some(repo) => PackageSourceView::Remote {
            id: repo.stored_id(),
            display_name: repo.stored_display_name(),
        },
        None => PackageSourceView::LocalUser,
    }
}

/// The listed form of `package`, read at place `index` of the cache of
/// version `env_version`.
pub open spec fn listed_package(
    env_version: u32,
    index: usize,
    package: PackageInfoView,
) -> TauriPackageView {
    TauriPackageView { env_version, index, base: package.json, source: source_of(package) }
}

impl TauriPackage {
    /// Lists `package`, found at place `index` of the cache of version
    /// `env_version`.
    pub fn new(env_version: u32, index: usize, package: &PackageInfo) -> (listed: TauriPackage)
        requires
            package@.has_source(),
        ensures
            listed@ == listed_package(env_version, index, package@),
    {
        let source = match &package.repo {
            Some(repo) => TauriPackageSource::Remote {
                id: repo.stored_id(),
                display_name: repo.stored_display_name(),
            },
            None => TauriPackageSource::LocalUser,
        };
        TauriPackage { env_version, index, base: package.json.clone(), source }
    }
}

} // verus!
