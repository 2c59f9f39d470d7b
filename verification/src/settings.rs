//! The stored settings, as far as repositories are concerned, and the URLs
//! and ids that count as already present.
use vstd::prelude::*;
use crate::package::{IdentityView, RepositoryIdentity};
use crate::string_set::StringSet;

verus! {

/// The settings that decide which repositories are present: those the user
/// added, in their stored order, and whether the two built-in repositories
/// are left out.
#[derive(Debug, PartialEq, Eq)]
pub struct Settings {
    pub user_repos: Vec<RepositoryIdentity>,
    pub ignore_curated_repository: bool,
    pub ignore_official_repository: bool,
    pub show_prerelease_packages: bool,
}

/// The model of [`Settings`].
pub struct SettingsView {
    pub user_repos: Seq<IdentityView>,
    pub ignore_curated_repository: bool,
    pub ignore_official_repository: bool,
    pub show_prerelease_packages: bool,
}

impl View for Settings {
    type V = SettingsView;

    open spec fn view(&self) -> SettingsView {
        SettingsView {
            user_repos: self.user_repos@.map_values(|repo: RepositoryIdentity| repo@),
            ignore_curated_repository: self.ignore_curated_repository,
            ignore_official_repository: self.ignore_official_repository,
            show_prerelease_packages: self.show_prerelease_packages,
        }
    }
}

/// The URL of the built-in curated repository.
pub open spec fn curated_url() -> Seq<char> {
    "https://packages.vrchat.com/curated?download"@
}

/// The URL of the built-in official repository.
pub open spec fn official_url() -> Seq<char> {
    "https://packages.vrchat.com/official?download"@
}

/// The id of the built-in curated repository.
pub open spec fn curated_id() -> Seq<char> {
    "com.vrchat.repos.curated"@
}

/// The id of the built-in official repository.
pub open spec fn official_id() -> Seq<char> {
    "com.vrchat.repos.official"@
}

impl SettingsView {
    /// Some stored repository has the URL `url`.
    pub open spec fn stores_url(self, url: Seq<char>) -> bool {
        exists|i: int|
            0 <= i < self.user_repos.len() && (#[trigger] self.user_repos[i]).url == Some(url)
    }

    /// Some stored repository has the id `id`.
    pub open spec fn stores_id(self, id: Seq<char>) -> bool {
        exists|i: int|
            0 <= i < self.user_repos.len() && (#[trigger] self.user_repos[i]).id == Some(id)
    }

    /// The URLs that are already present: the URL of every stored repository
    /// that has one, and that of each built-in repository that is not left
    /// out.
    pub open spec fn known_urls(self) -> Set<Seq<char>> {
        Set::new(
            |url: Seq<char>|
                self.stores_url(url) || (!self.ignore_curated_repository && url == curated_url())
                    || (!self.ignore_official_repository && url == official_url()),
        )
    }

    /// The ids that are already present: the id of every stored repository
    /// that has one, and that of each built-in repository that is not left
    /// out.
    pub open spec fn known_ids(self) -> Set<Seq<char>> {
        Set::new(
            |id: Seq<char>|
                self.stores_id(id) || (!self.ignore_curated_repository && id == curated_id()) || (
                !self.ignore_official_repository && id == official_id()),
        )
    }
}

/// What a stored repository is found by: its id, or its URL.
spec fn key_of(repo: IdentityView, by_id: bool) -> Option<Seq<char>> {
    if by_id {
        repo.id
    } else {
        repo.url
    }
}

/// The keys of the first `count` stored repositories.
spec fn keys_before(repos: Seq<IdentityView>, by_id: bool, count: int) -> Set<Seq<char>> {
    Set::new(
        |key: Seq<char>|
            exists|i: int|
                0 <= i < count && i < repos.len() && key_of(#[trigger] repos[i], by_id) == Some(
                    key,
                ),
    )
}

/// One more stored repository adds its key, if it has one.
proof fn lemma_keys_before_next(repos: Seq<IdentityView>, by_id: bool, count: int)
    requires
        0 <= count < repos.len(),
    ensures
        keys_before(repos, by_id, count + 1) == match key_of(repos[count], by_id) {
            Some(key) => keys_before(repos, by_id, count).insert(key),
            None => keys_before(repos, by_id, count),
        },
{
}

/// The keys of the stored repositories: their ids, or their URLs.
fn stored_keys(settings: &Settings, by_id: bool) -> (keys: StringSet)
    ensures
        keys@ == keys_before(settings@.user_repos, by_id, settings@.user_repos.len() as int),
{
    let mut keys = StringSet::new();
    let mut i: usize = 0;
    while i < settings.user_repos.len()
        invariant
            i <= settings.user_repos.len(),
            keys@ == keys_before(settings@.user_repos, by_id, i as int),
        decreases settings.user_repos.len() - i,
    {
        proof {
            lemma_keys_before_next(settings@.user_repos, by_id, i as int);
        }
        let repo = &settings.user_repos[i];
        let key = if by_id {
            &repo.id
        } else {
            &repo.url
        };
        match key {
            Some(key) => {
                keys.insert(key.clone());
            },
            None => {},
        }
        i = i + 1;
    }
    keys
}

/// The set of URLs that are already present under `settings`.
pub fn user_repo_urls(settings: &Settings) -> (user_repo_urls: StringSet)
    ensures
        user_repo_urls@ == settings@.known_urls(),
{
    let mut user_repo_urls = stored_keys(settings, false);

    if !settings.ignore_curated_repository {
        user_repo_urls.insert("https://packages.vrchat.com/curated?download".to_owned());
    }
    if !settings.ignore_official_repository {
        user_repo_urls.insert("https://packages.vrchat.com/official?download".to_owned());
    }
    user_repo_urls
}

/// The set of ids that are already present under `settings`.
pub fn user_repo_ids(settings: &Settings) -> (user_repo_ids: StringSet)
    ensures
        user_repo_ids@ == settings@.known_ids(),
{
    let mut user_repo_ids = stored_keys(settings, true);

    if !settings.ignore_curated_repository {
        user_repo_ids.insert("com.vrchat.repos.curated".to_owned());
    }
    if !settings.ignore_official_repository {
        user_repo_ids.insert("com.vrchat.repos.official".to_owned());
    }
    user_repo_ids
}

} // verus!
