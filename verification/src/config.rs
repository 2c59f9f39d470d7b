//! What the interface remembers about repositories: which are hidden, and
//! the overview of all of them.
use vstd::prelude::*;
use indexmap::IndexSet;
use crate::package::{copy_text, IdentityView, RepositoryIdentity};
use crate::settings::Settings;
use crate::string_set::texts;

verus! {

/// `indexmap::IndexSet`, a set that keeps the order in which its values
/// were put in. What it holds is known only through the functions below.
#[verifier::external_type_specification]
#[verifier::external_body]
#[verifier::reject_recursive_types(T)]
#[verifier::reject_recursive_types(S)]
pub struct ExIndexSet<T, S>(IndexSet<T, S>);

/// The ids that an `IndexSet` of hidden repositories holds, in the order in
/// which they were put in.
pub uninterp spec fn hidden_ids(set: IndexSet<String>) -> Seq<Seq<char>>;

/// `IndexSet::new`: the set it makes holds nothing.
#[verifier::external_body]
fn hidden_set_new() -> (set: IndexSet<String>)
    ensures
        hidden_ids(set) == Seq::<Seq<char>>::empty(),
{
    IndexSet::new()
}

/// `IndexSet::insert`: a value that the set holds already leaves the set as
/// it is, order included, and gives `false`; any other value is put in
/// behind the last and gives `true`.
#[verifier::external_body]
fn hidden_set_insert(set: &mut IndexSet<String>, id: String) -> (added: bool)
    ensures
        added == !hidden_ids(*old(set)).contains(id@),
        hidden_ids(*final(set)) == if added {
            hidden_ids(*old(set)).push(id@)
        } else {
            hidden_ids(*old(set))
        },
{
    set.insert(id)
}

/// `IndexSet::shift_remove`: says whether the set held the value; the
/// value is gone from the set and the others keep their order.
#[verifier::external_body]
fn hidden_set_shift_remove(set: &mut IndexSet<String>, id: &String) -> (removed: bool)
    ensures
        removed == hidden_ids(*old(set)).contains(id@),
        hidden_ids(*final(set)) == hidden_ids(*old(set)).filter(|other: Seq<char>| other != id@),
{
    set.shift_remove(id)
}

/// `IndexSet::iter`, each value cloned: the values of the set in its order.
#[verifier::external_body]
fn hidden_set_values(set: &IndexSet<String>) -> (values: Vec<String>)
    ensures
        texts(values@) == hidden_ids(*set),
{
    set.iter().cloned().collect()
}

/// The part of the interface's configuration that concerns repositories.
#[derive(Debug, PartialEq, Eq)]
pub struct GuiConfig {
    pub gui_hidden_repositories: IndexSet<String>,
    pub hide_local_user_packages: bool,
}

/// The model of a [`GuiConfig`].
pub struct GuiConfigView {
    pub gui_hidden_repositories: Seq<Seq<char>>,
    pub hide_local_user_packages: bool,
}

impl View for GuiConfig {
    type V = GuiConfigView;

    open spec fn view(&self) -> GuiConfigView {
        GuiConfigView {
            gui_hidden_repositories: hidden_ids(self.gui_hidden_repositories),
            hide_local_user_packages: self.hide_local_user_packages,
        }
    }
}

impl GuiConfig {
    /// A configuration that hides nothing.
    pub fn new() -> (config: GuiConfig)
        ensures
            config@ == (GuiConfigView {
                gui_hidden_repositories: Seq::empty(),
                hide_local_user_packages: false,
            }),
    {
        GuiConfig { gui_hidden_repositories: hidden_set_new(), hide_local_user_packages: false }
    }
}

/// Hides the repository with the id `repository`. One that is hidden
/// already keeps its place; a new one comes last.
pub fn environment_hide_repository(config: &mut GuiConfig, repository: String)
    ensures
        final(config)@.hide_local_user_packages == old(config)@.hide_local_user_packages,
        final(config)@.gui_hidden_repositories == if old(config)@.gui_hidden_repositories.contains(
            repository@,
        ) {
            old(config)@.gui_hidden_repositories
        } else {
            old(config)@.gui_hidden_repositories.push(repository@)
        },
{
    hidden_set_insert(&mut config.gui_hidden_repositories, repository);
}

/// Shows the repository with the id `repository` again. The other hidden
/// repositories keep their order.
pub fn environment_show_repository(config: &mut GuiConfig, repository: String)
    ensures
        final(config)@.hide_local_user_packages == old(config)@.hide_local_user_packages,
        final(config)@.gui_hidden_repositories == old(config)@.gui_hidden_repositories.filter(
            |other: Seq<char>| other != repository@,
        ),
{
    hidden_set_shift_remove(&mut config.gui_hidden_repositories, &repository);
}

/// Sets whether the packages of the user's own folders are hidden.
pub fn environment_set_hide_local_user_packages(config: &mut GuiConfig, value: bool)
    ensures
        final(config)@.hide_local_user_packages == value,
        final(config)@.gui_hidden_repositories == old(config)@.gui_hidden_repositories,
{
    config.hide_local_user_packages = value;
}

/// A repository that the user added, as the overview shows it.
#[derive(Debug, PartialEq, Eq)]
pub struct TauriUserRepository {
    pub id: String,
    pub url: Option<String>,
    pub display_name: String,
}

/// The model of a [`TauriUserRepository`].
pub struct UserRepositoryView {
    pub id: Seq<char>,
    pub url: Option<Seq<char>>,
    pub display_name: Seq<char>,
}

impl View for TauriUserRepository {
    type V = UserRepositoryView;

    open spec fn view(&self) -> UserRepositoryView {
        UserRepositoryView {
            id: self.id@,
            url: crate::package::text_of(self.url),
            display_name: self.display_name@,
        }
    }
}

/// How the overview shows a stored repository: under its stored id, with
/// its URL if it has one, and under its stored display name.
pub open spec fn user_repository_of(repo: IdentityView) -> UserRepositoryView {
    UserRepositoryView {
        id: repo.stored_id(),
        url: repo.url,
        display_name: repo.stored_display_name(),
    }
}

/// The overview of the repositories.
#[derive(Debug, PartialEq, Eq)]
pub struct TauriRepositoriesInfo {
    pub user_repositories: Vec<TauriUserRepository>,
    pub hidden_user_repositories: Vec<String>,
    pub hide_local_user_packages: bool,
    pub show_prerelease_packages: bool,
}

/// The model of a [`TauriRepositoriesInfo`].
pub struct RepositoriesInfoView {
    pub user_repositories: Seq<UserRepositoryView>,
    pub hidden_user_repositories: Seq<Seq<char>>,
    pub hide_local_user_packages: bool,
    pub show_prerelease_packages: bool,
}

impl View for TauriRepositoriesInfo {
    type V = RepositoriesInfoView;

    open spec fn view(&self) -> RepositoriesInfoView {
        RepositoriesInfoView {
            user_repositories: self.user_repositories@.map_values(
                |repo: TauriUserRepository| repo@,
            ),
            hidden_user_repositories: texts(self.hidden_user_repositories@),
            hide_local_user_packages: self.hide_local_user_packages,
            show_prerelease_packages: self.show_prerelease_packages,
        }
    }
}

/// The overview of the repositories: every stored repository in the stored
/// order, the hidden ones in the order in which they were hidden, and the
/// two switches.
pub fn environment_repositories_info(config: &GuiConfig, settings: &Settings) -> (info:
    TauriRepositoriesInfo)
    requires
        forall|i: int|
            0 <= i < settings@.user_repos.len() ==> (#[trigger] settings@.user_repos[i]).is_named(),
    ensures
        info@ == (RepositoriesInfoView {
            user_repositories: settings@.user_repos.map_values(
                |repo: IdentityView| user_repository_of(repo),
            ),
            hidden_user_repositories: config@.gui_hidden_repositories,
            hide_local_user_packages: config@.hide_local_user_packages,
            show_prerelease_packages: settings@.show_prerelease_packages,
        }),
{
    let hidden_user_repositories = hidden_set_values(&config.gui_hidden_repositories);
    let mut user_repositories: Vec<TauriUserRepository> = Vec::new();
    let mut i: usize = 0;
    while i < settings.user_repos.len()
        invariant
            i <= settings.user_repos.len(),
            user_repositories.len() == i,
            forall|j: int|
                0 <= j < settings@.user_repos.len() ==> (
                #[trigger] settings@.user_repos[j]).is_named(),
            forall|j: int|
                0 <= j < i ==> (#[trigger] user_repositories[j])@ == user_repository_of(
                    settings@.user_repos[j],
                ),
        decreases settings.user_repos.len() - i,
    {
        let repo: &RepositoryIdentity = &settings.user_repos[i];
        assert(repo@ == settings@.user_repos[i as int]);
        user_repositories.push(
            TauriUserRepository {
                id: repo.stored_id(),
                url: copy_text(&repo.url),
                display_name: repo.stored_display_name(),
            },
        );
        i = i + 1;
    }
    let info = TauriRepositoriesInfo {
        user_repositories,
        hidden_user_repositories,
        hide_local_user_packages: config.hide_local_user_packages,
        show_prerelease_packages: settings.show_prerelease_packages,
    };
    assert(info@.user_repositories =~= settings@.user_repos.map_values(
        |repo: IdentityView| user_repository_of(repo),
    ));
    info
}

} // verus!
