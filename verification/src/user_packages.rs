//! The packages of the user's own folders: listing them and adding one.
use vstd::prelude::*;
use crate::cache::PackagesState;
use crate::package::{text_of, BasePackageView, TauriBasePackageInfo};

verus! {

/// A package of one of the user's own folders, as the list shows it.
#[derive(Debug, PartialEq, Eq)]
pub struct TauriUserPackage {
    pub path: String,
    pub package: TauriBasePackageInfo,
}

/// The model of a [`TauriUserPackage`].
pub struct UserPackageView {
    pub path: Seq<char>,
    pub package: BasePackageView,
}

impl View for TauriUserPackage {
    type V = UserPackageView;

    open spec fn view(&self) -> UserPackageView {
        UserPackageView { path: self.path@, package: self.package@ }
    }
}

/// The model of a folder's package as it was loaded: the folder's path,
/// where it can be written as text, and the package.
pub open spec fn loaded_view(loaded: (Option<String>, TauriBasePackageInfo)) -> (
    Option<Seq<char>>,
    BasePackageView,
) {
    (text_of(loaded.0), loaded.1@)
}

/// A loaded package is listed where its folder's path can be written as
/// text.
pub open spec fn listed_user_package() -> spec_fn((Option<Seq<char>>, BasePackageView)) -> Option<
    UserPackageView,
> {
    |loaded: (Option<Seq<char>>, BasePackageView)|
        match loaded.0 {
            Some(path) => Some(UserPackageView { path, package: loaded.1 }),
            None => None,
        }
}

/// Lists the packages of the user's own folders, in order. `packages` holds
/// for each folder that was loaded its path, or `None` where the path
/// cannot be written as text, and its package; the folders without a path
/// are left out.
pub fn environment_get_user_packages(packages: Vec<(Option<String>, TauriBasePackageInfo)>) -> (listed:
    Vec<TauriUserPackage>)
    ensures
        listed@.map_values(|package: TauriUserPackage| package@) == packages@.map_values(
            |loaded: (Option<String>, TauriBasePackageInfo)| loaded_view(loaded),
        ).filter_map(listed_user_package()),
{
    let ghost all = packages@.map_values(
        |loaded: (Option<String>, TauriBasePackageInfo)| loaded_view(loaded),
    );
    let mut listed: Vec<TauriUserPackage> = Vec::new();
    for loaded in iter: packages.into_iter()
        invariant
            iter.seq() == packages@,
            all == packages@.map_values(
                |loaded: (Option<String>, TauriBasePackageInfo)| loaded_view(loaded),
            ),
            listed@.map_values(|package: TauriUserPackage| package@) == all.take(
                iter.index() as int,
            ).filter_map(listed_user_package()),
    {
        proof {
            all.lemma_filter_map_take_succ(listed_user_package(), iter.index() as int);
        }
        let (path, package) = loaded;
        match path {
            Some(path) => listed.push(TauriUserPackage { path, package }),
            None => {},
        }
    }
    assert(all.take(packages@.len() as int) =~= all);
    listed
}

/// How adding a folder of the user's own ended.
#[derive(Clone, Copy, Debug, PartialEq, Eq, Structural)]
pub enum TauriAddUserPackageWithPickerResult {
    NoFolderSelected,
    InvalidSelection,
    AlreadyAdded,
    Successful,
}

/// What the settings said to the adding of a folder.
#[derive(Clone, Copy, Debug, PartialEq, Eq, Structural)]
pub enum AddUserPackageResult {
    Success,
    NonAbsolute,
    BadPackage,
    AlreadyAdded,
}

/// What is to be done to add a folder: nothing more, or the adding of the
/// folder at `path`.
#[derive(Debug, PartialEq, Eq)]
pub enum AddUserPackageStep {
    Finished(TauriAddUserPackageWithPickerResult),
    Add { path: String },
}

/// The model of an [`AddUserPackageStep`].
pub enum AddUserPackageStepView {
    Finished(TauriAddUserPackageWithPickerResult),
    Add { path: Seq<char> },
}

impl View for AddUserPackageStep {
    type V = AddUserPackageStepView;

    open spec fn view(&self) -> AddUserPackageStepView {
        match self {
            AddUserPackageStep::Finished(result) => AddUserPackageStepView::Finished(*result),
            AddUserPackageStep::Add { path } => AddUserPackageStepView::Add { path: path@ },
        }
    }
}

/// The first part of adding a folder. `picked` is `None` where the user
/// picked no folder, `Some(None)` where the path of the picked folder cannot
/// be written as text, else the path.
pub fn environment_add_user_package_with_picker(picked: Option<Option<String>>) -> (step:
    AddUserPackageStep)
    ensures
        step@ == match picked {
            None => AddUserPackageStepView::Finished(
                TauriAddUserPackageWithPickerResult::NoFolderSelected,
            ),
            Some(None) => AddUserPackageStepView::Finished(
                TauriAddUserPackageWithPickerResult::InvalidSelection,
            ),
            Some(Some(path)) => AddUserPackageStepView::Add { path: path@ },
        },
{
    match picked {
        None => AddUserPackageStep::Finished(TauriAddUserPackageWithPickerResult::NoFolderSelected),
        Some(None) => AddUserPackageStep::Finished(
            TauriAddUserPackageWithPickerResult::InvalidSelection,
        ),
        Some(Some(path)) => AddUserPackageStep::Add { path },
    }
}

/// The second part of adding a folder: reads what the settings said. `Err`
/// ends the adding with the result it holds; `Ok` asks for the settings to
/// be written. The picked path is absolute, so `NonAbsolute` is no answer
/// to it.
pub fn user_package_added(added: AddUserPackageResult) -> (step: Result<
    (),
    TauriAddUserPackageWithPickerResult,
>)
    requires
        added != AddUserPackageResult::NonAbsolute,
    ensures
        step == match added {
            AddUserPackageResult::Success => Ok::<(), TauriAddUserPackageWithPickerResult>(()),
            AddUserPackageResult::BadPackage => Err(
                TauriAddUserPackageWithPickerResult::InvalidSelection,
            ),
            _ => Err(TauriAddUserPackageWithPickerResult::AlreadyAdded),
        },
{
    match added {
        AddUserPackageResult::Success => Ok(()),
        AddUserPackageResult::BadPackage => Err(
            TauriAddUserPackageWithPickerResult::InvalidSelection,
        ),
        _ => Err(TauriAddUserPackageWithPickerResult::AlreadyAdded),
    }
}

/// The last part of adding a folder, once the settings are written: empties
/// the cache of packages, so that the next load reads the new folder.
pub fn user_package_saved(packages: &mut PackagesState) -> (result:
    TauriAddUserPackageWithPickerResult)
    ensures
        result == TauriAddUserPackageWithPickerResult::Successful,
        final(packages)@ == old(packages)@.clear_cache(),
{
    packages.clear_cache();
    TauriAddUserPackageWithPickerResult::Successful
}

} // verus!
