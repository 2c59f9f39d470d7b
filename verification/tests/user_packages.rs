use vrc_get_repos::cache::{PackageSources, PackagesState};
use vrc_get_repos::package::TauriBasePackageInfo;
use vrc_get_repos::user_packages::{
    environment_add_user_package_with_picker, environment_get_user_packages, user_package_added,
    user_package_saved, AddUserPackageResult, AddUserPackageStep,
    TauriAddUserPackageWithPickerResult, TauriUserPackage,
};

fn text(value: &str) -> String {
    value.to_string()
}

fn version(name: &str, version: &str) -> TauriBasePackageInfo {
    TauriBasePackageInfo { name: text(name), version: text(version), is_yanked: false }
}

#[test]
fn user_packages_without_a_textual_path_are_left_out() {
    let loaded = vec![
        (Some(text("/home/me/a")), version("a", "1.0.0")),
        (None, version("b", "1.0.0")),
        (Some(text("/home/me/c")), version("c", "2.0.0")),
    ];
    assert_eq!(
        environment_get_user_packages(loaded),
        vec![
            TauriUserPackage { path: text("/home/me/a"), package: version("a", "1.0.0") },
            TauriUserPackage { path: text("/home/me/c"), package: version("c", "2.0.0") },
        ]
    );
    assert_eq!(environment_get_user_packages(vec![]), Vec::<TauriUserPackage>::new());
}

#[test]
fn picking_no_folder_adds_nothing() {
    assert_eq!(
        environment_add_user_package_with_picker(None),
        AddUserPackageStep::Finished(TauriAddUserPackageWithPickerResult::NoFolderSelected)
    );
}

#[test]
fn picking_a_folder_without_textual_path_is_invalid() {
    assert_eq!(
        environment_add_user_package_with_picker(Some(None)),
        AddUserPackageStep::Finished(TauriAddUserPackageWithPickerResult::InvalidSelection)
    );
}

#[test]
fn picking_a_folder_asks_to_add_it() {
    assert_eq!(
        environment_add_user_package_with_picker(Some(Some(text("/home/me/pkg")))),
        AddUserPackageStep::Add { path: text("/home/me/pkg") }
    );
}

#[test]
fn answer_of_the_settings_decides_the_result() {
    assert_eq!(user_package_added(AddUserPackageResult::Success), Ok(()));
    assert_eq!(
        user_package_added(AddUserPackageResult::BadPackage),
        Err(TauriAddUserPackageWithPickerResult::InvalidSelection)
    );
    assert_eq!(
        user_package_added(AddUserPackageResult::AlreadyAdded),
        Err(TauriAddUserPackageWithPickerResult::AlreadyAdded)
    );
}

#[test]
fn saved_user_package_empties_the_cache() {
    let mut packages = PackagesState::new();
    packages.load(&PackageSources { repositories: vec![], user_packages: vec![] });
    assert_eq!(user_package_saved(&mut packages), TauriAddUserPackageWithPickerResult::Successful);
    assert!(packages.loaded().is_none());
}
