use indexmap::IndexSet;
use vrc_get_repos::cache::PackagesState;
use vrc_get_repos::config::{
    environment_hide_repository, environment_repositories_info,
    environment_set_hide_local_user_packages, environment_show_repository, GuiConfig,
    TauriRepositoriesInfo, TauriUserRepository,
};
use vrc_get_repos::package::RepositoryIdentity;
use vrc_get_repos::repositories::{
    environment_add_repository, environment_remove_repository, plan_add_repository,
    repositories_changed, AddRepositoryStep, TauriAddRepositoryResult,
};
use vrc_get_repos::settings::Settings;
use vrc_get_repos::cache::PackageSources;

fn text(value: &str) -> String {
    value.to_string()
}

fn identity(id: Option<&str>, url: Option<&str>, name: Option<&str>) -> RepositoryIdentity {
    RepositoryIdentity { id: id.map(text), url: url.map(text), name: name.map(text) }
}

fn hidden(config: &GuiConfig) -> Vec<String> {
    config.gui_hidden_repositories.iter().cloned().collect()
}

#[test]
fn new_config_hides_nothing() {
    let config = GuiConfig::new();
    assert!(config.gui_hidden_repositories.is_empty());
    assert!(!config.hide_local_user_packages);
}

#[test]
fn hidden_repositories_keep_the_order_of_hiding() {
    let mut config = GuiConfig::new();
    environment_hide_repository(&mut config, text("b"));
    environment_hide_repository(&mut config, text("a"));
    environment_hide_repository(&mut config, text("c"));
    environment_hide_repository(&mut config, text("b"));
    assert_eq!(hidden(&config), vec![text("b"), text("a"), text("c")]);
}

#[test]
fn shown_repository_leaves_the_others_in_order() {
    let mut config = GuiConfig {
        gui_hidden_repositories: IndexSet::from([text("a"), text("b"), text("c"), text("d")]),
        hide_local_user_packages: true,
    };
    environment_show_repository(&mut config, text("b"));
    assert_eq!(hidden(&config), vec![text("a"), text("c"), text("d")]);
    environment_show_repository(&mut config, text("missing"));
    assert_eq!(hidden(&config), vec![text("a"), text("c"), text("d")]);
    assert!(config.hide_local_user_packages);
}

#[test]
fn hiding_local_user_packages_is_set() {
    let mut config = GuiConfig::new();
    environment_hide_repository(&mut config, text("a"));
    environment_set_hide_local_user_packages(&mut config, true);
    assert!(config.hide_local_user_packages);
    assert_eq!(hidden(&config), vec![text("a")]);
    environment_set_hide_local_user_packages(&mut config, false);
    assert!(!config.hide_local_user_packages);
}

#[test]
fn overview_lists_stored_repositories_and_hidden_ones() {
    let mut config = GuiConfig::new();
    environment_hide_repository(&mut config, text("z"));
    environment_hide_repository(&mut config, text("a.repo"));
    environment_set_hide_local_user_packages(&mut config, true);
    let settings = Settings {
        user_repos: vec![
            identity(Some("a.repo"), Some("https://a/repo"), Some("A")),
            identity(None, Some("https://b/repo"), None),
            identity(Some("c.repo"), None, None),
        ],
        ignore_curated_repository: false,
        ignore_official_repository: false,
        show_prerelease_packages: true,
    };
    assert_eq!(
        environment_repositories_info(&config, &settings),
        TauriRepositoriesInfo {
            user_repositories: vec![
                TauriUserRepository {
                    id: text("a.repo"),
                    url: Some(text("https://a/repo")),
                    display_name: text("A"),
                },
                TauriUserRepository {
                    id: text("https://b/repo"),
                    url: Some(text("https://b/repo")),
                    display_name: text("https://b/repo"),
                },
                TauriUserRepository { id: text("c.repo"), url: None, display_name: text("c.repo") },
            ],
            hidden_user_repositories: vec![text("z"), text("a.repo")],
            hide_local_user_packages: true,
            show_prerelease_packages: true,
        }
    );
}

#[test]
fn adding_a_malformed_url_is_bad_url() {
    assert_eq!(
        environment_add_repository(&text("not a url")),
        AddRepositoryStep::Finished(TauriAddRepositoryResult::BadUrl)
    );
    assert_eq!(plan_add_repository(None), AddRepositoryStep::Finished(TauriAddRepositoryResult::BadUrl));
}

#[test]
fn adding_a_url_asks_for_its_serialised_form() {
    assert_eq!(
        environment_add_repository(&text("https://example.com")),
        AddRepositoryStep::Add { url: text("https://example.com/") }
    );
    assert_eq!(
        plan_add_repository(Some(text("https://example.com/"))),
        AddRepositoryStep::Add { url: text("https://example.com/") }
    );
}

#[test]
fn changed_repositories_empty_the_cache() {
    let mut packages = PackagesState::new();
    packages.load(&PackageSources { repositories: vec![], user_packages: vec![] });
    assert!(packages.loaded().is_some());
    assert_eq!(repositories_changed(&mut packages), TauriAddRepositoryResult::Success);
    assert!(packages.loaded().is_none());
    assert_eq!(packages.version(), 1);
}

#[test]
fn repository_is_removed_by_its_own_id_only() {
    let id = text("a.repo");
    assert!(environment_remove_repository(&identity(Some("a.repo"), None, None), &id));
    assert!(!environment_remove_repository(&identity(Some("b.repo"), None, None), &id));
    assert!(!environment_remove_repository(&identity(None, Some("a.repo"), Some("a.repo")), &id));
}
