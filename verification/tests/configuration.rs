use patch_hub_core::config::{save_paths, Config, EnvOverrides};

fn page_size_only(page_size: &str) -> Option<EnvOverrides> {
    EnvOverrides::from_texts(Some(page_size.to_string()), None, None, None)
}

fn assert_built_in_paths(config: &Config) {
    assert_eq!(config.patchsets_cache_dir(), "/home/ada/.cache/patch_hub/patchsets");
    assert_eq!(
        config.bookmarked_patchsets_path(),
        "/home/ada/.local/share/patch_hub/bookmarked_patchsets.json"
    );
    assert_eq!(config.mailing_lists_path(), "/home/ada/.local/share/patch_hub/mailing_lists.json");
    assert_eq!(
        config.reviewed_patchsets_path(),
        "/home/ada/.local/share/patch_hub/reviewed_patchsets.json"
    );
    assert_eq!(config.logs_path(), "/home/ada/.local/share/patch_hub/logs");
    assert_eq!(config.git_send_email_options(), "--dry-run --suppress-cc=all");
    assert_eq!(config.cache_dir(), "/home/ada/.cache/patch_hub");
    assert_eq!(config.data_dir(), "/home/ada/.local/share/patch_hub");
    assert_eq!(*config.max_log_age(), 0);
}

#[test]
fn built_in_configuration_follows_the_home_directory() {
    let config = Config::default("/home/ada");
    assert_eq!(config.page_size(), 30);
    assert_built_in_paths(&config);
}

#[test]
fn page_size_override_of_10_changes_the_page_size_only() {
    let config = Config::build("/home/ada", None, page_size_only("10").unwrap());
    assert_eq!(config.page_size(), 10);
    assert_built_in_paths(&config);
}

#[test]
fn no_file_and_no_override_gives_the_built_in_configuration() {
    let config = Config::build("/home/ada", None, EnvOverrides::none());
    assert_eq!(config.page_size(), 30);
    assert_built_in_paths(&config);
}

#[test]
fn page_size_text_is_an_unsigned_decimal_number() {
    assert_eq!(page_size_only("10").unwrap().page_size, Some(10));
    assert_eq!(page_size_only("+10").unwrap().page_size, Some(10));
    assert_eq!(page_size_only("0").unwrap().page_size, Some(0));
    assert_eq!(page_size_only("007").unwrap().page_size, Some(7));
    assert_eq!(
        page_size_only(&usize::MAX.to_string()).unwrap().page_size,
        Some(usize::MAX)
    );
    for text in ["", "+", "-1", "-0", " 10", "10 ", "1_0", "ten", "1.5", "++1", "٣"] {
        assert!(page_size_only(text).is_none(), "{text:?}");
    }
    assert!(page_size_only(&format!("{}0", usize::MAX)).is_none());
    assert!(page_size_only("340282366920938463463374607431768211456").is_none());
}

#[test]
fn overrides_without_a_page_size_are_taken_as_they_are() {
    let overrides = EnvOverrides::from_texts(
        None,
        Some("/c".to_string()),
        Some("/d".to_string()),
        Some("--opt".to_string()),
    )
    .unwrap();
    assert_eq!(overrides.page_size, None);
    assert_eq!(overrides.cache_dir.as_deref(), Some("/c"));
    assert_eq!(overrides.data_dir.as_deref(), Some("/d"));
    assert_eq!(overrides.git_send_email_options.as_deref(), Some("--opt"));
}

#[test]
fn setting_the_cache_directory_sets_the_paths_under_it() {
    let mut config = Config::default("/home/ada");
    config.set_cache_dir("/tmp/cache".to_string());
    assert_eq!(config.cache_dir(), "/tmp/cache");
    assert_eq!(config.patchsets_cache_dir(), "/tmp/cache/patchsets");
    assert_eq!(config.data_dir(), "/home/ada/.local/share/patch_hub");
    assert_eq!(config.logs_path(), "/home/ada/.local/share/patch_hub/logs");
}

#[test]
fn setting_the_data_directory_sets_the_paths_under_it() {
    let mut config = Config::default("/home/ada");
    config.set_data_dir("/srv/data".to_string());
    assert_eq!(config.data_dir(), "/srv/data");
    assert_eq!(config.bookmarked_patchsets_path(), "/srv/data/bookmarked_patchsets.json");
    assert_eq!(config.mailing_lists_path(), "/srv/data/mailing_lists.json");
    assert_eq!(config.reviewed_patchsets_path(), "/srv/data/reviewed_patchsets.json");
    assert_eq!(config.logs_path(), "/srv/data/logs");
    assert_eq!(config.cache_dir(), "/home/ada/.cache/patch_hub");
    assert_eq!(config.patchsets_cache_dir(), "/home/ada/.cache/patch_hub/patchsets");
}

#[test]
fn plain_setters_change_one_value() {
    let mut config = Config::default("/home/ada");
    config.set_page_size(5);
    config.set_git_send_email_option("--smtp-server=localhost".to_string());
    assert_eq!(config.page_size(), 5);
    assert_eq!(config.git_send_email_options(), "--smtp-server=localhost");
    assert_eq!(config.cache_dir(), "/home/ada/.cache/patch_hub");
    assert_eq!(config.data_dir(), "/home/ada/.local/share/patch_hub");
}

fn from_file() -> Config {
    Config::from_parts(
        7,
        "--from-file".to_string(),
        "/f/cache".to_string(),
        "/f/data".to_string(),
        14,
    )
}

fn assert_paths_follow_bases(config: &Config) {
    assert_eq!(*config.patchsets_cache_dir(), format!("{}/patchsets", config.cache_dir()));
    assert_eq!(
        *config.bookmarked_patchsets_path(),
        format!("{}/bookmarked_patchsets.json", config.data_dir())
    );
    assert_eq!(
        *config.mailing_lists_path(),
        format!("{}/mailing_lists.json", config.data_dir())
    );
    assert_eq!(
        *config.reviewed_patchsets_path(),
        format!("{}/reviewed_patchsets.json", config.data_dir())
    );
    assert_eq!(*config.logs_path(), format!("{}/logs", config.data_dir()));
}

#[test]
fn configuration_from_parts_sets_the_paths_from_the_base_directories() {
    let config = from_file();
    assert_eq!(config.page_size(), 7);
    assert_eq!(config.git_send_email_options(), "--from-file");
    assert_eq!(config.cache_dir(), "/f/cache");
    assert_eq!(config.data_dir(), "/f/data");
    assert_eq!(*config.max_log_age(), 14);
    assert_eq!(config.patchsets_cache_dir(), "/f/cache/patchsets");
    assert_eq!(config.bookmarked_patchsets_path(), "/f/data/bookmarked_patchsets.json");
    assert_eq!(config.mailing_lists_path(), "/f/data/mailing_lists.json");
    assert_eq!(config.reviewed_patchsets_path(), "/f/data/reviewed_patchsets.json");
    assert_eq!(config.logs_path(), "/f/data/logs");
}

#[test]
fn every_resolved_configuration_has_paths_that_follow_their_bases() {
    let cache_only = || EnvOverrides::from_texts(None, Some("/e/c".to_string()), None, None);
    let data_only = || EnvOverrides::from_texts(None, None, Some("/e/d".to_string()), None);
    let home = "/home/ada";
    assert_paths_follow_bases(&Config::build(home, None, EnvOverrides::none()));
    assert_paths_follow_bases(&Config::build(home, Some(from_file()), EnvOverrides::none()));
    assert_paths_follow_bases(&Config::build(home, Some(from_file()), cache_only().unwrap()));
    assert_paths_follow_bases(&Config::build(home, Some(from_file()), data_only().unwrap()));
    assert_paths_follow_bases(&Config::build(home, None, cache_only().unwrap()));
    assert_paths_follow_bases(&Config::build(home, None, data_only().unwrap()));
}

#[test]
fn configuration_file_takes_the_place_of_the_built_in_values() {
    let config = Config::build("/home/ada", Some(from_file()), EnvOverrides::none());
    assert_eq!(config.page_size(), 7);
    assert_eq!(config.patchsets_cache_dir(), "/f/cache/patchsets");
    assert_eq!(config.bookmarked_patchsets_path(), "/f/data/bookmarked_patchsets.json");
    assert_eq!(config.mailing_lists_path(), "/f/data/mailing_lists.json");
    assert_eq!(config.reviewed_patchsets_path(), "/f/data/reviewed_patchsets.json");
    assert_eq!(config.logs_path(), "/f/data/logs");
    assert_eq!(config.git_send_email_options(), "--from-file");
    assert_eq!(config.cache_dir(), "/f/cache");
    assert_eq!(config.data_dir(), "/f/data");
    assert_eq!(*config.max_log_age(), 14);
}

#[test]
fn environment_overrides_the_configuration_file() {
    let overrides = EnvOverrides::from_texts(
        Some("50".to_string()),
        Some("/e/cache".to_string()),
        Some("/e/data".to_string()),
        Some("--from-env".to_string()),
    )
    .unwrap();
    let config = Config::build("/home/ada", Some(from_file()), overrides);
    assert_eq!(config.page_size(), 50);
    assert_eq!(config.cache_dir(), "/e/cache");
    assert_eq!(config.patchsets_cache_dir(), "/e/cache/patchsets");
    assert_eq!(config.data_dir(), "/e/data");
    assert_eq!(config.bookmarked_patchsets_path(), "/e/data/bookmarked_patchsets.json");
    assert_eq!(config.mailing_lists_path(), "/e/data/mailing_lists.json");
    assert_eq!(config.reviewed_patchsets_path(), "/e/data/reviewed_patchsets.json");
    assert_eq!(config.logs_path(), "/e/data/logs");
    assert_eq!(config.git_send_email_options(), "--from-env");
    assert_eq!(*config.max_log_age(), 14);
}

#[test]
fn override_with_env_vars_leaves_the_rest_alone() {
    let mut config = from_file();
    config.override_with_env_vars(
        EnvOverrides::from_texts(None, None, Some("/e/data".to_string()), None).unwrap(),
    );
    assert_eq!(config.page_size(), 7);
    assert_eq!(config.cache_dir(), "/f/cache");
    assert_eq!(config.patchsets_cache_dir(), "/f/cache/patchsets");
    assert_eq!(config.data_dir(), "/e/data");
    assert_eq!(config.logs_path(), "/e/data/logs");
    assert_eq!(config.git_send_email_options(), "--from-file");
}

#[test]
fn configuration_file_is_looked_for_at_the_named_place_first() {
    assert_eq!(
        Config::config_file_candidates("/home/ada", Some("/etc/ph.json".to_string())),
        vec!["/etc/ph.json", "/home/ada/.local/share/patch_hub/config.json"]
    );
    assert_eq!(
        Config::config_file_candidates("/home/ada", None),
        vec!["/home/ada/.local/share/patch_hub/config.json"]
    );
}

#[test]
fn saving_goes_through_a_temporary_file_beside_the_destination() {
    let paths = save_paths("/home/ada", None);
    assert_eq!(paths.destination, "/home/ada/.local/share/patch_hub/config.json");
    assert_eq!(paths.temporary, "/home/ada/.local/share/patch_hub/config.json.tmp");
    let paths = save_paths("/home/ada", Some("/etc/ph.json".to_string()));
    assert_eq!(paths.destination, "/etc/ph.json");
    assert_eq!(paths.temporary, "/etc/ph.json.tmp");
    assert_ne!(paths.temporary, paths.destination);
}

#[test]
fn directories_are_the_two_bases_and_what_lies_under_them() {
    let config = Config::default("/home/ada");
    assert_eq!(
        config.directories(),
        vec![
            "/home/ada/.cache/patch_hub",
            "/home/ada/.local/share/patch_hub",
            "/home/ada/.cache/patch_hub/patchsets",
            "/home/ada/.local/share/patch_hub/logs",
        ]
    );
}
