use clipboard_cleaner::config::{
    CharacterFilter, CharacterRange, Config, Transformation, TransformationAction,
    TransformationProfile, WrappedFilter,
};
use clipboard_cleaner::loader::{ConfigurationLoader, ConfigurationLoaderBuilder};
use clipboard_cleaner::targets::select_default_target;
use clipboard_cleaner::text_transformation::{
    TransformationProfileInfo, compile_profiles, select_profile,
};

fn sample_config() -> Config {
    let profile_a = TransformationProfile {
        name: "a".to_string(),
        display_name: Some("Profile A".to_string()),
        description: None,
        transformations: Vec::new(),
    };
    let profile_b = TransformationProfile {
        name: "b".to_string(),
        display_name: None,
        description: Some("second".to_string()),
        transformations: vec![Transformation::new(
            vec![WrappedFilter::Reference("digits".to_string())],
            TransformationAction::Remove,
        )],
    };
    Config::new(
        vec![(
            "digits".to_string(),
            CharacterFilter::new(vec![CharacterRange::for_range(0x30, 0x39)]),
        )],
        vec![profile_a, profile_b],
        Some("b".to_string()),
        Some("a".to_string()),
    )
}

#[test]
fn default_profile_is_looked_up_by_name() {
    let config = sample_config();
    let p = config.default_profile().unwrap();
    assert_eq!(p.name(), "b");
    assert_eq!(config.default_profile_name().as_deref(), Some("b"));
}

#[test]
fn gui_replacement_profile_is_looked_up_by_name() {
    let config = sample_config();
    let p = config.gui_replacement_profile().unwrap();
    assert_eq!(p.name(), "a");
    assert_eq!(p.display_name().as_deref(), Some("Profile A"));
    assert_eq!(config.gui_replacement_profile_name().as_deref(), Some("a"));
}

#[test]
fn absent_profile_names_yield_none() {
    let mut config = sample_config();
    config.default_profile = Some("missing".to_string());
    assert!(config.default_profile().is_none());
    config.default_profile = None;
    assert!(config.default_profile().is_none());
}

#[test]
fn filter_reference_resolution() {
    let config = sample_config();
    let by_ref = WrappedFilter::Reference("digits".to_string());
    let resolved = by_ref.character_filter(&config).unwrap();
    assert_eq!(resolved.ranges().len(), 1);
    let missing = WrappedFilter::Reference("letters".to_string());
    assert!(missing.character_filter(&config).is_none());
    let inline = WrappedFilter::Value(CharacterFilter::new(vec![CharacterRange::for_single(7)]));
    let resolved = inline.character_filter(&config).unwrap();
    assert_eq!(resolved.ranges()[0].single(), Some(7));
}

#[test]
fn config_accessors() {
    let config = sample_config();
    assert_eq!(config.filters().len(), 1);
    assert_eq!(config.filters()[0].0, "digits");
    assert_eq!(config.profiles().len(), 2);
    assert_eq!(config.profiles()[1].description().as_deref(), Some("second"));
    assert_eq!(config.profiles()[1].transformations().len(), 1);
    assert!(matches!(
        config.profiles()[1].transformations()[0].action(),
        TransformationAction::Remove
    ));
    assert_eq!(config.profiles()[1].transformations()[0].filters().len(), 1);
}

#[test]
fn default_suffixes_in_order() {
    let sfx = ConfigurationLoader::default_file_suffixes();
    assert_eq!(sfx, vec![".yaml", ".json", ".toml", ".properties"]);
}

#[test]
fn system_config_paths_use_name_forms() {
    let paths = ConfigurationLoader::system_config_paths("ClipboardCleaner");
    assert_eq!(
        paths,
        vec![
            "/etc/ClipboardCleaner",
            "/etc/clipboardcleaner",
            "/etc/clipboard-cleaner",
            "/etc/clipboard_cleaner",
        ]
    );
}

#[test]
fn builder_initializes_loader() {
    let mut builder = ConfigurationLoaderBuilder::new("net.example", "Example Ltd.", "app");
    let loader = builder.build();
    assert_eq!(loader.qualifier, "net.example");
    assert_eq!(loader.organization, "Example Ltd.");
    assert_eq!(loader.application, "app");
    assert_eq!(loader.base_name, "config");
    assert_eq!(loader.search_paths, vec!["/etc/app"; 4]);
    assert_eq!(loader.file_suffixes.len(), 4);
}

#[test]
fn builder_setters_replace_fields() {
    let mut builder = ConfigurationLoaderBuilder::new("q", "o", "app");
    builder.base_name("cleaner");
    builder.search_paths(vec!["a".to_string(), "b".to_string()]);
    builder.file_suffixes(vec![".yaml".to_string(), ".toml".to_string()]);
    let loader = builder.build();
    assert_eq!(loader.base_name, "cleaner");
    assert_eq!(loader.search_paths, vec!["a", "b"]);
    assert_eq!(loader.file_suffixes, vec![".yaml", ".toml"]);
}

#[test]
fn profile_info_pairs_descriptor_and_pipeline() {
    let config = sample_config();
    let profile = config.default_profile().unwrap();
    let info = TransformationProfileInfo::new(&config, &profile).unwrap();
    assert_eq!(info.name(), "b");
    assert_eq!(info.profile, profile);
    assert_eq!(info.transformation.execute("a1b2c3"), "abc");
}

#[test]
fn compile_profiles_builds_every_profile() {
    let config = sample_config();
    let infos = compile_profiles(&config).unwrap();
    assert_eq!(infos.len(), 2);
    assert_eq!(infos[0].name(), "a");
    assert_eq!(infos[1].name(), "b");
    let selected = select_profile(&infos, "b").unwrap();
    assert_eq!(selected.transformation.execute("year 2024"), "year ");
    assert!(select_profile(&infos, "c").is_none());
}

#[test]
fn default_target_prefers_utf8_string() {
    let names = vec![
        "TEXT".to_string(),
        "STRING".to_string(),
        "UTF8_STRING".to_string(),
        "STRING".to_string(),
    ];
    assert_eq!(select_default_target(&names), Some(2));
}

#[test]
fn default_target_falls_back_to_last_string_then_text() {
    let names = vec![
        "TEXT".to_string(),
        "STRING".to_string(),
        "text/html".to_string(),
        "STRING".to_string(),
    ];
    assert_eq!(select_default_target(&names), Some(3));
    let names = vec!["text/html".to_string(), "TEXT".to_string()];
    assert_eq!(select_default_target(&names), Some(1));
    let names = vec!["text/html".to_string(), "TIMESTAMP".to_string()];
    assert_eq!(select_default_target(&names), None);
    assert_eq!(select_default_target(&Vec::new()), None);
}

#[test]
fn candidate_files_walk_paths_in_reverse() {
    let mut builder = ConfigurationLoaderBuilder::new("q", "o", "app");
    builder.base_name("cfg");
    builder.search_paths(vec!["first".to_string(), "second".to_string()]);
    builder.file_suffixes(vec![".yaml".to_string(), ".toml".to_string()]);
    let loader = builder.build();
    let candidates = loader.candidate_files();
    assert_eq!(
        candidates,
        vec![
            ("second/cfg.yaml".to_string(), ".yaml".to_string()),
            ("second/cfg.toml".to_string(), ".toml".to_string()),
            ("first/cfg.yaml".to_string(), ".yaml".to_string()),
            ("first/cfg.toml".to_string(), ".toml".to_string()),
        ]
    );
}
