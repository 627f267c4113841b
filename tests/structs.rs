use lsplus::structs::Params;

#[test]
fn test_default_params() {
    let params = Params::default();
    assert!(!params.show_all);
    assert!(!params.append_slash);
    assert!(!params.dirs_first);
    assert!(!params.almost_all);
    assert!(!params.long_format);
    assert!(!params.human_readable);
    assert!(!params.no_icons);
    assert!(!params.fuzzy_time);
    assert!(!params.shorten_names);
}

#[test]
fn test_config_conversion() {
    let config_content = r#"
        show_all = true
        append_slash = true
        dirs_first = true
        long_format = true
        human_readable = true
    "#;

    let config = config::Config::builder()
        .add_source(config::File::from_str(config_content, config::FileFormat::Toml))
        .build()
        .unwrap();

    let params = Params::from_config(&config);

    assert!(params.show_all);
    assert!(params.append_slash);
    assert!(params.dirs_first);
    assert!(params.long_format);
    assert!(params.human_readable);
    assert!(!params.almost_all);
    assert!(!params.no_icons);
}

#[test]
fn settings_set_named_options() {
    let found = vec![None, Some(true), None, Some(false), None, None, Some(true)];
    let params = Params::from_settings(&found);
    assert_eq!(params, Params { append_slash: true, no_icons: true, ..Default::default() });

    let mixed = config::Config::builder()
        .add_source(config::File::from_str("fuzzy_time = true\nshorten_names = false", config::FileFormat::Toml))
        .build()
        .unwrap();
    let params = Params::from_config(&mixed);
    assert!(params.fuzzy_time);
    assert!(!params.shorten_names);
}

#[test]
fn settings_set_one_by_one() {
    let params = Params::default()
        .with_setting("show_all", true)
        .with_setting("append_slash", true)
        .with_setting("dirs_first", true)
        .with_setting("long_format", true)
        .with_setting("human_readable", true);

    assert!(params.show_all);
    assert!(params.append_slash);
    assert!(params.dirs_first);
    assert!(params.long_format);
    assert!(params.human_readable);
    assert!(!params.almost_all);
}

#[test]
fn unknown_settings_change_nothing() {
    let params = Params::default().with_setting("colour", true).with_setting("show_all", false);
    assert_eq!(params, Params::default());
    let params = Params::default().with_setting("shorten_names", true).with_setting("no_icons", true);
    assert!(params.shorten_names && params.no_icons);
}
