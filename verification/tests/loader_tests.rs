use config_bootstrap::{
    create_config, ensure_file_content, needs_provisioning, read_specific_config,
    read_specific_css, Conf, Config, LoadError, OptConf,
};

#[test]
fn test_config() {
    let conf = create_config::<Conf, OptConf>(None, "something = 10").unwrap();
    assert_eq!(conf.something, 10);
    assert_eq!(conf.what, String::from("pingpang"));
}

#[test]
fn test_css() {
    let css_content = ".something {
            color: red;
        }";
    let read_css = ensure_file_content(None, css_content);
    assert_eq!(css_content, read_css);
}

#[test]
fn test_custom_css() {
    let content = ".class { color: red }";
    let read_content =
        read_specific_css(Some(content.to_string())).expect("Could not read css file.");
    assert_eq!(content, &read_content);
}

#[test]
fn test_custom_config() {
    let content = "something = 10";
    let read_config = read_specific_config::<Conf, OptConf>(Some(content.to_string()))
        .expect("Could not deserialize toml.");
    assert_eq!(read_config.something, 10);
    assert_eq!(read_config.what, "pingpang");
}

#[test]
fn merge_is_total_on_the_all_absent_partial() {
    let conf = Conf::create_from_optional(OptConf {
        something: None,
        what: None,
    });
    assert_eq!(conf.something, 0);
    assert_eq!(conf.what, "pingpang");
}

#[test]
fn merge_keeps_present_fields_verbatim() {
    let conf = Conf::create_from_optional(OptConf {
        something: Some(7),
        what: Some("mono".to_string()),
    });
    assert_eq!(conf.something, 7);
    assert_eq!(conf.what, "mono");
}

#[test]
fn first_run_provisions_the_default() {
    assert!(needs_provisioning(&None));
    let written = ensure_file_content(None, "something = 10");
    assert_eq!(written, "something = 10");
    let conf = create_config::<Conf, OptConf>(None, "something = 10").unwrap();
    assert_eq!(conf.something, 10);
    assert_eq!(conf.what, "pingpang");
}

#[test]
fn existing_content_wins_over_the_default() {
    let on_disk = "something = 42";
    assert!(!needs_provisioning(&Some(on_disk.to_string())));
    let a = create_config::<Conf, OptConf>(Some(on_disk.to_string()), "something = 10").unwrap();
    assert_eq!(a.something, 42);
    let b = create_config::<Conf, OptConf>(Some(on_disk.to_string()), "what = \"zz\"").unwrap();
    assert_eq!(b.something, 42);
    assert_eq!(b.what, "pingpang");
}

#[test]
fn malformed_content_falls_back_to_the_default() {
    let bad = "not [[ valid toml";
    let with_bad = create_config::<Conf, OptConf>(Some(bad.to_string()), "something = 7").unwrap();
    let with_default =
        create_config::<Conf, OptConf>(Some("something = 7".to_string()), "something = 7").unwrap();
    assert_eq!(with_bad.something, with_default.something);
    assert_eq!(with_bad.what, with_default.what);
    assert_eq!(with_bad.something, 7);
    // the malformed file is not rewritten: it is non-empty
    assert!(!needs_provisioning(&Some(bad.to_string())));
}

#[test]
fn repeated_calls_are_idempotent() {
    let default = "something = 10";
    let first = create_config::<Conf, OptConf>(None, default).unwrap();
    // the first call provisioned the file with the default text
    let after_first = ensure_file_content(None, default);
    assert!(!needs_provisioning(&Some(after_first.clone())));
    let second = create_config::<Conf, OptConf>(Some(after_first.clone()), default).unwrap();
    assert_eq!(first.something, second.something);
    assert_eq!(first.what, second.what);
    assert_eq!(ensure_file_content(Some(after_first.clone()), default), after_first);
}

#[test]
fn explicit_read_of_a_missing_file_fails() {
    let r = read_specific_css(None);
    let e = r.unwrap_err();
    assert_eq!(e.message(), "Error on reading File.");
    assert!(read_specific_config::<Conf, OptConf>(None).is_err());
}

#[test]
fn asset_provisioning_respects_existing_content() {
    // first call: the file is missing, the exact content is written
    assert!(needs_provisioning(&None));
    assert_eq!(ensure_file_content(None, ".x{color:red}"), ".x{color:red}");
    // later call with a different default: the file is left alone
    let on_disk = Some(".x{color:red}".to_string());
    assert!(!needs_provisioning(&on_disk));
    assert_eq!(ensure_file_content(on_disk, ".y{color:blue}"), ".x{color:red}");
}

#[test]
fn malformed_default_is_a_load_error() {
    let r = create_config::<Conf, OptConf>(Some("bad [[".to_string()), "also bad [[");
    assert!(matches!(r, Err(LoadError::MalformedDefault)));
}

#[test]
fn wrong_field_type_rejects_the_whole_text() {
    let conf =
        create_config::<Conf, OptConf>(Some("something = \"text\"".to_string()), "something = 5")
            .unwrap();
    assert_eq!(conf.something, 5);
}

#[test]
fn out_of_range_integer_rejects_the_whole_text() {
    let conf =
        create_config::<Conf, OptConf>(Some("something = 4294967296".to_string()), "something = 5")
            .unwrap();
    assert_eq!(conf.something, 5);
    let neg = create_config::<Conf, OptConf>(Some("something = -1".to_string()), "something = 5")
        .unwrap();
    assert_eq!(neg.something, 5);
}

#[test]
fn unknown_fields_are_ignored() {
    let text = "other = true\nsomething = 3";
    let conf = create_config::<Conf, OptConf>(Some(text.to_string()), "something = 5").unwrap();
    assert_eq!(conf.something, 3);
    assert_eq!(conf.what, "pingpang");
}

#[test]
fn a_table_under_a_known_key_is_a_mismatch() {
    let text = "[what]\nx = 1";
    let conf = create_config::<Conf, OptConf>(Some(text.to_string()), "what = \"w\"").unwrap();
    assert_eq!(conf.what, "w");
}

#[test]
fn present_text_field_is_kept() {
    let conf =
        create_config::<Conf, OptConf>(Some("what = \"hello\"".to_string()), "").unwrap();
    assert_eq!(conf.what, "hello");
    assert_eq!(conf.something, 0);
}

#[test]
fn empty_content_is_treated_as_the_default() {
    assert!(needs_provisioning(&Some(String::new())));
    let conf =
        create_config::<Conf, OptConf>(Some(String::new()), "something = 9").unwrap();
    assert_eq!(conf.something, 9);
}

#[test]
fn specific_read_of_malformed_text_degrades_to_type_defaults() {
    let conf = read_specific_config::<Conf, OptConf>(Some("bad [[".to_string())).unwrap();
    assert_eq!(conf.something, 0);
    assert_eq!(conf.what, "pingpang");
}

#[test]
fn unknown_fields_of_any_value_kind_are_ignored() {
    let text = "when = 1979-05-27\nlist = [1, 2]\nnum = 1.5\nflag = false\nsomething = 4";
    let conf = create_config::<Conf, OptConf>(Some(text.to_string()), "something = 9").unwrap();
    assert_eq!(conf.something, 4);
    assert_eq!(conf.what, "pingpang");
}

#[test]
fn duplicate_keys_are_a_syntax_error_and_fall_back() {
    let text = "something = 1\nsomething = 2";
    let conf = create_config::<Conf, OptConf>(Some(text.to_string()), "something = 9").unwrap();
    assert_eq!(conf.something, 9);
}
