use size_of_const_macro::error::Error;
use size_of_const_macro::overrides::{parse_overrides, ArgumentValue, ConfigOverride, RawArgument};
use size_of_const_macro::visibility::{Scope, Visibility};

fn flag(word: &str) -> RawArgument {
    RawArgument::Flag(word.to_string())
}

fn text(key: &str, value: &str) -> RawArgument {
    RawArgument::KeyValue(key.to_string(), ArgumentValue::Text(value.to_string()))
}

fn other(key: &str) -> RawArgument {
    RawArgument::KeyValue(key.to_string(), ArgumentValue::Other)
}

fn defaults() -> ConfigOverride {
    ConfigOverride { explicit_name: None, explicit_visibility: None, force_private: false }
}

fn configuration_error(message: &str) -> Error {
    Error::ConfigurationError(message.to_string())
}

#[test]
fn no_arguments_give_the_defaults() {
    assert_eq!(parse_overrides(&vec![]), Ok(defaults()));
    assert_eq!(ConfigOverride::new(), defaults());
    assert_eq!(ConfigOverride::default(), defaults());
}

#[test]
fn the_flag_private_forces_private() {
    assert_eq!(
        parse_overrides(&vec![flag("private")]),
        Ok(ConfigOverride { force_private: true, ..defaults() })
    );
}

#[test]
fn name_and_visibility_are_taken_over() {
    assert_eq!(
        parse_overrides(&vec![text("name", "SIZE_OF_X"), text("visibility", "pub")]),
        Ok(ConfigOverride {
            explicit_name: Some("SIZE_OF_X".to_string()),
            explicit_visibility: Some(Visibility::Public),
            force_private: false,
        })
    );
}

#[test]
fn an_unreadable_visibility_is_a_configuration_error() {
    assert_eq!(
        parse_overrides(&vec![text("visibility", "not_a_real_visibility")]),
        Err(configuration_error("size_of_const failed to parse visibility"))
    );
}

#[test]
fn a_scope_that_is_no_module_path_is_a_configuration_error() {
    assert!(matches!(
        parse_overrides(&vec![text("visibility", "pub(shapes)")]),
        Err(Error::ConfigurationError(_))
    ));
    assert!(matches!(
        parse_overrides(&vec![text("visibility", "pub pub")]),
        Err(Error::ConfigurationError(_))
    ));
    assert!(matches!(
        parse_overrides(&vec![text("visibility", "\"")]),
        Err(Error::ConfigurationError(_))
    ));
}

#[test]
fn an_empty_visibility_is_private() {
    assert_eq!(
        parse_overrides(&vec![text("visibility", "")]),
        Ok(ConfigOverride { explicit_visibility: Some(Visibility::Private), ..defaults() })
    );
}

#[test]
fn a_restricted_visibility_keeps_its_scope() {
    assert_eq!(
        parse_overrides(&vec![text("visibility", "pub(crate)")]),
        Ok(ConfigOverride {
            explicit_visibility: Some(Visibility::Restricted(Scope {
                in_keyword: false,
                leading_colon: false,
                segments: vec!["crate".to_string()],
            })),
            ..defaults()
        })
    );
    assert_eq!(
        parse_overrides(&vec![text("visibility", "pub(in crate::shapes)")]),
        Ok(ConfigOverride {
            explicit_visibility: Some(Visibility::Restricted(Scope {
                in_keyword: true,
                leading_colon: false,
                segments: vec!["crate".to_string(), "shapes".to_string()],
            })),
            ..defaults()
        })
    );
    assert_eq!(
        parse_overrides(&vec![text("visibility", "pub(in ::shapes)")]),
        Ok(ConfigOverride {
            explicit_visibility: Some(Visibility::Restricted(Scope {
                in_keyword: true,
                leading_colon: true,
                segments: vec!["shapes".to_string()],
            })),
            ..defaults()
        })
    );
}

#[test]
fn unknown_flags_and_keys_are_passed_over() {
    assert_eq!(
        parse_overrides(&vec![flag("public"), text("align", "8"), other("doc")]),
        Ok(defaults())
    );
    assert_eq!(
        parse_overrides(&vec![flag("Private"), text("Name", "X"), flag("private")]),
        Ok(ConfigOverride { force_private: true, ..defaults() })
    );
}

#[test]
fn a_name_that_is_no_text_is_a_configuration_error() {
    assert_eq!(
        parse_overrides(&vec![other("name")]),
        Err(configuration_error("size_of_const values must be a str literal"))
    );
}

#[test]
fn a_visibility_that_is_no_text_is_a_configuration_error() {
    assert_eq!(
        parse_overrides(&vec![other("visibility")]),
        Err(configuration_error("size_of_const values must be a str literal"))
    );
}

#[test]
fn a_list_is_a_configuration_error() {
    assert_eq!(
        parse_overrides(&vec![RawArgument::List]),
        Err(configuration_error("size_of_const malformed attribute arguments"))
    );
    assert_eq!(
        parse_overrides(&vec![flag("private"), RawArgument::List]),
        Err(configuration_error("size_of_const malformed attribute arguments"))
    );
}

#[test]
fn the_first_failure_decides_the_error() {
    assert_eq!(
        parse_overrides(&vec![other("name"), RawArgument::List]),
        Err(configuration_error("size_of_const values must be a str literal"))
    );
    assert_eq!(
        parse_overrides(&vec![RawArgument::List, other("name")]),
        Err(configuration_error("size_of_const malformed attribute arguments"))
    );
    assert_eq!(
        parse_overrides(&vec![text("visibility", "pub("), other("name")]),
        Err(configuration_error("size_of_const failed to parse visibility"))
    );
}

#[test]
fn a_later_argument_replaces_an_earlier_one() {
    assert_eq!(
        parse_overrides(&vec![text("name", "A"), text("name", "B")]),
        Ok(ConfigOverride { explicit_name: Some("B".to_string()), ..defaults() })
    );
    assert_eq!(
        parse_overrides(&vec![text("visibility", "pub"), text("visibility", "pub(super)")]),
        Ok(ConfigOverride {
            explicit_visibility: Some(Visibility::Restricted(Scope {
                in_keyword: false,
                leading_colon: false,
                segments: vec!["super".to_string()],
            })),
            ..defaults()
        })
    );
}

#[test]
fn private_and_visibility_are_kept_side_by_side() {
    let expected = ConfigOverride {
        explicit_name: None,
        explicit_visibility: Some(Visibility::Public),
        force_private: true,
    };
    assert_eq!(
        parse_overrides(&vec![text("visibility", "pub"), flag("private")]).as_ref(),
        Ok(&expected)
    );
    assert_eq!(parse_overrides(&vec![flag("private"), text("visibility", "pub")]), Ok(expected));
}

#[test]
fn an_argument_is_applied_to_what_was_read_before() {
    let read = ConfigOverride { explicit_name: Some("A".to_string()), ..defaults() };
    assert_eq!(
        read.apply(&flag("private")),
        Ok(ConfigOverride {
            explicit_name: Some("A".to_string()),
            explicit_visibility: None,
            force_private: true,
        })
    );
    assert_eq!(
        defaults().apply(&RawArgument::List),
        Err(configuration_error("size_of_const malformed attribute arguments"))
    );
}

#[test]
fn a_visibility_that_was_read_becomes_the_explicit_one() {
    let read = ConfigOverride { force_private: true, ..defaults() };
    assert_eq!(
        read.set_visibility(Some(Visibility::Public)),
        Ok(ConfigOverride {
            explicit_name: None,
            explicit_visibility: Some(Visibility::Public),
            force_private: true,
        })
    );
    assert_eq!(
        defaults().set_visibility(None),
        Err(configuration_error("size_of_const failed to parse visibility"))
    );
}
