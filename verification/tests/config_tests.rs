use axon_features::config::{
    default_feature_config_version, parse_feature_config, ConfigError, ConfigField,
};

#[test]
fn ok_on_read_valid_config() {
    let text = r#"{
        "name": "valid-config",
        "version": 1,
        "expression": "expression",
        "metadata": {
            "_reserved": "1",
            "simple": "property",
            "namespaced:property": "value"
        }
    }"#;
    let config = parse_feature_config(text).expect("Invalid config");
    assert_eq!(config.config_version, 1);
    assert_eq!(config.name, "valid-config");
    assert_eq!(config.version, 1);
    assert_eq!(config.expression, "expression");
    assert_eq!(
        config.metadata,
        vec![
            (String::from("_reserved"), String::from("1")),
            (String::from("namespaced:property"), String::from("value")),
            (String::from("simple"), String::from("property")),
        ]
    );
}

#[test]
fn err_on_read_invalid_config() {
    let text = r#"{ "version": 1 }"#;
    assert!(parse_feature_config(text).is_err_and(|e| e.message().starts_with("missing field")));
}

#[test]
fn default_version_is_one() {
    assert_eq!(default_feature_config_version(), 1);
}

#[test]
fn explicit_config_version_is_kept() {
    let text = r#"{
        "configVersion": 3,
        "name": "n",
        "version": 2,
        "expression": "e",
        "metadata": {}
    }"#;
    let config = parse_feature_config(text).unwrap();
    assert_eq!(config.config_version, 3);
    assert_eq!(config.version, 2);
    assert!(config.metadata.is_empty());
}

#[test]
fn err_on_text_that_is_not_json() {
    let r = parse_feature_config("not json at all");
    assert_eq!(r, Err(ConfigError::Malformed));
    assert_eq!(
        ConfigError::Malformed.message(),
        "malformed feature definition"
    );
}

#[test]
fn err_names_the_missing_field() {
    let missing_name = parse_feature_config(r#"{}"#);
    assert_eq!(missing_name, Err(ConfigError::MissingField(ConfigField::Name)));
    assert_eq!(missing_name.unwrap_err().message(), "missing field `name`");

    let missing_version = parse_feature_config(r#"{ "name": "n" }"#);
    assert_eq!(missing_version, Err(ConfigError::MissingField(ConfigField::Version)));
    assert_eq!(missing_version.unwrap_err().message(), "missing field `version`");

    let missing_expression = parse_feature_config(r#"{ "name": "n", "version": 1 }"#);
    assert_eq!(
        missing_expression,
        Err(ConfigError::MissingField(ConfigField::Expression))
    );

    let missing_metadata = parse_feature_config(r#"{ "name": "n", "version": 1, "expression": "e" }"#);
    assert_eq!(
        missing_metadata,
        Err(ConfigError::MissingField(ConfigField::Metadata))
    );
}

#[test]
fn err_on_version_out_of_range() {
    let text = r#"{ "name": "n", "version": 300, "expression": "e", "metadata": {} }"#;
    let r = parse_feature_config(text);
    assert_eq!(r, Err(ConfigError::InvalidField(ConfigField::Version)));
    assert_eq!(r.unwrap_err().message(), "invalid field `version`");
}

#[test]
fn err_on_wrongly_typed_fields() {
    let name_not_text = r#"{ "name": 5, "version": 1, "expression": "e", "metadata": {} }"#;
    assert_eq!(
        parse_feature_config(name_not_text),
        Err(ConfigError::InvalidField(ConfigField::Name))
    );

    let version_not_number = r#"{ "name": "n", "version": "x", "expression": "e", "metadata": {} }"#;
    assert_eq!(
        parse_feature_config(version_not_number),
        Err(ConfigError::InvalidField(ConfigField::Version))
    );

    let metadata_not_object = r#"{ "name": "n", "version": 1, "expression": "e", "metadata": [] }"#;
    assert_eq!(
        parse_feature_config(metadata_not_object),
        Err(ConfigError::InvalidField(ConfigField::Metadata))
    );

    let metadata_value_not_text =
        r#"{ "name": "n", "version": 1, "expression": "e", "metadata": { "k": 1 } }"#;
    assert_eq!(
        parse_feature_config(metadata_value_not_text),
        Err(ConfigError::InvalidField(ConfigField::Metadata))
    );

    let config_version_not_number =
        r#"{ "configVersion": "x", "name": "n", "version": 1, "expression": "e", "metadata": {} }"#;
    assert_eq!(
        parse_feature_config(config_version_not_number),
        Err(ConfigError::InvalidField(ConfigField::ConfigVersion))
    );
}

#[test]
fn duplicate_metadata_keys_collapse_to_one() {
    let text = r#"{ "name": "n", "version": 1, "expression": "e",
                    "metadata": { "k": "a", "k": "b" } }"#;
    let config = parse_feature_config(text).unwrap();
    assert_eq!(config.metadata, vec![(String::from("k"), String::from("b"))]);
}
