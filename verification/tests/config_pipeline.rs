use pioneer::foundation::config::{
    load_config_bytes, load_validated_config_bytes, ConfigFormatLoader, ConfigLoadError,
    RonConfigFormatError, RonConfigFormatLoader, RonDeserialize, Validate,
};
use serde::de::{Deserializer, Error as _, IgnoredAny, MapAccess, Visitor};
use std::fmt::{Display, Formatter};

#[derive(Debug)]
struct TestConfig {
    value: u32,
}

struct TestConfigVisitor;

impl<'de> Visitor<'de> for TestConfigVisitor {
    type Value = TestConfig;

    fn expecting(&self, formatter: &mut Formatter<'_>) -> std::fmt::Result {
        formatter.write_str("struct TestConfig")
    }

    fn visit_map<A: MapAccess<'de>>(self, mut map: A) -> Result<TestConfig, A::Error> {
        let mut value = None;
        while let Some(key) = map.next_key::<String>()? {
            if key == "value" {
                value = Some(map.next_value::<u32>()?);
            } else {
                map.next_value::<IgnoredAny>()?;
            }
        }
        match value {
            Some(value) => Ok(TestConfig { value }),
            None => Err(A::Error::missing_field("value")),
        }
    }
}

impl<'de> serde::Deserialize<'de> for TestConfig {
    fn deserialize<D: Deserializer<'de>>(deserializer: D) -> Result<Self, D::Error> {
        deserializer.deserialize_struct("TestConfig", &["value"], TestConfigVisitor)
    }
}

impl RonDeserialize for TestConfig {
    fn from_ron_bytes(bytes: &[u8]) -> Result<Self, ron::error::SpannedError> {
        ron::de::from_bytes(bytes)
    }
}

impl Validate for TestConfig {
    type Error = TestConfigValidationError;

    fn validate(&self) -> Result<(), Self::Error> {
        if self.value == 0 {
            return Err(TestConfigValidationError);
        }

        Ok(())
    }
}

#[derive(Debug)]
struct TestConfigValidationError;

impl Display for TestConfigValidationError {
    fn fmt(&self, formatter: &mut Formatter<'_>) -> std::fmt::Result {
        formatter.write_str("value must be greater than 0")
    }
}

impl std::error::Error for TestConfigValidationError {}

#[test]
fn reports_format_errors() {
    let error = load_validated_config_bytes::<TestConfig, RonConfigFormatLoader<TestConfig>>(
        b"not ron", "test",
    )
    .unwrap_err();

    assert!(matches!(error, ConfigLoadError::Format { .. }));
}

#[test]
fn pipeline_reports_validation_errors() {
    let error = load_validated_config_bytes::<TestConfig, RonConfigFormatLoader<TestConfig>>(
        b"(value: 0)",
        "test",
    )
    .unwrap_err();

    assert!(matches!(error, ConfigLoadError::Validation { .. }));
}

#[test]
fn loads_valid_configs() {
    let config = load_validated_config_bytes::<TestConfig, RonConfigFormatLoader<TestConfig>>(
        b"(value: 7)",
        "test",
    )
    .unwrap();

    assert_eq!(config.value, 7);
}

#[test]
fn loads_configs_without_validation_by_default() {
    let config = load_config_bytes::<TestConfig, RonConfigFormatLoader<TestConfig>>(
        b"(value: 0)",
        "test",
    )
    .unwrap();

    assert_eq!(config.value, 0);
}

#[test]
fn reports_parse_errors() {
    let error = RonConfigFormatLoader::<TestConfig>::default()
        .load(b"not ron")
        .unwrap_err();

    assert!(matches!(error, RonConfigFormatError::Parse(_)));
}

#[test]
fn errors_carry_the_asset_path() {
    let error = load_validated_config_bytes::<TestConfig, RonConfigFormatLoader<TestConfig>>(
        b"(value: 0)",
        "config/test.ron",
    )
    .unwrap_err();

    match error {
        ConfigLoadError::Validation { path, .. } => assert_eq!(path, "config/test.ron"),
        other => panic!("unexpected error {other:?}"),
    }
}

#[test]
fn ron_loader_claims_the_ron_extension() {
    assert_eq!(
        RonConfigFormatLoader::<TestConfig>::default().extensions(),
        &["ron"]
    );
}
