use pioneer::foundation::config::{
    ConfigValidation, NoConfigValidation, ValidateConfig, WithValidation,
};
use std::fmt::{Display, Formatter};

struct TestConfig {
    value: u32,
}

impl ValidateConfig for TestConfig {
    type Error = TestConfigValidationError;

    fn validate(&self) -> Result<(), Self::Error> {
        if self.value == 0 {
            return Err(TestConfigValidationError);
        }

        Ok(())
    }
}

#[derive(Debug)]
struct TestConfigValidationError;

impl Display for TestConfigValidationError {
    fn fmt(&self, formatter: &mut Formatter<'_>) -> std::fmt::Result {
        formatter.write_str("value must be greater than 0")
    }
}

impl std::error::Error for TestConfigValidationError {}

#[test]
fn validation_reports_validation_errors() {
    let error = WithValidation
        .validate(&TestConfig { value: 0 })
        .unwrap_err();

    assert!(matches!(error, TestConfigValidationError));
}

#[test]
fn validation_accepts_valid_configs() {
    let config = TestConfig { value: 7 };

    assert!(WithValidation.validate(&config).is_ok());
}

#[test]
fn no_validation_accepts_configs_without_validation() {
    let config = TestConfig { value: 0 };

    assert!(NoConfigValidation.validate(&config).is_ok());
}

#[test]
fn validated_hands_back_valid_configs() {
    let config = TestConfig { value: 3 }.validated().unwrap();

    assert_eq!(config.value, 3);
    assert!(TestConfig { value: 0 }.validated().is_err());
}
