use fluvio_binding::config::CompressionAlg;
use fluvio_binding::config::ConfigInput;
use fluvio_binding::config::Property;
use fluvio_binding::config::translate_config;

fn empty_input() -> ConfigInput {
    ConfigInput::empty()
}

#[test]
fn batch_size_and_gzip_override_defaults() {
    let mut input = empty_input();
    input.batch_size = Property::Value(100);
    input.compression = Property::Value(String::from("gzip"));
    let config = translate_config(&input).unwrap();
    assert_eq!(config.batch_size, Some(100));
    assert_eq!(config.compression, Some(CompressionAlg::Gzip));
    assert_eq!(config.timeout_ms, None);
    assert_eq!(config.linger_ms, None);
    assert_eq!(config.max_request_size, None);
}

#[test]
fn bogus_compression_is_rejected_naming_the_value() {
    let mut input = empty_input();
    input.compression = Property::Value(String::from("bogus"));
    let err = translate_config(&input).unwrap_err();
    assert_eq!(err.message().as_str(), "Invalid compression type: bogus");
    assert!(err.message().contains("bogus"));
}

#[test]
fn malformed_batch_size_keeps_default() {
    let mut input = empty_input();
    input.batch_size = Property::Malformed;
    let config = translate_config(&input).unwrap();
    assert_eq!(config.batch_size, None);
}

#[test]
fn compression_none_equals_library_default() {
    let mut input = empty_input();
    input.compression = Property::Value(String::from("none"));
    let config = translate_config(&input).unwrap();
    assert_eq!(config.compression, None);
}

#[test]
fn empty_object_translates_to_all_defaults() {
    let config = translate_config(&empty_input()).unwrap();
    assert_eq!(config.batch_size, None);
    assert_eq!(config.timeout_ms, None);
    assert_eq!(config.linger_ms, None);
    assert_eq!(config.max_request_size, None);
    assert_eq!(config.compression, None);
}

#[test]
fn snappy_and_lz4_tokens_are_recognized() {
    let mut input = empty_input();
    input.compression = Property::Value(String::from("snappy"));
    assert_eq!(
        translate_config(&input).unwrap().compression,
        Some(CompressionAlg::Snappy)
    );
    input.compression = Property::Value(String::from("lz4"));
    assert_eq!(
        translate_config(&input).unwrap().compression,
        Some(CompressionAlg::Lz4)
    );
}

#[test]
fn compression_tokens_are_case_sensitive() {
    let mut input = empty_input();
    input.compression = Property::Value(String::from("Gzip"));
    let err = translate_config(&input).unwrap_err();
    assert_eq!(err.message().as_str(), "Invalid compression type: Gzip");
}

#[test]
fn malformed_compression_keeps_default() {
    let mut input = empty_input();
    input.compression = Property::Malformed;
    let config = translate_config(&input).unwrap();
    assert_eq!(config.compression, None);
}

#[test]
fn every_recognized_property_overrides_its_default() {
    let input = ConfigInput {
        batch_size: Property::Value(4096),
        timeout_ms: Property::Value(1500),
        linger_ms: Property::Value(25),
        max_request_size: Property::Value(1048576),
        compression: Property::Value(String::from("lz4")),
    };
    let config = translate_config(&input).unwrap();
    assert_eq!(config.batch_size, Some(4096));
    assert_eq!(config.timeout_ms, Some(1500));
    assert_eq!(config.linger_ms, Some(25));
    assert_eq!(config.max_request_size, Some(1048576));
    assert_eq!(config.compression, Some(CompressionAlg::Lz4));
}

#[test]
fn compression_error_wins_over_other_overrides() {
    let input = ConfigInput {
        batch_size: Property::Value(4096),
        timeout_ms: Property::Malformed,
        linger_ms: Property::Absent,
        max_request_size: Property::Value(1),
        compression: Property::Value(String::from("zstd")),
    };
    let err = translate_config(&input).unwrap_err();
    assert_eq!(err.message().as_str(), "Invalid compression type: zstd");
}
