use deferred_engine::error::EngineError;
use deferred_engine::utils::{checked_from_vk_string, contains_string, from_vk_string, main_function_name};
use deferred_engine::validation::{
    check_supported, check_validation_error_support, required_layers, ValidationInfo,
};

#[test]
fn vk_string_stops_at_terminator() {
    let raw = b"abc\0leftover".to_vec();
    assert_eq!(from_vk_string(&raw), "abc");
}

#[test]
fn vk_string_of_lone_terminator_is_empty() {
    let raw = vec![0u8];
    assert_eq!(from_vk_string(&raw), "");
}

#[test]
fn vk_string_decodes_multibyte_utf8() {
    // "é" encodes as the two bytes 0xc3 0xa9.
    let raw = vec![0xc3, 0xa9, 0x00, 0x7f];
    let s = checked_from_vk_string(&raw).unwrap();
    assert_eq!(s.as_str(), "\u{00e9}");
}

#[test]
fn vk_string_rejects_invalid_utf8() {
    // 0xff can never begin a UTF-8 encoding.
    let raw = vec![0xff, 0x00];
    assert_eq!(checked_from_vk_string(&raw), Err(EngineError::InvalidUtf8));
}

#[test]
fn shader_entry_point_is_main() {
    assert_eq!(main_function_name(), "main");
}

#[test]
fn contains_string_compares_contents() {
    let names = vec!["alpha".to_owned(), "beta".to_owned()];
    assert!(contains_string(&names, "beta"));
    assert!(!contains_string(&names, "bet"));
    assert!(!contains_string(&names, "gamma"));
}

#[test]
fn required_layers_names_khronos_validation() {
    let layers = required_layers();
    assert_eq!(layers.len(), 1);
    assert_eq!(layers[0], "VK_LAYER_KHRONOS_validation");
}

#[test]
fn layer_check_rejects_empty_offer() {
    let none: Vec<String> = Vec::new();
    assert_eq!(check_supported(&none), Err(EngineError::NoAvailableLayers));
}

#[test]
fn layer_check_reports_missing_layer() {
    let available = vec!["VK_LAYER_other".to_owned()];
    assert_eq!(
        check_supported(&available),
        Err(EngineError::LayerNotFound { index: 0 })
    );
}

#[test]
fn layer_check_accepts_present_layer() {
    let available = vec![
        "VK_LAYER_other".to_owned(),
        "VK_LAYER_KHRONOS_validation".to_owned(),
    ];
    assert_eq!(check_supported(&available), Ok(()));
}

#[test]
fn disabled_validation_needs_no_layers() {
    let info = ValidationInfo::new(false);
    let none: Vec<String> = Vec::new();
    assert_eq!(check_validation_error_support(&info, &none), Ok(()));
}

#[test]
fn enabled_validation_checks_its_layers() {
    let info = ValidationInfo::new(true);
    let missing = vec!["VK_LAYER_other".to_owned()];
    assert_eq!(
        check_validation_error_support(&info, &missing),
        Err(EngineError::LayerNotFound { index: 0 })
    );
    let present = vec!["VK_LAYER_KHRONOS_validation".to_owned()];
    assert_eq!(check_validation_error_support(&info, &present), Ok(()));
}
