use pulsedeck::audio::output::{
    missing_device_policy, normalize_output_device_name, output_device_display_name, output_device_names_from_iter,
    output_device_names_match, DEFAULT_OUTPUT_DEVICE_LABEL,
};

#[test]
fn normalize_output_device_name_treats_default_and_blank_as_none() {
    assert_eq!(normalize_output_device_name(None), None);
    assert_eq!(normalize_output_device_name(Some("")), None);
    assert_eq!(normalize_output_device_name(Some("   ")), None);
    assert_eq!(normalize_output_device_name(Some("Default")), None);
    assert_eq!(normalize_output_device_name(Some("default")), None);
}

#[test]
fn output_device_display_name_uses_default_label() {
    assert_eq!(output_device_display_name(None), DEFAULT_OUTPUT_DEVICE_LABEL);
    assert_eq!(
        output_device_display_name(Some("Default")),
        DEFAULT_OUTPUT_DEVICE_LABEL
    );
    assert_eq!(
        output_device_display_name(Some("BlueZ Headphones")),
        "BlueZ Headphones"
    );
}

#[test]
fn normalize_output_device_name_trims_real_names() {
    assert_eq!(
        normalize_output_device_name(Some("  BlueZ Headphones  ")).as_deref(),
        Some("BlueZ Headphones")
    );
}

#[test]
fn output_device_names_from_iter_sorts_deduplicates_and_filters_default() {
    let names = output_device_names_from_iter(vec![
        " Speakers ".to_string(),
        "bluez_output.headset".to_string(),
        "speakers".to_string(),
        "Default".to_string(),
        "".to_string(),
    ]);

    assert_eq!(
        names,
        vec!["bluez_output.headset".to_string(), "Speakers".to_string()]
    );
}

#[test]
fn output_device_names_match_case_insensitively() {
    assert!(output_device_names_match(
        "PipeWire Bluetooth",
        "pipewire bluetooth"
    ));
    assert!(!output_device_names_match("Speakers", "Headphones"));
}

#[test]
fn strict_and_lenient_selection_have_distinct_missing_device_policy() {
    assert_ne!(missing_device_policy("USB DAC", true), missing_device_policy("USB DAC", false));
    assert_eq!(
        missing_device_policy("USB DAC", true),
        Err("selected output device 'USB DAC' was not found".to_string())
    );
    assert_eq!(missing_device_policy("USB DAC", false), Ok(()));
}
