use bakery::config::WsConfigData;


#[test]
fn test_ws_config_data_default() {
    let json_build_config = r#"
    {
        "version": "6"
    }"#;
    let data: WsConfigData =
        WsConfigData::from_str(json_build_config).expect("Failed to parse config data");
    assert_eq!(data.version(), "6");
    assert_eq!(data.name(), "NA");
}

#[test]
fn test_ws_config_data() {
    let json_build_config = r#"
    {
        "version": "6",
        "name": "test-name"
    }"#;
    let data: WsConfigData =
        WsConfigData::from_str(json_build_config).expect("Failed to parse config data");
    assert_eq!(data.version(), "6");
    assert_eq!(data.name(), "test-name");
}
