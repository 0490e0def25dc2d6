use bakery::constants::BkryConstants;
use bakery::context::Context;
use bakery::settings::WsSettings;
use bakery::workspace::{join, DockerImage, WsSettingsHandler};
use indexmap::IndexMap;



#[test]
fn test_settings_default_ws_dirs() {
    let json_test_str = r#"
    {
        "version": "6"
    }"#;
    let work_dir: String = String::from("/workspace");
    let settings: WsSettingsHandler =
        WsSettingsHandler::new(work_dir, WsSettings::from_str(json_test_str).expect("Failed to parse settings"), None);
    assert_eq!(settings.builds_dir(), String::from("/workspace/builds"));
    assert_eq!(settings.cache_dir(), String::from("/workspace/.cache"));
    assert_eq!(
        settings.artifacts_dir(),
        String::from("/workspace/artifacts")
    );
    assert_eq!(settings.layers_dir(), String::from("/workspace/layers"));
    assert_eq!(settings.scripts_dir(), String::from("/workspace/scripts"));
    assert_eq!(settings.docker_dir(), String::from("/workspace/docker"));
    assert_eq!(settings.configs_dir(), String::from("/workspace/configs"));
    assert_eq!(
        settings.include_dir(),
        String::from("/workspace/configs/include")
    );
}

#[test]
fn test_settings_ws_dirs() {
    let json_test_str = r#"
    {
        "version": "6",
        "workspace": {
            "configsdir": "configs_test",
            "includedir": "include_test",
            "artifactsdir": "artifacts_test",
            "layersdir": "layers_test",
            "buildsdir": "builds_test",
            "artifactsdir": "artifacts_test",
            "scriptsdir": "scripts_test",
            "dockerdir": "docker_test",
            "cachedir": "cache_test"
        }
    }"#;
    let work_dir: String = String::from("/workspace");
    let settings: WsSettingsHandler =
        WsSettingsHandler::new(work_dir, WsSettings::from_str(json_test_str).expect("Failed to parse settings"), None);
    assert_eq!(
        settings.builds_dir(),
        String::from("/workspace/builds_test")
    );
    assert_eq!(settings.cache_dir(), String::from("/workspace/cache_test"));
    assert_eq!(
        settings.artifacts_dir(),
        String::from("/workspace/artifacts_test")
    );
    assert_eq!(
        settings.layers_dir(),
        String::from("/workspace/layers_test")
    );
    assert_eq!(
        settings.scripts_dir(),
        String::from("/workspace/scripts_test")
    );
    assert_eq!(
        settings.docker_dir(),
        String::from("/workspace/docker_test")
    );
    assert_eq!(
        settings.configs_dir(),
        String::from("/workspace/configs_test")
    );
    assert_eq!(
        settings.include_dir(),
        String::from("/workspace/include_test")
    );
}

#[test]
fn test_settings_ws_top_dir() {
    let json_test_str = r#"
    {
        "version": "6",
        "workspace": {
            "layersdir": ""
        }
    }"#;
    let work_dir: String = String::from("/workspace");
    let settings: WsSettingsHandler =
        WsSettingsHandler::new(work_dir, WsSettings::from_str(json_test_str).expect("Failed to parse settings"), None);
    /* Making sure the expanded path doesn't end with '/' */
    assert_eq!(
        settings.layers_dir(),
        String::from("/workspace")
    );
    assert_eq!(
        settings.work_dir(),
        String::from("/workspace")
    );
}

#[test]
fn test_settings_default_docker() {
    let json_test_str = r#"
    {
        "version": "6"
    }"#;
    let work_dir: String = String::from("/workspace");
    let settings: WsSettingsHandler =
        WsSettingsHandler::new(work_dir, WsSettings::from_str(json_test_str).expect("Failed to parse settings"), None);
    let docker_image: DockerImage = settings.docker_image();
    assert_eq!(
        docker_image.to_text(),
        format!(
            "ghcr.io/yanctab/bakery/bakery-workspace:{}",
            BkryConstants::DOCKER_TAG
        )
    );
}

#[test]
fn test_settings_docker() {
    let json_test_str = r#"
    {
        "version": "6",
        "docker": {
            "tag": "0.1",
            "image": "test-image",
            "registry": "test-registry"
        }
    }"#;
    let work_dir: String = String::from("/workspace");
    let settings: WsSettingsHandler =
        WsSettingsHandler::new(work_dir, WsSettings::from_str(json_test_str).expect("Failed to parse settings"), None);
    let docker_image: DockerImage = settings.docker_image();
    assert_eq!(docker_image.to_text(), "test-registry/test-image:0.1");
}

#[test]
fn test_settings_default_docker_args() {
    let json_test_str = r#"
    {
        "version": "6",
        "docker": {
            "tag": "0.1",
            "image": "test-image",
            "registry": "test-registry"
        }
    }"#;
    let work_dir: String = String::from("/workspace");
    let settings: WsSettingsHandler =
        WsSettingsHandler::new(work_dir, WsSettings::from_str(json_test_str).expect("Failed to parse settings"), None);
    assert!(settings.docker_args().is_empty());
}

#[test]
fn test_settings_docker_args() {
    let json_test_str = r#"
    {
        "version": "6",
        "docker": {
            "tag": "0.1",
            "image": "test-image",
            "registry": "test-registry",
            "args": [
                "arg1",
                "arg2",
                "arg3"
            ]
        }
    }"#;
    let work_dir: String = String::from("/workspace");
    let settings: WsSettingsHandler =
        WsSettingsHandler::new(work_dir, WsSettings::from_str(json_test_str).expect("Failed to parse settings"), None);
    assert_eq!(
        settings.docker_args(),
        &vec!["arg1".to_string(), "arg2".to_string(), "arg3".to_string()]
    );
}

#[test]
fn test_settings_default_supported_builds() {
    let json_test_str = r#"
    {
        "version": "6"
    }"#;
    let work_dir: String = String::from("/workspace");
    let settings: WsSettingsHandler =
        WsSettingsHandler::new(work_dir, WsSettings::from_str(json_test_str).expect("Failed to parse settings"), None);
    assert!(settings.supported_builds().is_empty());
}

#[test]
fn test_settings_supported_builds() {
    let json_test_str = r#"
    {
        "version": "6",
        "builds": {
            "supported": [
                "build1",
                "build2"
            ]
        }
    }"#;
    let work_dir: String = String::from("/workspace");
    let settings: WsSettingsHandler =
        WsSettingsHandler::new(work_dir, WsSettings::from_str(json_test_str).expect("Failed to parse settings"), None);
    assert_eq!(
        settings.supported_builds(),
        &vec!["build1".to_string(), "build2".to_string()]
    );
}

#[test]
fn test_settings_context() {
    let json_test_str = r#"
    {
        "version": "5",
        "workspace": {
            "configsdir": "configs_$#[VAR1]",
            "includedir": "include_test",
            "artifactsdir": "artifacts_$#[VAR2]",
            "buildsdir": "builds_test",
            "scriptsdir": "scripts_test2",
            "dockerdir": "docker_test",
            "cachedir": "cache_test2"
        },
        "docker": {
            "registry": "test-registry-$#[VAR3]",
            "image": "test-image-$#[VAR4]",
            "tag": "test2",
            "args": [
                "--network=host"
            ]
        }
    }"#;
    let work_dir: String = String::from("/workspace");
    let mut settings: WsSettingsHandler = WsSettingsHandler::new(
        work_dir.clone(),
        WsSettings::from_str(json_test_str).expect("Failed to parse settings"),
        None,
    );
    let variables: IndexMap<String, String> = IndexMap::from([
        ("VAR1".to_string(), "var1".to_string()),
        ("VAR2".to_string(), "var2".to_string()),
        ("VAR3".to_string(), "var3".to_string()),
        ("VAR4".to_string(), "var4".to_string()),
    ]);
    let ctx: Context = Context::new(&variables);
    settings.expand_ctx(&ctx).unwrap();
    assert_eq!(settings.configs_dir(), join(&work_dir, "configs_var1"));
    assert_eq!(settings.include_dir(), join(&work_dir, "include_test"));
    assert_eq!(settings.artifacts_dir(), join(&work_dir, "artifacts_var2"));
    let docker_image: DockerImage = settings.docker_image();
    assert_eq!(
        docker_image.to_text(),
        "test-registry-var3/test-image-var4:test2"
    );
}
