use bakery::constants::BkryConstants;
use bakery::context::Context;
use bakery::settings::WsSettings;
use indexmap::IndexMap;


#[test]
fn test_settings_config_workspace_dirs() {
    let json_test_str = r#"
    {
        "version": "6",
        "workspace": {
          "configsdir": "configs_test",
          "includedir": "include_test",
          "artifactsdir": "artifacts_test",
          "layersdir": "layers_test",
          "buildsdir": "builds_test",
          "artifactsdir": "artifacts_test",
          "scriptsdir": "scripts_test",
          "dockerdir": "docker_test",
          "cachedir": "cache_test"
        }
    }"#;
    let settings = WsSettings::from_str(json_test_str).expect("Failed to parse settings");
    assert_eq!(&settings.configs_dir, "configs_test");
    assert_eq!(&settings.include_dir, "include_test");
    assert_eq!(&settings.artifacts_dir, "artifacts_test");
    assert_eq!(&settings.layers_dir, "layers_test");
    assert_eq!(&settings.builds_dir, "builds_test");
    assert_eq!(&settings.scripts_dir, "scripts_test");
    assert_eq!(&settings.docker_dir, "docker_test");
    assert_eq!(&settings.cache_dir, "cache_test");
}

#[test]
fn test_settings_config_default_workspace_dirs() {
    let json_test_str = r#"
    {
        "version": "6"
    }"#;
    let settings = WsSettings::from_str(json_test_str).expect("Failed to parse settings");
    assert_eq!(&settings.configs_dir, "configs");
    assert_eq!(&settings.include_dir, "configs/include");
    assert_eq!(&settings.artifacts_dir, "artifacts");
    assert_eq!(&settings.layers_dir, "layers");
    assert_eq!(&settings.builds_dir, "builds");
    assert_eq!(&settings.scripts_dir, "scripts");
    assert_eq!(&settings.docker_dir, "docker");
    assert_eq!(&settings.cache_dir, ".cache");
}

#[test]
fn test_settings_config_no_configs_workspace_node() {
    let json_test_str = r#"
    {
        "version": "6"
    }"#;
    let settings = WsSettings::from_str(json_test_str).expect("Failed to parse settings");
    assert_eq!(&settings.configs_dir, "configs");
}

#[test]
fn test_settings_config_no_builds_dir() {
    let json_test_str = r#"
    {
        "version": "6",
        "workspace": {
          "artifactsdir": "artifacts_test"
        }
    }"#;
    let settings = WsSettings::from_str(json_test_str).expect("Failed to parse settings");
    assert_eq!(&settings.builds_dir, "builds");
}

#[test]
fn test_settings_config_no_builds_workspace_node() {
    let json_test_str = r#"
    {
        "version": "6"
    }"#;
    let settings = WsSettings::from_str(json_test_str).expect("Failed to parse settings");
    assert_eq!(&settings.builds_dir, "builds");
}

#[test]
fn test_settings_config_no_artifacts_dir() {
    let json_test_str = r#"
    {
        "version": "6",
        "workspace": {
          "buildsdir": "builds_test"
        }
    }"#;
    let settings = WsSettings::from_str(json_test_str).expect("Failed to parse settings");
    assert_eq!(&settings.artifacts_dir, "artifacts");
}

#[test]
fn test_settings_config_no_artifacts_workspace_node() {
    let json_test_str = r#"
    {
        "version": "6"
    }"#;
    let settings = WsSettings::from_str(json_test_str).expect("Failed to parse settings");
    assert_eq!(&settings.artifacts_dir, "artifacts");
}

#[test]
fn test_settings_config_no_scripts_dir() {
    let json_test_str = r#"
    {
        "version": "6",
        "workspace": {
          "buildsdir": "builds_test"
        }
    }"#;
    let settings = WsSettings::from_str(json_test_str).expect("Failed to parse settings");
    assert_eq!(&settings.scripts_dir, "scripts");
}

#[test]
fn test_settings_config_no_scripts_workspace_node() {
    let json_test_str = r#"
    {
        "version": "6"
    }"#;
    let settings = WsSettings::from_str(json_test_str).expect("Failed to parse settings");
    assert_eq!(&settings.scripts_dir, "scripts");
}

#[test]
fn test_settings_config_no_docker_dir() {
    let json_test_str = r#"
    {
        "version": "6",
        "workspace": {
          "buildsdir": "builds_test"
        }
    }"#;
    let settings = WsSettings::from_str(json_test_str).expect("Failed to parse settings");
    assert_eq!(&settings.docker_dir, "docker");
}

#[test]
fn test_settings_config_no_docker_workspace_node() {
    let json_test_str = r#"
    {
        "version": "6"
    }"#;
    let settings = WsSettings::from_str(json_test_str).expect("Failed to parse settings");
    assert_eq!(&settings.docker_dir, "docker");
}

#[test]
fn test_settings_config_no_cache_dir() {
    let json_test_str = r#"
    {
        "version": "6",
        "workspace": {
          "buildsdir": "builds_test"
        }
    }"#;
    let settings = WsSettings::from_str(json_test_str).expect("Failed to parse settings");
    assert_eq!(&settings.cache_dir, ".cache");
}

#[test]
fn test_settings_config_no_cache_workspace_node() {
    let json_test_str = r#"
    {
        "version": "6"
    }"#;
    let settings = WsSettings::from_str(json_test_str).expect("Failed to parse settings");
    assert_eq!(&settings.cache_dir, ".cache");
}

#[test]
fn test_settings_config_docker_image() {
    let json_test_str = r#"
    {
        "version": "6",
        "docker": {
            "image": "test-workspace"
        }
    }"#;
    let settings = WsSettings::from_str(json_test_str).expect("Failed to parse settings");
    assert_eq!(&settings.docker_image, "test-workspace");
}

#[test]
fn test_settings_config_docker_work_dir() {
    let json_test_str = r#"
    {
        "version": "5",
        "docker": {
            "workdir": "test"
        }
    }"#;
    let settings = WsSettings::from_str(json_test_str).expect("Failed to parse settings");
    assert_eq!(&settings.docker_work_dir, "test");
}

#[test]
fn test_settings_config_no_docker_image() {
    let json_test_str = r#"
    {
        "version": "6",
        "docker": {
            "tag": "0.1"
        }
    }"#;
    let settings = WsSettings::from_str(json_test_str).expect("Failed to parse settings");
    assert_eq!(
        &settings.docker_image,
        "yanctab/bakery/bakery-workspace"
    );
}

#[test]
fn test_settings_config_no_docker_image_node() {
    let json_test_str = r#"
    {
        "version": "6"
    }"#;
    let settings = WsSettings::from_str(json_test_str).expect("Failed to parse settings");
    assert_eq!(
        &settings.docker_image,
        "yanctab/bakery/bakery-workspace"
    );
}

#[test]
fn test_settings_config_docker_tag() {
    let json_test_str = r#"
    {
        "version": "6",
        "docker": {
            "tag": "0.1"
        }
    }"#;
    let settings = WsSettings::from_str(json_test_str).expect("Failed to parse settings");
    assert_eq!(&settings.docker_tag, "0.1");
}

#[test]
fn test_settings_config_no_docker_tag() {
    let json_test_str = r#"
    {
        "version": "6",
        "docker": {
            "image": "test-workspace"
        }
    }"#;
    let settings = WsSettings::from_str(json_test_str).expect("Failed to parse settings");
    assert_eq!(&settings.docker_tag, BkryConstants::DOCKER_TAG);
}

#[test]
fn test_settings_config_no_docker_tag_node() {
    let json_test_str = r#"
    {
        "version": "6"
    }"#;
    let settings = WsSettings::from_str(json_test_str).expect("Failed to parse settings");
    assert_eq!(&settings.docker_tag, BkryConstants::DOCKER_TAG);
}

#[test]
fn test_settings_config_default_docker_enabled() {
    let json_test_str = r#"
    {
        "version": "6"
    }"#;
    let settings = WsSettings::from_str(json_test_str).expect("Failed to parse settings");
    assert_eq!(&settings.docker_disabled, "false");
}

#[test]
fn test_settings_config_docker_disabled() {
    let json_test_str = r#"
    {
        "version": "6",
        "docker": {
            "disabled": "true"
        }
    }"#;
    let settings = WsSettings::from_str(json_test_str).expect("Failed to parse settings");
    assert_eq!(&settings.docker_disabled, "true");
}

#[test]
fn test_settings_config_docker_registry() {
    let json_test_str = r#"
    {
        "version": "6",
        "docker": {
            "registry": "test-registry"
        }
    }"#;
    let settings = WsSettings::from_str(json_test_str).expect("Failed to parse settings");
    assert_eq!(&settings.docker_registry, "test-registry");
}

#[test]
fn test_settings_config_no_docker_registry() {
    let json_test_str = r#"
    {
        "version": "6",
        "docker": {
            "image": "test-workspace"
        }
    }"#;
    let settings = WsSettings::from_str(json_test_str).expect("Failed to parse settings");
    assert_eq!(&settings.docker_registry, "ghcr.io");
}

#[test]
fn test_settings_config_no_docker_registry_node() {
    let json_test_str = r#"
    {
        "version": "6"
    }"#;
    let settings = WsSettings::from_str(json_test_str).expect("Failed to parse settings");
    assert_eq!(&settings.docker_registry, "ghcr.io");
}

#[test]
fn test_settings_config_docker_args() {
    let json_test_str = r#"
    {
        "version": "6",
        "docker": {
            "args": [
              "--rm=true",
              "-t",
              "--dns=8.8.8.8"
            ]
          }
    }"#;
    let settings = WsSettings::from_str(json_test_str).expect("Failed to parse settings");
    assert_eq!(
        &settings.docker_args,
        &vec![
            String::from("--rm=true"),
            String::from("-t"),
            String::from("--dns=8.8.8.8")
        ]
    );
}

#[test]
fn test_settings_config_no_docker_args() {
    let json_test_str = r#"
    {
        "version": "6"
    }"#;
    let settings = WsSettings::from_str(json_test_str).expect("Failed to parse settings");
    assert!(&settings.docker_args.is_empty());
}

#[test]
fn test_settings_config_build_configs() {
    let json_test_str = r#"
    {
        "version": "6",
        "builds": {
            "supported": [
              "machine1-test",
              "machine2-test"
            ]
        }
    }"#;
    let settings = WsSettings::from_str(json_test_str).expect("Failed to parse settings");
    assert_eq!(
        &settings.supported,
        &vec![String::from("machine1-test"), String::from("machine2-test")]
    );
    let mut i: i32 = 1;
    for supported in &settings.supported {
        assert_eq!(supported, &format!("machine{}-test", i));
        i += 1;
    }
}

#[test]
fn test_settings_config_no_supported_build_configs() {
    let json_test_str = r#"
    {
        "version": "6",
        "builds": {
        }
    }"#;
    let settings = WsSettings::from_str(json_test_str).expect("Failed to parse settings");
    assert_eq!(settings.supported.is_empty(), true);
}

#[test]
fn test_settings_config_no_build_node() {
    let json_test_str = r#"
    {
        "version": "6"
    }"#;
    let settings = WsSettings::from_str(json_test_str).expect("Failed to parse settings");
    assert_eq!(settings.supported.is_empty(), true);
}

#[test]
fn test_settings_config_merge() {
    let json_test1_str = r#"
    {
        "version": "5"
    }"#;
    let json_test2_str = r#"
    {
        "version": "5",
        "workspace": {
            "configsdir": "configs_test",
            "includedir": "include_test",
            "artifactsdir": "artifacts_test",
            "buildsdir": "builds_test",
            "scriptsdir": "scripts_test",
            "dockerdir": "docker_test",
            "cachedir": "cache_test"
        },
        "docker": {
            "registry": "test-registry",
            "image": "test-image",
            "tag": "test",
            "args": [
                "--rm=true",
                "-t",
                "--dns=8.8.8.8"
            ]
        }
    }"#;
    let mut settings1: WsSettings = WsSettings::from_str(json_test1_str).expect("Failed to parse settings");
    let mut settings2: WsSettings = WsSettings::from_str(json_test2_str).expect("Failed to parse settings");
    assert_eq!(settings1.configs_dir, "configs");
    assert_eq!(settings1.include_dir, "configs/include");
    assert_eq!(settings1.artifacts_dir, "artifacts");
    assert_eq!(settings1.builds_dir, "builds");
    assert_eq!(settings1.scripts_dir, "scripts");
    assert_eq!(settings1.docker_dir, "docker");
    assert_eq!(settings1.cache_dir, ".cache");
    settings1.merge(&mut settings2);
    assert_eq!(settings1.configs_dir, "configs_test");
    assert_eq!(settings1.include_dir, "include_test");
    assert_eq!(settings1.artifacts_dir, "artifacts_test");
    assert_eq!(settings1.builds_dir, "builds_test");
    assert_eq!(settings1.scripts_dir, "scripts_test");
    assert_eq!(settings1.docker_dir, "docker_test");
    assert_eq!(settings1.cache_dir, "cache_test");
    assert_eq!(settings1.docker_registry, "test-registry");
    assert_eq!(settings1.docker_image, "test-image");
    assert_eq!(settings1.docker_tag, "test");
    assert_eq!(
        &settings1.docker_args,
        &vec![
            String::from("--rm=true"),
            String::from("-t"),
            String::from("--dns=8.8.8.8")
        ]
    );
}

#[test]
fn test_settings_config_merge_mix() {
    // Merging takes the second document's values, and appends its container
    // arguments to the first one's.
    let json_test1_str = r#"
    {
        "version": "5",
        "workspace": {
            "configsdir": "configs_test1",
            "includedir": "include_test",
            "artifactsdir": "artifacts_test1",
            "buildsdir": "builds_test",
            "scriptsdir": "scripts_test1",
            "dockerdir": "docker_test",
            "cachedir": "cache_test1"
        },
        "cmdlogger": {
            "disable": "false"
        },
        "docker": {
            "registry": "test-registry",
            "image": "test-image1",
            "tag": "test1",
            "args": [
                "--rm=true",
                "-t",
                "--dns=8.8.8.8"
            ]
        }
    }"#;
    let json_test2_str = r#"
    {
        "version": "5",
        "workspace": {
            "configsdir": "configs_test2",
            "includedir": "include_test",
            "artifactsdir": "artifacts_test2",
            "buildsdir": "builds_test",
            "scriptsdir": "scripts_test2",
            "dockerdir": "docker_test",
            "cachedir": "cache_test2"
        },
        "cmdlogger": {
            "disable": "true"
        },
        "docker": {
            "registry": "test-registry2",
            "image": "test-image2",
            "tag": "test2",
            "args": [
                "--network=host"
            ]
        }
    }"#;
    let mut settings1: WsSettings = WsSettings::from_str(json_test1_str).expect("Failed to parse settings");
    let mut settings2: WsSettings = WsSettings::from_str(json_test2_str).expect("Failed to parse settings");
    assert_eq!(settings1.configs_dir, "configs_test1");
    assert_eq!(settings1.include_dir, "include_test");
    assert_eq!(settings1.artifacts_dir, "artifacts_test1");
    assert_eq!(settings1.builds_dir, "builds_test");
    assert_eq!(settings1.scripts_dir, "scripts_test1");
    assert_eq!(settings1.docker_dir, "docker_test");
    assert_eq!(settings1.cache_dir, "cache_test1");
    assert_eq!(settings1.docker_registry, "test-registry");
    assert_eq!(settings1.docker_image, "test-image1");
    assert_eq!(settings1.docker_tag, "test1");
    settings1.merge(&mut settings2);
    assert_eq!(settings1.configs_dir, "configs_test2");
    assert_eq!(settings1.include_dir, "include_test");
    assert_eq!(settings1.artifacts_dir, "artifacts_test2");
    assert_eq!(settings1.builds_dir, "builds_test");
    assert_eq!(settings1.scripts_dir, "scripts_test2");
    assert_eq!(settings1.docker_dir, "docker_test");
    assert_eq!(settings1.cache_dir, "cache_test2");
    assert_eq!(settings1.docker_registry, "test-registry2");
    assert_eq!(settings1.docker_image, "test-image2");
    assert_eq!(settings1.docker_tag, "test2");
    assert_eq!(
        &settings1.docker_args,
        &vec![
            String::from("--rm=true"),
            String::from("-t"),
            String::from("--dns=8.8.8.8"),
            String::from("--network=host")
        ]
    );
}

#[test]
fn test_settings_config_context() {
    let json_test_str = r#"
    {
        "version": "5",
        "workspace": {
            "configsdir": "configs_$#[VAR1]",
            "includedir": "include_test",
            "artifactsdir": "artifacts_$#[VAR2]",
            "buildsdir": "builds_test",
            "scriptsdir": "scripts_test2",
            "dockerdir": "docker_test",
            "cachedir": "cache_test2"
        },
        "docker": {
            "registry": "test-registry-$#[VAR3]",
            "image": "test-image-$#[VAR4]",
            "tag": "test2",
            "args": [
                "--network=host"
            ]
        }
    }"#;
    let mut settings: WsSettings = WsSettings::from_str(json_test_str).expect("Failed to parse settings");
    let variables: IndexMap<String, String> = IndexMap::from([
        ("VAR1".to_string(), "var1".to_string()),
        ("VAR2".to_string(), "var2".to_string()),
        ("VAR3".to_string(), "var3".to_string()),
        ("VAR4".to_string(), "var4".to_string()),
    ]);
    let ctx: Context = Context::new(&variables);
    settings.expand_ctx(&ctx).unwrap();
    assert_eq!(settings.configs_dir, "configs_var1");
    assert_eq!(settings.include_dir, "include_test");
    assert_eq!(settings.artifacts_dir, "artifacts_var2");
    assert_eq!(settings.docker_registry, "test-registry-var3");
    assert_eq!(settings.docker_image, "test-image-var4");
}
