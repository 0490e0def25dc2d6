use bakery::commands::ListCommand;
use bakery::composer::{WsBuildData, WsSubCmd, WsTask};
use bakery::handler::{ConfigSource, WsConfigFileHandler};
use bakery::workspace::{join, WsSettingsHandler};

const WORK_DIR: &str = "/tmp/bakery-test-dir/workspace";
const HOME_DIR: &str = "/tmp/bakery-test-dir/home";

#[test]
fn test_cfg_handler_settings_default() {
    let work_dir: String = String::from(WORK_DIR);
    let settings_str: &str = r#"
        {
            "version": "5"
        }"#;
    let settings_path: String = format!("{}/workspace.json", work_dir);
    let cfg_handler: WsConfigFileHandler = WsConfigFileHandler::new(WORK_DIR, HOME_DIR);
    let choice = WsConfigFileHandler::settings_choice(&vec![true, false, false]);
    assert_eq!(choice, Some(0));
    assert_eq!(cfg_handler.settings_paths()[0], settings_path);
    let settings: WsSettingsHandler = cfg_handler
        .ws_settings(Some((settings_path, settings_str.to_string())))
        .expect("Failed parse workspace settings");
    assert_eq!(settings.builds_dir(), join(&work_dir, "builds"));
    assert_eq!(settings.cache_dir(), join(&work_dir, ".cache"));
    assert_eq!(settings.artifacts_dir(), join(&work_dir, "artifacts"));
    assert_eq!(settings.scripts_dir(), join(&work_dir, "scripts"));
    assert_eq!(settings.docker_dir(), join(&work_dir, "docker"));
    assert_eq!(settings.configs_dir(), join(&work_dir, "configs"));
    assert_eq!(settings.include_dir(), join(&work_dir, "configs/include"));
}

#[test]
fn test_cfg_handler_settings_home_dir() {
    let work_dir: String = String::from(WORK_DIR);
    let ws_settings_1: &str = r#"
        {
            "version": "6",
            "workspace": {
                "configsdir": "config1_dir"
            }
        }"#;
    let ws_settings_2: &str = r#"
        {
            "version": "6",
            "workspace": {
                "configsdir": "config2_dir"
            }
        }"#;
    let cfg_handler: WsConfigFileHandler = WsConfigFileHandler::new(WORK_DIR, HOME_DIR);
    let paths = cfg_handler.settings_paths();
    assert_eq!(paths[1], format!("{}/.bakery/workspace.json", HOME_DIR));
    let texts = vec![ws_settings_1, ws_settings_2];
    let i = WsConfigFileHandler::settings_choice(&vec![true, true, false]).unwrap();
    let settings: WsSettingsHandler = cfg_handler
        .ws_settings(Some((paths[i].clone(), texts[i].to_string())))
        .expect("Failed parse workspace settings");
    assert_eq!(settings.configs_dir(), join(&work_dir, "config1_dir"));
}

#[test]
fn test_cfg_handler_settings_work_dir() {
    let work_dir: String = String::from(WORK_DIR);
    let ws_settings: &str = r#"
        {
            "version": "6",
            "workspace": {
                "configsdir": "work_dir"
            }
        }"#;
    let cfg_handler: WsConfigFileHandler = WsConfigFileHandler::new(WORK_DIR, HOME_DIR);
    let paths = cfg_handler.settings_paths();
    let i = WsConfigFileHandler::settings_choice(&vec![true, false, false]).unwrap();
    let settings: WsSettingsHandler = cfg_handler
        .ws_settings(Some((paths[i].clone(), ws_settings.to_string())))
        .expect("Failed parse workspace settings");
    assert_eq!(settings.configs_dir(), join(&work_dir, "work_dir"));
}

#[test]
fn test_cfg_handler_build_config() {
    let cfg_handler: WsConfigFileHandler = WsConfigFileHandler::new(WORK_DIR, HOME_DIR);
    let settings: WsSettingsHandler = cfg_handler
        .ws_settings(None)
        .expect("Failed parse workspace settings");
    let result = cfg_handler.build_config("invalid", &settings, false, false);
    match result {
        Ok(_build_cfg) => {
            panic!("Was expecting an error!");
        }
        Err(e) => {
            assert_eq!(
                e.message(),
                String::from("No such build config: 'invalid.json' does not exist!")
            );
        }
    }
}

#[test]
fn test_cfg_handler_ws_root_build_config() {
    let cfg_handler: WsConfigFileHandler = WsConfigFileHandler::new(WORK_DIR, HOME_DIR);
    let settings: WsSettingsHandler = cfg_handler
        .ws_settings(None)
        .expect("Failed parse workspace settings");
    let build_conf_ws_root_dir = r#"
        {
            "version": "6",
            "name": "ws-root-build-config",
            "description": "Test Description",
            "arch": "test-arch"
        }"#;
    let build_conf_configs_dir = r#"
        {
            "version": "6",
            "name": "ws-configs-build-config",
            "description": "Test Description",
            "arch": "test-arch"
        }"#;
    let (in_work, in_configs) = cfg_handler.build_config_paths("test", &settings);
    assert_eq!(in_work, join(&settings.work_dir(), "test.json"));
    assert_eq!(in_configs, join(&settings.configs_dir(), "test.json"));
    let text = match cfg_handler.build_config("test", &settings, true, true) {
        Ok(ConfigSource::File(p)) if p == in_work => build_conf_ws_root_dir,
        Ok(ConfigSource::File(_)) => build_conf_configs_dir,
        _ => panic!("Failed parse build config"),
    };
    let main = WsBuildData::from_str(text).expect("Failed parse build config");
    let config = cfg_handler
        .setup_build_config(main, &vec![], &settings)
        .expect("Failed parse build config");
    assert_eq!(config.build_data().name, "ws-root-build-config");
}

#[test]
fn test_cfg_handler_ws_configs_build_config() {
    let cfg_handler: WsConfigFileHandler = WsConfigFileHandler::new(WORK_DIR, HOME_DIR);
    let settings: WsSettingsHandler = cfg_handler
        .ws_settings(None)
        .expect("Failed parse workspace settings");
    let build_conf_configs_dir = r#"
        {
            "version": "6",
            "name": "ws-configs-build-config",
            "description": "Test Description",
            "arch": "test-arch"
        }"#;
    let (_in_work, in_configs) = cfg_handler.build_config_paths("test", &settings);
    match cfg_handler.build_config("test", &settings, false, true) {
        Ok(ConfigSource::File(p)) => assert_eq!(p, in_configs),
        _ => panic!("Failed parse build config"),
    }
    let main = WsBuildData::from_str(build_conf_configs_dir).expect("Failed parse build config");
    let config = cfg_handler
        .setup_build_config(main, &vec![], &settings)
        .expect("Failed parse build config");
    assert_eq!(config.build_data().name, "ws-configs-build-config");
}

#[test]
fn test_cfg_handler_ws_include_configs() {
    let cfg_handler: WsConfigFileHandler = WsConfigFileHandler::new(WORK_DIR, HOME_DIR);
    let settings: WsSettingsHandler = cfg_handler
        .ws_settings(None)
        .expect("Failed parse workspace settings");
    let main_build_config = r#"
        {
            "version": "6",
            "name": "test-product",
            "description": "Test Description",
            "arch": "test-arch",
            "bb": {
                "machine": "test-machine",
                "distro": "test-distro",
                "deploydir": "tmp/test/deploy",
                "docker": "test-registry/test-image:0.1",
                "initenv": "layers/test/oe-my-init-env",
                "bblayersconf": [
                    "BB_LAYERS_CONF_TEST_LINE_1",
                    "BB_LAYERS_CONF_TEST_LINE_2",
                    "BB_LAYERS_CONF_TEST_LINE_3"
                ],
                "localconf": [
                    "BB_LOCAL_CONF_TEST_LINE_1",
                    "BB_LOCAL_CONF_TEST_LINE_2",
                    "BB_LOCAL_CONF_TEST_LINE_3"
                ]
            },
            "include": [
                "config1",
                "config2"
            ],
            "tasks": {
                "task0": {
                    "index": "0",
                    "name": "task0",
                    "type": "non-bitbake",
                    "builddir": "test/main",
                    "build": "main",
                    "clean": "main",
                    "artifacts": [
                        {
                            "source": "test/main-file.txt"
                        }
                    ]
                }
            },
            "setup": {
                "cmd": "main"
            }
        }"#;
    let build_config1 = r#"
        {
            "version": "6",
            "tasks": {
                "task0": {
                    "index": "0",
                    "name": "task0",
                    "type": "non-bitbake",
                    "builddir": "test/config1",
                    "build": "config1",
                    "clean": "config1",
                    "artifacts": [
                        {
                            "source": "test/config.txt"
                        }
                    ]
                },
                "task1": {
                    "index": "1",
                    "name": "task1",
                    "recipes": [
                        "test"
                    ],
                    "artifacts": [
                        {
                            "source": "test/config.txt"
                        }
                    ]
                }
            },
            "setup": {
                "cmd": "config1"
            },
            "sync": {
                "cmd": "config1"
            }
        }"#;
    let build_config2 = r#"
        {
            "version": "6",
            "tasks": {
                "task2": {
                    "index": "2",
                    "name": "task2",
                    "type": "non-bitbake",
                    "builddir": "test/config2",
                    "build": "config2",
                    "clean": "config2",
                    "artifacts": [
                        {
                            "source": "test/config.txt"
                        }
                    ]
                }
            },
            "upload": {
                "cmd": "config2"
            }
        }"#;
    let main = WsBuildData::from_str(main_build_config).expect("Failed parse build config");
    let includes = cfg_handler.include_paths(&main, &settings);
    assert_eq!(includes[0], join(&settings.include_dir(), "config1.json"));
    assert_eq!(includes[1], join(&settings.include_dir(), "config2.json"));
    let fragments = vec![
        WsBuildData::from_str(build_config1).expect("Failed parse build config"),
        WsBuildData::from_str(build_config2).expect("Failed parse build config"),
    ];
    let config = cfg_handler
        .setup_build_config(main, &fragments, &settings)
        .expect("Failed parse build config");
    assert_eq!(config.build_data().name, "test-product");
    assert_eq!(config.build_data().machine, "test-machine");
    // A fragment's task replaces the main file's task of the same name.
    let t0: &WsTask = config.build_data().task("task0").unwrap();
    assert_eq!(t0.build, "config1");
    assert_eq!(config.task_build_dir(t0), join(&settings.work_dir(), "test/config1"));
    let t1: &WsTask = config.build_data().task("task1").unwrap();
    assert_eq!(
        config.task_build_dir(t1),
        join(&settings.work_dir(), "builds/test-product")
    );
    let t2: &WsTask = config.build_data().task("task2").unwrap();
    assert_eq!(t2.build, "config2");
    assert_eq!(config.task_build_dir(t2), join(&settings.work_dir(), "test/config2"));
    let setup: &WsSubCmd = config.build_data().subcmd("setup").unwrap();
    assert_eq!(setup.cmd, "config1");
    let sync: &WsSubCmd = config.build_data().subcmd("sync").unwrap();
    assert_eq!(sync.cmd, "config1");
    let upload: &WsSubCmd = config.build_data().subcmd("upload").unwrap();
    assert_eq!(upload.cmd, "config2");
    assert_eq!(config.tasks().len(), 3);
}

#[test]
fn test_cfg_handler_ws_configs_using_build_config_ctx() {
    let work_dir: String = String::from(WORK_DIR);
    let ws_settings: &str = r#"
        {
            "version": "5",
            "workspace": {
                "artifactsdir": "artifacts/$#[BKRY_NAME]",
                "includedir": "$#[BKRY_CFG_DIR]/include",
                "scriptsdir": "$#[BKRY_OPT_SCRIPTS_DIR]"
            }
        }"#;
    let cfg_handler: WsConfigFileHandler = WsConfigFileHandler::new(WORK_DIR, HOME_DIR);
    let settings: WsSettingsHandler = cfg_handler
        .ws_settings(Some((join(&work_dir, "workspace.json"), ws_settings.to_string())))
        .expect("Failed parse workspace settings");
    assert_eq!(settings.artifacts_dir(), join(&work_dir, "artifacts/$#[BKRY_NAME]"));
    assert_eq!(settings.include_dir(), String::from("/etc/bakery/include"));
    assert_eq!(settings.scripts_dir(), String::from("/opt/bakery/scripts"));
    let build_conf_configs_dir = r#"
        {
            "version": "6",
            "name": "ws-configs-build-config",
            "description": "Test Description",
            "arch": "test-arch"
        }"#;
    let main = WsBuildData::from_str(build_conf_configs_dir).expect("Failed parse build config");
    let config = cfg_handler
        .setup_build_config(main, &vec![], &settings)
        .expect("Failed parse build config");
    assert_eq!(config.context().value("BKRY_NAME"), "ws-configs-build-config");
    assert_eq!(config.build_data().name, "ws-configs-build-config");
    assert_eq!(
        config.settings().artifacts_dir(),
        join(&work_dir, "artifacts/ws-configs-build-config")
    );
    assert_eq!(config.settings().include_dir(), String::from("/etc/bakery/include"));
    assert_eq!(config.settings().scripts_dir(), String::from("/opt/bakery/scripts"));
}

#[test]
fn test_cmd_list_invalid_build_config() {
    let work_dir: String = String::from(WORK_DIR);
    let json_ws_settings: &str = r#"
        {
            "version": "6",
            "builds": {
                "supported": [
                    "default"
                ]
            }
        }"#;
    let settings = WsSettingsHandler::from_str(&work_dir, json_ws_settings, None).unwrap();
    let cmd: ListCommand = ListCommand::new();
    let result = cmd.listing("invalid", settings.supported_builds(), false);
    match result {
        Ok(_status) => {
            panic!("We should have recived an error because the config is invalid!");
        }
        Err(e) => {
            assert_eq!(e.message(), "Unsupported build config 'invalid'".to_string());
        }
    }
}
