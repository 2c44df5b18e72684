use wow_launcher::config::{load, save, SaveFault, Stored};
use wow_launcher::{Config, ServiceKind, Status};

fn configured() -> Config {
    Config {
        mysql_path: "mysqld.exe".to_string(),
        auth_path: "auth.exe".to_string(),
        world_path: "world.exe".to_string(),
        client_path: "wow.exe".to_string(),
    }
}

#[test]
fn paths_by_program() {
    let mut config = Config::default();
    for kind in ServiceKind::ALL {
        assert_eq!(config.path_for(kind), "");
        assert!(!config.path_set(kind));
    }
    for kind in ServiceKind::ALL {
        config.set_path(kind, format!("path-{}", kind.index()));
    }
    assert_eq!(config.mysql_path, "path-0");
    assert_eq!(config.auth_path, "path-1");
    assert_eq!(config.world_path, "path-2");
    assert_eq!(config.client_path, "path-3");
    assert_eq!(config.path_for(ServiceKind::World), "path-2");
    assert_eq!(config.clone().path_for(ServiceKind::Client), "path-3");
}

#[test]
fn blank_paths_are_not_set() {
    let mut config = configured();
    config.set_path(ServiceKind::Auth, " \t\u{3000}".to_string());
    assert!(!config.path_set(ServiceKind::Auth));
    assert!(config.path_set(ServiceKind::World));
    assert_eq!(config.set_count(), 3);
    assert_eq!(config.first_unset_service(), Some(ServiceKind::Auth));
}

#[test]
fn validation_names_the_first_missing_path() {
    let mut config = configured();
    assert_eq!(config.validate_all(), Ok(()));
    assert_eq!(config.first_unset_service(), None);
    config.set_path(ServiceKind::Client, String::new());
    assert_eq!(
        config.validate_all(),
        Err("客户端 未配置: 请为当前应用设置启动路径。".to_string())
    );
    // The client is not one of the services.
    assert_eq!(config.first_unset_service(), None);
    config.set_path(ServiceKind::World, "  ".to_string());
    assert_eq!(
        config.validate_all(),
        Err("World Server 未配置: 请为当前应用设置启动路径。".to_string())
    );
    assert_eq!(
        Config::default().validate_all(),
        Err("MySQL 未配置: 请为当前应用设置启动路径。".to_string())
    );
}

#[test]
fn same_path_compares_one_program() {
    let config = configured();
    let mut other = configured();
    other.set_path(ServiceKind::World, "other.exe".to_string());
    assert!(config.same_path(&other, ServiceKind::Mysql));
    assert!(config.same_path(&other, ServiceKind::Auth));
    assert!(!config.same_path(&other, ServiceKind::World));
    assert!(config.same_path(&other, ServiceKind::Client));
}

#[test]
fn loading_falls_back_to_empty_paths() {
    let (config, warning) = load(Stored::Parsed(configured()));
    assert_eq!(config.auth_path, "auth.exe");
    assert_eq!(warning, None);
    let (config, warning) = load(Stored::Missing);
    assert_eq!(config.set_count(), 0);
    assert_eq!(warning, None);
    let (config, warning) = load(Stored::Malformed);
    assert_eq!(config.set_count(), 0);
    assert_eq!(warning, None);
    let (config, warning) = load(Stored::Unreadable("denied".to_string()));
    assert_eq!(config.set_count(), 0);
    assert_eq!(warning, Some("读取配置失败: denied".to_string()));
}

#[test]
fn saving_explains_each_fault() {
    assert_eq!(save(Ok(())), Ok(()));
    assert_eq!(save(Err(SaveFault::NoDirectory)), Err("无法定位启动器目录".to_string()));
    assert_eq!(save(Err(SaveFault::Encoding("bad".to_string()))), Err("bad".to_string()));
    assert_eq!(
        save(Err(SaveFault::Writing("full".to_string()))),
        Err("写入配置失败: full".to_string())
    );
}

#[test]
fn programs_and_their_names() {
    let labels: Vec<&str> = ServiceKind::ALL.iter().map(|k| k.label()).collect();
    assert_eq!(labels, vec!["MySQL", "Auth Server", "World Server", "客户端"]);
    let slots: Vec<usize> = ServiceKind::ALL.iter().map(|k| k.index()).collect();
    assert_eq!(slots, vec![0, 1, 2, 3]);
    assert_eq!(ServiceKind::SERVICES.len(), 3);
    assert_eq!(ServiceKind::Mysql.placeholder(), "mysqld.exe 完整路径");
    assert_eq!(ServiceKind::Auth.placeholder(), "auth_server 可执行文件路径");
    assert_eq!(ServiceKind::World.placeholder(), "world_server 可执行文件路径");
}

#[test]
fn statuses_and_their_words() {
    let all = [
        (Status::Stopped, "已停止", false),
        (Status::Starting, "启动中…", true),
        (Status::Running, "运行中", true),
        (Status::Stopping, "停止中…", true),
        (Status::Waiting, "等待 MySQL 启动…", false),
    ];
    for (status, words, operational) in all {
        assert_eq!(status.text(), words);
        assert_eq!(status.is_operational(), operational);
    }
    assert!(!Status::Error.is_operational());
}
