use myssh::profiles::{
    delete_server_response, save_server_response, update_server_response, SaveServerParams, ServerConfig,
    UpdateServerParams,
};

fn s(x: &str) -> String {
    x.to_string()
}

fn stored() -> ServerConfig {
    ServerConfig::from_save(SaveServerParams {
        id: s("srv-1"),
        name: s("db"),
        host: s("db1"),
        port: 22,
        username: s("admin"),
        password: None,
        key_path: Some(s("/home/admin/.ssh/id_ed25519")),
    })
}

fn no_change(id: &str) -> UpdateServerParams {
    UpdateServerParams {
        id: s(id),
        name: None,
        host: None,
        port: None,
        username: None,
        password: None,
        key_path: None,
    }
}

#[test]
fn update_replaces_given_fields_only() {
    let mut p = no_change("srv-1");
    p.port = Some(2222);
    p.name = Some(s("primary db"));
    assert!(p.has_changes());
    let c = stored().apply_update(p);
    assert_eq!(c.id, "srv-1");
    assert_eq!(c.name, "primary db");
    assert_eq!(c.host, "db1");
    assert_eq!(c.port, 2222);
    assert_eq!(c.username, "admin");
    assert_eq!(c.password, None);
    assert_eq!(c.key_path.as_deref(), Some("/home/admin/.ssh/id_ed25519"));
}

#[test]
fn update_without_fields_changes_nothing() {
    let p = no_change("srv-1");
    assert!(!p.has_changes());
    let c = stored().apply_update(p);
    assert_eq!(c.name, "db");
    assert_eq!(c.port, 22);
    let r = update_server_response(false);
    assert!(r.success);
    assert_eq!(r.message.as_deref(), Some("没有需要更新的字段"));
    assert_eq!(update_server_response(true).message.as_deref(), Some("更新成功"));
}

#[test]
fn delete_missing_profile_fails() {
    assert_eq!(delete_server_response(0).err().unwrap(), "服务器不存在");
    let d = delete_server_response(1).ok().unwrap();
    assert!(d.success);
    assert_eq!(d.message.as_deref(), Some("删除成功"));
    let saved = save_server_response("srv-9".to_string());
    assert!(saved.success);
    assert_eq!(saved.id, "srv-9");
    assert_eq!(saved.message.as_deref(), Some("保存成功"));
}
