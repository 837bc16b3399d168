use vstd::prelude::*;

verus! {

/// A stored server profile.
pub struct ServerConfig {
    pub id: String,
    pub name: String,
    pub host: String,
    pub port: u16,
    pub username: String,
    pub password: Option<String>,
    pub key_path: Option<String>,
}

pub struct GetServersParams {}

pub struct GetServersResult {
    pub servers: Vec<ServerConfig>,
}

pub struct SaveServerParams {
    pub id: String,
    pub name: String,
    pub host: String,
    pub port: u16,
    pub username: String,
    pub password: Option<String>,
    pub key_path: Option<String>,
}

pub struct SaveServerResult {
    pub success: bool,
    pub id: String,
    pub message: Option<String>,
}

/// A partial update: each field that is present replaces the stored one.
pub struct UpdateServerParams {
    pub id: String,
    pub name: Option<String>,
    pub host: Option<String>,
    pub port: Option<u16>,
    pub username: Option<String>,
    pub password: Option<String>,
    pub key_path: Option<String>,
}

pub struct UpdateServerResult {
    pub success: bool,
    pub message: Option<String>,
}

pub struct DeleteServerParams {
    pub server_id: String,
}

pub struct DeleteServerResult {
    pub success: bool,
    pub message: Option<String>,
}

pub struct GetServerParams {
    pub server_id: String,
}

pub struct GetServerResult {
    pub server: Option<ServerConfig>,
}

pub open spec fn text_or(o: Option<String>, d: Seq<char>) -> Seq<char> {
    match o {
        Some(s) => s@,
        None => d,
    }
}

pub open spec fn opt_text(o: Option<String>) -> Option<Seq<char>> {
    match o {
        Some(s) => Some(s@),
        None => None,
    }
}

/// Whether an update names any field to change.
pub open spec fn has_changes_spec(p: UpdateServerParams) -> bool {
    p.name is Some || p.host is Some || p.port is Some || p.username is Some || p.password is Some
        || p.key_path is Some
}

impl UpdateServerParams {
    pub fn has_changes(&self) -> (r: bool)
        ensures
            r == has_changes_spec(*self),
    {
        self.name.is_some() || self.host.is_some() || self.port.is_some() || self.username.is_some()
            || self.password.is_some() || self.key_path.is_some()
    }
}

impl ServerConfig {
    /// A profile as `save_server` stores it.
    pub fn from_save(p: SaveServerParams) -> (r: ServerConfig)
        ensures
            r.id@ == p.id@ && r.name@ == p.name@ && r.host@ == p.host@ && r.port == p.port
                && r.username@ == p.username@ && opt_text(r.password) == opt_text(p.password)
                && opt_text(r.key_path) == opt_text(p.key_path),
    {
        ServerConfig {
            id: p.id,
            name: p.name,
            host: p.host,
            port: p.port,
            username: p.username,
            password: p.password,
            key_path: p.key_path,
        }
    }

    /// The profile after `p` is applied: each field that `p` carries replaces
    /// the stored one, the others stay. A password or key path can be set but
    /// not cleared this way.
    pub fn apply_update(self, p: UpdateServerParams) -> (r: ServerConfig)
        ensures
            r.id@ == self.id@,
            r.name@ == text_or(p.name, self.name@),
            r.host@ == text_or(p.host, self.host@),
            r.port == (match p.port {
                Some(v) => v,
                None => self.port,
            }),
            r.username@ == text_or(p.username, self.username@),
            opt_text(r.password) == (if p.password is Some {
                opt_text(p.password)
            } else {
                opt_text(self.password)
            }),
            opt_text(r.key_path) == (if p.key_path is Some {
                opt_text(p.key_path)
            } else {
                opt_text(self.key_path)
            }),
    {
        ServerConfig {
            id: self.id,
            name: match p.name {
                Some(v) => v,
                None => self.name,
            },
            host: match p.host {
                Some(v) => v,
                None => self.host,
            },
            port: match p.port {
                Some(v) => v,
                None => self.port,
            },
            username: match p.username {
                Some(v) => v,
                None => self.username,
            },
            password: match p.password {
                Some(v) => Some(v),
                None => self.password,
            },
            key_path: match p.key_path {
                Some(v) => Some(v),
                None => self.key_path,
            },
        }
    }
}

/// The response to `update_server` of an existing profile.
pub fn update_server_response(changed: bool) -> (r: UpdateServerResult)
    ensures
        r.success,
        r.message matches Some(m) && m@ == (if changed {
            "更新成功"@
        } else {
            "没有需要更新的字段"@
        }),
{
    let m = if changed {
        String::from_str("更新成功")
    } else {
        String::from_str("没有需要更新的字段")
    };
    UpdateServerResult { success: true, message: Some(m) }
}

/// The response to `delete_server`, from how many stored rows it removed:
/// none means the profile did not exist.
pub fn delete_server_response(rows_removed: usize) -> (r: Result<DeleteServerResult, String>)
    ensures
        r is Ok <==> rows_removed > 0,
        r matches Ok(d) ==> d.success,
        r matches Ok(d) ==> d.message matches Some(m) && m@ == "删除成功"@,
        r matches Err(m) ==> m@ == "服务器不存在"@,
{
    if rows_removed == 0 {
        Err(String::from_str("服务器不存在"))
    } else {
        Ok(DeleteServerResult { success: true, message: Some(String::from_str("删除成功")) })
    }
}

/// The response to `save_server` of the profile `id`.
pub fn save_server_response(id: String) -> (r: SaveServerResult)
    ensures
        r.success,
        r.id@ == id@,
        r.message matches Some(m) && m@ == "保存成功"@,
{
    SaveServerResult { success: true, id, message: Some(String::from_str("保存成功")) }
}

} // verus!
