//! The command line of surrealmcp, and the server configuration that the
//! start and restart commands make of it.
use vstd::prelude::*;

verus! {

/// The command line: one command.
pub struct Cli {
    pub command: Commands,
}

/// The commands, with their arguments as the command line gave them.
#[allow(inconsistent_fields)]
pub enum Commands {
    /// Start the MCP server.
    Start {
        endpoint: Option<String>,
        ns: Option<String>,
        db: Option<String>,
        user: Option<String>,
        pass: Option<String>,
        bind_address: Option<String>,
        socket_path: Option<String>,
        rate_limit_rps: u32,
        rate_limit_burst: u32,
        auth_disabled: bool,
        server_url: String,
        auth_server: String,
        auth_audience: String,
        cloud_access_token: Option<String>,
        cloud_refresh_token: Option<String>,
    },
    /// Stop a running MCP server.
    Stop { bind_address: String, force: bool },
    /// Check if MCP server is running.
    Status { bind_address: String },
    /// Restart the MCP server.
    Restart {
        bind_address: String,
        force: bool,
        endpoint: Option<String>,
        ns: Option<String>,
        db: Option<String>,
        user: Option<String>,
        pass: Option<String>,
        new_bind_address: Option<String>,
        socket_path: Option<String>,
        rate_limit_rps: Option<u32>,
        rate_limit_burst: Option<u32>,
        auth_disabled: Option<bool>,
        server_url: Option<String>,
        auth_server: Option<String>,
        auth_audience: Option<String>,
        cloud_access_token: Option<String>,
        cloud_refresh_token: Option<String>,
    },
}

/// What the server is started with.
pub struct ServerConfig {
    pub endpoint: Option<String>,
    pub ns: Option<String>,
    pub db: Option<String>,
    pub user: Option<String>,
    pub pass: Option<String>,
    pub server_url: String,
    pub bind_address: Option<String>,
    pub socket_path: Option<String>,
    pub auth_disabled: bool,
    pub rate_limit_rps: u32,
    pub rate_limit_burst: u32,
    pub auth_server: String,
    pub auth_audience: String,
    pub cloud_access_token: Option<String>,
    pub cloud_refresh_token: Option<String>,
}

/// Requests per second that the rate limit allows unless told otherwise.
pub const DEFAULT_RATE_LIMIT_RPS: u32 = 100;

/// The burst that the rate limit allows unless told otherwise.
pub const DEFAULT_RATE_LIMIT_BURST: u32 = 200;

/// The public URL of the server unless told otherwise.
pub open spec fn default_server_url() -> Seq<char> {
    "https://mcp.surrealdb.com"@
}

/// The authentication server unless told otherwise.
pub open spec fn default_auth_server() -> Seq<char> {
    "https://auth.surrealdb.com"@
}

/// The audience expected in tokens unless told otherwise.
pub open spec fn default_auth_audience() -> Seq<char> {
    "https://mcp.surrealdb.com/"@
}

/// An optional text with an empty text counted as absent.
pub open spec fn non_empty_spec(value: Option<String>) -> Option<String> {
    match value {
        Some(s) => if s@.len() > 0 {
            Some(s)
        } else {
            None
        },
        None => None,
    }
}

/// The text of an option, or `default` where it is absent.
pub open spec fn text_or(value: Option<String>, default: Seq<char>) -> Seq<char> {
    match value {
        Some(s) => s@,
        None => default,
    }
}

/// The address a restart starts the server on: the new one where one that is
/// not empty was given, else the address of the server that was stopped.
pub open spec fn restart_address(bind_address: String, new_bind_address: Option<String>) -> String {
    match new_bind_address {
        Some(a) => if a@.len() > 0 {
            a
        } else {
            bind_address
        },
        None => bind_address,
    }
}

/// Treats an empty text as absent.
pub fn non_empty(value: Option<String>) -> (r: Option<String>)
    ensures
        r == non_empty_spec(value),
{
    match value {
        Some(s) => if s.as_str().is_empty() {
            None
        } else {
            Some(s)
        },
        None => None,
    }
}

/// The text of an option, or the text `default` where it is absent.
pub fn string_or(value: Option<String>, default: &str) -> (r: String)
    ensures
        r@ == text_or(value, default@),
{
    match value {
        Some(s) => s,
        None => String::from_str(default),
    }
}

/// The address a restart starts the server on.
pub fn choose_restart_address(bind_address: &String, new_bind_address: &Option<String>) -> (r: String)
    ensures
        r == restart_address(*bind_address, *new_bind_address),
{
    match new_bind_address {
        Some(a) => if a.as_str().is_empty() {
            bind_address.clone()
        } else {
            a.clone()
        },
        None => bind_address.clone(),
    }
}

/// The configuration that `start` runs the server with: the arguments as
/// given, with empty bind address, socket path and endpoint counted as absent.
pub open spec fn is_start_config(
    c: ServerConfig,
    endpoint: Option<String>,
    ns: Option<String>,
    db: Option<String>,
    user: Option<String>,
    pass: Option<String>,
    bind_address: Option<String>,
    socket_path: Option<String>,
    rate_limit_rps: u32,
    rate_limit_burst: u32,
    auth_disabled: bool,
    server_url: String,
    auth_server: String,
    auth_audience: String,
    cloud_access_token: Option<String>,
    cloud_refresh_token: Option<String>,
) -> bool {
    &&& c.endpoint == non_empty_spec(endpoint)
    &&& c.ns == ns
    &&& c.db == db
    &&& c.user == user
    &&& c.pass == pass
    &&& c.server_url == server_url
    &&& c.bind_address == non_empty_spec(bind_address)
    &&& c.socket_path == non_empty_spec(socket_path)
    &&& c.auth_disabled == auth_disabled
    &&& c.rate_limit_rps == rate_limit_rps
    &&& c.rate_limit_burst == rate_limit_burst
    &&& c.auth_server == auth_server
    &&& c.auth_audience == auth_audience
    &&& c.cloud_access_token == cloud_access_token
    &&& c.cloud_refresh_token == cloud_refresh_token
}

/// The configuration that `restart` runs the server with: the arguments as
/// given, the defaults of `start` where one is absent, the restart address,
/// and empty socket path and endpoint counted as absent.
pub open spec fn is_restart_config(
    c: ServerConfig,
    bind_address: String,
    endpoint: Option<String>,
    ns: Option<String>,
    db: Option<String>,
    user: Option<String>,
    pass: Option<String>,
    new_bind_address: Option<String>,
    socket_path: Option<String>,
    rate_limit_rps: Option<u32>,
    rate_limit_burst: Option<u32>,
    auth_disabled: Option<bool>,
    server_url: Option<String>,
    auth_server: Option<String>,
    auth_audience: Option<String>,
    cloud_access_token: Option<String>,
    cloud_refresh_token: Option<String>,
) -> bool {
    &&& c.endpoint == non_empty_spec(endpoint)
    &&& c.ns == ns
    &&& c.db == db
    &&& c.user == user
    &&& c.pass == pass
    &&& c.server_url@ == text_or(server_url, default_server_url())
    &&& c.bind_address == Some(restart_address(bind_address, new_bind_address))
    &&& c.socket_path == non_empty_spec(socket_path)
    &&& c.auth_disabled == (match auth_disabled {
        Some(b) => b,
        None => false,
    })
    &&& c.rate_limit_rps == (match rate_limit_rps {
        Some(r) => r,
        None => DEFAULT_RATE_LIMIT_RPS,
    })
    &&& c.rate_limit_burst == (match rate_limit_burst {
        Some(r) => r,
        None => DEFAULT_RATE_LIMIT_BURST,
    })
    &&& c.auth_server@ == text_or(auth_server, default_auth_server())
    &&& c.auth_audience@ == text_or(auth_audience, default_auth_audience())
    &&& c.cloud_access_token == cloud_access_token
    &&& c.cloud_refresh_token == cloud_refresh_token
}

/// The configuration of `start`.
pub fn start_config(
    endpoint: Option<String>,
    ns: Option<String>,
    db: Option<String>,
    user: Option<String>,
    pass: Option<String>,
    bind_address: Option<String>,
    socket_path: Option<String>,
    rate_limit_rps: u32,
    rate_limit_burst: u32,
    auth_disabled: bool,
    server_url: String,
    auth_server: String,
    auth_audience: String,
    cloud_access_token: Option<String>,
    cloud_refresh_token: Option<String>,
) -> (c: ServerConfig)
    ensures
        is_start_config(
            c,
            endpoint,
            ns,
            db,
            user,
            pass,
            bind_address,
            socket_path,
            rate_limit_rps,
            rate_limit_burst,
            auth_disabled,
            server_url,
            auth_server,
            auth_audience,
            cloud_access_token,
            cloud_refresh_token,
        ),
{
    ServerConfig {
        endpoint: non_empty(endpoint),
        ns,
        db,
        user,
        pass,
        server_url,
        bind_address: non_empty(bind_address),
        socket_path: non_empty(socket_path),
        auth_disabled,
        rate_limit_rps,
        rate_limit_burst,
        auth_server,
        auth_audience,
        cloud_access_token,
        cloud_refresh_token,
    }
}

/// The configuration of `restart`.
pub fn restart_config(
    bind_address: &String,
    endpoint: Option<String>,
    ns: Option<String>,
    db: Option<String>,
    user: Option<String>,
    pass: Option<String>,
    new_bind_address: &Option<String>,
    socket_path: Option<String>,
    rate_limit_rps: Option<u32>,
    rate_limit_burst: Option<u32>,
    auth_disabled: Option<bool>,
    server_url: Option<String>,
    auth_server: Option<String>,
    auth_audience: Option<String>,
    cloud_access_token: Option<String>,
    cloud_refresh_token: Option<String>,
) -> (c: ServerConfig)
    ensures
        is_restart_config(
            c,
            *bind_address,
            endpoint,
            ns,
            db,
            user,
            pass,
            *new_bind_address,
            socket_path,
            rate_limit_rps,
            rate_limit_burst,
            auth_disabled,
            server_url,
            auth_server,
            auth_audience,
            cloud_access_token,
            cloud_refresh_token,
        ),
{
    ServerConfig {
        endpoint: non_empty(endpoint),
        ns,
        db,
        user,
        pass,
        server_url: string_or(server_url, "https://mcp.surrealdb.com"),
        bind_address: Some(choose_restart_address(bind_address, new_bind_address)),
        socket_path: non_empty(socket_path),
        auth_disabled: match auth_disabled {
            Some(b) => b,
            None => false,
        },
        rate_limit_rps: match rate_limit_rps {
            Some(r) => r,
            None => DEFAULT_RATE_LIMIT_RPS,
        },
        rate_limit_burst: match rate_limit_burst {
            Some(r) => r,
            None => DEFAULT_RATE_LIMIT_BURST,
        },
        auth_server: string_or(auth_server, "https://auth.surrealdb.com"),
        auth_audience: string_or(auth_audience, "https://mcp.surrealdb.com/"),
        cloud_access_token,
        cloud_refresh_token,
    }
}

} // verus!
