//! Names that the server shares with the database and with scripts.

use vstd::prelude::*;

verus! {

/// The program's name: prefix of the tables, name of the notification
/// channel and of the session cookie, and secret of the tokens.
pub const PROGRAM_NAME: &'static str = "nino";

/// Whether routes are read from the cache; else each read asks the table.
pub const USE_REQUEST_CACHE: bool = true;

/// Whether responses are read from the cache; else each read asks the
/// table.
pub const USE_RESPONSE_CACHE: bool = true;

/// The table of settings.
pub const SETTINGS_TABLE: &'static str = "nino_setting";

/// The table of routes.
pub const REQUESTS_TABLE: &'static str = "nino_request";

/// The table of static and executable content.
pub const RESPONSE_TABLE: &'static str = "nino_response";

/// The table of database aliases.
pub const DATABASE_TABLE: &'static str = "nino_database";

/// The table that takes log rows.
pub const LOG_TABLE: &'static str = "nino_log";

/// The origin under which every script module is resolved.
pub const MODULE_URI: &'static str = "http://nino.db/";

/// The module every worker isolate runs.
pub const MAIN_MODULE: &'static str = "_main";

/// The module that turns authored sources into runnable scripts.
pub const TRANSPILE_MODULE: &'static str = "_transpile_dynamics";

/// The alias of the database the server was started with.
pub const MAIN_DB: &'static str = "_main";

/// The tag of the one supported kind of database.
pub const DB_TYPE_POSTGRES: &'static str = "postgres";

/// The claim of a token that names the user.
pub const JWT_USER: &'static str = "user";

/// Prefix of the notifications that invalidate routes.
pub const NOTIFICATION_PREFIX_REQUEST: &'static str = "request:";

/// Prefix of the notifications that invalidate responses.
pub const NOTIFICATION_PREFIX_RESPONSE: &'static str = "response:";

/// Prefix of the notifications that invalidate settings.
pub const NOTIFICATION_PREFIX_SETTING: &'static str = "setting:";

/// Prefix of the notifications that invalidate database aliases.
pub const NOTIFICATION_PREFIX_DBNAME: &'static str = "database:";

/// Key of the opaque tag of the environment.
pub const SETTINGS_NINO_SYSTEM_ID: &'static str = "nino_system_id";

pub const SETTINGS_NINO_SYSTEM_ID_DEFAULT: &'static str = "N1N0";

/// Key of the number of threads that serve I/O.
pub const SETTINGS_NINO_THREAD_COUNT: &'static str = "nino_core_thread_count";

pub const SETTINGS_NINO_THREAD_COUNT_DEFAULT: i32 = 4;

/// Key of the number of script isolates.
pub const SETTINGS_JS_THREAD_COUNT: &'static str = "nino_js_thread_count";

pub const SETTINGS_JS_THREAD_COUNT_DEFAULT: i32 = 1;

/// Key of the port the server listens on.
pub const SETTINGS_NINO_WEB_SERVER_PORT: &'static str = "nino_web_server_port";

pub const SETTINGS_NINO_WEB_SERVER_PORT_DEFAULT: i32 = 8080;

/// Key of the size of the connection pool; zero asks for one connection
/// per thread.
pub const SETTINGS_DB_CONNECTION_POOL_SIZE: &'static str = "nino_db_connection_pool_size";

pub const SETTINGS_DB_CONNECTION_POOL_SIZE_DEFAULT: i32 = 0;

/// Key of the inspector's port; zero switches the inspector off.
pub const SETTINGS_NINO_DEBUG_PORT: &'static str = "nino_debug_port";

pub const SETTINGS_NINO_DEBUG_PORT_DEFAULT: i32 = 0;

/// Key of the time, in milliseconds, a client has to send its request.
pub const SETTINGS_NINO_WEB_REQUEST_TIMEOUT: &'static str = "nino_web_request_timeout_ms";

pub const SETTINGS_NINO_WEB_REQUEST_TIMEOUT_DEFAULT: i32 = 30000;

/// Key of the path a client without credentials is sent to.
pub const SETTINGS_NINO_LOGIN_PATH: &'static str = "nino_login_paths";

pub const SETTINGS_NINO_LOGIN_PATH_DEFAULT: &'static str = "/login";

} // verus!
