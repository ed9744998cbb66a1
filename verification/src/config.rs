//! The configuration of the service.
//!
//! The configuration is put together once, at startup, in three steps: the
//! values found in the configuration source are checked and completed with
//! defaults, the paths among them are made absolute, and the signing key is
//! derived from the secret. Any failure on the way is final: no service runs
//! on half a configuration. What comes out is never changed again.

use crate::keys::SigningKey;
use crate::numeric::{parse_i32, spec_parse_i32};
use crate::path::{
    is_absolute, is_under, resolve, resolve_under, spec_resolve, spec_resolve_under, unclosed,
};
use vstd::prelude::*;
use vstd::string::{StrSliceExecFns, StringExecFns, StringSliceAdditionalSpecFns};

verus! {

/// The values that make up the configuration, by name.
#[derive(Clone, Copy, Debug, PartialEq, Eq, Structural)]
pub enum Setting {
    DbName,
    DbHost,
    DbPort,
    DbUser,
    DbPassword,
    GhClientId,
    GhPrivateId,
    GhOrgName,
    GhOrgTeamSlug,
    GhOrgAdminToken,
    JwtSecret,
    MaxUploadLimit,
    LogLocation,
    StaticFilesUrl,
    StaticFileStorageLocation,
    UploadedQpsPath,
    ServerPort,
    CorsAllowedOrigins,
}

impl Setting {
    /// The name under which the value is looked up in the configuration source.
    pub open spec fn spec_name(self) -> Seq<char> {
        match self {
            Setting::DbName => "DB_NAME"@,
            Setting::DbHost => "DB_HOST"@,
            Setting::DbPort => "DB_PORT"@,
            Setting::DbUser => "DB_USER"@,
            Setting::DbPassword => "DB_PASSWORD"@,
            Setting::GhClientId => "GH_CLIENT_ID"@,
            Setting::GhPrivateId => "GH_PRIVATE_ID"@,
            Setting::GhOrgName => "GH_ORG_NAME"@,
            Setting::GhOrgTeamSlug => "GH_ORG_TEAM_SLUG"@,
            Setting::GhOrgAdminToken => "GH_ORG_ADMIN_TOKEN"@,
            Setting::JwtSecret => "JWT_SECRET"@,
            Setting::MaxUploadLimit => "MAX_UPLOAD_LIMIT"@,
            Setting::LogLocation => "LOG_LOCATION"@,
            Setting::StaticFilesUrl => "STATIC_FILES_URL"@,
            Setting::StaticFileStorageLocation => "STATIC_FILE_STORAGE_LOCATION"@,
            Setting::UploadedQpsPath => "UPLOADED_QPS_PATH"@,
            Setting::ServerPort => "SERVER_PORT"@,
            Setting::CorsAllowedOrigins => "CORS_ALLOWED_ORIGINS"@,
        }
    }

    /// The name under which the value is looked up in the configuration source.
    pub fn name(&self) -> (name: &'static str)
        ensures
            name@ == self.spec_name(),
    {
        match self {
            Setting::DbName => "DB_NAME",
            Setting::DbHost => "DB_HOST",
            Setting::DbPort => "DB_PORT",
            Setting::DbUser => "DB_USER",
            Setting::DbPassword => "DB_PASSWORD",
            Setting::GhClientId => "GH_CLIENT_ID",
            Setting::GhPrivateId => "GH_PRIVATE_ID",
            Setting::GhOrgName => "GH_ORG_NAME",
            Setting::GhOrgTeamSlug => "GH_ORG_TEAM_SLUG",
            Setting::GhOrgAdminToken => "GH_ORG_ADMIN_TOKEN",
            Setting::JwtSecret => "JWT_SECRET",
            Setting::MaxUploadLimit => "MAX_UPLOAD_LIMIT",
            Setting::LogLocation => "LOG_LOCATION",
            Setting::StaticFilesUrl => "STATIC_FILES_URL",
            Setting::StaticFileStorageLocation => "STATIC_FILE_STORAGE_LOCATION",
            Setting::UploadedQpsPath => "UPLOADED_QPS_PATH",
            Setting::ServerPort => "SERVER_PORT",
            Setting::CorsAllowedOrigins => "CORS_ALLOWED_ORIGINS",
        }
    }
}

/// Why no configuration could be made.
#[derive(Clone, Copy, Debug, PartialEq, Eq, Structural)]
pub enum ConfigError {
    /// A value that has no default is absent.
    MissingValue(Setting),
    /// A value is there but cannot be used: a number that is none or is out of
    /// range, or an empty text where one is needed.
    InvalidValue(Setting),
    /// A path cannot be made absolute.
    PathResolution(Setting),
    /// The secret gives no signing key.
    KeyDerivation,
}

/// The signing secret. Its text can be read inside this crate only.
#[derive(Clone)]
pub struct Secret {
    text: String,
}

impl View for Secret {
    type V = Seq<char>;

    closed spec fn view(&self) -> Seq<char> {
        self.text@
    }
}

impl Secret {
    pub fn new(text: String) -> (secret: Secret)
        ensures
            secret@ == text@,
    {
        Secret { text }
    }

    pub(crate) fn text(&self) -> (text: &str)
        ensures
            text@ == self@,
    {
        self.text.as_str()
    }
}

/// The values as the configuration source holds them: text, or nothing where
/// the source has no value of that name.
pub struct ConfigSource {
    pub db_name: Option<String>,
    pub db_host: Option<String>,
    pub db_port: Option<String>,
    pub db_user: Option<String>,
    pub db_password: Option<String>,
    pub gh_client_id: Option<String>,
    pub gh_private_id: Option<String>,
    pub gh_org_name: Option<String>,
    pub gh_org_team_slug: Option<String>,
    pub gh_org_admin_token: Option<String>,
    pub jwt_secret: Option<String>,
    pub max_upload_limit: Option<String>,
    pub log_location: Option<Vec<u8>>,
    pub static_files_url: Option<String>,
    pub static_file_storage_location: Option<Vec<u8>>,
    pub uploaded_qps_path: Option<Vec<u8>>,
    pub server_port: Option<String>,
    pub cors_allowed_origins: Option<String>,
}

pub struct ConfigSourceView {
    pub db_name: Option<Seq<char>>,
    pub db_host: Option<Seq<char>>,
    pub db_port: Option<Seq<char>>,
    pub db_user: Option<Seq<char>>,
    pub db_password: Option<Seq<char>>,
    pub gh_client_id: Option<Seq<char>>,
    pub gh_private_id: Option<Seq<char>>,
    pub gh_org_name: Option<Seq<char>>,
    pub gh_org_team_slug: Option<Seq<char>>,
    pub gh_org_admin_token: Option<Seq<char>>,
    pub jwt_secret: Option<Seq<char>>,
    pub max_upload_limit: Option<Seq<char>>,
    pub log_location: Option<Seq<u8>>,
    pub static_files_url: Option<Seq<char>>,
    pub static_file_storage_location: Option<Seq<u8>>,
    pub uploaded_qps_path: Option<Seq<u8>>,
    pub server_port: Option<Seq<char>>,
    pub cors_allowed_origins: Option<Seq<char>>,
}

/// A text that may be absent, as a sequence of characters that may be absent.
pub open spec fn text_view(value: Option<String>) -> Option<Seq<char>> {
    match value {
        Some(text) => Some(text@),
        None => None,
    }
}

/// A path that may be absent, as a sequence of bytes that may be absent.
pub open spec fn bytes_view(value: Option<Vec<u8>>) -> Option<Seq<u8>> {
    match value {
        Some(bytes) => Some(bytes@),
        None => None,
    }
}

impl View for ConfigSource {
    type V = ConfigSourceView;

    open spec fn view(&self) -> ConfigSourceView {
        ConfigSourceView {
            db_name: text_view(self.db_name),
            db_host: text_view(self.db_host),
            db_port: text_view(self.db_port),
            db_user: text_view(self.db_user),
            db_password: text_view(self.db_password),
            gh_client_id: text_view(self.gh_client_id),
            gh_private_id: text_view(self.gh_private_id),
            gh_org_name: text_view(self.gh_org_name),
            gh_org_team_slug: text_view(self.gh_org_team_slug),
            gh_org_admin_token: text_view(self.gh_org_admin_token),
            jwt_secret: text_view(self.jwt_secret),
            max_upload_limit: text_view(self.max_upload_limit),
            log_location: bytes_view(self.log_location),
            static_files_url: text_view(self.static_files_url),
            static_file_storage_location: bytes_view(self.static_file_storage_location),
            uploaded_qps_path: bytes_view(self.uploaded_qps_path),
            server_port: text_view(self.server_port),
            cors_allowed_origins: text_view(self.cors_allowed_origins),
        }
    }
}

impl ConfigSource {
    /// A source that holds no value at all.
    pub fn empty() -> (source: ConfigSource)
        ensures
            source@.db_name is None,
            source@.db_host is None,
            source@.db_port is None,
            source@.db_user is None,
            source@.db_password is None,
            source@.gh_client_id is None,
            source@.gh_private_id is None,
            source@.gh_org_name is None,
            source@.gh_org_team_slug is None,
            source@.gh_org_admin_token is None,
            source@.jwt_secret is None,
            source@.max_upload_limit is None,
            source@.log_location is None,
            source@.static_files_url is None,
            source@.static_file_storage_location is None,
            source@.uploaded_qps_path is None,
            source@.server_port is None,
            source@.cors_allowed_origins is None,
    {
        ConfigSource {
            db_name: None,
            db_host: None,
            db_port: None,
            db_user: None,
            db_password: None,
            gh_client_id: None,
            gh_private_id: None,
            gh_org_name: None,
            gh_org_team_slug: None,
            gh_org_admin_token: None,
            jwt_secret: None,
            max_upload_limit: None,
            log_location: None,
            static_files_url: None,
            static_file_storage_location: None,
            uploaded_qps_path: None,
            server_port: None,
            cors_allowed_origins: None,
        }
    }
}

/// The checked values of the configuration.
#[derive(Clone)]
pub struct EnvVars {
    /// Database name
    pub db_name: String,
    /// Database hostname
    pub db_host: String,
    /// Database port
    pub db_port: String,
    /// Database username
    pub db_user: String,
    /// Database password
    pub db_password: String,
    /// OAuth app client id (public token)
    pub gh_client_id: String,
    /// OAuth app private token
    pub gh_private_id: String,
    /// Github organization name
    pub gh_org_name: String,
    /// Github organization team slug (this team has access to admin dashboard)
    pub gh_org_team_slug: String,
    /// An org admin's Github token (with the `read:org` permission)
    pub gh_org_admin_token: String,
    /// JWT encryption secret (make it a long, randomized string)
    pub jwt_secret: Secret,
    /// Maximum number of papers that can be uploaded at a time
    pub max_upload_limit: i32,
    /// Location where logs are stored
    pub log_location: Vec<u8>,
    /// The URL of the static files server (odin's vault)
    pub static_files_url: String,
    /// The path where static files are served from
    pub static_file_storage_location: Vec<u8>,
    /// The path where uploaded papers are stored temporarily, relative to the `static_file_storage_location`
    pub uploaded_qps_path: Vec<u8>,
    /// The port the server listens on
    pub server_port: i32,
    /// List of origins allowed (as a list of values separated by commas `origin1, origin2`)
    pub cors_allowed_origins: String,
}

pub struct EnvVarsView {
    pub db_name: Seq<char>,
    pub db_host: Seq<char>,
    pub db_port: Seq<char>,
    pub db_user: Seq<char>,
    pub db_password: Seq<char>,
    pub gh_client_id: Seq<char>,
    pub gh_private_id: Seq<char>,
    pub gh_org_name: Seq<char>,
    pub gh_org_team_slug: Seq<char>,
    pub gh_org_admin_token: Seq<char>,
    pub jwt_secret: Seq<char>,
    pub max_upload_limit: i32,
    pub log_location: Seq<u8>,
    pub static_files_url: Seq<char>,
    pub static_file_storage_location: Seq<u8>,
    pub uploaded_qps_path: Seq<u8>,
    pub server_port: i32,
    pub cors_allowed_origins: Seq<char>,
}

impl View for EnvVars {
    type V = EnvVarsView;

    open spec fn view(&self) -> EnvVarsView {
        EnvVarsView {
            db_name: self.db_name@,
            db_host: self.db_host@,
            db_port: self.db_port@,
            db_user: self.db_user@,
            db_password: self.db_password@,
            gh_client_id: self.gh_client_id@,
            gh_private_id: self.gh_private_id@,
            gh_org_name: self.gh_org_name@,
            gh_org_team_slug: self.gh_org_team_slug@,
            gh_org_admin_token: self.gh_org_admin_token@,
            jwt_secret: self.jwt_secret@,
            max_upload_limit: self.max_upload_limit,
            log_location: self.log_location@,
            static_files_url: self.static_files_url@,
            static_file_storage_location: self.static_file_storage_location@,
            uploaded_qps_path: self.uploaded_qps_path@,
            server_port: self.server_port,
            cors_allowed_origins: self.cors_allowed_origins@,
        }
    }
}

/// The default of the upload limit.
pub const DEFAULT_MAX_UPLOAD_LIMIT: i32 = 10;

/// The default of the port the server listens on.
pub const DEFAULT_SERVER_PORT: i32 = 8080;

/// The default of `log_location`.
pub open spec fn default_log_location() -> Seq<u8> {
    vstd::utf8::encode_utf8("./log/application.log"@)
}

/// The default of `static_files_url`.
pub open spec fn default_static_files_url() -> Seq<char> {
    "https://static.metakgp.org"@
}

/// The default of `static_file_storage_location`.
pub open spec fn default_static_file_storage_location() -> Seq<u8> {
    vstd::utf8::encode_utf8("/srv/static"@)
}

/// The default of `uploaded_qps_path`.
pub open spec fn default_uploaded_qps_path() -> Seq<u8> {
    vstd::utf8::encode_utf8("iqps/uploaded"@)
}

/// The default of `cors_allowed_origins`.
pub open spec fn default_cors_allowed_origins() -> Seq<char> {
    "https://qp.metakgp.org,http://localhost:5173"@
}

/// What is wrong with a value that has no default and must not be empty.
pub open spec fn required_error(value: Option<Seq<char>>, setting: Setting) -> Option<ConfigError> {
    match value {
        None => Some(ConfigError::MissingValue(setting)),
        Some(text) => if text.len() == 0 {
            Some(ConfigError::InvalidValue(setting))
        } else {
            None
        },
    }
}

/// What is wrong with a value that has no default.
pub open spec fn present_error(value: Option<Seq<char>>, setting: Setting) -> Option<ConfigError> {
    match value {
        None => Some(ConfigError::MissingValue(setting)),
        Some(_) => None,
    }
}

/// What is wrong with a number that has a default; `positive` asks for a
/// number above zero.
pub open spec fn number_error(value: Option<Seq<char>>, positive: bool, setting: Setting) -> Option<
    ConfigError,
> {
    match value {
        None => None,
        Some(text) => match spec_parse_i32(text) {
            None => Some(ConfigError::InvalidValue(setting)),
            Some(number) => if positive && number <= 0 {
                Some(ConfigError::InvalidValue(setting))
            } else {
                None
            },
        },
    }
}

/// The number that a value stands for, where nothing is wrong with it.
pub open spec fn number_or(value: Option<Seq<char>>, default: i32) -> i32 {
    match value {
        None => default,
        Some(text) => spec_parse_i32(text).unwrap(),
    }
}

/// The text that a value stands for.
pub open spec fn text_or(value: Option<Seq<char>>, default: Seq<char>) -> Seq<char> {
    match value {
        None => default,
        Some(text) => text,
    }
}

/// The path that a value stands for.
pub open spec fn bytes_or(value: Option<Seq<u8>>, default: Seq<u8>) -> Seq<u8> {
    match value {
        None => default,
        Some(bytes) => bytes,
    }
}

/// The first of two findings.
pub open spec fn or_else(first: Option<ConfigError>, second: Option<ConfigError>) -> Option<
    ConfigError,
> {
    if first is Some {
        first
    } else {
        second
    }
}

/// What is wrong with the values of a source: the first finding, going through
/// the values in the order in which the configuration lists them.
pub open spec fn source_error(source: ConfigSourceView) -> Option<ConfigError> {
    or_else(
        required_error(source.db_name, Setting::DbName),
        or_else(
            required_error(source.db_host, Setting::DbHost),
            or_else(
                required_error(source.db_port, Setting::DbPort),
                or_else(
                    required_error(source.db_user, Setting::DbUser),
                    or_else(
                        required_error(source.db_password, Setting::DbPassword),
                        or_else(
                            required_error(source.gh_client_id, Setting::GhClientId),
                            or_else(
                                required_error(source.gh_private_id, Setting::GhPrivateId),
                                or_else(
                                    required_error(source.gh_org_name, Setting::GhOrgName),
                                    or_else(
                                        required_error(source.gh_org_team_slug, Setting::GhOrgTeamSlug),
                                        or_else(
                                            required_error(source.gh_org_admin_token, Setting::GhOrgAdminToken),
                                            or_else(
                                                present_error(source.jwt_secret, Setting::JwtSecret),
                                                or_else(
                                                    number_error(source.max_upload_limit, true, Setting::MaxUploadLimit),
                                                    number_error(source.server_port, false, Setting::ServerPort),
                                                ),
                                            ),
                                        ),
                                    ),
                                ),
                            ),
                        ),
                    ),
                ),
            ),
        ),
    )
}

/// The configuration that the values of a source give.
pub open spec fn spec_from_source(source: ConfigSourceView) -> Result<EnvVarsView, ConfigError> {
    match source_error(source) {
        Some(error) => Err(error),
        None => Ok(
            EnvVarsView {
                db_name: source.db_name.unwrap(),
                db_host: source.db_host.unwrap(),
                db_port: source.db_port.unwrap(),
                db_user: source.db_user.unwrap(),
                db_password: source.db_password.unwrap(),
                gh_client_id: source.gh_client_id.unwrap(),
                gh_private_id: source.gh_private_id.unwrap(),
                gh_org_name: source.gh_org_name.unwrap(),
                gh_org_team_slug: source.gh_org_team_slug.unwrap(),
                gh_org_admin_token: source.gh_org_admin_token.unwrap(),
                jwt_secret: source.jwt_secret.unwrap(),
                max_upload_limit: number_or(source.max_upload_limit, DEFAULT_MAX_UPLOAD_LIMIT),
                log_location: bytes_or(source.log_location, default_log_location()),
                static_files_url: text_or(source.static_files_url, default_static_files_url()),
                static_file_storage_location: bytes_or(source.static_file_storage_location, default_static_file_storage_location()),
                uploaded_qps_path: bytes_or(source.uploaded_qps_path, default_uploaded_qps_path()),
                server_port: number_or(source.server_port, DEFAULT_SERVER_PORT),
                cors_allowed_origins: text_or(source.cors_allowed_origins, default_cors_allowed_origins()),
            },
        ),
    }
}

/// The configuration with its paths made absolute: the storage root and the
/// log location are read from the working directory, the upload path from the
/// storage root. There is none where the upload limit is not above zero: no
/// such configuration is ever handed out.
pub open spec fn spec_process(vars: EnvVarsView, working_dir: Seq<u8>) -> Result<
    EnvVarsView,
    ConfigError,
> {
    if vars.max_upload_limit <= 0 {
        Err(ConfigError::InvalidValue(Setting::MaxUploadLimit))
    } else {
        match spec_resolve(working_dir, vars.static_file_storage_location) {
            None => Err(ConfigError::PathResolution(Setting::StaticFileStorageLocation)),
            Some(root) => match spec_resolve(working_dir, vars.log_location) {
                None => Err(ConfigError::PathResolution(Setting::LogLocation)),
                Some(log) => Ok(
                    EnvVarsView {
                        static_file_storage_location: root,
                        uploaded_qps_path: spec_resolve_under(root, vars.uploaded_qps_path),
                        log_location: log,
                        ..vars
                    },
                ),
            },
        }
    }
}

fn take_required(value: Option<String>, setting: Setting) -> (taken: Result<String, ConfigError>)
    ensures
        match taken {
            Ok(text) => required_error(text_view(value), setting) is None && text_view(value)
                == Some(text@),
            Err(error) => required_error(text_view(value), setting) == Some(error),
        },
{
    match value {
        None => Err(ConfigError::MissingValue(setting)),
        Some(text) => if text.as_str().unicode_len() == 0 {
            Err(ConfigError::InvalidValue(setting))
        } else {
            Ok(text)
        },
    }
}

fn take_number(value: Option<String>, default: i32, positive: bool, setting: Setting) -> (taken:
    Result<i32, ConfigError>)
    ensures
        match taken {
            Ok(number) => number_error(text_view(value), positive, setting) is None && number
                == number_or(text_view(value), default),
            Err(error) => number_error(text_view(value), positive, setting) == Some(error),
        },
{
    match value {
        None => Ok(default),
        Some(text) => match parse_i32(text.as_str()) {
            None => Err(ConfigError::InvalidValue(setting)),
            Some(number) => if positive && number <= 0 {
                Err(ConfigError::InvalidValue(setting))
            } else {
                Ok(number)
            },
        },
    }
}

fn take_text(value: Option<String>, default: &str) -> (taken: String)
    ensures
        taken@ == text_or(text_view(value), default@),
{
    match value {
        None => String::from_str(default),
        Some(text) => text,
    }
}

fn take_path(value: Option<Vec<u8>>, default: &str) -> (taken: Vec<u8>)
    ensures
        taken@ == bytes_or(bytes_view(value), vstd::utf8::encode_utf8(default@)),
{
    match value {
        None => default.as_bytes_vec(),
        Some(bytes) => bytes,
    }
}

impl EnvVars {
    /// Checks the values of a source and completes them with defaults.
    pub fn from_source(source: ConfigSource) -> (made: Result<EnvVars, ConfigError>)
        ensures
            match made {
                Ok(vars) => spec_from_source(source@) == Ok::<EnvVarsView, ConfigError>(vars@),
                Err(error) => spec_from_source(source@) == Err::<EnvVarsView, ConfigError>(error),
            },
    {
        let db_name = match take_required(source.db_name, Setting::DbName) {
            Ok(text) => text,
            Err(error) => {
                return Err(error);
            },
        };
        let db_host = match take_required(source.db_host, Setting::DbHost) {
            Ok(text) => text,
            Err(error) => {
                return Err(error);
            },
        };
        let db_port = match take_required(source.db_port, Setting::DbPort) {
            Ok(text) => text,
            Err(error) => {
                return Err(error);
            },
        };
        let db_user = match take_required(source.db_user, Setting::DbUser) {
            Ok(text) => text,
            Err(error) => {
                return Err(error);
            },
        };
        let db_password = match take_required(source.db_password, Setting::DbPassword) {
            Ok(text) => text,
            Err(error) => {
                return Err(error);
            },
        };
        let gh_client_id = match take_required(source.gh_client_id, Setting::GhClientId) {
            Ok(text) => text,
            Err(error) => {
                return Err(error);
            },
        };
        let gh_private_id = match take_required(source.gh_private_id, Setting::GhPrivateId) {
            Ok(text) => text,
            Err(error) => {
                return Err(error);
            },
        };
        let gh_org_name = match take_required(source.gh_org_name, Setting::GhOrgName) {
            Ok(text) => text,
            Err(error) => {
                return Err(error);
            },
        };
        let gh_org_team_slug = match take_required(source.gh_org_team_slug, Setting::GhOrgTeamSlug) {
            Ok(text) => text,
            Err(error) => {
                return Err(error);
            },
        };
        let gh_org_admin_token = match take_required(source.gh_org_admin_token, Setting::GhOrgAdminToken) {
            Ok(text) => text,
            Err(error) => {
                return Err(error);
            },
        };
        let jwt_secret = match source.jwt_secret {
            Some(text) => Secret::new(text),
            None => {
                return Err(ConfigError::MissingValue(Setting::JwtSecret));
            },
        };
        let max_upload_limit = match take_number(
            source.max_upload_limit,
            DEFAULT_MAX_UPLOAD_LIMIT,
            true,
            Setting::MaxUploadLimit,
        ) {
            Ok(number) => number,
            Err(error) => {
                return Err(error);
            },
        };
        let server_port = match take_number(
            source.server_port,
            DEFAULT_SERVER_PORT,
            false,
            Setting::ServerPort,
        ) {
            Ok(number) => number,
            Err(error) => {
                return Err(error);
            },
        };
        let log_location = take_path(source.log_location, "./log/application.log");
        let static_files_url = take_text(source.static_files_url, "https://static.metakgp.org");
        let static_file_storage_location = take_path(
            source.static_file_storage_location,
            "/srv/static",
        );
        let uploaded_qps_path = take_path(source.uploaded_qps_path, "iqps/uploaded");
        let cors_allowed_origins = take_text(
            source.cors_allowed_origins,
            "https://qp.metakgp.org,http://localhost:5173",
        );
        Ok(
            EnvVars {
                db_name,
                db_host,
                db_port,
                db_user,
                db_password,
                gh_client_id,
                gh_private_id,
                gh_org_name,
                gh_org_team_slug,
                gh_org_admin_token,
                jwt_secret,
                max_upload_limit,
                log_location,
                static_files_url,
                static_file_storage_location,
                uploaded_qps_path,
                server_port,
                cors_allowed_origins,
            },
        )
    }

    /// Processes the environment variables after reading: makes the paths
    /// absolute. The storage root and the log location are read from
    /// `working_dir`, the upload path from the storage root. An upload limit
    /// that is not above zero is turned down before any path is looked at.
    pub fn process(self, working_dir: &[u8]) -> (made: Result<EnvVars, ConfigError>)
        ensures
            match made {
                Ok(vars) => spec_process(self@, working_dir@) == Ok::<EnvVarsView, ConfigError>(
                    vars@,
                ),
                Err(error) => spec_process(self@, working_dir@) == Err::<EnvVarsView, ConfigError>(
                    error,
                ),
            },
    {
        if self.max_upload_limit <= 0 {
            return Err(ConfigError::InvalidValue(Setting::MaxUploadLimit));
        }
        let root = match resolve(working_dir, self.static_file_storage_location.as_slice()) {
            Some(path) => path,
            None => {
                return Err(ConfigError::PathResolution(Setting::StaticFileStorageLocation));
            },
        };
        let uploaded = resolve_under(root.as_slice(), self.uploaded_qps_path.as_slice());
        let log = match resolve(working_dir, self.log_location.as_slice()) {
            Some(path) => path,
            None => {
                return Err(ConfigError::PathResolution(Setting::LogLocation));
            },
        };
        Ok(
            EnvVars {
                db_name: self.db_name,
                db_host: self.db_host,
                db_port: self.db_port,
                db_user: self.db_user,
                db_password: self.db_password,
                gh_client_id: self.gh_client_id,
                gh_private_id: self.gh_private_id,
                gh_org_name: self.gh_org_name,
                gh_org_team_slug: self.gh_org_team_slug,
                gh_org_admin_token: self.gh_org_admin_token,
                jwt_secret: self.jwt_secret,
                max_upload_limit: self.max_upload_limit,
                log_location: log,
                static_files_url: self.static_files_url,
                static_file_storage_location: root,
                uploaded_qps_path: uploaded,
                server_port: self.server_port,
                cors_allowed_origins: self.cors_allowed_origins,
            },
        )
    }

    /// Returns the JWT signing key: the key that the secret gives, or
    /// `KeyDerivation` where the secret is empty.
    pub fn get_jwt_key(&self) -> (key: Result<SigningKey, ConfigError>)
        ensures
            key is Ok <==> self@.jwt_secret.len() > 0,
            key matches Ok(k) ==> k@ == SigningKey::bytes_of(self@.jwt_secret),
            key matches Err(error) ==> error == ConfigError::KeyDerivation,
    {
        match SigningKey::derive(self.jwt_secret.text()) {
            Some(key) => Ok(key),
            None => Err(ConfigError::KeyDerivation),
        }
    }
}

/// The configuration of a running service: the checked values together with
/// the signing key derived from the secret among them.
pub struct Configuration {
    pub env_vars: EnvVars,
    pub jwt_key: SigningKey,
}

/// What holds of the values of every configuration that startup lets through:
/// the paths are absolute, the upload limit is above zero, and the secret and
/// the values without a default are not empty.
pub open spec fn is_usable(vars: EnvVarsView) -> bool {
    &&& is_absolute(vars.static_file_storage_location)
    &&& is_absolute(vars.uploaded_qps_path)
    &&& is_absolute(vars.log_location)
    &&& vars.max_upload_limit > 0
    &&& vars.jwt_secret.len() > 0
    &&& vars.db_name.len() > 0
    &&& vars.db_host.len() > 0
    &&& vars.db_port.len() > 0
    &&& vars.db_user.len() > 0
    &&& vars.db_password.len() > 0
    &&& vars.gh_client_id.len() > 0
    &&& vars.gh_private_id.len() > 0
    &&& vars.gh_org_name.len() > 0
    &&& vars.gh_org_team_slug.len() > 0
    &&& vars.gh_org_admin_token.len() > 0
}

/// The values that startup arrives at: those of the source, checked and
/// completed, with their paths made absolute, if the secret among them gives
/// a key.
pub open spec fn spec_load(source: ConfigSourceView, working_dir: Seq<u8>) -> Result<
    EnvVarsView,
    ConfigError,
> {
    match spec_from_source(source) {
        Err(error) => Err(error),
        Ok(vars) => match spec_process(vars, working_dir) {
            Err(error) => Err(error),
            Ok(done) => if done.jwt_secret.len() == 0 {
                Err(ConfigError::KeyDerivation)
            } else {
                Ok(done)
            },
        },
    }
}

impl Configuration {
    /// Makes the configuration from the values of a source: checks and
    /// completes them, makes the paths absolute and derives the signing key.
    pub fn load(source: ConfigSource, working_dir: &[u8]) -> (made: Result<
        Configuration,
        ConfigError,
    >)
        ensures
            match made {
                Ok(configuration) => {
                    &&& spec_load(source@, working_dir@) == Ok::<EnvVarsView, ConfigError>(
                        configuration.env_vars@,
                    )
                    &&& configuration.jwt_key@ == SigningKey::bytes_of(
                        configuration.env_vars@.jwt_secret,
                    )
                    &&& is_usable(configuration.env_vars@)
                },
                Err(error) => spec_load(source@, working_dir@) == Err::<EnvVarsView, ConfigError>(
                    error,
                ),
            },
    {
        let vars = match EnvVars::from_source(source) {
            Ok(vars) => vars,
            Err(error) => {
                return Err(error);
            },
        };
        let env_vars = match vars.process(working_dir) {
            Ok(vars) => vars,
            Err(error) => {
                return Err(error);
            },
        };
        let jwt_key = match env_vars.get_jwt_key() {
            Ok(key) => key,
            Err(error) => {
                return Err(error);
            },
        };
        proof {
            lemma_loaded_is_usable(source@, working_dir@);
        }
        Ok(Configuration { env_vars, jwt_key })
    }
}

/// Making the paths absolute changes the paths and nothing else, and leaves
/// every one of them absolute.
pub proof fn lemma_processed_paths_are_absolute(vars: EnvVarsView, working_dir: Seq<u8>)
    requires
        spec_process(vars, working_dir) is Ok,
    ensures
        ({
            let done = spec_process(vars, working_dir)->Ok_0;
            &&& is_absolute(done.static_file_storage_location)
            &&& is_absolute(done.uploaded_qps_path)
            &&& is_absolute(done.log_location)
            &&& done == (EnvVarsView {
                static_file_storage_location: done.static_file_storage_location,
                uploaded_qps_path: done.uploaded_qps_path,
                log_location: done.log_location,
                ..vars
            })
        }),
{
    crate::path::lemma_resolved_is_absolute(working_dir, vars.static_file_storage_location);
    crate::path::lemma_resolved_is_absolute(working_dir, vars.log_location);
    let root = spec_resolve(working_dir, vars.static_file_storage_location)->Some_0;
    if is_absolute(vars.uploaded_qps_path) {
        crate::path::lemma_resolved_is_absolute(root, vars.uploaded_qps_path);
    } else {
        crate::path::lemma_resolved_under_root(root, vars.uploaded_qps_path);
    }
}

/// A relative upload path is resolved to an absolute path under the storage
/// root: the resolved upload path is the resolved root, less the separator
/// that may close it, or lies below it.
pub proof fn lemma_relative_upload_path_is_under_root(vars: EnvVarsView, working_dir: Seq<u8>)
    requires
        !is_absolute(vars.uploaded_qps_path),
        spec_process(vars, working_dir) is Ok,
    ensures
        ({
            let done = spec_process(vars, working_dir)->Ok_0;
            &&& is_absolute(done.uploaded_qps_path)
            &&& is_absolute(done.static_file_storage_location)
            &&& is_under(unclosed(done.static_file_storage_location), done.uploaded_qps_path)
        }),
{
    crate::path::lemma_resolved_is_absolute(working_dir, vars.static_file_storage_location);
    let root = spec_resolve(working_dir, vars.static_file_storage_location)->Some_0;
    crate::path::lemma_resolved_under_root(root, vars.uploaded_qps_path);
}

/// Processing never hands out an upload limit that is not above zero, and it
/// leaves the limit as it found it.
pub proof fn lemma_processed_limit_is_positive(vars: EnvVarsView, working_dir: Seq<u8>)
    ensures
        vars.max_upload_limit <= 0 ==> spec_process(vars, working_dir) == Err::<
            EnvVarsView,
            ConfigError,
        >(ConfigError::InvalidValue(Setting::MaxUploadLimit)),
        spec_process(vars, working_dir) matches Ok(done) ==> done.max_upload_limit > 0
            && done.max_upload_limit == vars.max_upload_limit,
{
}

/// With an empty secret there is no configuration: startup ends in an error,
/// and where nothing else is wrong that error is `KeyDerivation`.
pub proof fn lemma_empty_secret_stops_startup(source: ConfigSourceView, working_dir: Seq<u8>)
    requires
        source.jwt_secret == Some(Seq::<char>::empty()),
    ensures
        spec_load(source, working_dir) is Err,
        source_error(source) is None && spec_process(
            spec_from_source(source)->Ok_0,
            working_dir,
        ) is Ok ==> spec_load(source, working_dir) == Err::<EnvVarsView, ConfigError>(
            ConfigError::KeyDerivation,
        ),
{
}

/// Every configuration that startup lets through is usable.
pub proof fn lemma_loaded_is_usable(source: ConfigSourceView, working_dir: Seq<u8>)
    requires
        spec_load(source, working_dir) is Ok,
    ensures
        is_usable(spec_load(source, working_dir)->Ok_0),
{
    let vars = spec_from_source(source)->Ok_0;
    lemma_processed_paths_are_absolute(vars, working_dir);
}

} // verus!
