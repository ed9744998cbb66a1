use backend::config::{
    ConfigError, ConfigSource, Configuration, EnvVars, Setting, DEFAULT_MAX_UPLOAD_LIMIT,
    DEFAULT_SERVER_PORT,
};
use backend::keys::SigningKey;
use hmac::{Hmac, Mac};
use sha2::Sha256;

fn some(text: &str) -> Option<String> {
    Some(text.to_string())
}

fn path(text: &str) -> Option<Vec<u8>> {
    Some(text.as_bytes().to_vec())
}

fn complete() -> ConfigSource {
    ConfigSource {
        db_name: some("iqps"),
        db_host: some("localhost"),
        db_port: some("5432"),
        db_user: some("postgres"),
        db_password: some("hunter2"),
        gh_client_id: some("client"),
        gh_private_id: some("private"),
        gh_org_name: some("metakgp"),
        gh_org_team_slug: some("admins"),
        gh_org_admin_token: some("ghp_token"),
        jwt_secret: some("a long and random secret"),
        ..ConfigSource::empty()
    }
}

fn error_of(made: Result<EnvVars, ConfigError>) -> ConfigError {
    match made {
        Ok(_) => panic!("expected an error"),
        Err(error) => error,
    }
}

fn load_error(made: Result<Configuration, ConfigError>) -> ConfigError {
    match made {
        Ok(_) => panic!("expected an error"),
        Err(error) => error,
    }
}

fn vars_of(made: Result<EnvVars, ConfigError>) -> EnvVars {
    match made {
        Ok(vars) => vars,
        Err(error) => panic!("unexpected error {:?}", error),
    }
}

#[test]
fn defaults_complete_the_source() {
    let vars = vars_of(EnvVars::from_source(complete()));
    assert_eq!(vars.db_name, "iqps");
    assert_eq!(vars.db_host, "localhost");
    assert_eq!(vars.db_port, "5432");
    assert_eq!(vars.db_user, "postgres");
    assert_eq!(vars.db_password, "hunter2");
    assert_eq!(vars.gh_client_id, "client");
    assert_eq!(vars.gh_private_id, "private");
    assert_eq!(vars.gh_org_name, "metakgp");
    assert_eq!(vars.gh_org_team_slug, "admins");
    assert_eq!(vars.gh_org_admin_token, "ghp_token");
    assert_eq!(vars.max_upload_limit, 10);
    assert_eq!(vars.max_upload_limit, DEFAULT_MAX_UPLOAD_LIMIT);
    assert_eq!(vars.log_location, b"./log/application.log");
    assert_eq!(vars.static_files_url, "https://static.metakgp.org");
    assert_eq!(vars.static_file_storage_location, b"/srv/static");
    assert_eq!(vars.uploaded_qps_path, b"iqps/uploaded");
    assert_eq!(vars.server_port, 8080);
    assert_eq!(vars.server_port, DEFAULT_SERVER_PORT);
    assert_eq!(vars.cors_allowed_origins, "https://qp.metakgp.org,http://localhost:5173");
}

#[test]
fn given_values_take_the_place_of_defaults() {
    let source = ConfigSource {
        max_upload_limit: some("25"),
        log_location: path("/var/log/iqps.log"),
        static_files_url: some("https://files.example.org"),
        static_file_storage_location: path("static"),
        uploaded_qps_path: path("/var/uploads"),
        server_port: some("-1"),
        cors_allowed_origins: some("https://a.example"),
        ..complete()
    };
    let vars = vars_of(EnvVars::from_source(source));
    assert_eq!(vars.max_upload_limit, 25);
    assert_eq!(vars.log_location, b"/var/log/iqps.log");
    assert_eq!(vars.static_files_url, "https://files.example.org");
    assert_eq!(vars.static_file_storage_location, b"static");
    assert_eq!(vars.uploaded_qps_path, b"/var/uploads");
    assert_eq!(vars.server_port, -1);
    assert_eq!(vars.cors_allowed_origins, "https://a.example");
}

#[test]
fn every_value_without_a_default_is_required() {
    assert_eq!(
        error_of(EnvVars::from_source(ConfigSource::empty())),
        ConfigError::MissingValue(Setting::DbName)
    );
    let cases: Vec<(ConfigSource, Setting)> = vec![
        (ConfigSource { db_name: None, ..complete() }, Setting::DbName),
        (ConfigSource { db_host: None, ..complete() }, Setting::DbHost),
        (ConfigSource { db_port: None, ..complete() }, Setting::DbPort),
        (ConfigSource { db_user: None, ..complete() }, Setting::DbUser),
        (ConfigSource { db_password: None, ..complete() }, Setting::DbPassword),
        (ConfigSource { gh_client_id: None, ..complete() }, Setting::GhClientId),
        (ConfigSource { gh_private_id: None, ..complete() }, Setting::GhPrivateId),
        (ConfigSource { gh_org_name: None, ..complete() }, Setting::GhOrgName),
        (ConfigSource { gh_org_team_slug: None, ..complete() }, Setting::GhOrgTeamSlug),
        (ConfigSource { gh_org_admin_token: None, ..complete() }, Setting::GhOrgAdminToken),
        (ConfigSource { jwt_secret: None, ..complete() }, Setting::JwtSecret),
    ];
    for (source, setting) in cases {
        assert_eq!(error_of(EnvVars::from_source(source)), ConfigError::MissingValue(setting));
    }
}

#[test]
fn empty_text_is_no_value_where_one_is_needed() {
    let cases: Vec<(ConfigSource, Setting)> = vec![
        (ConfigSource { db_name: some(""), ..complete() }, Setting::DbName),
        (ConfigSource { db_password: some(""), ..complete() }, Setting::DbPassword),
        (ConfigSource { gh_org_admin_token: some(""), ..complete() }, Setting::GhOrgAdminToken),
    ];
    for (source, setting) in cases {
        assert_eq!(error_of(EnvVars::from_source(source)), ConfigError::InvalidValue(setting));
    }
}

#[test]
fn the_first_finding_is_reported() {
    let source = ConfigSource {
        db_host: some(""),
        db_user: None,
        max_upload_limit: some("many"),
        ..complete()
    };
    assert_eq!(
        error_of(EnvVars::from_source(source)),
        ConfigError::InvalidValue(Setting::DbHost)
    );
    let source = ConfigSource { jwt_secret: None, server_port: some("http"), ..complete() };
    assert_eq!(
        error_of(EnvVars::from_source(source)),
        ConfigError::MissingValue(Setting::JwtSecret)
    );
}

#[test]
fn numbers_must_be_numbers() {
    for text in ["", "ten", "1.5", " 10", "10 ", "2147483648", "0x10"] {
        let source = ConfigSource { max_upload_limit: some(text), ..complete() };
        assert_eq!(
            error_of(EnvVars::from_source(source)),
            ConfigError::InvalidValue(Setting::MaxUploadLimit),
            "text {:?}",
            text
        );
        let source = ConfigSource { server_port: some(text), ..complete() };
        assert_eq!(
            error_of(EnvVars::from_source(source)),
            ConfigError::InvalidValue(Setting::ServerPort),
            "text {:?}",
            text
        );
    }
}

#[test]
fn upload_limit_must_be_above_zero() {
    for text in ["0", "-1", "-2147483648"] {
        let source = ConfigSource { max_upload_limit: some(text), ..complete() };
        assert_eq!(
            error_of(EnvVars::from_source(source)),
            ConfigError::InvalidValue(Setting::MaxUploadLimit)
        );
    }
    let source = ConfigSource { max_upload_limit: some("1"), ..complete() };
    assert_eq!(vars_of(EnvVars::from_source(source)).max_upload_limit, 1);
    let source = ConfigSource { max_upload_limit: some("2147483647"), ..complete() };
    assert_eq!(vars_of(EnvVars::from_source(source)).max_upload_limit, i32::MAX);
    let source = ConfigSource { server_port: some("0"), ..complete() };
    assert_eq!(vars_of(EnvVars::from_source(source)).server_port, 0);
}

#[test]
fn process_makes_the_default_paths_absolute() {
    let vars = vars_of(EnvVars::from_source(complete()));
    let vars = vars_of(vars.process(b"/home/iqps/backend"));
    assert_eq!(vars.static_file_storage_location, b"/srv/static");
    assert_eq!(vars.uploaded_qps_path, b"/srv/static/iqps/uploaded");
    assert_eq!(vars.log_location, b"/home/iqps/backend/log/application.log");
    assert_eq!(vars.db_name, "iqps");
    assert_eq!(vars.static_files_url, "https://static.metakgp.org");
    assert_eq!(vars.max_upload_limit, 10);
    assert_eq!(vars.server_port, 8080);
}

#[test]
fn relative_storage_path_is_anchored_under_the_root() {
    let source = ConfigSource {
        static_file_storage_location: path("data/static"),
        uploaded_qps_path: path("./papers//incoming/"),
        ..complete()
    };
    let vars = vars_of(vars_of(EnvVars::from_source(source)).process(b"/opt/app"));
    assert_eq!(vars.static_file_storage_location, b"/opt/app/data/static");
    assert_eq!(vars.uploaded_qps_path, b"/opt/app/data/static/papers/incoming/");
    assert!(vars.uploaded_qps_path.starts_with(&vars.static_file_storage_location));
    assert_eq!(vars.uploaded_qps_path[vars.static_file_storage_location.len()], b'/');
}

#[test]
fn absolute_upload_path_stands_for_itself() {
    let source = ConfigSource { uploaded_qps_path: path("/var/uploads"), ..complete() };
    let vars = vars_of(vars_of(EnvVars::from_source(source)).process(b"/opt/app"));
    assert_eq!(vars.uploaded_qps_path, b"/var/uploads");
    assert_eq!(vars.static_file_storage_location, b"/srv/static");
}

#[test]
fn empty_upload_path_names_the_root() {
    let source = ConfigSource { uploaded_qps_path: path(""), ..complete() };
    let vars = vars_of(vars_of(EnvVars::from_source(source)).process(b"/opt/app"));
    assert_eq!(vars.uploaded_qps_path, b"/srv/static/");
}

#[test]
fn paths_that_cannot_be_resolved_stop_processing() {
    let source = ConfigSource { static_file_storage_location: path(""), ..complete() };
    assert_eq!(
        error_of(vars_of(EnvVars::from_source(source)).process(b"/opt/app")),
        ConfigError::PathResolution(Setting::StaticFileStorageLocation)
    );
    let source = ConfigSource { log_location: path(""), ..complete() };
    assert_eq!(
        error_of(vars_of(EnvVars::from_source(source)).process(b"/opt/app")),
        ConfigError::PathResolution(Setting::LogLocation)
    );
    let source = ConfigSource { static_file_storage_location: path("static"), ..complete() };
    assert_eq!(
        error_of(vars_of(EnvVars::from_source(source)).process(b"")),
        ConfigError::PathResolution(Setting::StaticFileStorageLocation)
    );
    assert_eq!(
        error_of(vars_of(EnvVars::from_source(complete())).process(b"relative/dir")),
        ConfigError::PathResolution(Setting::LogLocation)
    );
}

#[test]
fn process_turns_down_a_limit_that_is_not_positive() {
    for limit in [0, -1, -5, i32::MIN] {
        let mut vars = vars_of(EnvVars::from_source(complete()));
        vars.max_upload_limit = limit;
        assert_eq!(
            error_of(vars.process(b"/opt/app")),
            ConfigError::InvalidValue(Setting::MaxUploadLimit),
            "limit {}",
            limit
        );
    }
    let mut vars = vars_of(EnvVars::from_source(complete()));
    vars.max_upload_limit = 0;
    vars.log_location = Vec::new();
    assert_eq!(
        error_of(vars.process(b"")),
        ConfigError::InvalidValue(Setting::MaxUploadLimit)
    );
    let mut vars = vars_of(EnvVars::from_source(complete()));
    vars.max_upload_limit = 1;
    assert_eq!(vars_of(vars.process(b"/opt/app")).max_upload_limit, 1);
}

#[test]
fn paths_that_are_not_text_are_processed_like_any_other() {
    let source = ConfigSource {
        static_file_storage_location: Some(b"st\xffatic".to_vec()),
        uploaded_qps_path: Some(b"./\xfe/".to_vec()),
        ..complete()
    };
    let vars = vars_of(vars_of(EnvVars::from_source(source)).process(b"/opt/\x80"));
    assert_eq!(vars.static_file_storage_location, b"/opt/\x80/st\xffatic");
    assert_eq!(vars.uploaded_qps_path, b"/opt/\x80/st\xffatic/\xfe/");
    assert_eq!(vars.log_location, b"/opt/\x80/log/application.log");
}

#[test]
fn processing_twice_changes_nothing_more() {
    let once = vars_of(vars_of(EnvVars::from_source(complete())).process(b"/opt/app"));
    let twice = vars_of(once.clone().process(b"/somewhere/else"));
    assert_eq!(twice.static_file_storage_location, once.static_file_storage_location);
    assert_eq!(twice.uploaded_qps_path, once.uploaded_qps_path);
    assert_eq!(twice.log_location, once.log_location);
}

#[test]
fn signing_key_holds_the_bytes_of_the_secret() {
    let vars = vars_of(EnvVars::from_source(complete()));
    match vars.get_jwt_key() {
        Ok(key) => assert_eq!(key.as_bytes(), b"a long and random secret"),
        Err(error) => panic!("unexpected error {:?}", error),
    }
    let source = ConfigSource { jwt_secret: some("cl\u{e9}"), ..complete() };
    match vars_of(EnvVars::from_source(source)).get_jwt_key() {
        Ok(key) => assert_eq!(key.as_bytes(), "cl\u{e9}".as_bytes()),
        Err(error) => panic!("unexpected error {:?}", error),
    }
}

#[test]
fn signing_key_keys_the_same_mac_as_the_secret() {
    let vars = vars_of(EnvVars::from_source(complete()));
    let key = match vars.get_jwt_key() {
        Ok(key) => key,
        Err(error) => panic!("unexpected error {:?}", error),
    };
    let mut from_key = Hmac::<Sha256>::new_from_slice(key.as_bytes()).unwrap();
    let mut from_secret = Hmac::<Sha256>::new_from_slice(b"a long and random secret").unwrap();
    from_key.update(b"header.payload");
    from_secret.update(b"header.payload");
    assert_eq!(
        from_key.finalize().into_bytes().to_vec(),
        from_secret.finalize().into_bytes().to_vec()
    );
}

#[test]
fn empty_secret_gives_no_key() {
    let source = ConfigSource { jwt_secret: some(""), ..complete() };
    let vars = vars_of(EnvVars::from_source(source));
    match vars.get_jwt_key() {
        Ok(_) => panic!("expected an error"),
        Err(error) => assert_eq!(error, ConfigError::KeyDerivation),
    }
    assert!(SigningKey::derive("").is_none());
    assert!(SigningKey::derive("x").is_some());
}

#[test]
fn load_gives_the_whole_configuration() {
    let source = ConfigSource { static_file_storage_location: path("static/"), ..complete() };
    match Configuration::load(source, b"/opt/app") {
        Ok(configuration) => {
            assert_eq!(configuration.env_vars.static_file_storage_location, b"/opt/app/static/");
            assert_eq!(configuration.env_vars.uploaded_qps_path, b"/opt/app/static/iqps/uploaded");
            assert_eq!(configuration.env_vars.log_location, b"/opt/app/log/application.log");
            assert_eq!(configuration.env_vars.max_upload_limit, 10);
            assert_eq!(configuration.jwt_key.as_bytes(), b"a long and random secret");
        }
        Err(error) => panic!("unexpected error {:?}", error),
    }
}

#[test]
fn load_stops_at_the_first_failing_step() {
    let source = ConfigSource { jwt_secret: some(""), ..complete() };
    assert_eq!(load_error(Configuration::load(source, b"/opt/app")), ConfigError::KeyDerivation);

    let source = ConfigSource { jwt_secret: some(""), log_location: path(""), ..complete() };
    assert_eq!(
        load_error(Configuration::load(source, b"/opt/app")),
        ConfigError::PathResolution(Setting::LogLocation)
    );

    let source = ConfigSource {
        jwt_secret: some(""),
        log_location: path(""),
        server_port: some("eighty"),
        ..complete()
    };
    assert_eq!(
        load_error(Configuration::load(source, b"/opt/app")),
        ConfigError::InvalidValue(Setting::ServerPort)
    );

    assert_eq!(
        load_error(Configuration::load(ConfigSource::empty(), b"/opt/app")),
        ConfigError::MissingValue(Setting::DbName)
    );
}

#[test]
fn settings_are_named_as_the_source_names_them() {
    assert_eq!(Setting::DbName.name(), "DB_NAME");
    assert_eq!(Setting::GhOrgTeamSlug.name(), "GH_ORG_TEAM_SLUG");
    assert_eq!(Setting::JwtSecret.name(), "JWT_SECRET");
    assert_eq!(Setting::MaxUploadLimit.name(), "MAX_UPLOAD_LIMIT");
    assert_eq!(Setting::StaticFileStorageLocation.name(), "STATIC_FILE_STORAGE_LOCATION");
    assert_eq!(Setting::UploadedQpsPath.name(), "UPLOADED_QPS_PATH");
    assert_eq!(Setting::CorsAllowedOrigins.name(), "CORS_ALLOWED_ORIGINS");
}
