use zero2prod::configuration::{
    config_file_name, config_files, environment_from_var, ApplicationSettings, DatabaseSettings,
    Environment, invalid_environment, Password, SslMode, StatementLog,
};

fn settings(require_ssl: bool) -> DatabaseSettings {
    DatabaseSettings {
        username: "postgres".to_string(),
        password: Password::new("password".to_string()),
        port: 5432,
        host: "localhost".to_string(),
        database_name: "newsletter".to_string(),
        require_ssl,
    }
}

#[test]
fn environment_names() {
    assert_eq!(Environment::Local.as_str(), "local");
    assert_eq!(Environment::Production.as_str(), "production");
}

#[test]
fn environment_parsing_takes_exact_names() {
    assert_eq!(Environment::from_name("local"), Ok(Environment::Local));
    assert_eq!(Environment::from_name("production"), Ok(Environment::Production));
    assert_eq!(
        Environment::from_name("PRODUCTION"),
        Err("production is not a valid environment. Use either `local` or `production`.".to_string())
    );
    assert!(Environment::from_name("Local").is_err());
}

#[test]
fn unknown_environment_is_an_error() {
    assert_eq!(
        Environment::from_name("Staging"),
        Err("staging is not a valid environment. Use either `local` or `production`.".to_string())
    );
    assert_eq!(
        Environment::from_name(""),
        Err(" is not a valid environment. Use either `local` or `production`.".to_string())
    );
}

#[test]
fn invalid_environment_message_quotes_the_value() {
    assert_eq!(
        invalid_environment("qa"),
        "qa is not a valid environment. Use either `local` or `production`."
    );
}

#[test]
fn unset_environment_is_local() {
    assert_eq!(environment_from_var(None), Ok(Environment::Local));
    assert_eq!(environment_from_var(Some("production".to_string())), Ok(Environment::Production));
    assert!(environment_from_var(Some("prod".to_string())).is_err());
    assert!(environment_from_var(Some("Production".to_string())).is_err());
}

#[test]
fn config_files_are_layered() {
    assert_eq!(config_file_name(Environment::Local), "local.yaml");
    assert_eq!(config_file_name(Environment::Production), "production.yaml");
    assert_eq!(config_files(Environment::Production), vec!["base.yaml".to_string(), "production.yaml".to_string()]);
}

#[test]
fn address_joins_host_and_port() {
    let app = ApplicationSettings { port: 8000, host: "127.0.0.1".to_string() };
    assert_eq!(app.address(), "127.0.0.1:8000");
    let app = ApplicationSettings { port: 0, host: "127.0.0.1".to_string() };
    assert_eq!(app.address(), "127.0.0.1:0");
    let app = ApplicationSettings { port: 65535, host: "0.0.0.0".to_string() };
    assert_eq!(app.address(), "0.0.0.0:65535");
    let app = ApplicationSettings { port: 10, host: String::new() };
    assert_eq!(app.address(), ":10");
}

#[test]
fn without_db_names_no_database() {
    let options = settings(false).without_db();
    assert_eq!(options.host, "localhost");
    assert_eq!(options.port, 5432);
    assert_eq!(options.username, "postgres");
    assert_eq!(options.password.expose(), "password");
    assert_eq!(options.database, None);
    assert_eq!(options.ssl_mode, SslMode::Prefer);
    assert_eq!(options.statement_log, StatementLog::DriverDefault);
}

#[test]
fn with_db_names_the_configured_database() {
    let mut s = settings(true);
    s.database_name = "5f0c7f0e-4a55-4d2a-9f3c-1f2e3d4c5b6a".to_string();
    let options = s.with_db();
    assert_eq!(options.database.as_deref(), Some("5f0c7f0e-4a55-4d2a-9f3c-1f2e3d4c5b6a"));
    assert_eq!(options.ssl_mode, SslMode::Require);
    assert_eq!(options.statement_log, StatementLog::Trace);
    assert_eq!(options.host, "localhost");
    assert_eq!(options.password.expose(), "password");
}
