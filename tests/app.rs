use mediator_core::app::App;
use mediator_core::configs::{level_or_info, Config, ConfigError, LogLevel};
use mediator_core::hello::{
    CreateHelloHandler, CreateHelloUseCase, GetHelloResult, HelloCommand, HelloQuery,
    HelloRepository,
};
use mediator_core::mediator::errors::MediatorError;
use mediator_core::models::{authenticate, AuthError, AuthHeader, AuthResult, AuthenticatedUser};

fn config(workers: &str, level: &str) -> Result<Config, ConfigError> {
    Config::from_texts(
        "SECRET-REDACTED".to_string(),
        "127.0.0.1",
        "8080",
        workers,
        level.to_string(),
        "app".to_string(),
        "logs".to_string(),
    )
}

#[test]
fn config_joins_host_and_port() {
    let c = config("4", "info").unwrap();
    assert_eq!(c.server_address, "127.0.0.1:8080");
    assert_eq!(c.workers_count(), 4);
    assert_eq!(c.secret_token, "SECRET-REDACTED");
    assert_eq!(c.log_file_name_prefix, "app");
    assert_eq!(c.log_dir_path, "logs");
}

#[test]
fn config_rejects_a_worker_count_that_is_no_number() {
    assert_eq!(config("four", "info").unwrap_err(), ConfigError::WorkersCountNotANumber);
    assert_eq!(config("", "info").unwrap_err(), ConfigError::WorkersCountNotANumber);
    assert_eq!(config("-1", "info").unwrap_err(), ConfigError::WorkersCountNotANumber);
}

#[test]
fn log_level_is_read_by_name_or_number() {
    assert_eq!(config("1", "debug").unwrap().log_level(), LogLevel::Debug);
    assert_eq!(config("1", "WARN").unwrap().log_level(), LogLevel::Warn);
    assert_eq!(config("1", "trace").unwrap().log_level(), LogLevel::Trace);
    assert_eq!(config("1", "1").unwrap().log_level(), LogLevel::Error);
    assert_eq!(config("1", "5").unwrap().log_level(), LogLevel::Trace);
}

#[test]
fn log_level_defaults_to_info() {
    assert_eq!(config("1", "loud").unwrap().log_level(), LogLevel::Info);
    assert_eq!(config("1", "").unwrap().log_level(), LogLevel::Info);
    assert_eq!(config("1", "9").unwrap().log_level(), LogLevel::Info);
    assert_eq!(level_or_info(None), LogLevel::Info);
    assert_eq!(level_or_info(Some(LogLevel::Error)), LogLevel::Error);
}

#[test]
fn the_application_registry_answers_greeting_queries() {
    let app = App::new(config("2", "info").unwrap());
    assert_eq!(app.cfg.workers_count(), 2);
    let m = app.setup_mediator();
    let r = m.query::<HelloQuery, GetHelloResult>(HelloQuery { name: "My name".to_string() });
    assert_eq!(r, Ok(GetHelloResult { name: "hello world".to_string() }));
    let r = m.send(HelloCommand { name: "Ada".to_string() });
    assert_eq!(r, Err(MediatorError::HandlerNotFound("HelloCommand".to_string())));
}

#[test]
fn repository_holds_hello_world() {
    assert_eq!(HelloRepository.get_by_id(13), "hello world");
}

#[test]
fn greetings_name_the_person() {
    let c = HelloCommand { name: "Ada".to_string() };
    assert_eq!(CreateHelloHandler.greeting(&c), "Hello from HelloHandler: Ada");
    assert_eq!(CreateHelloUseCase.greeting(&c), "Hello from HelloUseCase: Ada");
}

#[test]
fn authenticate_accepts_the_expected_bearer_token() {
    let h = AuthHeader::Text("Bearer 127.0.0.1:8080".to_string());
    assert_eq!(
        authenticate(&h, "127.0.0.1:8080"),
        Ok(AuthenticatedUser(AuthResult { user_id: 42 }))
    );
}

#[test]
fn authenticate_turns_callers_away() {
    assert_eq!(authenticate(&AuthHeader::Missing, "t"), Err(AuthError::MissingToken));
    assert_eq!(authenticate(&AuthHeader::Unreadable, "t"), Err(AuthError::InvalidToken));
    let h = AuthHeader::Text("Basic t".to_string());
    assert_eq!(authenticate(&h, "t"), Err(AuthError::InvalidTokenFormat));
    let h = AuthHeader::Text("Bear".to_string());
    assert_eq!(authenticate(&h, "t"), Err(AuthError::InvalidTokenFormat));
    let h = AuthHeader::Text("Bearer u".to_string());
    assert_eq!(authenticate(&h, "t"), Err(AuthError::InvalidToken));
    let h = AuthHeader::Text("Bearer ".to_string());
    assert_eq!(authenticate(&h, "t"), Err(AuthError::InvalidToken));
    assert_eq!(AuthError::InvalidTokenFormat.reason(), "Invalid token format");
    assert_eq!(AuthError::MissingToken.reason(), "Missing token");
}
