//! The settings the process starts with.

use vstd::prelude::*;
use vstd::string::*;

verus! {

/// The most verbose kind of event that is recorded.
#[derive(Clone, Copy, Debug, PartialEq, Eq, Structural)]
pub enum LogLevel {
    Error,
    Warn,
    Info,
    Debug,
    Trace,
}

/// What tracing's parser makes of a level name.
pub uninterp spec fn parsed_level(s: Seq<char>) -> Option<LogLevel>;

/// Relies on `<tracing::Level as FromStr>::from_str`: it reads a number from
/// 1 to 5 or, ignoring ASCII case, one of the five level names; the empty
/// text is neither.
#[verifier::external_body]
fn parse_level(s: &str) -> (r: Option<LogLevel>)
    ensures
        r == parsed_level(s@),
        s@ == "error"@ ==> r == Some(LogLevel::Error),
        s@ == "warn"@ ==> r == Some(LogLevel::Warn),
        s@ == "info"@ ==> r == Some(LogLevel::Info),
        s@ == "debug"@ ==> r == Some(LogLevel::Debug),
        s@ == "trace"@ ==> r == Some(LogLevel::Trace),
        s@.len() == 0 ==> r is None,
{
    match s.parse::<tracing::Level>() {
        Ok(tracing::Level::ERROR) => Some(LogLevel::Error),
        Ok(tracing::Level::WARN) => Some(LogLevel::Warn),
        Ok(tracing::Level::INFO) => Some(LogLevel::Info),
        Ok(tracing::Level::DEBUG) => Some(LogLevel::Debug),
        Ok(_) => Some(LogLevel::Trace),
        Err(_) => None,
    }
}

/// The level to record at: the parsed one, or `Info` when the text named none.
pub fn level_or_info(parsed: Option<LogLevel>) -> (r: LogLevel)
    ensures
        r == match parsed {
            Some(level) => level,
            None => LogLevel::Info,
        },
{
    match parsed {
        Some(level) => level,
        None => LogLevel::Info,
    }
}

/// What std's parser makes of a count.
pub uninterp spec fn parsed_count(s: Seq<char>) -> Option<usize>;

/// Relies on `<usize as FromStr>::from_str`: decimal digits, with an optional
/// leading `+`, that fit in a `usize`; the empty text is no count.
#[verifier::external_body]
fn parse_count(s: &str) -> (r: Option<usize>)
    ensures
        r == parsed_count(s@),
        s@.len() == 0 ==> r is None,
{
    s.parse::<usize>().ok()
}

/// A setting that could not be read.
#[derive(Clone, Copy, Debug, PartialEq, Eq, Structural)]
pub enum ConfigError {
    /// The worker count is not a number.
    WorkersCountNotANumber,
}

/// The settings of the process.
#[derive(Clone, Debug)]
pub struct Config {
    pub secret_token: String,
    pub server_address: String,
    /// How many workers to run.
    pub workers: usize,
    /// The level name, as it was given.
    pub log_level_name: String,
    pub log_file_name_prefix: String,
    pub log_dir_path: String,
}

impl Config {
    /// Settings whose server address is `host:port`.
    pub fn new(
        secret_token: String,
        host: &str,
        port: &str,
        workers_count: usize,
        log_level: String,
        log_file_name_prefix: String,
        log_dir_path: String,
    ) -> (r: Config)
        ensures
            r.secret_token == secret_token,
            r.server_address@ == host@ + ":"@ + port@,
            r.workers == workers_count,
            r.log_level_name@ == log_level@,
            r.log_file_name_prefix == log_file_name_prefix,
            r.log_dir_path == log_dir_path,
    {
        let mut server_address = host.to_owned();
        server_address.append(":");
        server_address.append(port);
        Config {
            secret_token,
            server_address,
            workers: workers_count,
            log_level_name: log_level,
            log_file_name_prefix,
            log_dir_path,
        }
    }

    /// Settings from their texts; the worker count must be a number.
    pub fn from_texts(
        secret_token: String,
        host: &str,
        port: &str,
        workers_count: &str,
        log_level: String,
        log_file_name_prefix: String,
        log_dir_path: String,
    ) -> (r: Result<Config, ConfigError>)
        ensures
            r is Ok <==> parsed_count(workers_count@) is Some,
            r matches Ok(c) ==> {
                &&& c.secret_token == secret_token
                &&& c.server_address@ == host@ + ":"@ + port@
                &&& Some(c.workers) == parsed_count(workers_count@)
                &&& c.log_level_name@ == log_level@
                &&& c.log_file_name_prefix == log_file_name_prefix
                &&& c.log_dir_path == log_dir_path
            },
            r matches Err(e) ==> e == ConfigError::WorkersCountNotANumber,
    {
        match parse_count(workers_count) {
            Some(n) => Ok(
                Config::new(
                    secret_token,
                    host,
                    port,
                    n,
                    log_level,
                    log_file_name_prefix,
                    log_dir_path,
                ),
            ),
            None => Err(ConfigError::WorkersCountNotANumber),
        }
    }

    /// The level to record at: the one the settings name, `Info` when they
    /// name none.
    pub fn log_level(&self) -> (r: LogLevel)
        ensures
            r == match parsed_level(self.log_level_name@) {
                Some(level) => level,
                None => LogLevel::Info,
            },
    {
        level_or_info(parse_level(self.log_level_name.as_str()))
    }

    pub fn workers_count(&self) -> (r: usize)
        ensures
            r == self.workers,
    {
        self.workers
    }
}

} // verus!
