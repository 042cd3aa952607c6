//! The settings of the service and what is derived from them.

use crate::domain::subscriber_email::{
    email_syntax_ok, invalid_email_message, SubscriberEmail,
};
use crate::text::{decimal, str_eq, u16_to_string};
use vstd::prelude::*;
use vstd::string::*;

verus! {

/// Where the service runs.
#[derive(Debug, Clone, Copy, PartialEq, Eq, Structural)]
pub enum Environment {
    Development,
    Production,
}

#[derive(Clone)]
pub struct Settings {
    pub application: ApplicationSettings,
    pub database: DatabaseSettings,
    pub email_client: EmailClientSettings,
    pub redis: RedisSettings,
}

#[derive(Clone)]
pub struct ApplicationSettings {
    pub port: u16,
    pub host: String,
    pub base_url: String,
}

#[derive(Clone)]
pub struct EmailClientSettings {
    pub base_url: String,
    pub sender_email: String,
    pub api_key: String,
}

#[derive(Clone)]
pub struct DatabaseSettings {
    pub username: String,
    pub password: String,
    pub port: u16,
    pub host: String,
    pub name: String,
    pub require_ssl: bool,
}

#[derive(Clone)]
pub struct RedisSettings {
    pub port: u16,
    pub host: String,
}

/// Whether a connection to the database must be encrypted.
#[derive(Debug, Clone, Copy, PartialEq, Eq, Structural)]
pub enum SslMode {
    /// Encrypt, and fail where that cannot be done.
    Require,
    /// Encrypt where that can be done.
    Prefer,
}

/// How loudly the statements sent to the database are logged.
#[derive(Debug, Clone, Copy, PartialEq, Eq, Structural)]
pub enum StatementLogLevel {
    Trace,
}

/// How to connect to the database.
pub struct DatabaseOptions {
    pub host: String,
    pub password: String,
    pub username: String,
    pub port: u16,
    pub database: String,
    pub ssl_mode: SslMode,
    pub log_statements: StatementLogLevel,
}

/// The options by which a database is reached under given settings: the
/// settings' own values, encryption required where the settings ask for
/// it and preferred where they do not, and statements logged at trace
/// level.
pub open spec fn db_options_match(options: DatabaseOptions, settings: DatabaseSettings) -> bool {
    &&& options.host@ == settings.host@
    &&& options.password@ == settings.password@
    &&& options.username@ == settings.username@
    &&& options.port == settings.port
    &&& options.database@ == settings.name@
    &&& options.ssl_mode == if settings.require_ssl {
        SslMode::Require
    } else {
        SslMode::Prefer
    }
    &&& options.log_statements == StatementLogLevel::Trace
}

/// An address written as host, colon, port.
pub open spec fn host_and_port(host: Seq<char>, port: u16) -> Seq<char> {
    host + ":"@ + decimal(port as nat)
}

/// The address of a Redis server.
pub open spec fn redis_address(host: Seq<char>, port: u16) -> Seq<char> {
    "redis://"@ + host + ":"@ + decimal(port as nat)
}

/// The connection URI of a Postgres database.
pub open spec fn postgres_uri(settings: DatabaseSettings) -> Seq<char> {
    "postgres://"@ + settings.username@ + ":"@ + settings.password@ + "@"@ + settings.host@ + ":"@
        + decimal(settings.port as nat) + "/"@ + settings.name@
}

impl Settings {
    pub fn get_address(&self) -> (address: String)
        ensures
            address@ == host_and_port(self.application.host@, self.application.port),
    {
        self.application.get_host().concat(":").concat(
            u16_to_string(self.application.get_port()).as_str(),
        )
    }

    pub fn get_app_base_url(&self) -> (url: String)
        ensures
            url@ == self.application.base_url@,
    {
        self.application.get_base_url()
    }

    pub fn get_db_options(&self) -> (options: DatabaseOptions)
        ensures
            db_options_match(options, self.database),
    {
        self.database.get_db_options()
    }

    pub fn get_email_client_sender(&self) -> (sender: Result<SubscriberEmail, String>)
        ensures
            match sender {
                Ok(accepted) => email_syntax_ok(self.email_client.sender_email@) && accepted@
                    == self.email_client.sender_email@,
                Err(message) => !email_syntax_ok(self.email_client.sender_email@) && message@
                    == invalid_email_message(self.email_client.sender_email@),
            },
    {
        return self.email_client.get_sender_email();
    }

    pub fn get_email_client_base_url(&self) -> (url: String)
        ensures
            url@ == self.email_client.base_url@,
    {
        return self.email_client.get_base_url();
    }

    pub fn get_email_client_api(&self) -> (key: String)
        ensures
            key@ == self.email_client.api_key@,
    {
        return self.email_client.get_api_key();
    }

    pub fn set_email_client_base_url(&mut self, new_base_url: String)
        ensures
            final(self).email_client.base_url@ == new_base_url@,
            final(self).email_client.sender_email == old(self).email_client.sender_email,
            final(self).email_client.api_key == old(self).email_client.api_key,
            final(self).application == old(self).application,
            final(self).database == old(self).database,
            final(self).redis == old(self).redis,
    {
        self.email_client.base_url = new_base_url
    }

    pub fn get_db_name(&self) -> (name: String)
        ensures
            name@ == self.database.name@,
    {
        self.database.get_name()
    }

    pub fn get_db_username(&self) -> (username: String)
        ensures
            username@ == self.database.username@,
    {
        self.database.get_username()
    }

    pub fn set_db_name(&mut self, db_name: String)
        ensures
            final(self).database.name@ == db_name@,
            final(self).database.username == old(self).database.username,
            final(self).database.password == old(self).database.password,
            final(self).database.port == old(self).database.port,
            final(self).database.host == old(self).database.host,
            final(self).database.require_ssl == old(self).database.require_ssl,
            final(self).application == old(self).application,
            final(self).email_client == old(self).email_client,
            final(self).redis == old(self).redis,
    {
        self.database.name = db_name
    }

    pub fn set_app_port(&mut self, port: u16)
        ensures
            final(self).application.port == port,
            final(self).application.host == old(self).application.host,
            final(self).application.base_url == old(self).application.base_url,
            final(self).database == old(self).database,
            final(self).email_client == old(self).email_client,
            final(self).redis == old(self).redis,
    {
        self.application.port = port;
    }

    pub fn get_redis_address(&self) -> (address: String)
        ensures
            address@ == redis_address(self.redis.host@, self.redis.port),
    {
        self.redis.get_address()
    }
}

impl DatabaseSettings {
    pub fn get_db_options(&self) -> (options: DatabaseOptions)
        ensures
            db_options_match(options, *self),
    {
        let ssl_mode = if self.require_ssl {
            SslMode::Require
        } else {
            SslMode::Prefer
        };
        DatabaseOptions {
            host: self.host.clone(),
            password: self.password.clone(),
            username: self.username.clone(),
            port: self.port,
            database: self.name.clone(),
            ssl_mode,
            log_statements: StatementLogLevel::Trace,
        }
    }

    pub fn get_uri(&self) -> (uri: String)
        ensures
            uri@ == postgres_uri(*self),
    {
        String::from_str("postgres://").concat(self.username.as_str()).concat(":").concat(
            self.password.as_str(),
        ).concat("@").concat(self.host.as_str()).concat(":").concat(
            u16_to_string(self.port).as_str(),
        ).concat("/").concat(self.name.as_str())
    }

    pub fn get_name(&self) -> (name: String)
        ensures
            name@ == self.name@,
    {
        self.name.clone()
    }

    pub fn get_username(&self) -> (username: String)
        ensures
            username@ == self.username@,
    {
        self.username.clone()
    }

    pub fn set_name(&mut self, new_db_name: String)
        ensures
            final(self).name@ == new_db_name@,
            final(self).username == old(self).username,
            final(self).password == old(self).password,
            final(self).port == old(self).port,
            final(self).host == old(self).host,
            final(self).require_ssl == old(self).require_ssl,
    {
        self.name = new_db_name
    }
}

impl ApplicationSettings {
    pub fn get_port(&self) -> (port: u16)
        ensures
            port == self.port,
    {
        self.port
    }

    pub fn get_host(&self) -> (host: String)
        ensures
            host@ == self.host@,
    {
        self.host.clone()
    }

    pub fn get_base_url(&self) -> (url: String)
        ensures
            url@ == self.base_url@,
    {
        self.base_url.clone()
    }
}

impl EmailClientSettings {
    pub fn get_sender_email(&self) -> (sender: Result<SubscriberEmail, String>)
        ensures
            match sender {
                Ok(accepted) => email_syntax_ok(self.sender_email@) && accepted@
                    == self.sender_email@,
                Err(message) => !email_syntax_ok(self.sender_email@) && message@
                    == invalid_email_message(self.sender_email@),
            },
    {
        SubscriberEmail::parse(self.sender_email.clone())
    }

    pub fn get_base_url(&self) -> (url: String)
        ensures
            url@ == self.base_url@,
    {
        self.base_url.clone()
    }

    pub fn get_api_key(&self) -> (key: String)
        ensures
            key@ == self.api_key@,
    {
        self.api_key.clone()
    }

    pub fn set_base_url(&mut self, new_base_url: String)
        ensures
            final(self).base_url@ == new_base_url@,
            final(self).sender_email == old(self).sender_email,
            final(self).api_key == old(self).api_key,
    {
        self.base_url = new_base_url
    }
}

impl RedisSettings {
    pub fn get_address(&self) -> (address: String)
        ensures
            address@ == redis_address(self.host@, self.port),
    {
        String::from_str("redis://").concat(self.host.as_str()).concat(":").concat(
            u16_to_string(self.port).as_str(),
        )
    }
}

/// The name of an environment.
pub open spec fn environment_name(environment: Environment) -> Seq<char> {
    match environment {
        Environment::Development => "development"@,
        Environment::Production => "production"@,
    }
}

/// The environment that a lower-case name stands for.
pub open spec fn environment_of_name(name: Seq<char>) -> Option<Environment> {
    if name == "development"@ {
        Some(Environment::Development)
    } else if name == "production"@ {
        Some(Environment::Production)
    } else {
        None
    }
}

/// The message that rejects a name as an environment.
pub open spec fn unknown_environment_message(name: Seq<char>) -> Seq<char> {
    name + " is not supported environment. Use either 'development' or 'production'."@
}

/// A text with every character that has a lower-case form replaced by it.
pub uninterp spec fn lowercase(text: Seq<char>) -> Seq<char>;

/// Lowers a text with `str::to_lowercase`. The result depends on the text
/// alone; nothing more is claimed of it.
#[verifier::external_body]
fn to_lowercase(text: &str) -> (lowered: String)
    ensures
        lowered@ == lowercase(text@),
{
    text.to_lowercase()
}

/// Reading back the name of an environment gives that environment.
pub proof fn lemma_environment_round_trip(environment: Environment)
    ensures
        environment_of_name(environment_name(environment)) == Some(environment),
{
    reveal_strlit("development");
    reveal_strlit("production");
    assert("development"@.len() == 11);
    assert("production"@.len() == 10);
}

impl Environment {
    pub fn as_str(&self) -> (name: &'static str)
        ensures
            name@ == environment_name(*self),
    {
        match self {
            Environment::Development => "development",
            Environment::Production => "production",
        }
    }

    /// Reads an environment from its name in lower case. Any other text
    /// is rejected with a message that quotes it.
    pub fn from_lowercase(name: String) -> (parsed: Result<Environment, String>)
        ensures
            match parsed {
                Ok(environment) => environment_of_name(name@) == Some(environment),
                Err(message) => environment_of_name(name@) is None && message@
                    == unknown_environment_message(name@),
            },
    {
        if str_eq(name.as_str(), "development") {
            Ok(Self::Development)
        } else if str_eq(name.as_str(), "production") {
            Ok(Self::Production)
        } else {
            Err(
                name.concat(
                    " is not supported environment. Use either 'development' or 'production'.",
                ),
            )
        }
    }

    /// Reads an environment from its name, in whatever case it is written.
    pub fn try_from(value: String) -> (parsed: Result<Environment, String>)
        ensures
            match parsed {
                Ok(environment) => environment_of_name(lowercase(value@)) == Some(environment),
                Err(message) => environment_of_name(lowercase(value@)) is None && message@
                    == unknown_environment_message(lowercase(value@)),
            },
    {
        Environment::from_lowercase(to_lowercase(value.as_str()))
    }
}

} // verus!
