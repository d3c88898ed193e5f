//! Settings of the service and the rules that derive values from them.
use crate::text::{lower_of, lowercase, same_text};
use vstd::prelude::*;
use vstd::string::StringExecFns;
use secrecy::{ExposeSecret, Secret};

verus! {

/// The environment the service runs in; it selects a configuration file.
#[derive(Clone, Copy, Debug, PartialEq, Eq, Structural)]
pub enum Environment {
    Local,
    Production,
}

/// The canonical name of an environment.
pub open spec fn environment_name(e: Environment) -> Seq<char> {
    match e {
        Environment::Local => "local"@,
        Environment::Production => "production"@,
    }
}

/// The message of the error for a value that names no environment.
pub open spec fn invalid_environment_message(lowered: Seq<char>) -> Seq<char> {
    lowered + " is not a valid environment. Use either `local` or `production`."@
}

/// What parsing a value gives: `local` and `production` name the two
/// environments; any other value is rejected with a message that quotes its
/// lower-case form.
pub open spec fn environment_of(value: Seq<char>) -> Result<Environment, Seq<char>> {
    if value == "local"@ {
        Ok(Environment::Local)
    } else if value == "production"@ {
        Ok(Environment::Production)
    } else {
        Err(invalid_environment_message(lower_of(value)))
    }
}

/// The message for a rejected value, given its lower-case form.
pub fn invalid_environment(lowered: &str) -> (r: String)
    ensures
        r@ == invalid_environment_message(lowered@),
{
    String::from_str(lowered).concat(" is not a valid environment. Use either `local` or `production`.")
}

impl Environment {
    pub fn as_str(&self) -> (r: &'static str)
        ensures
            r@ == environment_name(*self),
    {
        match self {
            Environment::Local => "local",
            Environment::Production => "production",
        }
    }

    /// Reads an environment from its exact name.
    pub fn from_name(value: &str) -> (r: Result<Environment, String>)
        ensures
            match r {
                Ok(e) => environment_of(value@) == Ok::<Environment, Seq<char>>(e),
                Err(m) => environment_of(value@) == Err::<Environment, Seq<char>>(m@),
            },
            r is Ok <==> (value@ == "local"@ || value@ == "production"@),
            r matches Ok(e) ==> environment_name(e) == value@,
    {
        if same_text(value, "local") {
            Ok(Environment::Local)
        } else if same_text(value, "production") {
            Ok(Environment::Production)
        } else {
            let lowered = lowercase(value);
            Err(invalid_environment(lowered.as_str()))
        }
    }
}


/// The file that every environment reads first.
pub const BASE_CONFIG_FILE: &'static str = "base.yaml";

/// The prefix of the environment variables that override settings.
pub const ENV_PREFIX: &'static str = "APP";

/// The separator between the prefix and the key of an override.
pub const ENV_PREFIX_SEPARATOR: &'static str = "_";

/// The separator of nested keys in an override (`APP_APPLICATION__PORT`).
pub const ENV_KEY_SEPARATOR: &'static str = "__";

/// The environment selected by the value of `APP_ENVIRONMENT`, if it is set.
pub open spec fn selected_environment(var: Option<Seq<char>>) -> Result<Environment, Seq<char>> {
    match var {
        None => Ok(Environment::Local),
        Some(v) => environment_of(v),
    }
}

/// The characters of an optional text.
pub open spec fn text_opt(t: Option<String>) -> Option<Seq<char>> {
    match t {
        Some(v) => Some(v@),
        None => None,
    }
}

/// Chooses the environment from the variable's value; an unset variable
/// selects `local`.
pub fn environment_from_var(var: Option<String>) -> (r: Result<Environment, String>)
    ensures
        match r {
            Ok(e) => selected_environment(text_opt(var)) == Ok::<Environment, Seq<char>>(e),
            Err(m) => selected_environment(text_opt(var)) == Err::<Environment, Seq<char>>(m@),
        },
{
    match var {
        None => Ok(Environment::Local),
        Some(v) => Environment::from_name(v.as_str()),
    }
}

/// The configuration file of an environment: its name with `.yaml`.
pub fn config_file_name(env: Environment) -> (r: String)
    ensures
        r@ == environment_name(env) + ".yaml"@,
{
    String::from_str(env.as_str()).concat(".yaml")
}

/// The configuration files in the order they are layered: later ones override
/// earlier ones.
pub fn config_files(env: Environment) -> (r: Vec<String>)
    ensures
        r@.len() == 2,
        r@[0]@ == BASE_CONFIG_FILE@,
        r@[1]@ == environment_name(env) + ".yaml"@,
{
    let mut files: Vec<String> = Vec::new();
    files.push(String::from_str(BASE_CONFIG_FILE));
    files.push(config_file_name(env));
    files
}

/// The character of a decimal digit.
pub open spec fn digit_char(d: nat) -> char {
    if d == 0 {
        '0'
    } else if d == 1 {
        '1'
    } else if d == 2 {
        '2'
    } else if d == 3 {
        '3'
    } else if d == 4 {
        '4'
    } else if d == 5 {
        '5'
    } else if d == 6 {
        '6'
    } else if d == 7 {
        '7'
    } else if d == 8 {
        '8'
    } else {
        '9'
    }
}

/// The decimal form of a number, without leading zeros.
pub open spec fn decimal(n: nat) -> Seq<char>
    decreases n,
{
    if n < 10 {
        seq![digit_char(n)]
    } else {
        decimal(n / 10).push(digit_char(n % 10))
    }
}

fn digit_str(d: u16) -> (r: &'static str)
    requires
        d < 10,
    ensures
        r@ == seq![digit_char(d as nat)],
{
    proof {
        reveal_strlit("0");
        reveal_strlit("1");
        reveal_strlit("2");
        reveal_strlit("3");
        reveal_strlit("4");
        reveal_strlit("5");
        reveal_strlit("6");
        reveal_strlit("7");
        reveal_strlit("8");
        reveal_strlit("9");
    }
    match d {
        0 => "0",
        1 => "1",
        2 => "2",
        3 => "3",
        4 => "4",
        5 => "5",
        6 => "6",
        7 => "7",
        8 => "8",
        _ => "9",
    }
}

fn append_decimal(out: &mut String, n: u16)
    ensures
        final(out)@ == old(out)@ + decimal(n as nat),
    decreases n,
{
    if n >= 10 {
        append_decimal(out, n / 10);
    }
    out.append(digit_str(n % 10));
    assert(out@ =~= old(out)@ + decimal(n as nat));
}

/// All settings of the service, read once at startup.
pub struct Settings {
    pub database: DatabaseSettings,
    pub application: ApplicationSettings,
}

/// Settings of the HTTP listener.
pub struct ApplicationSettings {
    pub port: u16,
    pub host: String,
}

/// The address text `host:port` that the listener binds.
pub open spec fn address_of(host: Seq<char>, port: u16) -> Seq<char> {
    host + ":"@ + decimal(port as nat)
}

impl ApplicationSettings {
    /// The address to bind, `host:port`.
    pub fn address(&self) -> (r: String)
        ensures
            r@ == address_of(self.host@, self.port),
    {
        let mut out = self.host.clone().concat(":");
        append_decimal(&mut out, self.port);
        out
    }
}

/// A password kept as `secrecy::Secret<String>`: its debug form is redacted
/// and reading it takes an explicit `expose`. Verus cannot declare
/// `secrecy::Secret` itself (its `Zeroize` bound is refused), so the value is
/// held in a field that Verus does not read.
#[verifier::external_body]
pub struct Password {
    secret: Secret<String>,
}

impl Password {
    /// Relies on `secrecy::Secret::new`, which only stores the text.
    #[verifier::external_body]
    pub fn new(text: String) -> (r: Password) {
        Password { secret: Secret::new(text) }
    }

    /// Relies on `secrecy::ExposeSecret::expose_secret`, which hands out the
    /// stored text.
    #[verifier::external_body]
    pub fn expose(&self) -> (r: &String) {
        self.secret.expose_secret()
    }

    /// Relies on `Clone for secrecy::Secret<String>`: the copy holds a clone
    /// of the same text.
    #[verifier::external_body]
    pub fn duplicate(&self) -> (r: Password)
        ensures
            r == *self,
    {
        Password { secret: self.secret.clone() }
    }
}

/// How the connection negotiates encryption.
#[derive(Clone, Copy, Debug, PartialEq, Eq, Structural)]
pub enum SslMode {
    /// Encryption is mandatory.
    Require,
    /// Encryption is tried first, then a plain connection.
    Prefer,
}

/// At which level executed statements are logged.
#[derive(Clone, Copy, Debug, PartialEq, Eq, Structural)]
pub enum StatementLog {
    /// The database driver's own default.
    DriverDefault,
    /// At trace level.
    Trace,
}

/// Settings of the database connection.
pub struct DatabaseSettings {
    pub username: String,
    pub password: Password,
    pub port: u16,
    pub host: String,
    pub database_name: String,
    /// Whether the connection must be encrypted.
    pub require_ssl: bool,
}

/// Options of a Postgres connection. `database` is `None` where the driver's
/// default database is used.
pub struct ConnectOptions {
    pub host: String,
    pub port: u16,
    pub username: String,
    pub password: Password,
    pub database: Option<String>,
    pub ssl_mode: SslMode,
    pub statement_log: StatementLog,
}

/// The model of `ConnectOptions`, with texts as characters.
pub struct ConnectOptionsView {
    pub host: Seq<char>,
    pub port: u16,
    pub username: Seq<char>,
    pub password: Password,
    pub database: Option<Seq<char>>,
    pub ssl_mode: SslMode,
    pub statement_log: StatementLog,
}

impl View for ConnectOptions {
    type V = ConnectOptionsView;

    open spec fn view(&self) -> ConnectOptionsView {
        ConnectOptionsView {
            host: self.host@,
            port: self.port,
            username: self.username@,
            password: self.password,
            database: text_opt(self.database),
            ssl_mode: self.ssl_mode,
            statement_log: self.statement_log,
        }
    }
}

/// The encryption mode that the settings ask for.
pub open spec fn ssl_mode_of(require_ssl: bool) -> SslMode {
    if require_ssl {
        SslMode::Require
    } else {
        SslMode::Prefer
    }
}

/// Options that reach the server but name no database.
pub open spec fn server_options(s: &DatabaseSettings) -> ConnectOptionsView {
    ConnectOptionsView {
        host: s.host@,
        port: s.port,
        username: s.username@,
        password: s.password,
        database: None,
        ssl_mode: ssl_mode_of(s.require_ssl),
        statement_log: StatementLog::DriverDefault,
    }
}

/// Options for the configured database, with statements logged at trace level.
pub open spec fn database_options(s: &DatabaseSettings) -> ConnectOptionsView {
    ConnectOptionsView {
        database: Some(s.database_name@),
        statement_log: StatementLog::Trace,
        ..server_options(s)
    }
}

impl DatabaseSettings {
    /// Options for the configured database.
    pub fn with_db(&self) -> (r: ConnectOptions)
        ensures
            r@ == database_options(self),
    {
        let mut options = self.without_db();
        options.database = Some(self.database_name.clone());
        options.statement_log = StatementLog::Trace;
        options
    }

    /// Options that reach the server without naming a database, as needed to
    /// create one.
    pub fn without_db(&self) -> (r: ConnectOptions)
        ensures
            r@ == server_options(self),
    {
        let ssl_mode = if self.require_ssl {
            SslMode::Require
        } else {
            SslMode::Prefer
        };
        ConnectOptions {
            host: self.host.clone(),
            port: self.port,
            username: self.username.clone(),
            password: self.password.duplicate(),
            database: None,
            ssl_mode,
            statement_log: StatementLog::DriverDefault,
        }
    }
}

/// For every database name, the options for the database differ from those
/// that only reach the server in the database they name, which is exactly the
/// configured one, and in the statement log level; the server-only options name
/// no database at all.
pub proof fn lemma_database_options_name_only_the_configured_database(s: &DatabaseSettings)
    ensures
        server_options(s).database == None::<Seq<char>>,
        database_options(s).database == Some(s.database_name@),
        database_options(s) == (ConnectOptionsView {
            database: Some(s.database_name@),
            statement_log: StatementLog::Trace,
            ..server_options(s)
        }),
{
}
} // verus!
