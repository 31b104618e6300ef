//! The configuration of a deployment.

use vstd::prelude::*;

verus! {

/// How much the service logs.
#[derive(Debug, Clone, Copy, PartialEq, Eq, Structural)]
pub enum LogLevel {
    Error,
    Warn,
    Info,
    Debug,
    Trace,
}

/// Where the service runs.
#[derive(Debug, Clone, Copy, PartialEq, Eq, Structural)]
pub enum Environment {
    Test,
    Local,
    Avskjerming,
    Td,
}

/// How to reach the store.
#[derive(Debug)]
pub struct PsqlSettings {
    pub ip: String,
    pub port: u16,
    pub db_name: Option<String>,
    pub username: String,
    pub password: String,
    pub max_connections: u32,
}

/// Where the service listens and how it keeps sessions.
#[derive(Debug)]
pub struct ApiSettings {
    pub ip: String,
    pub port: u16,
    pub num_workers: Option<u32>,
    pub secret_key: Option<String>,
}

/// Everything a deployment configures.
#[derive(Debug)]
pub struct Settings {
    pub log_level: LogLevel,
    pub environment: Environment,
    pub api: ApiSettings,
    pub postgres: PsqlSettings,
}

/// Whether two optional texts read the same.
pub open spec fn same_text(a: Option<String>, b: Option<String>) -> bool {
    match (a, b) {
        (Some(x), Some(y)) => x@ == y@,
        (None, None) => true,
        _ => false,
    }
}

/// Copies an optional text.
fn clone_text(text: &Option<String>) -> (copy: Option<String>)
    ensures
        same_text(copy, *text),
{
    match text {
        Some(t) => Some(t.clone()),
        None => None,
    }
}

impl PsqlSettings {
    /// Whether two settings say the same, field for field.
    pub open spec fn same_as(self, other: PsqlSettings) -> bool {
        &&& self.ip@ == other.ip@
        &&& self.port == other.port
        &&& same_text(self.db_name, other.db_name)
        &&& self.username@ == other.username@
        &&& self.password@ == other.password@
        &&& self.max_connections == other.max_connections
    }
}

impl ApiSettings {
    /// Whether two settings say the same, field for field.
    pub open spec fn same_as(self, other: ApiSettings) -> bool {
        &&& self.ip@ == other.ip@
        &&& self.port == other.port
        &&& self.num_workers == other.num_workers
        &&& same_text(self.secret_key, other.secret_key)
    }
}

impl Settings {
    /// Whether two settings say the same, field for field.
    pub open spec fn same_as(self, other: Settings) -> bool {
        &&& self.log_level == other.log_level
        &&& self.environment == other.environment
        &&& self.api.same_as(other.api)
        &&& self.postgres.same_as(other.postgres)
    }
}

impl Clone for PsqlSettings {
    fn clone(&self) -> (copy: Self)
        ensures
            copy.same_as(*self),
    {
        PsqlSettings {
            ip: self.ip.clone(),
            port: self.port,
            db_name: clone_text(&self.db_name),
            username: self.username.clone(),
            password: self.password.clone(),
            max_connections: self.max_connections,
        }
    }
}

impl Clone for ApiSettings {
    fn clone(&self) -> (copy: Self)
        ensures
            copy.same_as(*self),
    {
        ApiSettings {
            ip: self.ip.clone(),
            port: self.port,
            num_workers: self.num_workers,
            secret_key: clone_text(&self.secret_key),
        }
    }
}

impl Clone for Settings {
    fn clone(&self) -> (copy: Self)
        ensures
            copy.same_as(*self),
    {
        Settings {
            log_level: self.log_level,
            environment: self.environment,
            api: self.api.clone(),
            postgres: self.postgres.clone(),
        }
    }
}

/// The character of a decimal digit.
pub open spec fn digit_char(d: nat) -> char
    recommends
        d < 10,
{
    if d == 0 {
        '0'
    } else if d == 1 {
        '1'
    } else if d == 2 {
        '2'
    } else if d == 3 {
        '3'
    } else if d == 4 {
        '4'
    } else if d == 5 {
        '5'
    } else if d == 6 {
        '6'
    } else if d == 7 {
        '7'
    } else if d == 8 {
        '8'
    } else {
        '9'
    }
}

/// A number in decimal, without leading zeros.
pub open spec fn decimal(n: nat) -> Seq<char>
    decreases n,
{
    if n < 10 {
        seq![digit_char(n)]
    } else {
        decimal(n / 10).push(digit_char(n % 10))
    }
}

/// The text of one decimal digit.
fn digit_text(d: u16) -> (text: &'static str)
    requires
        d < 10,
    ensures
        text@ == seq![digit_char(d as nat)],
{
    proof {
        reveal_strlit("0");
        reveal_strlit("1");
        reveal_strlit("2");
        reveal_strlit("3");
        reveal_strlit("4");
        reveal_strlit("5");
        reveal_strlit("6");
        reveal_strlit("7");
        reveal_strlit("8");
        reveal_strlit("9");
    }
    let text = if d == 0 {
        "0"
    } else if d == 1 {
        "1"
    } else if d == 2 {
        "2"
    } else if d == 3 {
        "3"
    } else if d == 4 {
        "4"
    } else if d == 5 {
        "5"
    } else if d == 6 {
        "6"
    } else if d == 7 {
        "7"
    } else if d == 8 {
        "8"
    } else {
        "9"
    };
    assert(text@ =~= seq![digit_char(d as nat)]);
    text
}

/// Writes a port number in decimal.
pub fn port_text(port: u16) -> (text: String)
    ensures
        text@ == decimal(port as nat),
    decreases port,
{
    if port < 10 {
        digit_text(port).to_owned()
    } else {
        let mut text = port_text(port / 10);
        text.append(digit_text(port % 10));
        proof {
            assert(text@ =~= decimal((port / 10) as nat).push(digit_char((port % 10) as nat)));
        }
        text
    }
}

impl ApiSettings {
    /// The address to listen on: the ip, a colon, and the port in decimal.
    pub open spec fn listener_address_spec(self) -> Seq<char> {
        self.ip@ + seq![':'] + decimal(self.port as nat)
    }

    /// Renders the address to listen on.
    pub fn listener_address(&self) -> (address: String)
        ensures
            address@ == self.listener_address_spec(),
    {
        proof {
            reveal_strlit(":");
        }
        let mut address = self.ip.clone();
        address.append(":");
        let port = port_text(self.port);
        address.append(port.as_str());
        proof {
            assert(":"@ =~= seq![':']);
        }
        address
    }

    /// Whether requests are guarded by a session: only with a secret key
    /// to sign the session cookie.
    pub fn sessions_enabled(&self) -> (enabled: bool)
        ensures
            enabled == self.secret_key is Some,
    {
        self.secret_key.is_some()
    }
}

impl LogLevel {
    /// The name of the level.
    pub open spec fn name_spec(self) -> Seq<char> {
        match self {
            LogLevel::Error => "Error"@,
            LogLevel::Warn => "Warn"@,
            LogLevel::Info => "Info"@,
            LogLevel::Debug => "Debug"@,
            LogLevel::Trace => "Trace"@,
        }
    }

    /// Renders the name of the level.
    pub fn name(&self) -> (text: String)
        ensures
            text@ == self.name_spec(),
    {
        match self {
            LogLevel::Error => "Error".to_owned(),
            LogLevel::Warn => "Warn".to_owned(),
            LogLevel::Info => "Info".to_owned(),
            LogLevel::Debug => "Debug".to_owned(),
            LogLevel::Trace => "Trace".to_owned(),
        }
    }
}

impl Environment {
    /// The name of the environment.
    pub open spec fn name_spec(self) -> Seq<char> {
        match self {
            Environment::Test => "Test"@,
            Environment::Local => "Local"@,
            Environment::Avskjerming => "Avskjerming"@,
            Environment::Td => "Td"@,
        }
    }

    /// The environment that a text names, if it names one. Names are
    /// matched letter for letter.
    pub open spec fn parse_spec(text: Seq<char>) -> Option<Environment> {
        if text == "Test"@ {
            Some(Environment::Test)
        } else if text == "Local"@ {
            Some(Environment::Local)
        } else if text == "Avskjerming"@ {
            Some(Environment::Avskjerming)
        } else if text == "Td"@ {
            Some(Environment::Td)
        } else {
            None
        }
    }

    /// The configuration file of the environment: its name in lower case
    /// under `config/`.
    pub open spec fn config_file_spec(self) -> Seq<char> {
        match self {
            Environment::Test => "config/test"@,
            Environment::Local => "config/local"@,
            Environment::Avskjerming => "config/avskjerming"@,
            Environment::Td => "config/td"@,
        }
    }

    /// Renders the name of the environment.
    pub fn name(&self) -> (text: String)
        ensures
            text@ == self.name_spec(),
    {
        match self {
            Environment::Test => "Test".to_owned(),
            Environment::Local => "Local".to_owned(),
            Environment::Avskjerming => "Avskjerming".to_owned(),
            Environment::Td => "Td".to_owned(),
        }
    }

    /// Reads the name of an environment.
    pub fn parse(text: &str) -> (environment: Option<Environment>)
        ensures
            environment == Self::parse_spec(text@),
    {
        let given = text.to_owned();
        if given == "Test".to_owned() {
            Some(Environment::Test)
        } else if given == "Local".to_owned() {
            Some(Environment::Local)
        } else if given == "Avskjerming".to_owned() {
            Some(Environment::Avskjerming)
        } else if given == "Td".to_owned() {
            Some(Environment::Td)
        } else {
            None
        }
    }

    /// Names the configuration file of the environment.
    pub fn config_file(&self) -> (path: String)
        ensures
            path@ == self.config_file_spec(),
    {
        match self {
            Environment::Test => "config/test".to_owned(),
            Environment::Local => "config/local".to_owned(),
            Environment::Avskjerming => "config/avskjerming".to_owned(),
            Environment::Td => "config/td".to_owned(),
        }
    }

    /// Whether the store's password is taken from the process environment
    /// in place of the configuration file.
    pub fn overrides_store_password(&self) -> (yes: bool)
        ensures
            yes == (*self == Environment::Avskjerming || *self == Environment::Td),
    {
        match self {
            Environment::Avskjerming | Environment::Td => true,
            Environment::Test | Environment::Local => false,
        }
    }

    /// Whether the session key is taken from the process environment in
    /// place of the configuration file.
    pub fn overrides_secret_key(&self) -> (yes: bool)
        ensures
            yes == (*self == Environment::Td),
    {
        match self {
            Environment::Td => true,
            Environment::Test | Environment::Local | Environment::Avskjerming => false,
        }
    }

    /// Whether the schema is migrated at start-up: everywhere but under
    /// test.
    pub fn migrates(&self) -> (yes: bool)
        ensures
            yes == (*self != Environment::Test),
    {
        match self {
            Environment::Test => false,
            Environment::Local | Environment::Avskjerming | Environment::Td => true,
        }
    }

    /// The one origin that cross-origin requests are taken from; none
    /// means any origin.
    pub fn allowed_origin(&self) -> (origin: Option<&'static str>)
        ensures
            origin is Some <==> *self == Environment::Td,
            origin is Some ==> origin->0@ == "https://calendar.hilbertsen.com"@,
    {
        match self {
            Environment::Td => Some("https://calendar.hilbertsen.com"),
            Environment::Test | Environment::Local | Environment::Avskjerming => None,
        }
    }
}

/// Reading the name of an environment gives that environment back.
pub proof fn environment_name_round_trips(environment: Environment)
    ensures
        Environment::parse_spec(environment.name_spec()) == Some(environment),
{
    reveal_strlit("Test");
    reveal_strlit("Local");
    reveal_strlit("Avskjerming");
    reveal_strlit("Td");
    assert("Test"@.len() == 4 && "Local"@.len() == 5 && "Avskjerming"@.len() == 11 && "Td"@.len()
        == 2);
}

impl Settings {
    /// Puts the secrets that the process environment supplies in place of
    /// those of the configuration file, each only where this environment
    /// takes it from there. A secret that this environment takes from the
    /// process environment has to be supplied.
    pub fn with_secrets(self, store_password: Option<String>, secret_key: Option<String>) -> (settings:
        Settings)
        requires
            (self.environment == Environment::Avskjerming || self.environment == Environment::Td)
                ==> store_password is Some,
            self.environment == Environment::Td ==> secret_key is Some,
        ensures
            settings.log_level == self.log_level,
            settings.environment == self.environment,
            settings.api.ip == self.api.ip,
            settings.api.port == self.api.port,
            settings.api.num_workers == self.api.num_workers,
            settings.postgres.ip == self.postgres.ip,
            settings.postgres.port == self.postgres.port,
            settings.postgres.db_name == self.postgres.db_name,
            settings.postgres.username == self.postgres.username,
            settings.postgres.max_connections == self.postgres.max_connections,
            settings.postgres.password == (if self.environment == Environment::Avskjerming
                || self.environment == Environment::Td {
                store_password->0
            } else {
                self.postgres.password
            }),
            settings.api.secret_key == (if self.environment == Environment::Td {
                secret_key
            } else {
                self.api.secret_key
            }),
    {
        let mut settings = self;
        if settings.environment.overrides_store_password() {
            match store_password {
                Some(password) => {
                    settings.postgres.password = password;
                },
                None => {},
            }
        }
        if settings.environment.overrides_secret_key() {
            settings.api.secret_key = secret_key;
        }
        settings
    }
}

} // verus!
