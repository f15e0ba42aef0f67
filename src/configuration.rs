//! The parts of configuration that are computed: which environment runs,
//! which settings file it reads, and the addresses built from settings.
use vstd::prelude::*;

verus! {

/// A text in lower case, as `str::to_lowercase` makes it.
pub uninterp spec fn lower_of(s: Seq<char>) -> Seq<char>;

/// Relies on `str::to_lowercase`: the result depends on the characters alone.
#[verifier::external_body]
fn lowercase(s: &str) -> (r: String)
    ensures
        r@ == lower_of(s@),
{
    s.to_lowercase()
}

pub open spec fn digit_char(d: nat) -> char {
    ((d + 48) as u8) as char
}

/// The decimal digits of a number, without leading zeros.
pub open spec fn decimal_of(n: nat) -> Seq<char>
    decreases n,
{
    if n < 10 {
        seq![digit_char(n)]
    } else {
        decimal_of(n / 10) + seq![digit_char(n % 10)]
    }
}

/// Relies on `ToString` for `u16`: its decimal digits.
#[verifier::external_body]
fn decimal_string(n: u16) -> (r: String)
    ensures
        r@ == decimal_of(n as nat),
{
    n.to_string()
}

/// The environment the service runs in; it picks the settings file.
#[derive(Clone, Copy, Debug, PartialEq, Eq, Structural)]
pub enum Environment {
    Development,
    Production,
}

pub open spec fn environment_name(e: Environment) -> Seq<char> {
    match e {
        Environment::Development => "development"@,
        Environment::Production => "production"@,
    }
}

pub open spec fn unsupported_environment(name: Seq<char>) -> Seq<char> {
    name + " is not a supported environment. Use either `development` or `production`."@
}

/// The environment named in lower case by `name`.
pub open spec fn environment_named(name: Seq<char>, r: Result<Environment, String>) -> bool {
    if name == "development"@ {
        r == Ok::<Environment, String>(Environment::Development)
    } else if name == "production"@ {
        r == Ok::<Environment, String>(Environment::Production)
    } else {
        r matches Err(e) && e@ == unsupported_environment(name)
    }
}

impl Environment {
    pub fn as_str(&self) -> (r: &'static str)
        ensures
            r@ == environment_name(*self),
    {
        match self {
            Environment::Development => "development",
            Environment::Production => "production",
        }
    }

    /// The environment whose name is `name`, already in lower case.
    pub fn from_lowercase(name: &str) -> (r: Result<Environment, String>)
        ensures
            environment_named(name@, r),
    {
        let name = name.to_string();
        if name == String::from_str("development") {
            Ok(Environment::Development)
        } else if name == String::from_str("production") {
            Ok(Environment::Production)
        } else {
            Err(name.concat(" is not a supported environment. Use either `development` or `production`."))
        }
    }

    /// The environment named by `s`, in any case.
    pub fn parse(s: String) -> (r: Result<Environment, String>)
        ensures
            environment_named(lower_of(s@), r),
    {
        let lower = lowercase(s.as_str());
        Environment::from_lowercase(lower.as_str())
    }

    /// The environment chosen by the value of the environment variable
    /// that selects it; development when it is not set.
    pub fn from_variable(value: Option<String>) -> (r: Result<Environment, String>)
        ensures
            value is None ==> r == Ok::<Environment, String>(Environment::Development),
            value matches Some(v) ==> environment_named(lower_of(v@), r),
    {
        match value {
            Some(v) => Environment::parse(v),
            None => Ok(Environment::Development),
        }
    }

    /// The settings file that is read on top of the base one.
    pub fn settings_file(&self) -> (r: String)
        ensures
            r@ == environment_name(*self) + ".yaml"@,
    {
        String::from_str(self.as_str()).concat(".yaml")
    }
}

/// Where the service listens, and the URL it is reached at.
pub struct ApplicationSettings {
    pub port: u16,
    pub host: String,
    pub base_url: String,
}

impl ApplicationSettings {
    /// `host:port`, the address to listen on.
    pub fn address(&self) -> (r: String)
        ensures
            r@ == self.host@ + ":"@ + decimal_of(self.port as nat),
    {
        let port = decimal_string(self.port);
        self.host.clone().concat(":").concat(port.as_str())
    }
}

pub open spec fn server_url(username: Seq<char>, password: Seq<char>, host: Seq<char>, port: u16) -> Seq<
    char,
> {
    "postgres://"@ + username + ":"@ + password + "@"@ + host + ":"@ + decimal_of(port as nat)
}

/// The URL of the database server, with the database's name appended
/// when one is given.
pub fn database_url(
    username: &str,
    password: &str,
    host: &str,
    port: u16,
    database: Option<&str>,
) -> (r: String)
    ensures
        database is None ==> r@ == server_url(username@, password@, host@, port),
        database matches Some(d) ==> r@ == server_url(username@, password@, host@, port) + "/"@
            + d@,
{
    let port = decimal_string(port);
    let url = String::from_str("postgres://").concat(username).concat(":").concat(password).concat(
        "@",
    ).concat(host).concat(":").concat(port.as_str());
    match database {
        Some(d) => url.concat("/").concat(d),
        None => url,
    }
}

} // verus!
