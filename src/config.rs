use crate::domain::SubscriberEmail;
use crate::domain::subscriber_email::email_syntax_valid;
use vstd::prelude::*;

verus! {

/// Whether two texts hold the same characters.
fn same_text(a: &str, b: &str) -> (r: bool)
    ensures
        r == (a@ == b@),
{
    let n = a.unicode_len();
    if n != b.unicode_len() {
        return false;
    }
    let mut i: usize = 0;
    while i < n
        invariant
            n == a@.len() == b@.len(),
            i <= n,
            forall|j: int| 0 <= j < i ==> a@[j] == b@[j],
        decreases n - i,
    {
        if a.get_char(i) != b.get_char(i) {
            return false;
        }
        i = i + 1;
    }
    assert(a@ =~= b@);
    true
}

/// Where the application runs; it picks the settings file read over the base one.
#[derive(Debug, Clone, Copy, PartialEq, Eq, Structural)]
pub enum Env {
    Local,
    Prod,
}

impl Env {
    pub open spec fn name(self) -> Seq<char> {
        match self {
            Env::Local => "local"@,
            Env::Prod => "prod"@,
        }
    }

    pub fn as_str(&self) -> (r: &'static str)
        ensures
            r@ == self.name(),
    {
        match self {
            Env::Local => "local",
            Env::Prod => "prod",
        }
    }

    /// The environment that `value` names: `local` or `prod`, exactly.
    pub fn try_from(value: String) -> (r: Result<Env, String>)
        ensures
            r matches Ok(e) <==> (value@ == Env::Local.name() || value@ == Env::Prod.name()),
            value@ == Env::Local.name() ==> r matches Ok(Env::Local),
            value@ == Env::Prod.name() ==> r matches Ok(Env::Prod),
            r matches Err(m) ==> m@ == value@ + " is not a valid environment"@,
    {
        proof {
            reveal_strlit("local");
            reveal_strlit("prod");
            assert(Env::Local.name()[0] != Env::Prod.name()[0]);
        }
        if same_text(value.as_str(), "local") {
            Ok(Env::Local)
        } else if same_text(value.as_str(), "prod") {
            Ok(Env::Prod)
        } else {
            Err(value.concat(" is not a valid environment"))
        }
    }

    /// Name of this environment's settings file.
    pub fn file_name(&self) -> (r: String)
        ensures
            r@ == self.name() + ".yaml"@,
    {
        String::from_str(self.as_str()).concat(".yaml")
    }
}

/// Where the HTTP server listens.
pub struct AppConfig {
    pub host: String,
    pub port: u16,
}

/// Settings of the e-mail provider's client; its server token is held apart.
pub struct EmailClientConfig {
    pub base_url: String,
    pub sender_email: String,
    pub timeout_ms: u64,
}

impl EmailClientConfig {
    pub fn parse_sender_email(&self) -> (r: Result<SubscriberEmail, String>)
        ensures
            r is Ok <==> email_syntax_valid(self.sender_email@),
            r matches Ok(e) ==> e@ == self.sender_email@,
            r matches Err(m) ==> m@ == "Invalid subscriber email: "@ + self.sender_email@,
    {
        SubscriberEmail::parse(self.sender_email.clone())
    }
}

/// How a database connection uses TLS.
#[derive(Debug, Clone, Copy, PartialEq, Eq, Structural)]
pub enum SslMode {
    /// Use TLS where the server offers it.
    Prefer,
    /// Refuse a connection without TLS.
    Require,
}

/// Settings of the storage engine.
pub struct DatabaseConfig {
    pub name: String,
    pub username: String,
    pub password: String,
    pub port: u16,
    pub host: String,
    pub require_ssl: bool,
}

/// What a connection to the storage engine is opened with.
pub struct ConnectOptions {
    pub host: String,
    pub port: u16,
    pub username: String,
    pub password: String,
    pub ssl_mode: SslMode,
    /// The database to open; the server's default one where there is none.
    pub database: Option<String>,
    /// Whether each statement is logged, at trace level.
    pub trace_statements: bool,
}

impl DatabaseConfig {
    /// Options that reach the server, without naming a database.
    pub fn connection_string_without_db(&self) -> (r: ConnectOptions)
        ensures
            r.host@ == self.host@,
            r.port == self.port,
            r.username@ == self.username@,
            r.password@ == self.password@,
            r.ssl_mode == (if self.require_ssl {
                SslMode::Require
            } else {
                SslMode::Prefer
            }),
            r.database is None,
            !r.trace_statements,
    {
        let ssl_mode = if self.require_ssl {
            SslMode::Require
        } else {
            SslMode::Prefer
        };
        ConnectOptions {
            host: self.host.clone(),
            port: self.port,
            username: self.username.clone(),
            password: self.password.clone(),
            ssl_mode,
            database: None,
            trace_statements: false,
        }
    }

    /// Options that open this configuration's database, logging each statement.
    pub fn connection_string(&self) -> (r: ConnectOptions)
        ensures
            r.host@ == self.host@,
            r.port == self.port,
            r.username@ == self.username@,
            r.password@ == self.password@,
            r.ssl_mode == (if self.require_ssl {
                SslMode::Require
            } else {
                SslMode::Prefer
            }),
            r.database matches Some(d) && d@ == self.name@,
            r.trace_statements,
    {
        let mut options = self.connection_string_without_db();
        options.database = Some(self.name.clone());
        options.trace_statements = true;
        options
    }
}

} // verus!
