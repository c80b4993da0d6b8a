//! Application settings: plain configuration values handed in by whatever
//! loads the process configuration, with their defaults and the small
//! derived quantities the rest of the system asks for.

use vstd::prelude::*;
use vstd::string::{StrSliceExecFns, StringExecFns};

use crate::strutil::{
    ascii_lowercase, push_char, spec_ascii_lowercase, spec_dec_str, str_eq, u64_to_dec_string,
};

verus! {

/// Cross-origin settings for the transport layer.
#[derive(Clone, Debug)]
pub struct CorsSettings {
    pub allowed_origins: Vec<String>,
    pub allowed_methods: Vec<String>,
    pub allowed_headers: Vec<String>,
    pub allow_credentials: bool,
    pub max_age: Option<usize>,
}

/// Where and how the application listens.
#[derive(Clone, Debug)]
pub struct ApplicationSettings {
    pub host: String,
    pub port: u16,
    pub base_url: String,
    pub cors: CorsSettings,
    pub request_timeout_seconds: u64,
    pub max_request_size: usize,
    pub workers: Option<usize>,
}

/// Log level, format and rotation.
#[derive(Clone, Debug)]
pub struct LoggingSettings {
    pub level: String,
    pub format: String,
    pub file_path: Option<String>,
    pub max_file_size_mb: Option<u64>,
    pub max_files: Option<usize>,
}

/// Rate limiting, password policy and session limits.
#[derive(Clone, Debug)]
pub struct SecuritySettings {
    pub rate_limit_requests_per_minute: u32,
    pub rate_limit_burst: u32,
    pub password_min_length: usize,
    pub password_require_special_chars: bool,
    pub password_require_numbers: bool,
    pub password_require_uppercase: bool,
    pub session_timeout_minutes: i64,
    pub max_login_attempts: u32,
    pub lockout_duration_minutes: i64,
    pub trusted_proxies: Vec<String>,
}

/// Metrics and health-check switches.
#[derive(Clone, Copy, Debug)]
pub struct MonitoringSettings {
    pub metrics_enabled: bool,
    pub health_check_interval_seconds: u64,
    pub performance_monitoring: bool,
    pub error_reporting: bool,
}

impl ApplicationSettings {
    /// The listen address, `host:port`.
    pub fn get_address(&self) -> (r: String)
        ensures
            r@ == self.host@ + seq![':'] + spec_dec_str(self.port as int),
    {
        let mut s = String::from_str(self.host.as_str());
        push_char(&mut s, ':');
        let port = u64_to_dec_string(self.port as u64);
        s.append(port.as_str());
        proof {
            assert(s@ =~= self.host@ + seq![':'] + spec_dec_str(self.port as int));
        }
        s
    }

    /// The request timeout, in seconds.
    pub fn request_timeout(&self) -> (r: u64)
        ensures
            r == self.request_timeout_seconds,
    {
        self.request_timeout_seconds
    }
}

impl SecuritySettings {
    /// The session timeout, in seconds.
    pub fn session_timeout(&self) -> (r: i64)
        requires
            0 <= self.session_timeout_minutes,
            self.session_timeout_minutes * 60 <= i64::MAX,
        ensures
            r == self.session_timeout_minutes * 60,
    {
        self.session_timeout_minutes * 60
    }

    /// The login lockout duration, in seconds.
    pub fn lockout_duration(&self) -> (r: i64)
        requires
            0 <= self.lockout_duration_minutes,
            self.lockout_duration_minutes * 60 <= i64::MAX,
        ensures
            r == self.lockout_duration_minutes * 60,
    {
        self.lockout_duration_minutes * 60
    }
}

impl Default for ApplicationSettings {
    /// Local development defaults.
    fn default() -> (r: ApplicationSettings)
        ensures
            r.host@ == "127.0.0.1"@,
            r.port == 8000,
            r.base_url@ == "http://localhost:8000"@,
            r.request_timeout_seconds == 30,
            r.max_request_size == 1048576,
            r.workers is None,
    {
        ApplicationSettings {
            host: String::from_str("127.0.0.1"),
            port: 8000,
            base_url: String::from_str("http://localhost:8000"),
            cors: CorsSettings::default(),
            request_timeout_seconds: 30,
            max_request_size: 1048576,
            workers: None,
        }
    }
}

impl Default for CorsSettings {
    /// Local development defaults: one allowed origin, the four verbs, the
    /// two headers the API needs.
    fn default() -> (r: CorsSettings)
        ensures
            r.allowed_origins@.len() == 1,
            r.allowed_origins@[0]@ == "http://localhost:3000"@,
            r.allowed_methods@.len() == 4,
            r.allowed_methods@[0]@ == "GET"@,
            r.allowed_methods@[1]@ == "POST"@,
            r.allowed_methods@[2]@ == "PUT"@,
            r.allowed_methods@[3]@ == "DELETE"@,
            r.allowed_headers@.len() == 2,
            r.allowed_headers@[0]@ == "Content-Type"@,
            r.allowed_headers@[1]@ == "Authorization"@,
            r.allow_credentials,
            r.max_age == Some(3600usize),
    {
        let mut allowed_origins: Vec<String> = Vec::new();
        allowed_origins.push(String::from_str("http://localhost:3000"));
        let mut allowed_methods: Vec<String> = Vec::new();
        allowed_methods.push(String::from_str("GET"));
        allowed_methods.push(String::from_str("POST"));
        allowed_methods.push(String::from_str("PUT"));
        allowed_methods.push(String::from_str("DELETE"));
        let mut allowed_headers: Vec<String> = Vec::new();
        allowed_headers.push(String::from_str("Content-Type"));
        allowed_headers.push(String::from_str("Authorization"));
        CorsSettings {
            allowed_origins,
            allowed_methods,
            allowed_headers,
            allow_credentials: true,
            max_age: Some(3600),
        }
    }
}

impl Default for SecuritySettings {
    /// Conservative defaults for rate limiting and the password policy.
    fn default() -> (r: SecuritySettings)
        ensures
            r.rate_limit_requests_per_minute == 60,
            r.rate_limit_burst == 10,
            r.password_min_length == 8,
            r.password_require_special_chars,
            r.password_require_numbers,
            r.password_require_uppercase,
            r.session_timeout_minutes == 60,
            r.max_login_attempts == 5,
            r.lockout_duration_minutes == 15,
            r.trusted_proxies@.len() == 0,
    {
        SecuritySettings {
            rate_limit_requests_per_minute: 60,
            rate_limit_burst: 10,
            password_min_length: 8,
            password_require_special_chars: true,
            password_require_numbers: true,
            password_require_uppercase: true,
            session_timeout_minutes: 60,
            max_login_attempts: 5,
            lockout_duration_minutes: 15,
            trusted_proxies: Vec::new(),
        }
    }
}

impl Default for MonitoringSettings {
    /// Monitoring on, with a 30-second health-check interval.
    fn default() -> (r: MonitoringSettings)
        ensures
            r.metrics_enabled,
            r.health_check_interval_seconds == 30,
            r.performance_monitoring,
            r.error_reporting,
    {
        MonitoringSettings {
            metrics_enabled: true,
            health_check_interval_seconds: 30,
            performance_monitoring: true,
            error_reporting: true,
        }
    }
}

/// Application environment.
#[derive(Clone, Copy, Debug, PartialEq, Eq, Structural)]
pub enum Environment {
    Development,
    Production,
    Test,
    Staging,
}

impl Environment {
    /// The name of this environment.
    pub open spec fn spec_name(self) -> Seq<char> {
        match self {
            Environment::Development => "development"@,
            Environment::Production => "production"@,
            Environment::Test => "test"@,
            Environment::Staging => "staging"@,
        }
    }

    pub fn as_str(&self) -> (r: &'static str)
        ensures
            r@ == self.spec_name(),
    {
        match self {
            Environment::Development => "development",
            Environment::Production => "production",
            Environment::Test => "test",
            Environment::Staging => "staging",
        }
    }

    /// The environment a name denotes once ASCII capitals are lowered; long
    /// and short forms are both recognized.
    pub open spec fn spec_of_name(s: Seq<char>) -> Option<Environment> {
        let l = spec_ascii_lowercase(s);
        if l == "development"@ || l == "dev"@ {
            Some(Environment::Development)
        } else if l == "production"@ || l == "prod"@ {
            Some(Environment::Production)
        } else if l == "test"@ {
            Some(Environment::Test)
        } else if l == "staging"@ || l == "stage"@ {
            Some(Environment::Staging)
        } else {
            None
        }
    }

    /// Parse an environment name, long or short form, ignoring ASCII case.
    pub fn from_name(s: &str) -> (r: Option<Environment>)
        ensures
            r == Environment::spec_of_name(s@),
    {
        let lower = ascii_lowercase(s);
        let l = lower.as_str();
        if str_eq(l, "development") || str_eq(l, "dev") {
            Some(Environment::Development)
        } else if str_eq(l, "production") || str_eq(l, "prod") {
            Some(Environment::Production)
        } else if str_eq(l, "test") {
            Some(Environment::Test)
        } else if str_eq(l, "staging") || str_eq(l, "stage") {
            Some(Environment::Staging)
        } else {
            None
        }
    }
}

} // verus!
