//! The settings of the service.

use vstd::prelude::*;
use vstd::slice::slice_subrange;
use vstd::string::*;
use vstd::utf8::encode_utf8;
use crate::decimal::{parse_integer, read_integer};
use crate::text::{
    bytes_eq,
    contains,
    ends_with,
    has_infix,
    has_prefix,
    has_suffix,
    starts_with,
};

verus! {

/// Where the HTTP surface listens.
#[derive(Debug)]
pub struct ServerConfig {
    pub host: String,
    pub port: u16,
}

/// Where the alerts and the price history are stored.
#[derive(Debug)]
pub struct DatabaseConfig {
    pub url: String,
}

/// How much is logged.
#[derive(Debug)]
pub struct LoggingConfig {
    pub level: String,
}

/// The schedule of housekeeping jobs.
#[derive(Debug)]
pub struct SchedulerConfig {
    pub default_schedule: String,
}

/// The settings of the price pipeline.
#[derive(Clone, Copy, Debug, PartialEq, Eq, Structural)]
pub struct PriceFetcherConfig {
    /// Seconds between two ticks.
    pub update_interval_secs: u64,
    /// Seconds for which a cached sample counts as fresh.
    pub cache_ttl_secs: u64,
    /// Attempts allowed to fetch one symbol from one source.
    pub max_retries: u32,
    /// Fetches that may be in flight at once.
    pub max_concurrent_requests: usize,
    /// Requests allowed in one hour, over all symbols.
    pub max_requests_per_hour: u64,
    /// Seconds a request may take.
    pub request_timeout_secs: u64,
    /// Seconds an idle connection is kept.
    pub pool_idle_timeout_secs: u64,
}

/// The settings of the mail notifier.
#[derive(Debug)]
pub struct EmailConfig {
    pub smtp_server: String,
    pub smtp_port: u16,
    pub smtp_username: String,
    pub smtp_password: String,
    pub from_email: String,
    pub from_name: String,
    pub to_email: String,
    pub enabled: bool,
}

/// The settings of the demonstration mode.
#[derive(Clone, Copy, Debug, PartialEq, Eq, Structural)]
pub struct DemoConfig {
    pub enabled: bool,
    pub max_alerts_per_user: u32,
    pub data_retention_hours: u64,
    pub disable_email: bool,
    pub show_demo_banner: bool,
    pub rate_limit_per_minute: u32,
}

/// All settings.
#[derive(Debug)]
pub struct Config {
    pub server: ServerConfig,
    pub database: DatabaseConfig,
    pub logging: LoggingConfig,
    pub scheduler: SchedulerConfig,
    pub price_fetcher: PriceFetcherConfig,
    pub email: EmailConfig,
    pub demo: DemoConfig,
}

/// The demonstration mode as it is when the settings leave it out: off.
pub fn default_demo_config() -> (demo: DemoConfig)
    ensures
        demo == (DemoConfig {
            enabled: false,
            max_alerts_per_user: 10,
            data_retention_hours: 24,
            disable_email: false,
            show_demo_banner: false,
            rate_limit_per_minute: 30,
        }),
{
    DemoConfig {
        enabled: false,
        max_alerts_per_user: 10,
        data_retention_hours: 24,
        disable_email: false,
        show_demo_banner: false,
        rate_limit_per_minute: 30,
    }
}

/// The mail server where the settings name none.
pub fn default_smtp_server() -> (s: String)
    ensures
        s@ == "smtp.gmail.com"@,
{
    String::from_str("smtp.gmail.com")
}

/// The mail server's port where the settings name none.
pub fn default_smtp_port() -> (port: u16)
    ensures
        port == 587,
{
    587
}

/// The mail address where the settings name none.
pub fn default_email() -> (s: String)
    ensures
        s@ == "change@me.com"@,
{
    String::from_str("change@me.com")
}

/// The mail password where the settings name none.
pub fn default_password() -> (s: String)
    ensures
        s@ == "change_me_password"@,
{
    String::from_str("change_me_password")
}

/// The sender's name where the settings name none.
pub fn default_from_name() -> (s: String)
    ensures
        s@ == "TradeAlert"@,
{
    String::from_str("TradeAlert")
}

/// Whether mail is sent where the settings do not say.
pub fn default_email_enabled() -> (enabled: bool)
    ensures
        enabled,
{
    true
}

/// One variable of the process environment.
#[derive(Debug)]
pub struct EnvVar {
    pub name: String,
    pub value: String,
}

/// The variables of the process environment, as the caller read them.
#[derive(Debug)]
pub struct Environment {
    pub vars: Vec<EnvVar>,
}

/// The value of the first variable of `vars` whose name has the UTF-8 bytes
/// `name`, if there is one.
pub open spec fn env_value(vars: Seq<EnvVar>, name: Seq<u8>) -> Option<Seq<char>>
    decreases vars.len(),
{
    if vars.len() == 0 {
        None
    } else if encode_utf8(vars[0].name@) == name {
        Some(vars[0].value@)
    } else {
        env_value(vars.drop_first(), name)
    }
}

/// The name between `${` and `}`, where `value` has that form.
pub open spec fn placeholder_name(value: Seq<u8>) -> Option<Seq<u8>> {
    if value.len() >= 3 && has_prefix(value, encode_utf8("${"@)) && has_suffix(
        value,
        encode_utf8("}"@),
    ) {
        Some(value.subrange(2, value.len() - 1))
    } else {
        None
    }
}

/// A setting after its placeholder was resolved: the value of the variable
/// that a placeholder names, `fallback` where that variable is not set, and
/// the setting itself where it is no placeholder.
pub open spec fn resolved_text(value: Seq<char>, vars: Seq<EnvVar>, fallback: Seq<char>) -> Seq<char> {
    match placeholder_name(encode_utf8(value)) {
        Some(name) => match env_value(vars, name) {
            Some(v) => v,
            None => fallback,
        },
        None => value,
    }
}

/// The port that `text` writes: a whole number from 0 to 65535, with no sign
/// but an optional `+`.
pub open spec fn read_port(text: Seq<u8>) -> Option<u16> {
    if text.len() > 0 && text[0] == 0x2d {
        None
    } else {
        match read_integer(text) {
            Some(v) => if 0 <= v <= 65535 {
                Some(v as u16)
            } else {
                None
            },
            None => None,
        }
    }
}

/// The port that the variable `PORT` sets, if it sets one.
pub open spec fn port_override(vars: Seq<EnvVar>) -> Option<u16> {
    match env_value(vars, encode_utf8("PORT"@)) {
        Some(text) => read_port(encode_utf8(text)),
        None => None,
    }
}

/// Whether the process runs on the hosting platform: `RAILWAY_ENVIRONMENT` or
/// `PORT` is set.
pub open spec fn hosted(vars: Seq<EnvVar>) -> bool {
    env_value(vars, encode_utf8("RAILWAY_ENVIRONMENT"@)) is Some || env_value(
        vars,
        encode_utf8("PORT"@),
    ) is Some
}

/// The database to use: the demonstration database in demonstration mode;
/// else the one in the data directory when hosted, or when the configured
/// address names no directory; else the configured one.
pub open spec fn database_url(configured: Seq<char>, demo: bool, vars: Seq<EnvVar>) -> Seq<char> {
    if demo {
        "sqlite:data/demo_trade_alert.db"@
    } else if hosted(vars) || !(has_infix(encode_utf8(configured), encode_utf8("/"@)) || has_infix(
        encode_utf8(configured),
        encode_utf8("\\"@),
    )) {
        "sqlite:data/trade_alert.db"@
    } else {
        configured
    }
}

/// Reads a port.
pub fn parse_port(text: &str) -> (r: Option<u16>)
    ensures
        r == read_port(encode_utf8(text@)),
{
    let bytes = text.as_bytes();
    if bytes.len() > 0 && bytes[0] == 0x2d {
        return None;
    }
    match parse_integer(bytes) {
        Some(v) => if 0 <= v && v <= 65535 {
            Some(v as u16)
        } else {
            None
        },
        None => None,
    }
}

/// The character that writes the digit `d`.
pub open spec fn digit_char(d: nat) -> char {
    if d == 0 {
        '0'
    } else if d == 1 {
        '1'
    } else if d == 2 {
        '2'
    } else if d == 3 {
        '3'
    } else if d == 4 {
        '4'
    } else if d == 5 {
        '5'
    } else if d == 6 {
        '6'
    } else if d == 7 {
        '7'
    } else if d == 8 {
        '8'
    } else {
        '9'
    }
}

/// The decimal numeral that writes `n`, without leading zeros.
pub open spec fn decimal_text(n: nat) -> Seq<char>
    decreases n,
{
    if n < 10 {
        seq![digit_char(n)]
    } else {
        decimal_text(n / 10).push(digit_char(n % 10))
    }
}

/// The text that writes the digit `d`.
fn digit_str(d: u16) -> (s: &'static str)
    requires
        d < 10,
    ensures
        s@ == seq![digit_char(d as nat)],
{
    proof {
        reveal_strlit("0");
        reveal_strlit("1");
        reveal_strlit("2");
        reveal_strlit("3");
        reveal_strlit("4");
        reveal_strlit("5");
        reveal_strlit("6");
        reveal_strlit("7");
        reveal_strlit("8");
        reveal_strlit("9");
    }
    let s = if d == 0 {
        "0"
    } else if d == 1 {
        "1"
    } else if d == 2 {
        "2"
    } else if d == 3 {
        "3"
    } else if d == 4 {
        "4"
    } else if d == 5 {
        "5"
    } else if d == 6 {
        "6"
    } else if d == 7 {
        "7"
    } else if d == 8 {
        "8"
    } else {
        "9"
    };
    assert(s@ =~= seq![digit_char(d as nat)]);
    s
}

/// The decimal numeral that writes `n`.
fn port_text(n: u16) -> (s: String)
    ensures
        s@ == decimal_text(n as nat),
    decreases n,
{
    if n < 10 {
        String::from_str(digit_str(n))
    } else {
        let front = port_text(n / 10);
        let s = front.concat(digit_str(n % 10));
        assert(s@ =~= decimal_text((n / 10) as nat).push(digit_char((n % 10) as nat)));
        s
    }
}

impl Environment {
    /// The value of the variable whose name has the UTF-8 bytes `name`.
    pub fn get_bytes(&self, name: &[u8]) -> (r: Option<&str>)
        ensures
            match r {
                Some(v) => env_value(self.vars@, name@) == Some(v@),
                None => env_value(self.vars@, name@) is None,
            },
    {
        let mut i: usize = 0;
        assert(self.vars@.skip(0) =~= self.vars@);
        while i < self.vars.len()
            invariant
                i <= self.vars@.len(),
                env_value(self.vars@, name@) == env_value(self.vars@.skip(i as int), name@),
            decreases self.vars@.len() - i,
        {
            if bytes_eq(self.vars[i].name.as_str().as_bytes(), name) {
                return Some(self.vars[i].value.as_str());
            }
            assert(self.vars@.skip(i as int).drop_first() =~= self.vars@.skip(i + 1));
            i += 1;
        }
        None
    }

    /// The value of the variable `name`.
    pub fn get(&self, name: &str) -> (r: Option<&str>)
        ensures
            match r {
                Some(v) => env_value(self.vars@, encode_utf8(name@)) == Some(v@),
                None => env_value(self.vars@, encode_utf8(name@)) is None,
            },
    {
        self.get_bytes(name.as_bytes())
    }
}

/// Resolves the placeholder in `value`, if it is one.
fn resolve_placeholder(value: &mut String, env: &Environment, fallback: &str)
    ensures
        final(value)@ == resolved_text(old(value)@, env.vars@, fallback@),
{
    let resolved: Option<String> = {
        let bytes = value.as_str().as_bytes();
        if bytes.len() >= 3 && starts_with(bytes, "${".as_bytes()) && ends_with(bytes, "}".as_bytes()) {
            let name = slice_subrange(bytes, 2, bytes.len() - 1);
            match env.get_bytes(name) {
                Some(v) => Some(String::from_str(v)),
                None => Some(String::from_str(fallback)),
            }
        } else {
            None
        }
    };
    match resolved {
        Some(text) => {
            *value = text;
        },
        None => {},
    }
}

impl Config {
    /// Whether these settings are what `raw` becomes in the environment `vars`.
    ///
    /// A port in `PORT` replaces the configured one and makes the server
    /// listen on every address. The database is chosen as [`database_url`]
    /// says. Demonstration mode can switch mail off. Placeholders in the mail
    /// account, password, sender and recipient are resolved. Everything else
    /// is as configured.
    pub open spec fn loaded_from(&self, raw: Config, vars: Seq<EnvVar>) -> bool {
        &&& self.server.port == match port_override(vars) {
            Some(port) => port,
            None => raw.server.port,
        }
        &&& self.server.host@ == match port_override(vars) {
            Some(_) => "0.0.0.0"@,
            None => raw.server.host@,
        }
        &&& self.database.url@ == database_url(raw.database.url@, raw.demo.enabled, vars)
        &&& self.logging == raw.logging
        &&& self.scheduler == raw.scheduler
        &&& self.price_fetcher == raw.price_fetcher
        &&& self.demo == raw.demo
        &&& self.email.enabled == (raw.email.enabled && !(raw.demo.enabled && raw.demo.disable_email))
        &&& self.email.smtp_server == raw.email.smtp_server
        &&& self.email.smtp_port == raw.email.smtp_port
        &&& self.email.from_name == raw.email.from_name
        &&& self.email.smtp_username@ == resolved_text(
            raw.email.smtp_username@,
            vars,
            "your_email@gmail.com"@,
        )
        &&& self.email.smtp_password@ == resolved_text(
            raw.email.smtp_password@,
            vars,
            "your_app_password"@,
        )
        &&& self.email.from_email@ == resolved_text(
            raw.email.from_email@,
            vars,
            "your_email@gmail.com"@,
        )
        &&& self.email.to_email@ == resolved_text(raw.email.to_email@, vars, "your_email@gmail.com"@)
    }

    /// Fits the settings to the platform the process runs on.
    fn handle_production_env(&mut self, env: &Environment)
        ensures
            final(self).server.port == match port_override(env.vars@) {
                Some(port) => port,
                None => old(self).server.port,
            },
            final(self).server.host@ == match port_override(env.vars@) {
                Some(_) => "0.0.0.0"@,
                None => old(self).server.host@,
            },
            final(self).database.url@ == database_url(
                old(self).database.url@,
                old(self).demo.enabled,
                env.vars@,
            ),
            final(self).email.enabled == (old(self).email.enabled && !(old(self).demo.enabled && old(
                self,
            ).demo.disable_email)),
            *final(self) == (Config {
                server: final(self).server,
                database: final(self).database,
                email: EmailConfig { enabled: final(self).email.enabled, ..old(self).email },
                ..*old(self)
            }),
    {
        let port_text = env.get("PORT");
        match port_text {
            Some(text) => match parse_port(text) {
                Some(port) => {
                    self.server.port = port;
                    self.server.host = String::from_str("0.0.0.0");
                },
                None => {},
            },
            None => {},
        }
        if env.get("RAILWAY_ENVIRONMENT").is_some() || port_text.is_some() {
            self.database.url = String::from_str("sqlite:data/trade_alert.db");
        } else {
            let url = self.database.url.as_str().as_bytes();
            if !contains(url, "/".as_bytes()) && !contains(url, "\\".as_bytes()) {
                self.database.url = String::from_str("sqlite:data/trade_alert.db");
            }
        }
        if self.demo.enabled {
            self.database.url = String::from_str("sqlite:data/demo_trade_alert.db");
            if self.demo.disable_email {
                self.email.enabled = false;
            }
        }
    }

    /// Resolves the placeholders in the mail settings.
    fn resolve_placeholders(&mut self, env: &Environment)
        ensures
            final(self).email.smtp_username@ == resolved_text(
                old(self).email.smtp_username@,
                env.vars@,
                "your_email@gmail.com"@,
            ),
            final(self).email.smtp_password@ == resolved_text(
                old(self).email.smtp_password@,
                env.vars@,
                "your_app_password"@,
            ),
            final(self).email.from_email@ == resolved_text(
                old(self).email.from_email@,
                env.vars@,
                "your_email@gmail.com"@,
            ),
            final(self).email.to_email@ == resolved_text(
                old(self).email.to_email@,
                env.vars@,
                "your_email@gmail.com"@,
            ),
            *final(self) == (Config {
                email: EmailConfig {
                    smtp_username: final(self).email.smtp_username,
                    smtp_password: final(self).email.smtp_password,
                    from_email: final(self).email.from_email,
                    to_email: final(self).email.to_email,
                    ..old(self).email
                },
                ..*old(self)
            }),
    {
        resolve_placeholder(&mut self.email.smtp_username, env, "your_email@gmail.com");
        resolve_placeholder(&mut self.email.smtp_password, env, "your_app_password");
        resolve_placeholder(&mut self.email.from_email, env, "your_email@gmail.com");
        resolve_placeholder(&mut self.email.to_email, env, "your_email@gmail.com");
    }

    /// The address the server listens on, as `host:port`.
    pub fn server_addr(&self) -> (addr: String)
        ensures
            addr@ == self.server.host@ + ":"@ + decimal_text(self.server.port as nat),
    {
        self.server.host.clone().concat(":").concat(port_text(self.server.port).as_str())
    }

    /// Makes the settings to run with, from the settings as they were read
    /// and the environment of the process.
    pub fn load(raw: Config, env: &Environment) -> (config: Config)
        ensures
            config.loaded_from(raw, env.vars@),
    {
        let mut config = raw;
        config.handle_production_env(env);
        config.resolve_placeholders(env);
        config
    }
}

} // verus!
