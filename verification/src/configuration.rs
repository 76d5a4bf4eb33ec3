//! The service's settings and what is derived from them.
use vstd::prelude::*;
use crate::text::{append_chars, chars_of, decimal_string, digits, string_of};

verus! {

pub struct Settings {
    pub database: DatabaseSettings,
    pub application: ApplicationSettings,
    pub git: GitSettings,
    pub auth: AuthSettings,
    pub build: BuilderSettings,
}

pub struct BuilderSettings {
    pub max: usize,
    pub timeout: usize,
}

pub struct ApplicationSettings {
    pub port: u16,
    pub host: String,
    pub domain: String,
    pub hostip: String,
    pub bodylimit: String,
    pub ipv6: bool,
    pub secure: bool,
    pub idle: u64,
}

pub struct DatabaseSettings {
    pub user: String,
    pub password: String,
    pub host: String,
    pub port: u16,
    pub name: String,
    pub timeout: u64,
}

pub struct GitSettings {
    pub base: String,
    pub auth: bool,
}

pub struct AuthSettings {
    pub sso: bool,
    pub register: bool,
    /// in hours
    pub lifespan: i64,
    pub cookiename: String,
    /// in days
    pub maxage: i64,
    pub httponly: bool,
    pub secure: bool,
    /// in days
    pub maxlifespan: i64,
}

/// What `byte_unit::Byte::from_str(text)` reads as a number of bytes
/// (`get_bytes`), or nothing where it rejects `text`.
pub uninterp spec fn parsed_byte_count(text: Seq<char>) -> Option<u128>;

/// `byte_unit::Byte::from_str(text).ok().map(|b| b.get_bytes())`.
#[verifier::external_body]
pub(crate) fn parse_byte_count(text: &str) -> (r: Option<u128>)
    ensures
        r == parsed_byte_count(text@),
{
    byte_unit::Byte::from_str(text).ok().map(|b| b.get_bytes())
}

/// The body limit used where the setting cannot be read: 25 MiB.
pub const DEFAULT_BODY_LIMIT: u128 = 26214400;

/// The seconds a `chrono` time span can hold either way.
pub const MAX_SPAN_SECONDS: i64 = 9223372036854775;

/// The settings of the session cookie, with every span in seconds.
pub struct SessionParams {
    pub lifetime_secs: i64,
    pub cookie_name: String,
    pub max_age_secs: i64,
    pub http_only: bool,
    pub secure: bool,
    pub max_lifetime_secs: i64,
}

/// A span of `n` units of `unit` seconds, where `chrono` can hold it.
pub open spec fn span_seconds(n: i64, unit: int) -> Option<int> {
    let s = n * unit;
    if -MAX_SPAN_SECONDS <= s <= MAX_SPAN_SECONDS {
        Some(s)
    } else {
        None
    }
}

fn span(n: i64, unit: i64) -> (r: Option<i64>)
    requires
        0 < unit <= 86400,
    ensures
        match span_seconds(n, unit as int) {
            Some(s) => r == Some(s as i64),
            None => r is None,
        },
{
    match n.checked_mul(unit) {
        Some(s) => if -MAX_SPAN_SECONDS <= s && s <= MAX_SPAN_SECONDS {
            Some(s)
        } else {
            None
        },
        None => {
            proof {
                assert(n * unit > MAX_SPAN_SECONDS || n * unit < -MAX_SPAN_SECONDS) by (nonlinear_arith)
                    requires
                        n * unit > i64::MAX || n * unit < i64::MIN,
                ;
            }
            None
        },
    }
}

/// The listening address as `host:port`.
pub open spec fn spec_address_string(host: Seq<char>, port: u16) -> Seq<char> {
    host + seq![':'] + digits(port as nat, 10)
}

/// The index of the resolved address to listen on: the first of the
/// addresses of the preferred family (IPv6 where `ipv6` is set, else
/// IPv4), or the first address where none is of that family.
pub open spec fn address_key(is_v6: bool, ipv6: bool) -> int {
    if is_v6 == ipv6 { 0 } else { 1 }
}

pub open spec fn is_chosen_address(kinds: Seq<bool>, ipv6: bool, i: int) -> bool {
    &&& 0 <= i < kinds.len()
    &&& forall|j: int| 0 <= j < kinds.len() ==> address_key(kinds[i], ipv6) <= address_key(#[trigger] kinds[j], ipv6)
    &&& forall|j: int| 0 <= j < i ==> address_key(kinds[i], ipv6) < address_key(#[trigger] kinds[j], ipv6)
}

impl Settings {
    pub fn address_string(&self) -> (r: String)
        ensures
            r@ == spec_address_string(self.application.host@, self.application.port),
    {
        let mut out = chars_of(self.application.host.as_str());
        out.push(':');
        let p = decimal_string(self.application.port as u128);
        append_chars(&mut out, p.as_str());
        string_of(&out)
    }

    /// Whether a running project whose last request was `elapsed_secs`
    /// seconds ago has been idle for longer than the `idle` setting, given
    /// in minutes.
    pub fn idle_expired(&self, elapsed_secs: u64) -> (r: bool)
        requires
            self.application.idle * 60 <= u64::MAX,
        ensures
            r == (elapsed_secs > self.application.idle * 60),
    {
        elapsed_secs > self.application.idle * 60
    }

    pub fn domain(&self) -> (r: String)
        ensures
            r@ == self.application.domain@,
    {
        self.application.domain.clone()
    }

    /// The largest request body accepted on the git routes, from the
    /// `bodylimit` setting (25 MiB where it cannot be read), cut to the
    /// width of `usize` as `as usize` cuts it.
    pub fn body_limit(&self) -> (r: usize)
        ensures
            r == (match parsed_byte_count(self.application.bodylimit@) {
                Some(b) => b,
                None => DEFAULT_BODY_LIMIT,
            }) as usize,
    {
        let bytes = match parse_byte_count(self.application.bodylimit.as_str()) {
            Some(b) => b,
            None => DEFAULT_BODY_LIMIT,
        };
        bytes as usize
    }

    /// Picks the address to listen on among the addresses that the
    /// listening address resolves to, given whether each is IPv6.
    pub fn address(&self, kinds: &Vec<bool>) -> (r: Option<usize>)
        ensures
            r is None <==> kinds@.len() == 0,
            r matches Some(i) ==> is_chosen_address(kinds@, self.application.ipv6, i as int),
    {
        pick_address(kinds, self.application.ipv6)
    }

    /// The settings of the session cookie, or nothing where a span does
    /// not fit a `chrono` time span (where building the session
    /// configuration panics).
    pub fn session_config(&self) -> (r: Option<SessionParams>)
        ensures
            r is Some <==> (span_seconds(self.auth.lifespan, 3600) is Some && span_seconds(
                self.auth.maxage,
                86400,
            ) is Some && span_seconds(self.auth.maxlifespan, 86400) is Some),
            r matches Some(p) ==> {
                &&& Some(p.lifetime_secs as int) == span_seconds(self.auth.lifespan, 3600)
                &&& Some(p.max_age_secs as int) == span_seconds(self.auth.maxage, 86400)
                &&& Some(p.max_lifetime_secs as int) == span_seconds(self.auth.maxlifespan, 86400)
                &&& p.cookie_name@ == self.auth.cookiename@
                &&& p.http_only == self.auth.httponly
                &&& p.secure == self.auth.secure
            },
    {
        let lifetime = span(self.auth.lifespan, 3600);
        let max_age = span(self.auth.maxage, 86400);
        let max_lifetime = span(self.auth.maxlifespan, 86400);
        match (lifetime, max_age, max_lifetime) {
            (Some(l), Some(a), Some(m)) => Some(
                SessionParams {
                    lifetime_secs: l,
                    cookie_name: self.auth.cookiename.clone(),
                    max_age_secs: a,
                    http_only: self.auth.httponly,
                    secure: self.auth.secure,
                    max_lifetime_secs: m,
                },
            ),
            _ => None,
        }
    }
}

/// The first address of the smallest key, as `Iterator::min_by_key`
/// picks it.
pub fn pick_address(kinds: &Vec<bool>, ipv6: bool) -> (r: Option<usize>)
    ensures
        r is None <==> kinds@.len() == 0,
        r matches Some(i) ==> is_chosen_address(kinds@, ipv6, i as int),
{
    if kinds.len() == 0 {
        return None;
    }
    let mut best: usize = 0;
    let mut i: usize = 1;
    while i < kinds.len()
        invariant
            1 <= i <= kinds@.len(),
            best < i,
            forall|j: int| 0 <= j < i ==> address_key(kinds@[best as int], ipv6) <= address_key(#[trigger] kinds@[j], ipv6),
            forall|j: int| 0 <= j < best ==> address_key(kinds@[best as int], ipv6) < address_key(#[trigger] kinds@[j], ipv6),
        decreases kinds.len() - i,
    {
        let kb: u8 = if kinds[best] == ipv6 { 0 } else { 1 };
        let ki: u8 = if kinds[i] == ipv6 { 0 } else { 1 };
        if ki < kb {
            best = i;
        }
        i = i + 1;
    }
    Some(best)
}

/// What the database pool connects with.
pub struct ConnectionParams {
    pub host: String,
    pub port: u16,
    pub username: String,
    pub password: String,
    pub database: String,
}

impl Settings {
    /// The connection parameters of the database settings.
    pub fn connection_options(&self) -> (r: ConnectionParams)
        ensures
            r.host@ == self.database.host@,
            r.port == self.database.port,
            r.username@ == self.database.user@,
            r.password@ == self.database.password@,
            r.database@ == self.database.name@,
    {
        ConnectionParams {
            host: self.database.host.clone(),
            port: self.database.port,
            username: self.database.user.clone(),
            password: self.database.password.clone(),
            database: self.database.name.clone(),
        }
    }
}

/// A default value of a setting.
pub enum ConfigValue {
    Int(i64),
    Str(String),
    Bool(bool),
}

pub enum ConfigValueView {
    Int(i64),
    Str(Seq<char>),
    Bool(bool),
}

impl View for ConfigValue {
    type V = ConfigValueView;

    open spec fn view(&self) -> ConfigValueView {
        match self {
            ConfigValue::Int(i) => ConfigValueView::Int(*i),
            ConfigValue::Str(s) => ConfigValueView::Str(s@),
            ConfigValue::Bool(b) => ConfigValueView::Bool(*b),
        }
    }
}

/// The defaults of the settings, each under its key, in the order they
/// are set: `builder.max` is one less than the machine's parallelism (3
/// where it cannot be told).
pub open spec fn spec_setting_defaults(parallelism: int) -> Seq<(Seq<char>, ConfigValueView)> {
    seq![
        ("application.port"@, ConfigValueView::Int(8080)),
        ("application.host"@, ConfigValueView::Str("0.0.0.0"@)),
        ("application.domain"@, ConfigValueView::Str("localhost:8080"@)),
        ("application.hostip"@, ConfigValueView::Str("127.0.0.1"@)),
        ("application.bodylimit"@, ConfigValueView::Str("25mib"@)),
        ("application.ipv6"@, ConfigValueView::Bool(false)),
        ("application.secure"@, ConfigValueView::Bool(false)),
        ("application.idle"@, ConfigValueView::Int(30)),
        ("database.user"@, ConfigValueView::Str("postgres"@)),
        ("database.password"@, ConfigValueView::Str("postgres"@)),
        ("database.host"@, ConfigValueView::Str("localhost"@)),
        ("database.port"@, ConfigValueView::Int(5432)),
        ("database.name"@, ConfigValueView::Str("postgres"@)),
        ("database.timeout"@, ConfigValueView::Int(20)),
        ("git.base"@, ConfigValueView::Str("./git-repo"@)),
        ("git.auth"@, ConfigValueView::Bool(true)),
        ("auth.sso"@, ConfigValueView::Bool(true)),
        ("auth.register"@, ConfigValueView::Bool(true)),
        ("auth.lifespan"@, ConfigValueView::Int(168)),
        ("auth.cookiename"@, ConfigValueView::Str("session"@)),
        ("auth.maxage"@, ConfigValueView::Int(365)),
        ("auth.httponly"@, ConfigValueView::Bool(true)),
        ("auth.secure"@, ConfigValueView::Bool(false)),
        ("auth.maxlifespan"@, ConfigValueView::Int(365)),
        ("build.timeout"@, ConfigValueView::Int(120000)),
        ("builder.max"@, ConfigValueView::Int((parallelism - 1) as i64)),
        ("builder.cpums"@, ConfigValueView::Int(100000)),
    ]
}

pub open spec fn defaults_view(v: Seq<(String, ConfigValue)>) -> Seq<(Seq<char>, ConfigValueView)> {
    v.map_values(|p: (String, ConfigValue)| (p.0@, p.1@))
}

fn text(s: &str) -> (r: String)
    ensures
        r@ == s@,
{
    string_of(&chars_of(s))
}

fn int_default(v: &mut Vec<(String, ConfigValue)>, key: &str, value: i64)
    ensures
        defaults_view(final(v)@) == defaults_view(old(v)@).push((key@, ConfigValueView::Int(value))),
{
    v.push((text(key), ConfigValue::Int(value)));
    assert(defaults_view(v@) =~= defaults_view(old(v)@).push((key@, ConfigValueView::Int(value))));
}

fn str_default(v: &mut Vec<(String, ConfigValue)>, key: &str, value: &str)
    ensures
        defaults_view(final(v)@) == defaults_view(old(v)@).push((key@, ConfigValueView::Str(value@))),
{
    v.push((text(key), ConfigValue::Str(text(value))));
    assert(defaults_view(v@) =~= defaults_view(old(v)@).push((key@, ConfigValueView::Str(value@))));
}

fn bool_default(v: &mut Vec<(String, ConfigValue)>, key: &str, value: bool)
    ensures
        defaults_view(final(v)@) == defaults_view(old(v)@).push((key@, ConfigValueView::Bool(value))),
{
    v.push((text(key), ConfigValue::Bool(value)));
    assert(defaults_view(v@) =~= defaults_view(old(v)@).push((key@, ConfigValueView::Bool(value))));
}

/// The defaults that the settings are read over, given the machine's
/// parallelism where it can be told.
pub fn setting_defaults(parallelism: Option<usize>) -> (r: Vec<(String, ConfigValue)>)
    requires
        match parallelism {
            Some(p) => 1 <= p <= i32::MAX,
            None => true,
        },
    ensures
        defaults_view(r@) == spec_setting_defaults(
            match parallelism {
                Some(p) => p as int,
                None => 3,
            },
        ),
{
    let p: i64 = match parallelism {
        Some(p) => p as i64,
        None => 3,
    };
    let mut v: Vec<(String, ConfigValue)> = Vec::new();
    int_default(&mut v, "application.port", 8080);
    str_default(&mut v, "application.host", "0.0.0.0");
    str_default(&mut v, "application.domain", "localhost:8080");
    str_default(&mut v, "application.hostip", "127.0.0.1");
    str_default(&mut v, "application.bodylimit", "25mib");
    bool_default(&mut v, "application.ipv6", false);
    bool_default(&mut v, "application.secure", false);
    int_default(&mut v, "application.idle", 30);
    str_default(&mut v, "database.user", "postgres");
    str_default(&mut v, "database.password", "postgres");
    str_default(&mut v, "database.host", "localhost");
    int_default(&mut v, "database.port", 5432);
    str_default(&mut v, "database.name", "postgres");
    int_default(&mut v, "database.timeout", 20);
    str_default(&mut v, "git.base", "./git-repo");
    bool_default(&mut v, "git.auth", true);
    bool_default(&mut v, "auth.sso", true);
    bool_default(&mut v, "auth.register", true);
    int_default(&mut v, "auth.lifespan", 24 * 7);
    str_default(&mut v, "auth.cookiename", "session");
    int_default(&mut v, "auth.maxage", 365);
    bool_default(&mut v, "auth.httponly", true);
    bool_default(&mut v, "auth.secure", false);
    int_default(&mut v, "auth.maxlifespan", 365);
    int_default(&mut v, "build.timeout", 120000);
    int_default(&mut v, "builder.max", p - 1);
    int_default(&mut v, "builder.cpums", 100000);
    assert(defaults_view(v@) =~= spec_setting_defaults(p as int));
    v
}

} // verus!
