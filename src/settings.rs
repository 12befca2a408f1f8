//! Process configuration as plain values, and the reading of the telemetry
//! endpoint setting.

use vstd::prelude::*;

verus! {

/// How log lines are written.
#[derive(Clone, Copy, Debug, PartialEq, Eq, Structural)]
pub enum LogFormat {
    Plain,
    Json,
}

/// The least severe level that is logged.
#[derive(Clone, Copy, Debug, PartialEq, Eq, Structural)]
pub enum LogLevel {
    Trace,
    Debug,
    Info,
    Warn,
    Error_,
}

impl Default for LogLevel {
    fn default() -> (r: LogLevel)
        ensures
            r == LogLevel::Info,
    {
        LogLevel::Info
    }
}

/// Where the webhook listens, and its TLS material.
#[derive(Clone, Debug, PartialEq, Eq)]
pub struct WebConfig {
    /// The address:port to bind to.
    pub bind_address: String,
    /// Path to the TLS certificate.
    pub certificate_path: Option<String>,
    /// Path to the TLS private key.
    pub private_key_path: Option<String>,
}

/// The tenant whose environment and name are stamped onto resources.
#[derive(Clone, Debug, PartialEq, Eq)]
pub struct Tenant {
    pub environment: String,
    pub name: String,
}

/// The configuration of the process, read once at start.
#[derive(Clone, Debug)]
pub struct AppConfig {
    pub log_format: LogFormat,
    pub log_level: LogLevel,
    pub web: WebConfig,
    pub tenant: Tenant,
    /// The project VPC that every resource is placed in.
    pub project_vpc_id: String,
    /// The cloud location, such as `europe-north1`.
    pub location: String,
    /// Whether traces are exported to an OpenTelemetry collector.
    pub otel_enabled: bool,
}

/// The policy inputs of a configuration, as mathematical values.
pub ghost struct PolicyContext {
    pub environment: Seq<char>,
    pub tenant: Seq<char>,
    pub project_vpc_id: Seq<char>,
    pub location: Seq<char>,
}

impl AppConfig {
    pub open spec fn policy(&self) -> PolicyContext {
        PolicyContext {
            environment: self.tenant.environment@,
            tenant: self.tenant.name@,
            project_vpc_id: self.project_vpc_id@,
            location: self.location@,
        }
    }
}

#[verifier::external_type_specification]
#[verifier::external_body]
pub struct ExHandlerError(schematic::HandlerError);

/// The characters of the Unicode property White_Space.
pub open spec fn is_white_space(c: char) -> bool {
    let n = c as u32;
    (0x9 <= n <= 0xd) || n == 0x20 || n == 0x85 || n == 0xa0 || n == 0x1680 || (0x2000 <= n
        <= 0x200a) || n == 0x2028 || n == 0x2029 || n == 0x202f || n == 0x205f || n == 0x3000
}

pub open spec fn trim_start(s: Seq<char>) -> Seq<char>
    decreases s.len(),
{
    if s.len() > 0 && is_white_space(s[0]) {
        trim_start(s.drop_first())
    } else {
        s
    }
}

pub open spec fn trim_end(s: Seq<char>) -> Seq<char>
    decreases s.len(),
{
    if s.len() > 0 && is_white_space(s.last()) {
        trim_end(s.drop_last())
    } else {
        s
    }
}

/// `s` without its leading and trailing white space.
pub open spec fn trimmed(s: Seq<char>) -> Seq<char> {
    trim_end(trim_start(s))
}

pub open spec fn has_prefix(s: Seq<char>, prefix: Seq<char>) -> bool {
    prefix.len() <= s.len() && s.subrange(0, prefix.len() as int) == prefix
}

/// Relies on `str::trim`: leading and trailing White_Space characters removed.
#[verifier::external_body]
fn trim(s: &str) -> (r: &str)
    ensures
        r@ == trimmed(s@),
{
    s.trim()
}

/// Whether `prefix` is a prefix of `s`, compared character by character.
fn starts_with(s: &str, prefix: &str) -> (r: bool)
    ensures
        r == has_prefix(s@, prefix@),
{
    let n = prefix.unicode_len();
    let m = s.unicode_len();
    if n > m {
        return false;
    }
    let mut i: usize = 0;
    while i < n
        invariant
            n == prefix@.len(),
            m == s@.len(),
            n <= m,
            i <= n,
            forall|j: int| 0 <= j < i ==> s@[j] == prefix@[j],
        decreases n - i,
    {
        if s.get_char(i) != prefix.get_char(i) {
            assert(s@.subrange(0, n as int)[i as int] != prefix@[i as int]);
            return false;
        }
        i = i + 1;
    }
    assert(s@.subrange(0, n as int) =~= prefix@);
    true
}

/// Whether a collector endpoint setting names an http or https URL.
pub open spec fn is_otel_endpoint(var: Seq<char>) -> bool {
    has_prefix(trimmed(var), "https://"@) || has_prefix(trimmed(var), "http://"@)
}

/// Reads the collector endpoint setting: an http(s) URL turns telemetry on,
/// anything else leaves the default.
pub fn parse_otel(var: String) -> (r: Result<Option<bool>, schematic::HandlerError>)
    ensures
        r == Ok::<Option<bool>, schematic::HandlerError>(
            if is_otel_endpoint(var@) {
                Some(true)
            } else {
                None
            },
        ),
{
    let var = trim(var.as_str());
    if starts_with(var, "https://") || starts_with(var, "http://") {
        Ok(Some(true))
    } else {
        Ok(None)
    }
}

} // verus!
