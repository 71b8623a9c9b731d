//! The telemetry event builder: turning an invocation tree into an event, and
//! resolving whether telemetry is on, where events go, who sends them and
//! where the machine identifier lives.
use crate::invocation::{append, flattens, get_command_from_args, Command, Node};
use vstd::prelude::*;

verus! {

/// The endpoint of debug builds.
pub const DEV_TELEMETRY_URL: &'static str = "http://localhost:8787/telemetry";

/// The endpoint of release builds.
pub const PROD_TELEMETRY_URL: &'static str = "https://install.apollographql.com/telemetry";

/// What stands for a tool name or version that the build did not provide.
pub const UNKNOWN: &'static str = "unknown";

/// The file, under the configuration directory, that holds the machine id.
pub const MACHINE_ID_FILE: &'static str = "machine.txt";

/// Why no telemetry event could be built.
#[derive(Debug, Clone, Copy, PartialEq, Eq, Structural)]
pub enum TelemetryError {
    /// The invocation state could not be rendered as a tree.
    SerializationError,
    /// The endpoint override is malformed, or there is no configuration directory.
    ConfigError,
}

/// What `url::Url::parse` makes of a text: the URL's serialization, or
/// nothing where the text is not a well-formed URL.
pub uninterp spec fn parsed_url(s: Seq<char>) -> Option<Seq<char>>;

/// Relies on `url::Url::parse`, which fails on a malformed URL, and on
/// `url::Url::as_str`, the serialization of a parsed URL.
#[verifier::external_body]
fn parse_url(s: &str) -> (r: Option<String>)
    ensures
        r is Some <==> parsed_url(s@) is Some,
        r matches Some(u) ==> parsed_url(s@) == Some(u@),
{
    match url::Url::parse(s) {
        Ok(u) => Some(u.as_str().to_string()),
        Err(_) => None,
    }
}

/// Relies on `str::ends_with`: whether `s` ends with `suffix`.
#[verifier::external_body]
fn ends_with(s: &str, suffix: &str) -> (r: bool)
    ensures
        r == (suffix@.len() <= s@.len() && s@.subrange(s@.len() - suffix@.len(), s@.len() as int)
            == suffix@),
{
    s.ends_with(suffix)
}

/// Builds the event of an invocation from its tree, where the invocation
/// state could be rendered as one.
pub fn serialize_command<V>(tree: Option<Node<V>>) -> (r: Result<Command<V>, TelemetryError>)
    ensures
        tree is None <==> r == Err::<Command<V>, TelemetryError>(TelemetryError::SerializationError),
        tree matches Some(root) ==> (r matches Ok(c) && flattens(root, c)),
{
    match tree {
        Some(root) => Ok(get_command_from_args(root)),
        None => Err(TelemetryError::SerializationError),
    }
}

/// Telemetry is on unless the opt-out flag was set.
pub fn is_enabled(opt_out: Option<&str>) -> (r: bool)
    ensures
        r == (opt_out is None),
{
    opt_out.is_none()
}

/// The endpoint text in force: the override, else the one of the build profile.
pub open spec fn endpoint_text(override_url: Option<Seq<char>>, debug_build: bool) -> Seq<char> {
    match override_url {
        Some(u) => u,
        None => if debug_build {
            DEV_TELEMETRY_URL@
        } else {
            PROD_TELEMETRY_URL@
        },
    }
}

/// Resolves the endpoint: the override where one is configured, else the
/// development endpoint in debug builds and the production one otherwise.
pub fn endpoint(override_url: Option<&str>, debug_build: bool) -> (r: Result<String, TelemetryError>)
    ensures
        ({
            let text = match override_url {
                Some(u) => Some(u@),
                None => None,
            };
            match parsed_url(endpoint_text(text, debug_build)) {
                Some(u) => r matches Ok(s) && s@ == u,
                None => r == Err::<String, TelemetryError>(TelemetryError::ConfigError),
            }
        }),
{
    let text = match override_url {
        Some(u) => u,
        None => if debug_build {
            DEV_TELEMETRY_URL
        } else {
            PROD_TELEMETRY_URL
        },
    };
    match parse_url(text) {
        Some(u) => Ok(u),
        None => Err(TelemetryError::ConfigError),
    }
}

/// The given build-time constant, or `"unknown"`.
fn or_unknown(value: Option<&str>) -> (r: String)
    ensures
        r@ == (match value {
            Some(v) => v@,
            None => UNKNOWN@,
        }),
{
    match value {
        Some(v) => v.to_owned(),
        None => UNKNOWN.to_owned(),
    }
}

/// The tool's name, or `"unknown"` where the build did not provide one.
pub fn tool_name(package_name: Option<&str>) -> (r: String)
    ensures
        r@ == (match package_name {
            Some(v) => v@,
            None => UNKNOWN@,
        }),
{
    or_unknown(package_name)
}

/// The tool's version, or `"unknown"` where the build did not provide one.
pub fn version(package_version: Option<&str>) -> (r: String)
    ensures
        r@ == (match package_version {
            Some(v) => v@,
            None => UNKNOWN@,
        }),
{
    or_unknown(package_version)
}

/// `leaf` pushed onto the path `dir`: no separator after an empty directory
/// or one that already ends with one.
pub open spec fn pushed_path(dir: Seq<char>, leaf: Seq<char>) -> Seq<char> {
    if dir.len() == 0 || dir.last() == '/' {
        dir + leaf
    } else {
        dir + seq!['/'] + leaf
    }
}

/// The path of the machine identifier file, under the platform's
/// configuration directory where one could be determined.
pub fn machine_id_config(config_dir: Option<&str>) -> (r: Result<String, TelemetryError>)
    ensures
        match config_dir {
            Some(d) => r matches Ok(p) && p@ == pushed_path(d@, MACHINE_ID_FILE@),
            None => r == Err::<String, TelemetryError>(TelemetryError::ConfigError),
        },
{
    match config_dir {
        Some(d) => {
            let mut path = d.to_owned();
            proof {
                reveal_strlit("/");
                assert("/"@ =~= seq!['/']);
                if d@.len() > 0 {
                    let tail = d@.subrange(d@.len() - 1, d@.len() as int);
                    assert(tail =~= seq![d@.last()]);
                    assert(tail[0] == d@.last());
                }
            }
            if !d.is_empty() && !ends_with(d, "/") {
                append(&mut path, "/");
            }
            let ghost middle = path@;
            append(&mut path, MACHINE_ID_FILE);
            proof {
                if d@.len() == 0 || d@.last() == '/' {
                    assert(middle == d@);
                } else {
                    assert(middle == d@ + seq!['/']);
                }
            }
            Ok(path)
        },
        None => Err(TelemetryError::ConfigError),
    }
}

} // verus!
