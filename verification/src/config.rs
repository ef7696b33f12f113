//! Configuration resolution: where the tool's files live under the home
//! directory, and how values from the command line, the environment, the
//! stored token file and the configuration file are merged.

use vstd::prelude::*;
use vstd::string::StringExecFns;

verus! {

/// The resolved tool configuration: the proxy server URL and, optionally,
/// an authentication token.
#[derive(Debug)]
pub struct Config {
    pub url: String,
    pub token: Option<String>,
}

/// Why configuration could not be resolved.
#[derive(Clone, Copy, Debug, PartialEq, Eq, Structural)]
pub enum ConfigError {
    /// The home directory, under which all configuration lives, could not
    /// be determined.
    HomeDirUnavailable,
    /// No source supplied the proxy server URL.
    MissingUrl,
}

/// Relies on home::home_dir: the result depends on the environment, so
/// nothing is promised of it beyond its shape.
#[verifier::external_body]
fn home_dir_string() -> (r: Option<String>) {
    home::home_dir().map(|p| p.to_string_lossy().into_owned())
}

/// The directory holding the tool's configuration: `.config/jwctl` under
/// the home directory.
pub fn config_dir() -> (r: Result<String, ConfigError>)
    ensures
        match r {
            Ok(d) => exists|h: Seq<char>| d@ == h + "/.config/jwctl"@,
            Err(e) => e == ConfigError::HomeDirUnavailable,
        },
{
    match home_dir_string() {
        Some(mut h) => {
            let ghost home_view = h@;
            h.append("/.config/jwctl");
            proof {
                assert(h@ == home_view + "/.config/jwctl"@);
            }
            Ok(h)
        },
        None => Err(ConfigError::HomeDirUnavailable),
    }
}

/// Appending the file name to the directory suffix gives the full suffix.
proof fn lemma_config_file_suffix()
    ensures
        "/.config/jwctl"@ + "/config.yaml"@ =~= "/.config/jwctl/config.yaml"@,
{
    reveal_strlit("/.config/jwctl");
    reveal_strlit("/config.yaml");
    reveal_strlit("/.config/jwctl/config.yaml");
}

/// The path of the tool's configuration file: `config.yaml` inside
/// [`config_dir`].
pub fn config_file() -> (r: Result<String, ConfigError>)
    ensures
        match r {
            Ok(f) => exists|h: Seq<char>| f@ == h + "/.config/jwctl/config.yaml"@,
            Err(e) => e == ConfigError::HomeDirUnavailable,
        },
{
    match config_dir() {
        Ok(mut d) => {
            let ghost dir_view = d@;
            let ghost home_view = choose|h: Seq<char>| dir_view == h + "/.config/jwctl"@;
            d.append("/config.yaml");
            proof {
                lemma_config_file_suffix();
                assert(d@ == home_view + "/.config/jwctl/config.yaml"@) by {
                    assert(d@ == (home_view + "/.config/jwctl"@) + "/config.yaml"@);
                    assert(d@ =~= home_view + ("/.config/jwctl"@ + "/config.yaml"@));
                }
            }
            Ok(d)
        },
        Err(e) => Err(e),
    }
}

/// The first of three optional values that is present.
pub open spec fn first_present3(
    a: Option<String>,
    b: Option<String>,
    c: Option<String>,
) -> Option<String> {
    if a is Some {
        a
    } else if b is Some {
        b
    } else {
        c
    }
}

/// The first of four optional values that is present.
pub open spec fn first_present4(
    a: Option<String>,
    b: Option<String>,
    c: Option<String>,
    d: Option<String>,
) -> Option<String> {
    if a is Some {
        a
    } else {
        first_present3(b, c, d)
    }
}

/// Merges configuration values from the sources the tool reads, in
/// decreasing preference: command-line flags, `JW_`-prefixed environment
/// variables, the stored token file (for the token only), and the
/// configuration file. Fails exactly when no source supplies a URL.
pub fn merge_config(
    cli_url: Option<String>,
    env_url: Option<String>,
    file_url: Option<String>,
    cli_token: Option<String>,
    env_token: Option<String>,
    stored_token: Option<String>,
    file_token: Option<String>,
) -> (r: Result<Config, ConfigError>)
    ensures
        match r {
            Ok(c) => Some(c.url) == first_present3(cli_url, env_url, file_url) && c.token
                == first_present4(cli_token, env_token, stored_token, file_token),
            Err(e) => e == ConfigError::MissingUrl && first_present3(cli_url, env_url, file_url)
                is None,
        },
{
    let url: String = match cli_url {
        Some(u) => u,
        None => match env_url {
            Some(u) => u,
            None => match file_url {
                Some(u) => u,
                None => {
                    return Err(ConfigError::MissingUrl);
                },
            },
        },
    };
    let token: Option<String> = match cli_token {
        Some(t) => Some(t),
        None => match env_token {
            Some(t) => Some(t),
            None => match stored_token {
                Some(t) => Some(t),
                None => file_token,
            },
        },
    };
    Ok(Config { url, token })
}

/// The log verbosity levels the tool distinguishes when configuring its
/// logger.
#[derive(Clone, Copy, Debug, PartialEq, Eq, Structural)]
pub enum LogLevel {
    Error,
    Info,
    Debug,
    Trace,
}

/// The overall log level: verbose output raises it from Info to Debug.
pub fn log_level_choice(verbose: bool) -> (l: LogLevel)
    ensures
        l == (if verbose {
            LogLevel::Debug
        } else {
            LogLevel::Info
        }),
{
    if verbose {
        LogLevel::Debug
    } else {
        LogLevel::Info
    }
}

/// The level up to which log lines carry timestamps: everything when they
/// are requested, nothing otherwise.
pub fn timestamp_level_choice(timestamps: bool) -> (l: LogLevel)
    ensures
        l == (if timestamps {
            LogLevel::Error
        } else {
            LogLevel::Trace
        }),
{
    if timestamps {
        LogLevel::Error
    } else {
        LogLevel::Trace
    }
}

} // verus!
