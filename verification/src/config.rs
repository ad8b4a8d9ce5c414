//! The rule sets: two collections of regular expressions, one that allows
//! and one that denies, compiled once and read-only afterwards.

use regex::RegexSet;
use vstd::prelude::*;
use vstd::string::*;

verus! {

/// `regex::RegexSet`, carried as an opaque value: all that is known of a set
/// is what `set_patterns` and the functions below say.
#[verifier::external_type_specification]
#[verifier::external_body]
pub struct ExRegexSet(regex::RegexSet);

/// `regex::Error`, carried as an opaque value: nothing is known of it but
/// the message it prints.
#[verifier::external_type_specification]
#[verifier::external_body]
pub struct ExRegexError(regex::Error);

/// The pattern sources that a `regex::RegexSet` was compiled from, in the
/// order in which they were given: what `RegexSet::patterns` returns.
pub uninterp spec fn set_patterns(set: RegexSet) -> Seq<Seq<char>>;

/// The options that a `regex::RegexSet` was built with: case sensitivity,
/// multi-line mode and the other switches of `RegexSetBuilder`, which change
/// what a source means. The value 0 stands for the builder's defaults, which
/// are what `RegexSet::new` and `RegexSet::empty` build with.
pub uninterp spec fn set_options(set: RegexSet) -> int;

/// Whether the regular expression written as `pattern` matches somewhere in
/// `text`, as the `regex` crate decides it for a member of a set that was
/// built with `options`.
pub uninterp spec fn pattern_matches(options: int, pattern: Seq<char>, text: Seq<char>) -> bool;

/// At least one of `patterns`, read under `options`, matches `text`. There is
/// no first-match rule: the order of the patterns does not matter, and no
/// pattern matches nothing.
pub open spec fn any_pattern_matches(
    options: int,
    patterns: Seq<Seq<char>>,
    text: Seq<char>,
) -> bool {
    exists|i: int|
        0 <= i < patterns.len() && #[trigger] pattern_matches(options, patterns[i], text)
}

/// The views of a list of pattern sources.
pub open spec fn sources(patterns: Seq<String>) -> Seq<Seq<char>> {
    patterns.map_values(|p: String| p@)
}

/// `regex::RegexSet::is_match`: true if and only if one of the regular
/// expressions of the set, read under the options the set was built with,
/// matches the haystack. Not proved here.
pub assume_specification[ RegexSet::is_match ](set: &RegexSet, haystack: &str) -> (r: bool)
    ensures
        r == (exists|i: int|
            0 <= i < set_patterns(*set).len() && #[trigger] pattern_matches(
                set_options(*set),
                set_patterns(*set)[i],
                haystack@,
            )),
;

/// `regex::RegexSet::empty`: a set of no patterns, built with the defaults.
/// Not proved here.
pub assume_specification[ RegexSet::empty ]() -> (set: RegexSet)
    ensures
        set_patterns(set) == Seq::<Seq<char>>::empty(),
        set_options(set) == 0,
;

/// `regex::RegexSet::new` on the given sources. Whether they compile is the
/// crate's decision (syntax and size limits); a set that comes back holds
/// exactly the given sources in their order and was built with the defaults,
/// and no sources always compile. Not proved here.
#[verifier::external_body]
fn compile_set(patterns: &Vec<String>) -> (r: Result<RegexSet, regex::Error>)
    ensures
        r matches Ok(set) ==> set_patterns(set) == sources(patterns@) && set_options(set) == 0,
        patterns@.len() == 0 ==> r is Ok,
{
    RegexSet::new(patterns)
}

/// The compiled rule sets.
#[derive(Debug)]
pub struct Config {
    pub allowlist: RegexSet,
    pub denylist: RegexSet,
}

/// Which of the two lists failed to compile, with the compiler's message.
#[derive(Debug, PartialEq, Eq)]
pub enum ConfigError {
    Allowlist(String),
    Denylist(String),
}

impl ConfigError {
    /// The compiler's message.
    pub fn message(&self) -> (m: &String)
        ensures
            m == match *self {
                ConfigError::Allowlist(text) => text,
                ConfigError::Denylist(text) => text,
            },
    {
        match self {
            ConfigError::Allowlist(text) => text,
            ConfigError::Denylist(text) => text,
        }
    }
}

impl Config {
    /// The sources of the allow set.
    pub open spec fn allow_patterns(&self) -> Seq<Seq<char>> {
        set_patterns(self.allowlist)
    }

    /// The sources of the deny set.
    pub open spec fn deny_patterns(&self) -> Seq<Seq<char>> {
        set_patterns(self.denylist)
    }

    /// Both sets were built with the defaults, as every set is that this
    /// crate compiles. A caller may put sets of its own making into the
    /// fields; they are then read under the options they came with.
    pub open spec fn has_default_options(&self) -> bool {
        set_options(self.allowlist) == 0 && set_options(self.denylist) == 0
    }

    /// Some allow pattern matches `text`.
    pub open spec fn allows(&self, text: Seq<char>) -> bool {
        any_pattern_matches(set_options(self.allowlist), self.allow_patterns(), text)
    }

    /// Some deny pattern matches `text`.
    pub open spec fn denies(&self, text: Seq<char>) -> bool {
        any_pattern_matches(set_options(self.denylist), self.deny_patterns(), text)
    }

    /// Both sets are empty.
    pub open spec fn is_empty(&self) -> bool {
        self.allow_patterns().len() == 0 && self.deny_patterns().len() == 0
    }

    /// The configuration without rules: nothing is allowed by pattern, and
    /// nothing denied.
    pub fn empty() -> (config: Config)
        ensures
            config.is_empty(),
            config.has_default_options(),
            forall|text: Seq<char>| !config.allows(text) && !config.denies(text),
    {
        Config { allowlist: RegexSet::empty(), denylist: RegexSet::empty() }
    }

    /// Puts two compilation results together. The allow list is looked at
    /// first, so its failure is the one reported when both failed.
    pub fn from_compiled(
        allow: Result<RegexSet, regex::Error>,
        deny: Result<RegexSet, regex::Error>,
    ) -> (r: Result<Config, ConfigError>)
        ensures
            match (allow, deny) {
                (Ok(a), Ok(d)) => r == Ok::<Config, ConfigError>(
                    (Config { allowlist: a, denylist: d }),
                ),
                (Err(_), _) => r matches Err(ConfigError::Allowlist(_)),
                (Ok(_), Err(_)) => r matches Err(ConfigError::Denylist(_)),
            },
    {
        match allow {
            Err(error) => Err(ConfigError::Allowlist(error.to_string())),
            Ok(allowlist) => match deny {
                Err(error) => Err(ConfigError::Denylist(error.to_string())),
                Ok(denylist) => Ok(Config { allowlist, denylist }),
            },
        }
    }

    /// Compiles the two lists of pattern sources. Whether a list compiles is
    /// decided by the `regex` crate; two empty lists always do.
    pub fn from_patterns(allowlist: &Vec<String>, denylist: &Vec<String>) -> (r: Result<
        Config,
        ConfigError,
    >)
        ensures
            r matches Ok(config) ==> config.allow_patterns() == sources(allowlist@)
                && config.deny_patterns() == sources(denylist@) && config.has_default_options(),
            allowlist@.len() == 0 && denylist@.len() == 0 ==> r is Ok,
    {
        Config::from_compiled(compile_set(allowlist), compile_set(denylist))
    }

    /// Whether some allow pattern matches `text`.
    pub fn is_allowlisted(&self, text: &str) -> (r: bool)
        ensures
            r == self.allows(text@),
    {
        self.allowlist.is_match(text)
    }

    /// Whether some deny pattern matches `text`.
    pub fn is_denylisted(&self, text: &str) -> (r: bool)
        ensures
            r == self.denies(text@),
    {
        self.denylist.is_match(text)
    }
}

/// The largest configuration file that is read, in bytes.
pub const MAX_CONFIG_SIZE: usize = 1048576;

/// The places where a configuration file is looked for, in their order.
#[derive(Clone, Copy, Debug, PartialEq, Eq, Structural)]
pub enum ConfigLocation {
    /// `config.toml` in the working directory.
    WorkingDirectory,
    /// `spotify-adblock/config.toml` under the configuration home.
    ConfigHome,
    /// `/etc/spotify-adblock/config.toml`.
    SystemWide,
}

/// Where the configuration home is taken from.
#[derive(Clone, Copy, Debug, PartialEq, Eq, Structural)]
pub enum ConfigHome {
    /// The directory that the environment names.
    FromVariable,
    /// The directory `.config` under the user's home directory.
    UnderHome,
}

/// What was found at the chosen location.
#[derive(Debug, PartialEq, Eq)]
pub enum ConfigContents {
    /// The file could not be read; the reader's message.
    Unreadable(String),
    /// The file is larger than `MAX_CONFIG_SIZE`.
    TooLarge,
    /// The file is not a configuration; the parser's message.
    Invalid(String),
    /// The two lists of pattern sources that the file holds.
    Lists { allowlist: Vec<String>, denylist: Vec<String> },
}

/// A configuration file that exists.
#[derive(Debug, PartialEq, Eq)]
pub struct FoundConfig {
    pub path: String,
    pub contents: ConfigContents,
}

/// The configuration to work with, and what to report about loading it.
#[derive(Debug)]
pub struct LoadedConfig {
    pub config: Config,
    pub notice: Option<String>,
    pub error: Option<String>,
}

/// The view of a line that may be missing.
pub open spec fn line_view(line: Option<String>) -> Option<Seq<char>> {
    match line {
        Some(text) => Some(text@),
        None => None,
    }
}

/// The line that names the file that was found.
pub open spec fn found_line(path: Seq<char>) -> Seq<char> {
    "[*] Config file: "@ + path
}

/// The line for a file that could not be read.
pub open spec fn read_error_line(message: Seq<char>) -> Seq<char> {
    "[*] Error: Read config file ("@ + message + ")"@
}

/// The line for a file that is not a configuration.
pub open spec fn parse_error_line(message: Seq<char>) -> Seq<char> {
    "[*] Error: Parse config file ("@ + message + ")"@
}

/// The first of the three locations that holds a file.
pub open spec fn first_existing(
    in_working_directory: bool,
    in_config_home: bool,
    system_wide: bool,
) -> Option<ConfigLocation> {
    if in_working_directory {
        Some(ConfigLocation::WorkingDirectory)
    } else if in_config_home {
        Some(ConfigLocation::ConfigHome)
    } else if system_wide {
        Some(ConfigLocation::SystemWide)
    } else {
        None
    }
}

impl ConfigError {
    /// The compiler's message.
    pub open spec fn message_text(self) -> Seq<char> {
        match self {
            ConfigError::Allowlist(text) => text@,
            ConfigError::Denylist(text) => text@,
        }
    }
}

impl ConfigLocation {
    /// The name of the file at this location: relative to the working
    /// directory, relative to the configuration home, or absolute.
    pub fn file_name(&self) -> (name: &'static str)
        ensures
            name@ == match *self {
                ConfigLocation::WorkingDirectory => "config.toml"@,
                ConfigLocation::ConfigHome => "spotify-adblock/config.toml"@,
                ConfigLocation::SystemWide => "/etc/spotify-adblock/config.toml"@,
            },
    {
        match self {
            ConfigLocation::WorkingDirectory => "config.toml",
            ConfigLocation::ConfigHome => "spotify-adblock/config.toml",
            ConfigLocation::SystemWide => "/etc/spotify-adblock/config.toml",
        }
    }
}

/// Chooses the configuration home: the directory that the environment names
/// if it names one, else the one under the user's home directory.
pub fn config_home(variable_set: bool) -> (base: ConfigHome)
    ensures
        base == if variable_set {
            ConfigHome::FromVariable
        } else {
            ConfigHome::UnderHome
        },
{
    if variable_set {
        ConfigHome::FromVariable
    } else {
        ConfigHome::UnderHome
    }
}

/// Chooses among the locations, given which of them hold a file: the first
/// one that does.
pub fn locate(in_working_directory: bool, in_config_home: bool, system_wide: bool) -> (location:
    Option<ConfigLocation>)
    ensures
        location == first_existing(in_working_directory, in_config_home, system_wide),
{
    if in_working_directory {
        Some(ConfigLocation::WorkingDirectory)
    } else if in_config_home {
        Some(ConfigLocation::ConfigHome)
    } else if system_wide {
        Some(ConfigLocation::SystemWide)
    } else {
        None
    }
}

/// Whether a file of `len` bytes is read at all.
pub fn size_accepted(len: usize) -> (accepted: bool)
    ensures
        accepted == (len <= MAX_CONFIG_SIZE),
{
    len <= MAX_CONFIG_SIZE
}

fn bracketed(opening: &str, message: &str) -> (line: String)
    ensures
        line@ == opening@ + message@ + ")"@,
{
    let mut line = String::from_str(opening);
    line.append(message);
    line.append(")");
    line
}

/// What a compilation amounts to: the configuration, or the empty one with
/// the line that says why.
pub fn settle(compiled: Result<Config, ConfigError>) -> (settled: (Config, Option<String>))
    ensures
        match compiled {
            Ok(config) => settled.0 == config && settled.1 is None,
            Err(error) => settled.0.is_empty() && settled.0.has_default_options() && line_view(
                settled.1,
            ) == Some(parse_error_line(error.message_text())),
        },
{
    match compiled {
        Ok(config) => (config, None),
        Err(error) => {
            let line = bracketed("[*] Error: Parse config file (", error.message().as_str());
            (Config::empty(), Some(line))
        },
    }
}

/// Makes the configuration from what was found on disk. Nothing here is
/// fatal: whatever goes wrong is reported in a line, and the configuration
/// is then the empty one.
pub fn load_config(found: Option<FoundConfig>) -> (loaded: LoadedConfig)
    ensures
        loaded.config.has_default_options(),
        match found {
            None => {
                &&& loaded.notice is None
                &&& line_view(loaded.error) == Some("[*] Error: No config file found"@)
                &&& loaded.config.is_empty()
            },
            Some(file) => {
                &&& line_view(loaded.notice) == Some(found_line(file.path@))
                &&& match file.contents {
                    ConfigContents::Unreadable(message) => {
                        &&& line_view(loaded.error) == Some(read_error_line(message@))
                        &&& loaded.config.is_empty()
                    },
                    ConfigContents::TooLarge => {
                        &&& line_view(loaded.error) == Some(
                            "[*] Error: Config file too large (exceeds 1048576 bytes)"@,
                        )
                        &&& loaded.config.is_empty()
                    },
                    ConfigContents::Invalid(message) => {
                        &&& line_view(loaded.error) == Some(parse_error_line(message@))
                        &&& loaded.config.is_empty()
                    },
                    ConfigContents::Lists { allowlist, denylist } => {
                        &&& allowlist@.len() == 0 && denylist@.len() == 0 ==> loaded.error is None
                        &&& match loaded.error {
                            None => {
                                &&& loaded.config.allow_patterns() == sources(allowlist@)
                                &&& loaded.config.deny_patterns() == sources(denylist@)
                            },
                            Some(line) => {
                                &&& exists|message: Seq<char>| line@ == parse_error_line(message)
                                &&& loaded.config.is_empty()
                            },
                        }
                    },
                }
            },
        },
{
    match found {
        None => LoadedConfig {
            config: Config::empty(),
            notice: None,
            error: Some(String::from_str("[*] Error: No config file found")),
        },
        Some(file) => {
            let mut notice = String::from_str("[*] Config file: ");
            notice.append(file.path.as_str());
            match file.contents {
                ConfigContents::Unreadable(message) => LoadedConfig {
                    config: Config::empty(),
                    notice: Some(notice),
                    error: Some(bracketed("[*] Error: Read config file (", message.as_str())),
                },
                ConfigContents::TooLarge => LoadedConfig {
                    config: Config::empty(),
                    notice: Some(notice),
                    error: Some(
                        String::from_str(
                            "[*] Error: Config file too large (exceeds 1048576 bytes)",
                        ),
                    ),
                },
                ConfigContents::Invalid(message) => LoadedConfig {
                    config: Config::empty(),
                    notice: Some(notice),
                    error: Some(bracketed("[*] Error: Parse config file (", message.as_str())),
                },
                ConfigContents::Lists { allowlist, denylist } => {
                    let compiled = Config::from_patterns(&allowlist, &denylist);
                    let ghost message = match &compiled {
                        Ok(_) => Seq::<char>::empty(),
                        Err(error) => error.message_text(),
                    };
                    let (config, error) = settle(compiled);
                    assert(error matches Some(line) ==> line@ == parse_error_line(message));
                    LoadedConfig { config, notice: Some(notice), error }
                },
            }
        },
    }
}

} // verus!
