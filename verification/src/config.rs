//! Persisted settings and the command line overrides applied to them.

use crate::runner::{Args, ArgsView};
use crate::text::str_equal;
use vstd::prelude::*;
use vstd::string::*;

verus! {

/// Name of the configuration file inside the application's directory.
pub const CONFIG_FILE: &'static str = "eloquentlog.toml";

/// Name of the application's directory below the platform's configuration root.
pub const CONFIG_ROOT: &'static str = "eloquentlog";

/// The severity that stands for debug mode.
pub const SEVERITY_DEBUG: &'static str = "debug";

/// The severity of a run without debug mode.
pub const SEVERITY_WARN: &'static str = "warn";

/// The server that a configuration names when nothing else was said.
pub const DEFAULT_URL: &'static str = "https://eloquentlog.com/";

/// The settings that a new configuration file is given. The credential is a
/// placeholder for the operator to fill in.
pub const DEFAULT_CONTENTS: &'static str = "[credential]
api_key = \"<api_key>\"
secret = \"<secret>\"

[server]
url = \"https://eloquentlog.com\"

[user]
name = \"\"

[log]
severity = \"warn\"
";

/// What the client presents to the server to identify itself.
#[derive(Debug, Clone)]
pub struct Credential {
    pub api_key: String,
    pub secret: String,
}

/// Where the server is reached.
#[derive(Debug, Clone)]
pub struct Server {
    pub url: String,
}

/// Who uses the client.
#[derive(Debug, Clone)]
pub struct User {
    pub name: String,
}

/// How much the client reports about its own work.
#[derive(Debug, Clone)]
pub struct Log {
    pub severity: String,
}

/// The settings of one run.
#[derive(Debug)]
pub struct Config {
    pub credential: Credential,
    pub server: Server,
    pub user: User,
    pub log: Log,
}

/// The texts a `Config` holds.
pub struct ConfigView {
    pub api_key: Seq<char>,
    pub secret: Seq<char>,
    pub url: Seq<char>,
    pub name: Seq<char>,
    pub severity: Seq<char>,
}

impl View for Config {
    type V = ConfigView;

    open spec fn view(&self) -> ConfigView {
        ConfigView {
            api_key: self.credential.api_key@,
            secret: self.credential.secret@,
            url: self.server.url@,
            name: self.user.name@,
            severity: self.log.severity@,
        }
    }
}

/// The text of `url` without one trailing `/`, if it has one.
pub open spec fn normalized_url(url: Seq<char>) -> Seq<char> {
    if url.len() > 0 && url.last() == '/' {
        url.drop_last()
    } else {
        url
    }
}

/// Strips exactly one trailing `/` from `url`; any other text is returned unchanged.
pub fn format_url(url: String) -> (out: String)
    ensures
        out@ == normalized_url(url@),
{
    let n: usize = url.as_str().unicode_len();
    if n > 0 && url.as_str().get_char(n - 1) == '/' {
        let head = url.as_str().substring_char(0, n - 1);
        return head.to_owned();
    }
    url
}

/// Why no settings could be read from a file.
#[derive(Debug, Clone, Copy, PartialEq, Eq, Structural)]
pub enum LoadError {
    /// There is no such file.
    NotFound,
    /// The file does not hold well-formed settings.
    Parse,
    /// The file could not be read.
    Io,
}

/// The settings `config` with the server URL normalised.
pub open spec fn with_normalized_url(config: ConfigView) -> ConfigView {
    ConfigView { url: normalized_url(config.url), ..config }
}

/// The settings that a run works with: those of the file `config`, normalised,
/// with the command line input `args` applied.
pub open spec fn resolved(config: ConfigView, args: ArgsView) -> ConfigView {
    merged(with_normalized_url(config), args)
}

/// The settings `config` with the command line input `args` applied: a server
/// URL that was given replaces the configured one, without one trailing `/`;
/// the severity is set anew from the debug flag, whatever it was.
pub open spec fn merged(config: ConfigView, args: ArgsView) -> ConfigView {
    ConfigView {
        url: if args.server_url.len() > 0 {
            normalized_url(args.server_url)
        } else {
            config.url
        },
        severity: if args.debug {
            SEVERITY_DEBUG@
        } else {
            SEVERITY_WARN@
        },
        ..config
    }
}

/// The settings of a run for which nothing was configured.
pub open spec fn default_config() -> ConfigView {
    ConfigView {
        api_key: Seq::empty(),
        secret: Seq::empty(),
        url: DEFAULT_URL@,
        name: Seq::empty(),
        severity: SEVERITY_WARN@,
    }
}

/// The settings that a new configuration file holds.
pub open spec fn template_config() -> ConfigView {
    ConfigView {
        api_key: "<api_key>"@,
        secret: "<secret>"@,
        url: "https://eloquentlog.com"@,
        name: Seq::empty(),
        severity: SEVERITY_WARN@,
    }
}

/// The path, in components, of the application's directory below the
/// configuration root `config_dir`.
pub open spec fn config_home_path(config_dir: Seq<char>) -> Seq<Seq<char>> {
    seq![config_dir, CONFIG_ROOT@]
}

/// The path, in components, of the configuration file below the configuration
/// root `config_dir`.
pub open spec fn config_file_path(config_dir: Seq<char>) -> Seq<Seq<char>> {
    seq![config_dir, CONFIG_ROOT@, CONFIG_FILE@]
}

/// `dirs::config_dir`: the configuration root that the platform and the
/// environment of the process name, where they name one and its path is Unicode
/// text. Nothing is known of it beforehand.
#[verifier::external_body]
fn platform_config_dir() -> (config_dir: Option<String>) {
    match dirs::config_dir() {
        Some(path) => path.into_os_string().into_string().ok(),
        None => None,
    }
}

impl Default for Config {
    fn default() -> (config: Config)
        ensures
            config@ == default_config(),
    {
        Config {
            credential: Credential { api_key: String::new(), secret: String::new() },
            server: Server { url: String::from_str(DEFAULT_URL) },
            user: User { name: String::new() },
            log: Log { severity: String::from_str(SEVERITY_WARN) },
        }
    }
}

impl Clone for Config {
    fn clone(&self) -> (copy: Config)
        ensures
            copy@ == self@,
    {
        Config {
            credential: Credential {
                api_key: self.credential.api_key.clone(),
                secret: self.credential.secret.clone(),
            },
            server: Server { url: self.server.url.clone() },
            user: User { name: self.user.name.clone() },
            log: Log { severity: self.log.severity.clone() },
        }
    }
}

impl Config {
    /// The path, in components, of the application's directory below the
    /// configuration root `config_dir`.
    pub fn config_home_in(config_dir: String) -> (path: Vec<String>)
        ensures
            path.deep_view() == config_home_path(config_dir@),
    {
        let mut path: Vec<String> = Vec::new();
        path.push(config_dir);
        path.push(String::from_str(CONFIG_ROOT));
        path
    }

    /// The path, in components, of the configuration file below the
    /// configuration root `config_dir`.
    pub fn default_config_file_in(config_dir: String) -> (path: Vec<String>)
        ensures
            path.deep_view() == config_file_path(config_dir@),
    {
        let mut path: Vec<String> = Vec::new();
        path.push(config_dir);
        path.push(String::from_str(CONFIG_ROOT));
        path.push(String::from_str(CONFIG_FILE));
        path
    }

    /// The path, in components, of the application's directory below the
    /// configuration root of the platform, where the platform has one.
    pub fn config_home() -> (found: Option<Vec<String>>)
        ensures
            found matches Some(path) ==> exists|config_dir: Seq<char>|
                path.deep_view() == config_home_path(config_dir),
    {
        // The platform decides whether there is a root; the rest follows from it.
        let root = platform_config_dir();
        let found = Config::config_home_from(root);
        found
    }

    /// The path, in components, of the configuration file below the
    /// configuration root of the platform, where the platform has one.
    pub fn default_config_file() -> (found: Option<Vec<String>>)
        ensures
            found matches Some(path) ==> exists|config_dir: Seq<char>|
                path.deep_view() == config_file_path(config_dir),
    {
        // The platform decides whether there is a root; the rest follows from it.
        let root = platform_config_dir();
        let found = Config::default_config_file_from(root);
        found
    }

    /// The path, in components, of the application's directory, given what the
    /// platform names as its configuration root: the directory below that
    /// root, and no path where the platform names none.
    pub fn config_home_from(root: Option<String>) -> (found: Option<Vec<String>>)
        ensures
            root is None ==> found is None,
            root matches Some(config_dir) ==> found matches Some(path) && path.deep_view()
                == config_home_path(config_dir@),
    {
        match root {
            Some(config_dir) => Some(Config::config_home_in(config_dir)),
            None => None,
        }
    }

    /// The path, in components, of the configuration file, given what the
    /// platform names as its configuration root: the file below that root, and
    /// no path where the platform names none.
    pub fn default_config_file_from(root: Option<String>) -> (found: Option<Vec<String>>)
        ensures
            root is None ==> found is None,
            root matches Some(config_dir) ==> found matches Some(path) && path.deep_view()
                == config_file_path(config_dir@),
    {
        match root {
            Some(config_dir) => Some(Config::default_config_file_in(config_dir)),
            None => None,
        }
    }

    /// The settings that a new configuration file holds.
    pub fn template() -> (config: Config)
        ensures
            config@ == template_config(),
    {
        Config {
            credential: Credential {
                api_key: String::from_str("<api_key>"),
                secret: String::from_str("<secret>"),
            },
            server: Server { url: String::from_str("https://eloquentlog.com") },
            user: User { name: String::new() },
            log: Log { severity: String::from_str(SEVERITY_WARN) },
        }
    }

    /// The settings as they count once read from a file: the server URL loses
    /// one trailing `/`.
    pub fn normalized(self) -> (out: Config)
        ensures
            out@ == with_normalized_url(self@),
    {
        let mut out = self;
        out.server.url = format_url(out.server.url);
        out
    }

    /// Applies the command line input to the settings.
    pub fn update(self, args: Args) -> (out: Config)
        ensures
            out@ == merged(self@, args@),
    {
        let mut out = self;
        if !args.server_url.as_str().is_empty() {
            out.server.url = format_url(args.server_url);
        }
        out.log.severity = String::from_str(
            if args.debug {
                SEVERITY_DEBUG
            } else {
                SEVERITY_WARN
            },
        );
        out
    }

    /// Whether the settings ask for debug mode.
    pub fn is_debug(&self) -> (debug: bool)
        ensures
            debug == asks_debug(self@),
    {
        str_equal(self.log.severity.as_str(), SEVERITY_DEBUG)
    }

    /// Whether the settings can be used. Every configuration is accepted.
    pub fn is_valid(&self) -> (valid: bool)
        ensures
            valid,
    {
        true
    }
}

/// Whether the text `url` ends in `/`.
pub open spec fn ends_in_slash(url: Seq<char>) -> bool {
    url.len() > 0 && url.last() == '/'
}

/// Whether the text `url` ends in `//`.
pub open spec fn ends_in_two_slashes(url: Seq<char>) -> bool {
    url.len() > 1 && url[url.len() - 1] == '/' && url[url.len() - 2] == '/'
}

/// Whether the settings `config` ask for debug mode.
pub open spec fn asks_debug(config: ConfigView) -> bool {
    config.severity == SEVERITY_DEBUG@
}

/// Normalising a URL takes away one trailing `/` and nothing else: a URL
/// without one stays as it is, and a URL that ends in exactly one `/` loses
/// that character and no longer ends in `/`.
pub proof fn lemma_normalized_url(url: Seq<char>)
    ensures
        !ends_in_slash(url) ==> normalized_url(url) == url,
        ends_in_slash(url) ==> normalized_url(url) + seq!['/'] == url,
        ends_in_slash(url) ==> normalized_url(url).len() + 1 == url.len(),
        !ends_in_two_slashes(url) ==> !ends_in_slash(normalized_url(url)),
{
}

/// Normalising a URL a second time changes nothing more, unless the URL ends
/// in `//`.
pub proof fn lemma_normalized_url_twice(url: Seq<char>)
    requires
        !ends_in_two_slashes(url),
    ensures
        normalized_url(normalized_url(url)) == normalized_url(url),
{
}

/// Applying the command line input decides the severity alone by the debug
/// flag, whatever severity the settings had: `debug` with the flag, `warn`
/// without it, so that the result asks for debug mode exactly with the flag.
/// The credential and the user stay as they were, and so does the server URL
/// where no other was given.
pub proof fn lemma_merged(config: ConfigView, args: ArgsView)
    ensures
        args.debug ==> merged(config, args).severity == SEVERITY_DEBUG@,
        !args.debug ==> merged(config, args).severity == SEVERITY_WARN@,
        asks_debug(merged(config, args)) <==> args.debug,
        merged(config, args).api_key == config.api_key,
        merged(config, args).secret == config.secret,
        merged(config, args).name == config.name,
        args.server_url.len() == 0 ==> merged(config, args).url == config.url,
        args.server_url.len() > 0 ==> merged(config, args).url == normalized_url(args.server_url),
{
    reveal_strlit("debug");
    reveal_strlit("warn");
    assert(SEVERITY_WARN@.len() == 4);
}

/// The URL from which the settings of a run take their server: the one given
/// on the command line, or else the one in the file.
pub open spec fn source_url(config: ConfigView, args: ArgsView) -> Seq<char> {
    if args.server_url.len() > 0 {
        args.server_url
    } else {
        config.url
    }
}

/// The settings that a run works with ask for debug mode exactly when the
/// flag was given, and their server URL is the normalised source URL, which
/// ends in no `/` unless the source ended in `//`.
pub proof fn lemma_resolved(config: ConfigView, args: ArgsView)
    ensures
        asks_debug(resolved(config, args)) <==> args.debug,
        resolved(config, args).url == normalized_url(source_url(config, args)),
        !ends_in_two_slashes(source_url(config, args)) ==> !ends_in_slash(
            resolved(config, args).url,
        ),
{
    lemma_merged(with_normalized_url(config), args);
}

} // verus!
