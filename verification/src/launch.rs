//! Start-up decisions: what the command line asks for, and what the client
//! does with the loaded configuration before the main window opens.
use vstd::prelude::*;
use crate::config::{AppConfig, WindowState};
use crate::text::{is_prefix, starts_with, strip_prefixes, trim_start_matches};
use crate::window::{restore_plan, spec_restore_plan, RestorePlan};

verus! {

/// The operating system the client runs on, as far as its behaviour differs.
#[derive(Clone, Copy, Debug, PartialEq, Eq, Structural)]
pub enum Platform {
    Windows,
    MacOs,
    Other,
}

/// The flag that names the server to load instead of the default one.
pub open spec fn server_flag() -> Seq<char> {
    "--force-server="@
}

/// The flag that asks for the main window to start hidden.
pub open spec fn hidden_flag() -> Seq<char> {
    "--hidden"@
}

/// The server that is loaded when the command line names none.
pub open spec fn default_server_url() -> Seq<char> {
    "https://stoat.chat/app"@
}

/// The first argument that begins with the server flag, if any.
pub open spec fn first_server_arg(args: Seq<String>) -> Option<String>
    decreases args.len(),
{
    if args.len() == 0 {
        None
    } else if is_prefix(server_flag(), args[0]@) {
        Some(args[0])
    } else {
        first_server_arg(args.drop_first())
    }
}

/// The server to load: the first argument that begins with the server flag,
/// with every leading copy of the flag removed; the default server when no
/// argument begins with it.
pub open spec fn spec_server_url(args: Seq<String>) -> Seq<char> {
    match first_server_arg(args) {
        Some(a) => strip_prefixes(a@, server_flag()),
        None => default_server_url(),
    }
}

/// Whether some argument is exactly the hidden flag.
pub open spec fn spec_start_hidden(args: Seq<String>) -> bool {
    exists|i: int| 0 <= i < args.len() && #[trigger] args[i]@ == hidden_flag()
}

/// The server to load, from the whole command line (program name included).
pub fn server_url(args: &Vec<String>) -> (url: String)
    ensures
        url@ == spec_server_url(args@),
{
    let flag = "--force-server=";
    let mut i: usize = 0;
    assert(args@.skip(0) =~= args@);
    while i < args.len()
        invariant
            i <= args@.len(),
            flag@ == server_flag(),
            first_server_arg(args@) == first_server_arg(args@.skip(i as int)),
        decreases args@.len() - i,
    {
        let arg = args[i].as_str();
        assert(args@.skip(i as int)[0] == args@[i as int]);
        if starts_with(arg, flag) {
            return trim_start_matches(arg, flag);
        }
        assert(args@.skip(i as int).drop_first() =~= args@.skip(i + 1));
        i = i + 1;
    }
    assert(args@.skip(i as int) =~= Seq::<String>::empty());
    let url = "https://stoat.chat/app";
    String::from_str(url)
}

/// Whether the command line asks for the main window to start hidden.
pub fn start_hidden(args: &Vec<String>) -> (hidden: bool)
    ensures
        hidden == spec_start_hidden(args@),
{
    let flag = String::from_str("--hidden");
    let mut i: usize = 0;
    while i < args.len()
        invariant
            i <= args@.len(),
            flag@ == hidden_flag(),
            forall|j: int| 0 <= j < i ==> #[trigger] args@[j]@ != hidden_flag(),
        decreases args@.len() - i,
    {
        if args[i] == flag {
            return true;
        }
        i = i + 1;
    }
    false
}

#[verifier::external_type_specification]
#[verifier::external_body]
pub struct ExUrl(url::Url);

#[verifier::external_type_specification]
#[verifier::external_body]
pub struct ExUrlParseError(url::ParseError);

/// What `url::Url::parse` makes of `s`: the URL when it accepts `s` as an
/// absolute URL, `None` when it refuses it.
pub uninterp spec fn parsed_url(s: Seq<char>) -> Option<url::Url>;

/// Calls `url::Url::parse`, whose result depends on the text alone and is
/// named `parsed_url`. Which error it gives on a refusal is not stated.
#[verifier::external_body]
fn parse_url(s: &str) -> (r: Result<url::Url, url::ParseError>)
    ensures
        match r {
            Ok(u) => parsed_url(s@) == Some(u),
            Err(_) => parsed_url(s@) is None,
        },
{
    url::Url::parse(s)
}

/// Why the command line cannot be used.
#[derive(Clone, Copy, Debug, PartialEq, Eq, Structural)]
pub enum LaunchError {
    /// The server to load is not a valid absolute URL.
    InvalidServerUrl,
}

/// Keeps a parsed server address, and turns a parse failure into
/// `LaunchError::InvalidServerUrl`.
pub fn check_server_address(parsed: Result<url::Url, url::ParseError>) -> (r: Result<
    url::Url,
    LaunchError,
>)
    ensures
        match parsed {
            Ok(u) => r == Ok::<url::Url, LaunchError>(u),
            Err(_) => r == Err::<url::Url, LaunchError>(LaunchError::InvalidServerUrl),
        },
{
    match parsed {
        Ok(u) => Ok(u),
        Err(_) => Err(LaunchError::InvalidServerUrl),
    }
}

/// The address of the server to load: the URL parsed from the text that
/// `server_url` gives; an error when that text is not a valid absolute URL.
pub fn server_address(args: &Vec<String>) -> (r: Result<url::Url, LaunchError>)
    ensures
        match parsed_url(spec_server_url(args@)) {
            Some(u) => r == Ok::<url::Url, LaunchError>(u),
            None => r == Err::<url::Url, LaunchError>(LaunchError::InvalidServerUrl),
        },
{
    let text = server_url(args);
    check_server_address(parse_url(text.as_str()))
}

/// What the command line asks for.
#[derive(Clone, Debug, PartialEq, Eq)]
pub struct LaunchOptions {
    /// The address of the server whose web client is loaded.
    pub server_url: String,
    /// Whether the main window is built hidden.
    pub start_hidden: bool,
}

/// Reads the command line (program name included).
pub fn parse_launch_args(args: &Vec<String>) -> (o: LaunchOptions)
    ensures
        o.server_url@ == spec_server_url(args@),
        o.start_hidden == spec_start_hidden(args@),
{
    LaunchOptions { server_url: server_url(args), start_hidden: start_hidden(args) }
}

/// What the client does at start-up, before the main window opens.
#[derive(Clone, Copy, Debug, PartialEq, Eq, Structural)]
pub struct StartupPlan {
    /// Register the client to start with the session.
    pub enable_autostart: bool,
    /// A configuration to write back to disk, if any.
    pub save_config: Option<AppConfig>,
    /// Start the rich presence worker.
    pub start_presence: bool,
    /// The visibility the main window is built with.
    pub visible_at_creation: bool,
    /// How to put the window back as the configuration recorded it.
    pub restore: RestorePlan,
}

/// On Windows and macOS the end of the first launch is written back at once.
pub open spec fn records_first_launch(platform: Platform) -> bool {
    platform == Platform::Windows || platform == Platform::MacOs
}

/// The configuration after start-up: the first launch is marked as over on
/// Windows and macOS, nothing changes elsewhere.
pub open spec fn spec_after_startup(config: AppConfig, platform: Platform) -> AppConfig {
    if records_first_launch(platform) && config.first_launch {
        AppConfig { first_launch: false, ..config }
    } else {
        config
    }
}

/// Decides start-up from the loaded configuration. A first launch enables
/// autostart; on Windows and macOS it is then marked as over and the
/// configuration is saved. The presence worker starts when it is enabled.
pub fn startup_plan(config: &mut AppConfig, platform: Platform, start_hidden: bool) -> (plan:
    StartupPlan)
    ensures
        plan.enable_autostart == old(config).first_launch,
        *final(config) == spec_after_startup(*old(config), platform),
        plan.save_config == if records_first_launch(platform) && old(config).first_launch {
            Some(*final(config))
        } else {
            None
        },
        plan.start_presence == old(config).discord_rpc,
        plan.visible_at_creation == !start_hidden,
        plan.restore == spec_restore_plan(old(config).window_state),
{
    let enable_autostart = config.first_launch;
    let on_record_platform = match platform {
        Platform::Windows => true,
        Platform::MacOs => true,
        Platform::Other => false,
    };
    let save_config = if on_record_platform && config.first_launch {
        config.first_launch = false;
        Some(*config)
    } else {
        None
    };
    let ws: WindowState = config.window_state;
    StartupPlan {
        enable_autostart,
        save_config,
        start_presence: config.discord_rpc,
        visible_at_creation: !start_hidden,
        restore: restore_plan(&ws),
    }
}

} // verus!
