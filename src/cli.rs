//! The command line of the tool that drives a running app for manual testing:
//! which app to launch, and the commands to send it.
use vstd::prelude::*;
use vstd::string::*;

verus! {

/// Whether the two strings hold the same characters.
fn str_eq(a: &str, b: &str) -> (r: bool)
    ensures
        r == (a@ == b@),
{
    String::from_str(a) == String::from_str(b)
}

/// No character of `s` is a slash.
pub open spec fn no_slash(s: Seq<char>) -> bool {
    forall|i: int| 0 <= i < s.len() ==> s[i] != '/'
}

/// `i` is the position of the first slash in `s`.
pub open spec fn is_first_slash(s: Seq<char>, i: int) -> bool {
    0 <= i < s.len() && s[i] == '/' && no_slash(s.take(i))
}

/// The text before and after the first slash of `s`, if it has one.
pub open spec fn split_at_slash(s: Seq<char>) -> Option<(Seq<char>, Seq<char>)> {
    if exists|i: int| is_first_slash(s, i) {
        let i = choose|i: int| is_first_slash(s, i);
        Some((s.take(i), s.skip(i + 1)))
    } else {
        None
    }
}

/// `s` cut at its first two slashes: one, two or three pieces, the last of
/// which keeps any further slash.
pub open spec fn slash_tokens(s: Seq<char>) -> Seq<Seq<char>> {
    match split_at_slash(s) {
        None => seq![s],
        Some((a, rest)) => match split_at_slash(rest) {
            None => seq![a, rest],
            Some((b, c)) => seq![a, b, c],
        },
    }
}

proof fn lemma_first_slash_unique(s: Seq<char>, i: int, j: int)
    requires
        is_first_slash(s, i),
        is_first_slash(s, j),
    ensures
        i == j,
{
    if i < j {
        assert(s.take(j)[i] == s[i]);
    } else if j < i {
        assert(s.take(i)[j] == s[j]);
    }
}

fn split_once_slash(s: &str) -> (r: Option<(String, String)>)
    ensures
        match r {
            None => split_at_slash(s@) is None,
            Some((a, b)) => split_at_slash(s@) == Some((a@, b@)),
        },
{
    let n = s.unicode_len();
    let mut i: usize = 0;
    while i < n
        invariant
            n == s@.len(),
            i <= n,
            no_slash(s@.take(i as int)),
        decreases n - i,
    {
        if s.get_char(i) == '/' {
            let a = s.substring_char(0, i).to_owned();
            let b = s.substring_char(i + 1, n).to_owned();
            proof {
                assert(is_first_slash(s@, i as int));
                let k = choose|k: int| is_first_slash(s@, k);
                lemma_first_slash_unique(s@, i as int, k);
                assert(a@ =~= s@.take(i as int));
                assert(b@ =~= s@.skip(i + 1));
            }
            return Some((a, b));
        }
        proof {
            assert(s@.take(i + 1) =~= s@.take(i as int).push(s@[i as int]));
        }
        i = i + 1;
    }
    proof {
        assert(s@.take(n as int) =~= s@);
        if exists|k: int| is_first_slash(s@, k) {
            let k = choose|k: int| is_first_slash(s@, k);
            assert(s@.take(n as int)[k] == s@[k]);
        }
    }
    None
}

/// The pieces of `s` cut at its first two slashes.
fn split_slash_tokens(s: &str) -> (r: Vec<String>)
    ensures
        r@.map_values(|t: String| t@) == slash_tokens(s@),
{
    let mut r: Vec<String> = Vec::new();
    match split_once_slash(s) {
        None => {
            r.push(s.to_owned());
        },
        Some((a, rest)) => {
            match split_once_slash(rest.as_str()) {
                None => {
                    r.push(a);
                    r.push(rest);
                },
                Some((b, c)) => {
                    r.push(a);
                    r.push(b);
                    r.push(c);
                },
            }
        },
    }
    assert(r@.map_values(|t: String| t@) =~= slash_tokens(s@));
    r
}

/// Why a command line could not be turned into commands.
#[derive(Debug, PartialEq, Eq)]
pub enum CliError {
    /// The app has no release channel of that name.
    NoSuchChannel { app: String, channel: String },
    /// The server is neither stage nor release.
    UnsupportedServer,
    /// The text does not name an experiment list.
    BadListSource { value: String },
    /// The text does not name an experiment.
    BadExperimentSource { value: String },
}

/// The address of the stage remote settings server.
pub open spec fn stage_url() -> Seq<char> {
    "https://settings.stage.mozaws.net"@
}

/// The address of the release remote settings server.
pub open spec fn release_url() -> Seq<char> {
    "https://firefox.settings.services.mozilla.com"@
}

/// The server that a server name stands for: release when the name is empty.
pub open spec fn endpoint_for(server: Seq<char>) -> Option<Seq<char>> {
    if server == ""@ || server == "release"@ {
        Some(release_url())
    } else if server == "stage"@ {
        Some(stage_url())
    } else {
        None
    }
}

/// Where to read the list of experiments from.
#[derive(Debug, PartialEq, Eq)]
pub enum ExperimentListSource {
    FromRemoteSettings { endpoint: String, is_preview: bool },
}

/// `l` reads from `endpoint`, from the preview collection when `preview`.
pub open spec fn is_list_source(l: ExperimentListSource, endpoint: Seq<char>, preview: bool) -> bool {
    match l {
        ExperimentListSource::FromRemoteSettings { endpoint: e, is_preview } => e@ == endpoint
            && is_preview == preview,
    }
}

/// `r` is what `try_from_pair` gives for a server name and a preview word.
pub open spec fn is_pair_result(
    r: Result<ExperimentListSource, CliError>,
    server: Seq<char>,
    preview: Seq<char>,
) -> bool {
    match endpoint_for(server) {
        None => r == Err::<ExperimentListSource, CliError>(CliError::UnsupportedServer),
        Some(e) => r is Ok && is_list_source(r->Ok_0, e, preview == "preview"@),
    }
}

/// The server name and preview word that the pieces of a list source name.
pub open spec fn list_pair(tokens: Seq<Seq<char>>) -> Option<(Seq<char>, Seq<char>)> {
    if tokens.len() == 1 {
        if tokens[0] == ""@ {
            Some((""@, ""@))
        } else if tokens[0] == "preview"@ {
            Some((""@, "preview"@))
        } else {
            Some((tokens[0], ""@))
        }
    } else if tokens.len() == 2 && tokens[1] == "preview"@ {
        Some((tokens[0], "preview"@))
    } else {
        None
    }
}

/// `r` is what `ExperimentListSource::parse` gives for `value`.
pub open spec fn is_list_result(r: Result<ExperimentListSource, CliError>, value: Seq<char>) -> bool {
    match list_pair(slash_tokens(value)) {
        None => r matches Err(CliError::BadListSource { value: v }) && v@ == value,
        Some((server, preview)) => is_pair_result(r, server, preview),
    }
}

impl ExperimentListSource {
    /// The list on `server` (stage, release, or empty for release), from the
    /// preview collection when `preview` is the word preview.
    pub fn try_from_pair(server: &str, preview: &str) -> (r: Result<Self, CliError>)
        ensures
            is_pair_result(r, server@, preview@),
    {
        let is_preview = str_eq(preview, "preview");
        let endpoint = if str_eq(server, "") || str_eq(server, "release") {
            String::from_str("https://firefox.settings.services.mozilla.com")
        } else if str_eq(server, "stage") {
            String::from_str("https://settings.stage.mozaws.net")
        } else {
            return Err(CliError::UnsupportedServer);
        };
        Ok(ExperimentListSource::FromRemoteSettings { endpoint, is_preview })
    }

    /// Reads `preview`, `release`, `stage` or `stage/preview`; the empty text
    /// is release.
    pub fn parse(value: &str) -> (r: Result<Self, CliError>)
        ensures
            is_list_result(r, value@),
    {
        let tokens = split_slash_tokens(value);
        proof {
            assert(tokens@.len() == slash_tokens(value@).len());
            assert forall|i: int| 0 <= i < tokens@.len() implies tokens@[i]@ == slash_tokens(value@)[i] by {
                assert(tokens@.map_values(|t: String| t@)[i] == tokens@[i]@);
            }
        }
        if tokens.len() == 1 {
            if str_eq(tokens[0].as_str(), "") {
                return ExperimentListSource::try_from_pair("", "");
            } else if str_eq(tokens[0].as_str(), "preview") {
                return ExperimentListSource::try_from_pair("", "preview");
            } else {
                return ExperimentListSource::try_from_pair(tokens[0].as_str(), "");
            }
        } else if tokens.len() == 2 && str_eq(tokens[1].as_str(), "preview") {
            return ExperimentListSource::try_from_pair(tokens[0].as_str(), "preview");
        }
        Err(CliError::BadListSource { value: value.to_owned() })
    }
}

/// Where an experiment to enroll in comes from.
#[derive(Debug, PartialEq, Eq)]
pub enum ExperimentSource {
    FromList { slug: String, list: ExperimentListSource },
    FromFeatureFiles { feature_id: String, files: Vec<String> },
}

/// The slug, server name and preview word that the pieces of an experiment
/// name.
pub open spec fn experiment_parts(tokens: Seq<Seq<char>>) -> Option<(Seq<char>, Seq<char>, Seq<char>)> {
    if tokens.len() == 1 {
        Some((tokens[0], ""@, ""@))
    } else if tokens.len() == 2 {
        if tokens[0] == "preview"@ {
            Some((tokens[1], ""@, "preview"@))
        } else {
            Some((tokens[1], tokens[0], ""@))
        }
    } else if tokens[1] == "preview"@ {
        Some((tokens[2], tokens[0], "preview"@))
    } else {
        None
    }
}

/// `r` is what `ExperimentSource::parse` gives for `value`.
pub open spec fn is_experiment_result(r: Result<ExperimentSource, CliError>, value: Seq<char>) -> bool {
    match experiment_parts(slash_tokens(value)) {
        None => r matches Err(CliError::BadExperimentSource { value: v }) && v@ == value,
        Some((slug, server, preview)) => match endpoint_for(server) {
            None => r == Err::<ExperimentSource, CliError>(CliError::UnsupportedServer),
            Some(e) => r matches Ok(ExperimentSource::FromList { slug: s, list }) && s@ == slug
                && is_list_source(list, e, preview == "preview"@),
        },
    }
}

impl ExperimentSource {
    /// Reads `SLUG`, `preview/SLUG`, `SERVER/SLUG` or `SERVER/preview/SLUG`.
    pub fn parse(value: &str) -> (r: Result<Self, CliError>)
        ensures
            is_experiment_result(r, value@),
    {
        let tokens = split_slash_tokens(value);
        proof {
            assert(tokens@.len() == slash_tokens(value@).len());
            assert forall|i: int| 0 <= i < tokens@.len() implies tokens@[i]@ == slash_tokens(value@)[i] by {
                assert(tokens@.map_values(|t: String| t@)[i] == tokens@[i]@);
            }
        }
        let (slug, list) = if tokens.len() == 1 {
            (tokens[0].clone(), ExperimentListSource::try_from_pair("", ""))
        } else if tokens.len() == 2 {
            if str_eq(tokens[0].as_str(), "preview") {
                (tokens[1].clone(), ExperimentListSource::try_from_pair("", "preview"))
            } else {
                (tokens[1].clone(), ExperimentListSource::try_from_pair(tokens[0].as_str(), ""))
            }
        } else if str_eq(tokens[1].as_str(), "preview") {
            (tokens[2].clone(), ExperimentListSource::try_from_pair(tokens[0].as_str(), "preview"))
        } else {
            return Err(CliError::BadExperimentSource { value: value.to_owned() });
        };
        match list {
            Ok(list) => Ok(ExperimentSource::FromList { slug, list }),
            Err(e) => Err(e),
        }
    }
}

/// An app that can be launched on a device or simulator.
#[derive(Debug, PartialEq, Eq)]
pub enum LaunchableApp {
    Android { package_name: String, activity_name: String, device_id: Option<String> },
    IOS { device_id: String, app_id: String },
}

impl LaunchableApp {
    /// A copy of this app.
    pub fn duplicate(&self) -> (r: LaunchableApp)
        ensures
            r == *self,
    {
        match self {
            LaunchableApp::Android { package_name, activity_name, device_id } => {
                let device_id = match device_id {
                    Some(id) => Some(id.clone()),
                    None => None,
                };
                LaunchableApp::Android {
                    package_name: package_name.clone(),
                    activity_name: activity_name.clone(),
                    device_id,
                }
            },
            LaunchableApp::IOS { device_id, app_id } => LaunchableApp::IOS {
                device_id: device_id.clone(),
                app_id: app_id.clone(),
            },
        }
    }
}

/// The app is one of the Android apps.
pub open spec fn is_android_app(app: Seq<char>) -> bool {
    app == "fenix"@ || app == "focus_android"@
}

/// The app is one that can be launched.
pub open spec fn is_known_app(app: Seq<char>) -> bool {
    is_android_app(app) || app == "firefox_ios"@ || app == "focus_ios"@
}

/// The start of the package name or bundle id of a known app.
pub open spec fn package_prefix(app: Seq<char>) -> Seq<char> {
    if is_android_app(app) {
        "org.mozilla"@
    } else {
        "org.mozilla.ios"@
    }
}

/// The end of the package name or bundle id of `app` on `channel`, if the app
/// has that channel.
pub open spec fn package_suffix(app: Seq<char>, channel: Seq<char>) -> Option<Seq<char>> {
    if app == "fenix"@ {
        if channel == "developer"@ {
            Some("fenix.debug"@)
        } else if channel == "nightly"@ {
            Some("fenix"@)
        } else if channel == "beta"@ {
            Some("firefox_beta"@)
        } else if channel == "release"@ {
            Some("firefox"@)
        } else {
            None
        }
    } else if app == "focus_android"@ {
        if channel == "developer"@ {
            Some("focus.debug"@)
        } else if channel == "nightly"@ {
            Some("focus.nightly"@)
        } else if channel == "beta"@ {
            Some("focus.beta"@)
        } else if channel == "release"@ {
            Some("focus"@)
        } else {
            None
        }
    } else if app == "firefox_ios"@ {
        if channel == "developer"@ {
            Some("Fennec"@)
        } else if channel == "beta"@ {
            Some("FirefoxBeta"@)
        } else if channel == "release"@ {
            Some("Firefox"@)
        } else {
            None
        }
    } else if channel == "developer"@ || channel == "beta"@ || channel == "release"@ {
        Some("Focus"@)
    } else {
        None
    }
}

/// The activity that starts an Android app.
pub open spec fn activity_for(app: Seq<char>) -> Seq<char> {
    if app == "fenix"@ {
        ".App"@
    } else {
        "org.mozilla.focus.activity.MainActivity"@
    }
}

/// `l` launches `app` under the id that ends in `suffix`.
pub open spec fn is_launchable_for(l: LaunchableApp, app: Seq<char>, suffix: Seq<char>) -> bool {
    let id = package_prefix(app) + "."@ + suffix;
    if is_android_app(app) {
        l matches LaunchableApp::Android { package_name, activity_name, device_id }
            && package_name@ == id && activity_name@ == activity_for(app) && device_id is None
    } else {
        l matches LaunchableApp::IOS { device_id, app_id } && app_id@ == id && device_id@
            == "booted"@
    }
}

/// Whether `app` names an app that can be launched.
pub fn is_supported_app(app: &str) -> (r: bool)
    ensures
        r == is_known_app(app@),
{
    str_eq(app, "fenix") || str_eq(app, "focus_android") || str_eq(app, "firefox_ios") || str_eq(
        app,
        "focus_ios",
    )
}

/// The subcommands of the command line.
pub enum CliCommand {
    /// Enroll into an experiment or a rollout.
    Enroll { experiment: String, branch: String, rollouts: Vec<String>, preserve_targeting: bool },
    /// Unenroll from all experiments and rollouts.
    Unenroll,
    /// Create a rollout to test a feature configuration.
    TestFeature { feature_id: String, feature_file: Vec<String> },
    /// Load and apply experiments from a file.
    ApplyFile { recipes_file: String },
    /// List the experiments on a server.
    List { server: Option<String> },
}

/// A parsed command line.
pub struct Cli {
    pub app: String,
    pub channel: String,
    pub command: CliCommand,
}

impl LaunchableApp {
    /// The app that the command line names, on the channel it names.
    pub fn try_from(cli: &Cli) -> (r: Result<LaunchableApp, CliError>)
        requires
            is_known_app(cli.app@),
        ensures
            match package_suffix(cli.app@, cli.channel@) {
                None => r matches Err(CliError::NoSuchChannel { app, channel }) && app@ == cli.app@
                    && channel@ == cli.channel@,
                Some(suffix) => r is Ok && is_launchable_for(r->Ok_0, cli.app@, suffix),
            },
    {
        let app = cli.app.as_str();
        let channel = cli.channel.as_str();
        let suffix: &str = if str_eq(app, "fenix") {
            if str_eq(channel, "developer") {
                "fenix.debug"
            } else if str_eq(channel, "nightly") {
                "fenix"
            } else if str_eq(channel, "beta") {
                "firefox_beta"
            } else if str_eq(channel, "release") {
                "firefox"
            } else {
                return Err(CliError::NoSuchChannel { app: cli.app.clone(), channel: cli.channel.clone() });
            }
        } else if str_eq(app, "focus_android") {
            if str_eq(channel, "developer") {
                "focus.debug"
            } else if str_eq(channel, "nightly") {
                "focus.nightly"
            } else if str_eq(channel, "beta") {
                "focus.beta"
            } else if str_eq(channel, "release") {
                "focus"
            } else {
                return Err(CliError::NoSuchChannel { app: cli.app.clone(), channel: cli.channel.clone() });
            }
        } else if str_eq(app, "firefox_ios") {
            if str_eq(channel, "developer") {
                "Fennec"
            } else if str_eq(channel, "beta") {
                "FirefoxBeta"
            } else if str_eq(channel, "release") {
                "Firefox"
            } else {
                return Err(CliError::NoSuchChannel { app: cli.app.clone(), channel: cli.channel.clone() });
            }
        } else if str_eq(channel, "developer") || str_eq(channel, "beta") || str_eq(channel, "release") {
            "Focus"
        } else {
            return Err(CliError::NoSuchChannel { app: cli.app.clone(), channel: cli.channel.clone() });
        };
        let android = str_eq(app, "fenix") || str_eq(app, "focus_android");
        let prefix: &str = if android {
            "org.mozilla"
        } else {
            "org.mozilla.ios"
        };
        let id = String::from_str(prefix).concat(".").concat(suffix);
        if android {
            let activity_name = if str_eq(app, "fenix") {
                String::from_str(".App")
            } else {
                String::from_str("org.mozilla.focus.activity.MainActivity")
            };
            Ok(LaunchableApp::Android { package_name: id, activity_name, device_id: None })
        } else {
            Ok(LaunchableApp::IOS { app_id: id, device_id: String::from_str("booted") })
        }
    }
}

/// A copy of a list of strings.
fn copy_strings(v: &Vec<String>) -> (r: Vec<String>)
    ensures
        r@ == v@,
{
    let mut r: Vec<String> = Vec::new();
    let mut i: usize = 0;
    while i < v.len()
        invariant
            i <= v@.len(),
            r@ == v@.subrange(0, i as int),
        decreases v@.len() - i,
    {
        r.push(v[i].clone());
        i = i + 1;
        assert(r@ =~= v@.subrange(0, i as int));
    }
    assert(r@ =~= v@);
    r
}

/// A command to carry out on an app.
#[derive(Debug, PartialEq, Eq)]
pub enum AppCommand {
    Unenroll { app: LaunchableApp },
    Enroll {
        app: LaunchableApp,
        experiment: ExperimentSource,
        branch: String,
        preserve_targeting: bool,
        rollouts: Vec<ExperimentSource>,
    },
    TestFeature { app: LaunchableApp, experiment: ExperimentSource },
    List { app: LaunchableApp, list: ExperimentListSource },
    Kill { app: LaunchableApp },
}

impl AppCommand {
    /// The command that the command line asks for, on `app`.
    pub fn try_from(app: &LaunchableApp, cli: &Cli) -> (r: Result<AppCommand, CliError>)
        requires
            !(cli.command is ApplyFile),
        ensures
            match cli.command {
                CliCommand::Enroll { experiment, branch, preserve_targeting, .. } => match r {
                    Ok(c) => c matches AppCommand::Enroll {
                        app: a,
                        experiment: e,
                        branch: b,
                        preserve_targeting: p,
                        rollouts,
                    } && a == *app && is_experiment_result(Ok(e), experiment@) && b@ == branch@
                        && p == preserve_targeting && rollouts@.len() == 0,
                    Err(e) => is_experiment_result(Err(e), experiment@),
                },
                CliCommand::TestFeature { feature_id, feature_file } => r matches Ok(
                    AppCommand::TestFeature {
                        app: a,
                        experiment: ExperimentSource::FromFeatureFiles { feature_id: f, files },
                    },
                ) && a == *app && f@ == feature_id@ && files@ == feature_file@,
                CliCommand::Unenroll => r matches Ok(AppCommand::Unenroll { app: a }) && a == *app,
                CliCommand::List { server } => {
                    let value = match server {
                        Some(s) => s@,
                        None => Seq::<char>::empty(),
                    };
                    match r {
                        Ok(c) => c matches AppCommand::List { app: a, list } && a == *app
                            && is_list_result(Ok(list), value),
                        Err(e) => is_list_result(Err(e), value),
                    }
                },
                CliCommand::ApplyFile { .. } => false,
            },
    {
        let app = app.duplicate();
        match &cli.command {
            CliCommand::Enroll { experiment, branch, preserve_targeting, .. } => {
                match ExperimentSource::parse(experiment.as_str()) {
                    Ok(experiment) => Ok(AppCommand::Enroll {
                        app,
                        experiment,
                        branch: branch.clone(),
                        preserve_targeting: *preserve_targeting,
                        rollouts: Vec::new(),
                    }),
                    Err(e) => Err(e),
                }
            },
            CliCommand::TestFeature { feature_id, feature_file } => {
                let experiment = ExperimentSource::FromFeatureFiles {
                    feature_id: feature_id.clone(),
                    files: copy_strings(feature_file),
                };
                Ok(AppCommand::TestFeature { app, experiment })
            },
            CliCommand::Unenroll => Ok(AppCommand::Unenroll { app }),
            CliCommand::List { server } => {
                let list = match server {
                    Some(s) => s.clone(),
                    None => String::new(),
                };
                match ExperimentListSource::parse(list.as_str()) {
                    Ok(list) => Ok(AppCommand::List { app, list }),
                    Err(e) => Err(e),
                }
            },
            // Excluded by the precondition.
            CliCommand::ApplyFile { .. } => vstd::pervasive::unreached(),
        }
    }
}

/// The commands to run for `cmd` on `app`: a listing runs alone, anything
/// else after stopping the app.
pub fn command_sequence(app: &LaunchableApp, cmd: AppCommand) -> (r: Vec<AppCommand>)
    ensures
        cmd is List ==> r@ == seq![cmd],
        !(cmd is List) ==> r@ == seq![AppCommand::Kill { app: *app }, cmd],
{
    let mut r: Vec<AppCommand> = Vec::new();
    if let AppCommand::List { .. } = cmd {
        r.push(cmd);
    } else {
        r.push(AppCommand::Kill { app: app.duplicate() });
        r.push(cmd);
    }
    r
}

} // verus!
