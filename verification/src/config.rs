//! Process-wide configuration: the declarative settings, the startup error
//! taxonomy, and the parsing of the `--config=<path>` argument. Reading the
//! file, the credentials and the environment is I/O and lives with the
//! embedding program; everything here is pure.

use vstd::prelude::*;

use crate::classify::DeployConfig;
use crate::text::is_prefix_of;
use crate::text::{starts_with, suffix_from};

verus! {

/// Web server bind parameters.
pub struct WebServerParameters {
    pub bind_address: String,
    pub bind_port: u16,
}

/// Mail transport parameters. The credentials are filled from the runtime
/// credentials directory, never from the declarative file.
pub struct MailParameters {
    pub smtp_user: String,
    pub smtp_password: String,
    pub smtp_endpoint: String,
    pub from: String,
    pub to: String,
}

/// Webhook parameters: the shared secret (from the credentials directory),
/// the allow-listed repository full names, and the deploy script location.
pub struct GitHub {
    pub webhook_secret: String,
    pub expected_repo_full_name: Vec<String>,
    pub deploy_script_path: String,
}

/// The verbosity of the process-wide logger.
#[derive(Clone, Copy, PartialEq, Eq, Structural, Debug)]
pub enum LogLevel {
    Off,
    Error,
    Warn,
    Info,
    Debug,
    Trace,
}

/// General parameters: working and script-log directories and logging.
pub struct General {
    pub dev_dir: String,
    pub scripts_dir: String,
    pub log_path: String,
    pub log_level: LogLevel,
    pub log_to_stdout: bool,
}

/// The whole declarative configuration, loaded once at startup and
/// read-only thereafter.
pub struct Config {
    pub web_server: WebServerParameters,
    pub mail: MailParameters,
    pub github: GitHub,
    pub general: General,
}

/// An error that aborts startup before any traffic is served.
pub enum InitializationError {
    FileIOError(String),
    ConfigFileError(String),
    ConfigFilePathError(String),
    SetupLoggerError(String),
    MailSetupError(String),
    CredentialEnvError(String),
    CredentialUtf8Error(String),
}

/// The mathematical value of an `InitializationError`.
pub enum InitializationErrorView {
    FileIOError(Seq<char>),
    ConfigFileError(Seq<char>),
    ConfigFilePathError(Seq<char>),
    SetupLoggerError(Seq<char>),
    MailSetupError(Seq<char>),
    CredentialEnvError(Seq<char>),
    CredentialUtf8Error(Seq<char>),
}

impl View for InitializationError {
    type V = InitializationErrorView;

    open spec fn view(&self) -> InitializationErrorView {
        match self {
            InitializationError::FileIOError(s) => InitializationErrorView::FileIOError(s@),
            InitializationError::ConfigFileError(s) => InitializationErrorView::ConfigFileError(
                s@,
            ),
            InitializationError::ConfigFilePathError(s) =>
                InitializationErrorView::ConfigFilePathError(s@),
            InitializationError::SetupLoggerError(s) => InitializationErrorView::SetupLoggerError(
                s@,
            ),
            InitializationError::MailSetupError(s) => InitializationErrorView::MailSetupError(s@),
            InitializationError::CredentialEnvError(s) =>
                InitializationErrorView::CredentialEnvError(s@),
            InitializationError::CredentialUtf8Error(s) =>
                InitializationErrorView::CredentialUtf8Error(s@),
        }
    }
}

impl InitializationErrorView {
    /// The error's rendering: its kind, a colon, its detail.
    pub open spec fn message(self) -> Seq<char> {
        match self {
            InitializationErrorView::FileIOError(s) => "FileIOError: "@ + s,
            InitializationErrorView::ConfigFileError(s) => "ConfigFileError: "@ + s,
            InitializationErrorView::ConfigFilePathError(s) => "ConfigurationError: "@ + s,
            InitializationErrorView::SetupLoggerError(s) => "SetupLoggerError: "@ + s,
            InitializationErrorView::MailSetupError(s) => "MailSetupError: "@ + s,
            InitializationErrorView::CredentialEnvError(s) => "CredentialEnvError: "@ + s,
            InitializationErrorView::CredentialUtf8Error(s) => "CredentialUtf8Error: "@ + s,
        }
    }
}

impl InitializationError {
    /// Renders the error as its kind, a colon, and its detail.
    pub fn message(&self) -> (r: String)
        ensures
            r@ == self@.message(),
    {
        let (label, detail): (&str, &String) = match self {
            InitializationError::FileIOError(s) => ("FileIOError: ", s),
            InitializationError::ConfigFileError(s) => ("ConfigFileError: ", s),
            InitializationError::ConfigFilePathError(s) => ("ConfigurationError: ", s),
            InitializationError::SetupLoggerError(s) => ("SetupLoggerError: ", s),
            InitializationError::MailSetupError(s) => ("MailSetupError: ", s),
            InitializationError::CredentialEnvError(s) => ("CredentialEnvError: ", s),
            InitializationError::CredentialUtf8Error(s) => ("CredentialUtf8Error: ", s),
        };
        let mut m = String::from_str(label);
        m.append(detail.as_str());
        m
    }
}

/// An error that the process cannot recover from.
pub enum UnrecoverableError {
    InitializationError(InitializationError),
    RustlsConfigError(String),
    MailError(String),
}

/// The mathematical value of an `UnrecoverableError`.
pub enum UnrecoverableErrorView {
    InitializationError(InitializationErrorView),
    RustlsConfigError(Seq<char>),
    MailError(Seq<char>),
}

impl View for UnrecoverableError {
    type V = UnrecoverableErrorView;

    open spec fn view(&self) -> UnrecoverableErrorView {
        match self {
            UnrecoverableError::InitializationError(e) =>
                UnrecoverableErrorView::InitializationError(e@),
            UnrecoverableError::RustlsConfigError(s) => UnrecoverableErrorView::RustlsConfigError(
                s@,
            ),
            UnrecoverableError::MailError(s) => UnrecoverableErrorView::MailError(s@),
        }
    }
}

impl UnrecoverableErrorView {
    /// The error's rendering: its kind, a colon, its detail.
    pub open spec fn message(self) -> Seq<char> {
        match self {
            UnrecoverableErrorView::InitializationError(e) => "InitializationError: "@
                + e.message(),
            UnrecoverableErrorView::RustlsConfigError(s) => "RustlsConfigError: "@ + s,
            UnrecoverableErrorView::MailError(s) => "MailError: "@ + s,
        }
    }
}

impl UnrecoverableError {
    /// Renders the error as its kind, a colon, and its detail.
    pub fn message(&self) -> (r: String)
        ensures
            r@ == self@.message(),
    {
        match self {
            UnrecoverableError::InitializationError(e) => {
                let mut m = String::from_str("InitializationError: ");
                let inner = e.message();
                m.append(inner.as_str());
                m
            },
            UnrecoverableError::RustlsConfigError(s) => {
                let mut m = String::from_str("RustlsConfigError: ");
                m.append(s.as_str());
                m
            },
            UnrecoverableError::MailError(s) => {
                let mut m = String::from_str("MailError: ");
                m.append(s.as_str());
                m
            },
        }
    }
}

/// The flag that names the configuration file.
pub open spec fn config_flag_prefix() -> Seq<char> {
    "--config="@
}

/// The configuration path the argument list names: the text after the
/// first `=` of the first argument starting with `--config=`, or `None`
/// when no argument does.
pub open spec fn config_path_of(args: Seq<Seq<char>>) -> Option<Seq<char>>
    decreases args.len(),
{
    if args.len() == 0 {
        None
    } else if is_prefix_of(config_flag_prefix(), args[0]) {
        Some(args[0].skip(config_flag_prefix().len() as int))
    } else {
        config_path_of(args.drop_first())
    }
}

proof fn lemma_config_path_skip(args: Seq<Seq<char>>, i: int)
    requires
        0 <= i <= args.len(),
        forall|j: int| 0 <= j < i ==> !is_prefix_of(config_flag_prefix(), #[trigger] args[j]),
    ensures
        config_path_of(args) == config_path_of(args.skip(i)),
    decreases i,
{
    if i > 0 {
        assert(!is_prefix_of(config_flag_prefix(), args[0]));
        lemma_config_path_skip(args.drop_first(), i - 1);
        assert(args.drop_first().skip(i - 1) =~= args.skip(i));
    } else {
        assert(args.skip(0) =~= args);
    }
}

/// Finds the configuration-file path among the process arguments: the value
/// of the first `--config=<path>` argument. Its absence is the startup
/// error the original reports.
pub fn config_path_from_args(args: &Vec<String>) -> (r: Result<String, InitializationError>)
    ensures
        r matches Ok(p) ==> config_path_of(args.deep_view()) == Some(p@),
        r matches Err(e) ==> {
            &&& config_path_of(args.deep_view()) is None
            &&& e@ == InitializationErrorView::ConfigFilePathError(
                "missing --config=<config_path>"@,
            )
        },
{
    let ghost view_args = args.deep_view();
    let mut i: usize = 0;
    while i < args.len()
        invariant
            0 <= i <= args@.len(),
            view_args == args.deep_view(),
            view_args.len() == args@.len(),
            forall|j: int| 0 <= j < i ==> !is_prefix_of(config_flag_prefix(), #[trigger] view_args[j]),
        decreases args@.len() - i,
    {
        if starts_with(args[i].as_str(), "--config=") {
            proof {
                lemma_config_path_skip(view_args, i as int);
                assert(view_args.skip(i as int)[0] == view_args[i as int]);
                reveal_strlit("--config=");
            }
            let path = suffix_from(args[i].as_str(), 9);
            proof {
                assert(path@ =~= view_args[i as int].skip(config_flag_prefix().len() as int));
            }
            return Ok(path);
        }
        i += 1;
    }
    proof {
        lemma_config_path_skip(view_args, view_args.len() as int);
        assert(view_args.skip(view_args.len() as int) =~= Seq::<Seq<char>>::empty());
    }
    Err(InitializationError::ConfigFilePathError(String::from_str("missing --config=<config_path>")))
}

/// The deployment slice of a configuration: what the webhook handler needs.
pub fn deploy_config_of(c: &Config) -> (d: DeployConfig)
    ensures
        d.webhook_secret@ == c.github.webhook_secret@,
        d.expected_repo_full_name.deep_view() == c.github.expected_repo_full_name.deep_view(),
        d.deploy_script_path@ == c.github.deploy_script_path@,
        d.dev_dir@ == c.general.dev_dir@,
        d.scripts_dir@ == c.general.scripts_dir@,
{
    DeployConfig {
        webhook_secret: c.github.webhook_secret.clone(),
        expected_repo_full_name: clone_strings(&c.github.expected_repo_full_name),
        deploy_script_path: c.github.deploy_script_path.clone(),
        dev_dir: c.general.dev_dir.clone(),
        scripts_dir: c.general.scripts_dir.clone(),
    }
}

fn clone_strings(v: &Vec<String>) -> (r: Vec<String>)
    ensures
        r.deep_view() == v.deep_view(),
{
    let mut r: Vec<String> = Vec::new();
    let mut i: usize = 0;
    while i < v.len()
        invariant
            0 <= i <= v@.len(),
            r@.len() == i,
            forall|j: int| 0 <= j < i ==> #[trigger] r@[j]@ == v@[j]@,
        decreases v@.len() - i,
    {
        r.push(v[i].clone());
        i += 1;
    }
    proof {
        assert forall|j: int| 0 <= j < v@.len() implies r.deep_view()[j] == v.deep_view()[j] by {
            assert(r@[j]@ == v@[j]@);
        }
        assert(r.deep_view() =~= v.deep_view());
    }
    r
}

} // verus!
