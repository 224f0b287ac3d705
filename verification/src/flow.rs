//! The whole run as a strict linear sequence of decisions.
//!
//! Every decision the tool takes lives in [`step`]: the surrounding binary
//! only performs the outside work an [`Action`] asks for (reading environment
//! variables, touching the filesystem, the one HTTP call, printing) and hands
//! the outcome back as the next [`Event`]. There are two early exits (an
//! unresolvable configuration root, a missing API key), one late failure
//! (a transport error), and no loop: every other path runs through to the
//! printed report and exit code 0, whatever HTTP status came back.

use vstd::prelude::*;
use vstd::string::StringExecFns;
use crate::bootstrap::BootstrapPlan;
use crate::bootstrap::created_line;
use crate::bootstrap::created_notice;
use crate::bootstrap::plan_bootstrap;
use crate::bootstrap::plan_of;
use crate::credential::has_substring;
use crate::credential::lemma_missing_key_diagnostic_names_variable;
use crate::credential::missing_key_diagnostics;
use crate::credential::missing_key_lines;
use crate::paths::config_file_of;
use crate::paths::config_file_path;
use crate::paths::resolve_config_root;
use crate::paths::rillio_dir;
use crate::paths::rillio_dir_of;
use crate::paths::root_of;
use crate::paths::secrets_file_of;
use crate::paths::secrets_file_path;
use crate::request::bearer_header_value;
use crate::request::bearer_value_of;
use crate::request::notion_page_id;
use crate::request::notion_page_url;
use crate::request::notion_version;
use crate::request::notion_version_header;
use crate::request::page_url_of;
use crate::request::status_line;
use crate::request::status_line_of;

verus! {

/// Where the run stands: each phase waits for the outcome of one piece of
/// outside work.
pub enum Phase {
    /// Waiting for the three environment variables that pick the root.
    AwaitRootEnv,
    /// Waiting for the directory to exist and the two files to be probed.
    AwaitFsProbe { config_path: String, secrets_path: String },
    /// Waiting for the bootstrap plan to be carried out.
    AwaitPlanApplied { secrets_path: String },
    /// Waiting for the `NOTION_API_KEY` environment variable.
    AwaitKey { secrets_path: String },
    /// Waiting for the HTTP response or a transport error.
    AwaitResponse,
    /// The run is over; the process exits with this code.
    Done { exit_code: i32 },
}

/// The outcome of one piece of outside work, handed back to [`step`].
pub enum Event {
    /// The root-picking environment variables, and whether this is Windows.
    RootEnv { xdg: Option<String>, appdata: Option<String>, home: Option<String>, windows: bool },
    /// The directory exists; whether each bootstrap file already did, and
    /// whether the platform has POSIX-style permission bits.
    FsProbed { config_exists: bool, secrets_exists: bool, posix: bool },
    /// Creating the directory or a file failed with this message.
    FsFailed { message: String },
    /// The bootstrap plan was carried out.
    PlanApplied,
    /// The `NOTION_API_KEY` environment variable, or `None` if unset.
    KeyEnv { value: Option<String> },
    /// The HTTP call returned, with whatever status code.
    Response { status: u16, body: String },
    /// The HTTP call failed at the transport layer with this message.
    TransportFailed { message: String },
}

/// The one piece of outside work the binary must do next.
pub enum Action {
    /// Create `dir` (and missing ancestors) and probe the two files.
    ProbeFiles { dir: String, config_path: String, secrets_path: String },
    /// Create each file the plan asks for, restrict the secrets file when
    /// the plan asks for it, and print each notice to standard error.
    ApplyPlan {
        config_path: String,
        secrets_path: String,
        plan: BootstrapPlan,
        config_notice: Option<String>,
        secrets_notice: Option<String>,
    },
    /// Read the `NOTION_API_KEY` environment variable.
    ReadKey,
    /// Send the one GET request with these two header values.
    SendRequest { url: String, auth_header: String, version_header: String },
    /// Print the status line, then the raw body, to standard output.
    PrintReport { status_line: String, body: String },
    /// Print the lines to standard error and exit with the code.
    Fail { stderr_lines: Vec<String>, exit_code: i32 },
}

/// The diagnostic printed when no configuration root resolves.
pub open spec fn root_error_line() -> Seq<char> {
    "Could not determine config directory (XDG_CONFIG_HOME/APPDATA/HOME missing)"@
}

/// Builds the diagnostic printed when no configuration root resolves.
pub fn root_error_message() -> (m: String)
    ensures
        m@ == root_error_line(),
{
    String::from_str("Could not determine config directory (XDG_CONFIG_HOME/APPDATA/HOME missing)")
}

/// Which event each phase can be waiting for: the run is a strict linear
/// sequence, so [`step`] accepts exactly these pairs.
pub open spec fn phase_accepts(phase: Phase, event: Event) -> bool {
    match (phase, event) {
        (Phase::AwaitRootEnv, Event::RootEnv { .. }) => true,
        (Phase::AwaitFsProbe { .. }, Event::FsProbed { .. }) => true,
        (Phase::AwaitFsProbe { .. }, Event::FsFailed { .. }) => true,
        (Phase::AwaitPlanApplied { .. }, Event::PlanApplied) => true,
        (Phase::AwaitPlanApplied { .. }, Event::FsFailed { .. }) => true,
        (Phase::AwaitKey { .. }, Event::KeyEnv { .. }) => true,
        (Phase::AwaitResponse, Event::Response { .. }) => true,
        (Phase::AwaitResponse, Event::TransportFailed { .. }) => true,
        _ => false,
    }
}

/// The transition ends the run: exit code 1, with these stderr lines.
pub open spec fn fails_with(next: Phase, action: Action, lines: Seq<Seq<char>>) -> bool {
    &&& (next matches Phase::Done { exit_code } && exit_code == 1)
    &&& (action matches Action::Fail { stderr_lines, exit_code } && stderr_lines.deep_view()
        == lines && exit_code == 1)
}

/// The transition relation of the run, one case per accepted phase/event
/// pair; `false` on every other pair.
pub open spec fn step_spec(phase: Phase, event: Event, next: Phase, action: Action) -> bool {
    match (phase, event) {
        (Phase::AwaitRootEnv, Event::RootEnv { xdg, appdata, home, windows }) => {
            match root_of(xdg, appdata, home, windows) {
                Some(root) => {
                    &&& (next matches Phase::AwaitFsProbe { config_path, secrets_path }
                        && config_path@ == config_file_of(root) && secrets_path@
                        == secrets_file_of(root))
                    &&& (action matches Action::ProbeFiles { dir, config_path, secrets_path }
                        && dir@ == rillio_dir_of(root) && config_path@ == config_file_of(root)
                        && secrets_path@ == secrets_file_of(root))
                },
                None => fails_with(next, action, seq![root_error_line()]),
            }
        },
        (
            Phase::AwaitFsProbe { config_path, secrets_path },
            Event::FsProbed { config_exists, secrets_exists, posix },
        ) => {
            let plan = plan_of(config_exists, secrets_exists, posix);
            &&& (next matches Phase::AwaitPlanApplied { secrets_path: sp } && sp@
                == secrets_path@)
            &&& (action matches Action::ApplyPlan {
                config_path: cp,
                secrets_path: sp,
                plan: p,
                config_notice,
                secrets_notice,
            } && cp@ == config_path@ && sp@ == secrets_path@ && p == plan && (if plan.create_config {
                config_notice matches Some(n) && n@ == created_line(config_path@)
            } else {
                config_notice is None
            }) && (if plan.create_secrets {
                secrets_notice matches Some(n) && n@ == created_line(secrets_path@)
            } else {
                secrets_notice is None
            }))
        },
        (Phase::AwaitFsProbe { .. }, Event::FsFailed { message }) => fails_with(
            next,
            action,
            seq![message@],
        ),
        (Phase::AwaitPlanApplied { secrets_path }, Event::PlanApplied) => {
            &&& (next matches Phase::AwaitKey { secrets_path: sp } && sp@ == secrets_path@)
            &&& action is ReadKey
        },
        (Phase::AwaitPlanApplied { .. }, Event::FsFailed { message }) => fails_with(
            next,
            action,
            seq![message@],
        ),
        (Phase::AwaitKey { secrets_path }, Event::KeyEnv { value }) => {
            match value {
                Some(key) => {
                    &&& next is AwaitResponse
                    &&& (action matches Action::SendRequest { url, auth_header, version_header }
                        && url@ == page_url_of(notion_page_id()) && auth_header@
                        == bearer_value_of(key@) && version_header@ == notion_version())
                },
                None => fails_with(next, action, missing_key_lines(secrets_path@)),
            }
        },
        (Phase::AwaitResponse, Event::Response { status, body }) => {
            &&& (next matches Phase::Done { exit_code } && exit_code == 0)
            &&& (action matches Action::PrintReport { status_line: line, body: b } && line@
                == status_line_of(status as nat) && b@ == body@)
        },
        (Phase::AwaitResponse, Event::TransportFailed { message }) => fails_with(
            next,
            action,
            seq![message@],
        ),
        _ => false,
    }
}

/// The phase a run starts in: waiting for the root environment variables.
pub fn initial_phase() -> (p: Phase)
    ensures
        p is AwaitRootEnv,
{
    Phase::AwaitRootEnv
}

/// Ends the run with exit code 1 and one stderr line.
fn fail_one(message: String) -> (r: (Phase, Action))
    ensures
        fails_with(r.0, r.1, seq![message@]),
{
    let mut lines: Vec<String> = Vec::new();
    lines.push(message);
    proof {
        assert(lines.deep_view() =~~= seq![message@]);
    }
    (Phase::Done { exit_code: 1 }, Action::Fail { stderr_lines: lines, exit_code: 1 })
}

/// One decision of the run: consumes the phase and the event it was waiting
/// for, and returns the next phase together with the outside work to do.
pub fn step(phase: Phase, event: Event) -> (r: (Phase, Action))
    requires
        phase_accepts(phase, event),
    ensures
        step_spec(phase, event, r.0, r.1),
{
    match (phase, event) {
        (Phase::AwaitRootEnv, Event::RootEnv { xdg, appdata, home, windows }) => {
            match resolve_config_root(xdg, appdata, home, windows) {
                Some(root) => {
                    let dir = rillio_dir(root.as_str());
                    let config_path = config_file_path(root.as_str());
                    let secrets_path = secrets_file_path(root.as_str());
                    let next = Phase::AwaitFsProbe {
                        config_path: config_path.clone(),
                        secrets_path: secrets_path.clone(),
                    };
                    (next, Action::ProbeFiles { dir, config_path, secrets_path })
                },
                None => fail_one(root_error_message()),
            }
        },
        (
            Phase::AwaitFsProbe { config_path, secrets_path },
            Event::FsProbed { config_exists, secrets_exists, posix },
        ) => {
            let plan = plan_bootstrap(config_exists, secrets_exists, posix);
            let config_notice: Option<String> = if plan.create_config {
                Some(created_notice(config_path.as_str()))
            } else {
                None
            };
            let secrets_notice: Option<String> = if plan.create_secrets {
                Some(created_notice(secrets_path.as_str()))
            } else {
                None
            };
            let next = Phase::AwaitPlanApplied { secrets_path: secrets_path.clone() };
            (
                next,
                Action::ApplyPlan { config_path, secrets_path, plan, config_notice, secrets_notice },
            )
        },
        (Phase::AwaitFsProbe { .. }, Event::FsFailed { message }) => fail_one(message),
        (Phase::AwaitPlanApplied { secrets_path }, Event::PlanApplied) => {
            (Phase::AwaitKey { secrets_path }, Action::ReadKey)
        },
        (Phase::AwaitPlanApplied { .. }, Event::FsFailed { message }) => fail_one(message),
        (Phase::AwaitKey { secrets_path }, Event::KeyEnv { value }) => {
            match value {
                Some(key) => {
                    let url = notion_page_url();
                    let auth_header = bearer_header_value(key.as_str());
                    let version_header = notion_version_header();
                    (Phase::AwaitResponse, Action::SendRequest { url, auth_header, version_header })
                },
                None => {
                    let lines = missing_key_diagnostics(secrets_path.as_str());
                    (
                        Phase::Done { exit_code: 1 },
                        Action::Fail { stderr_lines: lines, exit_code: 1 },
                    )
                },
            }
        },
        (Phase::AwaitResponse, Event::Response { status, body }) => {
            let line = status_line(status);
            (Phase::Done { exit_code: 0 }, Action::PrintReport { status_line: line, body })
        },
        (Phase::AwaitResponse, Event::TransportFailed { message }) => fail_one(message),
        _ => unreached(),
    }
}

/// Law: the network call is only ever attempted with a key in hand. The one
/// transition that yields a request is the key step with a present value; in
/// particular a run whose root never resolved, or whose key was missing,
/// never reaches the network.
pub proof fn lemma_send_only_with_key(phase: Phase, event: Event, next: Phase, action: Action)
    requires
        step_spec(phase, event, next, action),
        action is SendRequest,
    ensures
        phase is AwaitKey,
        event matches Event::KeyEnv { value } && value is Some,
{
}

/// Law: a missing API key is fatal with exit code 1, the diagnostic names
/// the missing variable, and no request is sent.
pub proof fn lemma_missing_key_fatal(secrets_path: String, next: Phase, action: Action)
    requires
        step_spec(
            Phase::AwaitKey { secrets_path },
            Event::KeyEnv { value: None },
            next,
            action,
        ),
    ensures
        next matches Phase::Done { exit_code } && exit_code == 1,
        action matches Action::Fail { stderr_lines, exit_code } && exit_code == 1
            && stderr_lines.deep_view() == missing_key_lines(secrets_path@) && has_substring(
            stderr_lines.deep_view()[0],
            "NOTION_API_KEY"@,
        ),
        !(action is SendRequest),
{
    lemma_missing_key_diagnostic_names_variable(secrets_path@);
}

/// Law: an unresolvable configuration root is fatal before any network
/// activity: the run ends with exit code 1 and no request is ever built.
pub proof fn lemma_unresolvable_root_fatal(
    xdg: Option<String>,
    appdata: Option<String>,
    home: Option<String>,
    windows: bool,
    next: Phase,
    action: Action,
)
    requires
        root_of(xdg, appdata, home, windows) is None,
        step_spec(
            Phase::AwaitRootEnv,
            Event::RootEnv { xdg, appdata, home, windows },
            next,
            action,
        ),
    ensures
        next matches Phase::Done { exit_code } && exit_code == 1,
        action matches Action::Fail { stderr_lines, exit_code } && exit_code == 1
            && stderr_lines.deep_view() == seq![root_error_line()],
        !(action is SendRequest),
{
}

/// Law: a transport-level failure ends the run with a non-zero exit code and
/// never prints a status line.
pub proof fn lemma_transport_failure_no_report(message: String, next: Phase, action: Action)
    requires
        step_spec(Phase::AwaitResponse, Event::TransportFailed { message }, next, action),
    ensures
        next matches Phase::Done { exit_code } && exit_code == 1,
        action matches Action::Fail { stderr_lines, exit_code } && exit_code == 1
            && stderr_lines.deep_view() == seq![message@],
        !(action is PrintReport),
{
}

/// Law: every HTTP response is reported verbatim and ends the run with exit
/// code 0, whatever the status class; a non-2xx status is not an error.
pub proof fn lemma_any_status_reported(status: u16, body: String, next: Phase, action: Action)
    requires
        step_spec(Phase::AwaitResponse, Event::Response { status, body }, next, action),
    ensures
        next matches Phase::Done { exit_code } && exit_code == 0,
        action matches Action::PrintReport { status_line: line, body: b } && line@
            == status_line_of(status as nat) && b@ == body@,
{
}

} // verus!
