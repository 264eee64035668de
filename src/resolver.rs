//! Resolution of the remote version manifest.
//!
//! The manifest is fetched over https first. Only when https cannot reach the
//! server at all is plain http tried; a server that answers, with any status,
//! ends the fallback. The caller performs each fetch, reads and decodes the
//! body, and hands each outcome to the functions here, which say what comes
//! next and which notice, if any, to show the user.

use vstd::prelude::*;
use crate::manifest::VersionManifest;

verus! {

/// Host and path of the launcher manifest, without the scheme.
pub const VERSION_INFO_PATH_BASE: &'static str = "api.bymrefitted.com/launcher.json";

/// Host and path under which downloadable files live, without the scheme.
pub const DOWNLOAD_BASE_PATH: &'static str = "api.bymrefitted.com/launcher/downloads/";

/// The two ways of reaching the server.
#[derive(Debug, Clone, Copy, PartialEq, Eq, Structural)]
pub enum Transport {
    Https,
    Http,
}

impl Transport {
    pub open spec fn spec_scheme(self) -> Seq<char> {
        match self {
            Transport::Https => "https://"@,
            Transport::Http => "http://"@,
        }
    }

    /// The URL prefix of this transport.
    pub fn scheme(self) -> (r: &'static str)
        ensures
            r@ == self.spec_scheme(),
    {
        match self {
            Transport::Https => "https://",
            Transport::Http => "http://",
        }
    }

    /// The transport that later downloads use, given whether https worked.
    pub fn for_downloads(https_worked: bool) -> (r: Transport)
        ensures
            r == (if https_worked { Transport::Https } else { Transport::Http }),
    {
        if https_worked {
            Transport::Https
        } else {
            Transport::Http
        }
    }
}

/// The manifest's address over transport `t`.
pub fn version_info_url(t: Transport) -> (r: String)
    ensures
        r@ == t.spec_scheme() + VERSION_INFO_PATH_BASE@,
{
    let mut url = String::from_str(t.scheme());
    url.append(VERSION_INFO_PATH_BASE);
    url
}

/// What came of one fetch of the manifest.
#[derive(Debug)]
pub enum FetchOutcome {
    /// The server answered with this status code.
    Responded { status: u16 },
    /// The server could not be reached. `message` describes the failure,
    /// `status` is the status code it carries, if any, and `cause` describes
    /// its underlying cause.
    Unreachable { message: String, status: Option<u16>, cause: String },
}

/// What the caller does after a fetch.
#[derive(Debug)]
pub enum ResolveAction {
    /// Fetch the manifest again, over this transport.
    Fetch(Transport),
    /// Read and decode the body, then call `finish_version_info`.
    ReadBody { https_worked: bool },
    /// Resolution failed with this error.
    Fail(String),
}

/// A notice for the user, if any, and what to do next.
#[derive(Debug)]
pub struct ResolveStep {
    pub notice: Option<String>,
    pub action: ResolveAction,
}

/// A 2xx status code.
pub open spec fn is_success(status: u16) -> bool {
    200 <= status < 300
}

pub open spec fn digit_char(d: nat) -> char {
    seq!['0', '1', '2', '3', '4', '5', '6', '7', '8', '9'][d as int]
}

/// The decimal digits of `n`, most significant first.
pub open spec fn decimal_of(n: nat) -> Seq<char>
    decreases n,
{
    if n < 10 {
        seq![digit_char(n)]
    } else {
        decimal_of(n / 10).push(digit_char(n % 10))
    }
}

/// How an optional status code is written in an error: `Some(404)` or `None`.
pub open spec fn optional_status_text(status: Option<u16>) -> Seq<char> {
    match status {
        Some(n) => "Some("@ + decimal_of(n as nat) + ")"@,
        None => "None"@,
    }
}

/// The error of a server that answered with a status other than 2xx.
pub open spec fn http_error_message(status: u16) -> Seq<char> {
    "Error code: "@ + decimal_of(status as nat)
}

/// The error when neither transport reached the server.
pub open spec fn unreachable_message(status: Option<u16>, cause: Seq<char>) -> Seq<char> {
    "Error code: "@ + optional_status_text(status) + ", cause: "@ + cause
}

pub open spec fn https_connected_notice() -> Seq<char> {
    "Launcher successfully connected over https"@
}

pub open spec fn https_failed_notice(message: Seq<char>) -> Seq<char> {
    "Could not access over https, attempting http: "@ + message
}

pub open spec fn http_failed_notice(message: Seq<char>) -> Seq<char> {
    "Could not access over http, please check the server status on our discord: "@ + message
}

/// The step that follows outcome `outcome` of a fetch over `t`.
pub open spec fn is_step_after_fetch(t: Transport, outcome: FetchOutcome, step: ResolveStep) -> bool {
    match outcome {
        FetchOutcome::Responded { status } => {
            &&& (t == Transport::Https ==> (step.notice matches Some(n) && n@
                == https_connected_notice()))
            &&& (t == Transport::Http ==> step.notice is None)
            &&& if is_success(status) {
                step.action == ResolveAction::ReadBody { https_worked: t == Transport::Https }
            } else {
                step.action matches ResolveAction::Fail(m) && m@ == http_error_message(status)
            }
        },
        FetchOutcome::Unreachable { message, status, cause } => match t {
            Transport::Https => {
                &&& step.notice matches Some(n) && n@ == https_failed_notice(message@)
                &&& step.action == ResolveAction::Fetch(Transport::Http)
            },
            Transport::Http => {
                &&& step.notice matches Some(n) && n@ == http_failed_notice(message@)
                &&& step.action matches ResolveAction::Fail(m) && m@ == unreachable_message(
                    status,
                    cause@,
                )
            },
        },
    }
}

/// `m` with its transport flag set to `https_worked`.
pub open spec fn stamped(m: VersionManifest, https_worked: bool) -> VersionManifest {
    VersionManifest {
        current_game_version: m.current_game_version,
        current_launcher_version: m.current_launcher_version,
        builds: m.builds,
        flash_runtimes: m.flash_runtimes,
        https_worked,
    }
}

/// The result of resolution once the body of a 2xx answer has been read and
/// decoded into `body` (or failed to be, with that error).
pub open spec fn resolved(https_worked: bool, body: Result<VersionManifest, String>) -> Result<
    VersionManifest,
    String,
> {
    match body {
        Ok(m) => Ok(stamped(m, https_worked)),
        Err(e) => Err(e),
    }
}

fn digit(d: u16) -> (r: &'static str)
    requires
        d < 10,
    ensures
        r@ == seq![digit_char(d as nat)],
{
    proof {
        reveal_strlit("0");
        reveal_strlit("1");
        reveal_strlit("2");
        reveal_strlit("3");
        reveal_strlit("4");
        reveal_strlit("5");
        reveal_strlit("6");
        reveal_strlit("7");
        reveal_strlit("8");
        reveal_strlit("9");
    }
    let r = if d == 0 {
        "0"
    } else if d == 1 {
        "1"
    } else if d == 2 {
        "2"
    } else if d == 3 {
        "3"
    } else if d == 4 {
        "4"
    } else if d == 5 {
        "5"
    } else if d == 6 {
        "6"
    } else if d == 7 {
        "7"
    } else if d == 8 {
        "8"
    } else {
        "9"
    };
    assert(r@ =~= seq![digit_char(d as nat)]);
    r
}

/// `n` in decimal.
pub fn decimal(n: u16) -> (r: String)
    ensures
        r@ == decimal_of(n as nat),
    decreases n,
{
    if n < 10 {
        String::from_str(digit(n))
    } else {
        let mut r = decimal(n / 10);
        r.append(digit(n % 10));
        r
    }
}

fn optional_status(status: Option<u16>) -> (r: String)
    ensures
        r@ == optional_status_text(status),
{
    match status {
        Some(n) => {
            let mut r = String::from_str("Some(");
            r.append(decimal(n).as_str());
            r.append(")");
            r
        },
        None => String::from_str("None"),
    }
}

/// Decides what follows outcome `outcome` of a fetch of the manifest over
/// `t`.
///
/// A server that answered ends the fallback: a 2xx answer has its body read,
/// any other status fails with that code. An unreachable server over https
/// leads to a fetch over http; over http it fails, with the status and cause
/// of the failure. Each step carries the notice the user is shown.
pub fn after_fetch(t: Transport, outcome: FetchOutcome) -> (r: ResolveStep)
    ensures
        is_step_after_fetch(t, outcome, r),
{
    match outcome {
        FetchOutcome::Responded { status } => {
            let notice = match t {
                Transport::Https => Some(
                    String::from_str("Launcher successfully connected over https"),
                ),
                Transport::Http => None,
            };
            let action = if 200 <= status && status < 300 {
                ResolveAction::ReadBody { https_worked: t == Transport::Https }
            } else {
                let mut m = String::from_str("Error code: ");
                m.append(decimal(status).as_str());
                ResolveAction::Fail(m)
            };
            ResolveStep { notice, action }
        },
        FetchOutcome::Unreachable { message, status, cause } => match t {
            Transport::Https => {
                let mut n = String::from_str("Could not access over https, attempting http: ");
                n.append(message.as_str());
                ResolveStep { notice: Some(n), action: ResolveAction::Fetch(Transport::Http) }
            },
            Transport::Http => {
                let mut n = String::from_str(
                    "Could not access over http, please check the server status on our discord: ",
                );
                n.append(message.as_str());
                let mut m = String::from_str("Error code: ");
                m.append(optional_status(status).as_str());
                m.append(", cause: ");
                m.append(cause.as_str());
                ResolveStep { notice: Some(n), action: ResolveAction::Fail(m) }
            },
        },
    }
}

/// Ends resolution once the body of a 2xx answer has been read and decoded:
/// a manifest is returned with its transport flag set to `https_worked`; a
/// body that could not be read or decoded fails with that error, with no
/// retry and no fallback.
pub fn finish_version_info(https_worked: bool, body: Result<VersionManifest, String>) -> (r: Result<
    VersionManifest,
    String,
>)
    ensures
        r == resolved(https_worked, body),
{
    match body {
        Ok(m) => {
            let mut m = m;
            m.https_worked = https_worked;
            Ok(m)
        },
        Err(e) => Err(e),
    }
}

/// Where the file `reference` is downloaded from over `t`.
pub fn download_url(reference: &str, t: Transport) -> (r: String)
    ensures
        r@ == t.spec_scheme() + DOWNLOAD_BASE_PATH@ + reference@,
{
    let mut url = String::from_str(t.scheme());
    url.append(DOWNLOAD_BASE_PATH);
    url.append(reference);
    url
}

/// When https reaches the server with a 2xx answer whose body decodes to `m`,
/// the body is read next (http is never tried) and the manifest returned is
/// `m` with its transport flag set.
pub proof fn lemma_https_success(status: u16, m: VersionManifest, step: ResolveStep, https_worked: bool)
    requires
        is_success(status),
        is_step_after_fetch(Transport::Https, FetchOutcome::Responded { status }, step),
        step.action == (ResolveAction::ReadBody { https_worked }),
    ensures
        https_worked,
        resolved(https_worked, Ok(m)) == Ok::<VersionManifest, String>(stamped(m, true)),
        resolved(https_worked, Ok(m)) matches Ok(r) && r.https_worked,
{
}

/// When https cannot reach the server and http then gets a 2xx answer whose
/// body decodes to `m`, the manifest returned has its transport flag clear.
pub proof fn lemma_http_fallback(
    failure: FetchOutcome,
    status: u16,
    m: VersionManifest,
    first: ResolveStep,
    second: ResolveStep,
    https_worked: bool,
)
    requires
        failure is Unreachable,
        is_success(status),
        is_step_after_fetch(Transport::Https, failure, first),
        is_step_after_fetch(Transport::Http, FetchOutcome::Responded { status }, second),
        second.action == (ResolveAction::ReadBody { https_worked }),
    ensures
        first.action == ResolveAction::Fetch(Transport::Http),
        !https_worked,
        resolved(https_worked, Ok(m)) == Ok::<VersionManifest, String>(stamped(m, false)),
        resolved(https_worked, Ok(m)) matches Ok(r) && !r.https_worked,
{
}

/// When neither transport reaches the server, resolution fails: http is
/// tried after https, and then no body is read and no manifest produced.
pub proof fn lemma_both_unreachable(
    https_failure: FetchOutcome,
    http_failure: FetchOutcome,
    first: ResolveStep,
    second: ResolveStep,
)
    requires
        https_failure is Unreachable,
        http_failure is Unreachable,
        is_step_after_fetch(Transport::Https, https_failure, first),
        is_step_after_fetch(Transport::Http, http_failure, second),
    ensures
        first.action == ResolveAction::Fetch(Transport::Http),
        second.action is Fail,
{
}

} // verus!
