//! Reporting the state of a monitored job to healthchecks.io.
//!
//! A [`HealthcheckConfig`] holds the identifier of one check and the
//! User-Agent to send. Each report is one HTTP GET to a URL made of the ping
//! host, the identifier and a suffix that names the kind of report; the check
//! counts as reached when the service answers with status 200.
//!
//! The exchange itself is the work of a transport: a function from the
//! request to the reply. The reports of a configuration go through the
//! network; [`HealthcheckConfig::report_through`] sends one through any other
//! transport.

use crate::identifier::{is_uuid_text, parses_as_uuid};
use vstd::prelude::*;
use vstd::string::*;

verus! {

/// The host that receives pings, without a trailing slash.
pub const HEALTHCHECK_PING_URL: &'static str = "https://hc-ping.com";

/// The name under which this library introduces itself.
pub const LIBRARY_NAME: &'static str = "healthchecks";

/// The version of this library.
pub const LIBRARY_VERSION: &'static str = "1.0.0";

/// The User-Agent sent when the caller gives none: name, slash, version.
pub open spec fn default_user_agent_text() -> Seq<char> {
    LIBRARY_NAME@ + "/"@ + LIBRARY_VERSION@
}

/// The User-Agent sent when the caller gives none.
pub fn default_user_agent() -> (agent: String)
    ensures
        agent@ == default_user_agent_text(),
{
    let mut agent = String::from_str(LIBRARY_NAME);
    agent.append("/");
    agent.append(LIBRARY_VERSION);
    agent
}

/// The three reports that a job can make.
#[derive(Clone, Copy, Debug, PartialEq, Eq, Structural)]
pub enum PingKind {
    /// The job ended well.
    Success,
    /// The job failed.
    Failure,
    /// The job has begun; the service measures the time until the next report.
    Start,
}

impl PingKind {
    /// What stands behind the identifier in the URL of such a report.
    pub open spec fn suffix(self) -> Seq<char> {
        match self {
            PingKind::Success => ""@,
            PingKind::Failure => "/fail"@,
            PingKind::Start => "/start"@,
        }
    }

    /// What stands behind the identifier in the URL of such a report.
    pub fn url_suffix(self) -> (suffix: &'static str)
        ensures
            suffix@ == self.suffix(),
    {
        match self {
            PingKind::Success => "",
            PingKind::Failure => "/fail",
            PingKind::Start => "/start",
        }
    }
}

/// The URL that a report of `kind` for the check `id` goes to: the ping host,
/// a slash, the identifier as it was given, and the suffix of the kind.
pub open spec fn ping_url(id: Seq<char>, kind: PingKind) -> Seq<char> {
    HEALTHCHECK_PING_URL@ + "/"@ + id + kind.suffix()
}

/// Whether `url` is where some report for some check goes.
pub open spec fn is_ping_url(url: Seq<char>) -> bool {
    exists|id: Seq<char>, kind: PingKind| is_uuid_text(id) && url == #[trigger] ping_url(id, kind)
}

/// The three reports for one check go to the host, a slash and the
/// identifier, followed by nothing, by `/fail` and by `/start`; no two of
/// them go to the same URL.
pub proof fn lemma_report_urls(id: Seq<char>)
    ensures
        ping_url(id, PingKind::Success) == HEALTHCHECK_PING_URL@ + "/"@ + id,
        ping_url(id, PingKind::Failure) == HEALTHCHECK_PING_URL@ + "/"@ + id + "/fail"@,
        ping_url(id, PingKind::Start) == HEALTHCHECK_PING_URL@ + "/"@ + id + "/start"@,
        ping_url(id, PingKind::Success) != ping_url(id, PingKind::Failure),
        ping_url(id, PingKind::Success) != ping_url(id, PingKind::Start),
        ping_url(id, PingKind::Failure) != ping_url(id, PingKind::Start),
{
    reveal_strlit("");
    reveal_strlit("/fail");
    reveal_strlit("/start");
    let stem = HEALTHCHECK_PING_URL@ + "/"@ + id;
    let success = ping_url(id, PingKind::Success);
    let failure = ping_url(id, PingKind::Failure);
    let start = ping_url(id, PingKind::Start);
    assert(success =~= stem);
    assert(success.len() == stem.len());
    assert(failure.len() == stem.len() + 5);
    assert(start.len() == stem.len() + 6);
}

/// The User-Agent sent by default begins with the library's name and ends
/// with its version.
pub proof fn lemma_default_user_agent_names_library()
    ensures
        LIBRARY_NAME@.is_prefix_of(default_user_agent_text()),
        LIBRARY_VERSION@.is_suffix_of(default_user_agent_text()),
{
    let agent = default_user_agent_text();
    let name = LIBRARY_NAME@;
    let version = LIBRARY_VERSION@;
    assert(agent.subrange(0, name.len() as int) =~= name);
    assert(agent.subrange(agent.len() - version.len(), agent.len() as int) =~= version);
}

/// How many redirections a report follows: none. A report is one request, and
/// an answer that points elsewhere is an answer like any other.
pub const REDIRECTS_FOLLOWED: u32 = 0;

/// One HTTP GET as it leaves the client: where it goes, how the client names
/// itself, and how far the transport may follow the answer.
#[derive(Clone, Debug, PartialEq, Eq)]
pub struct PingRequest {
    /// The full URL.
    pub url: String,
    /// The value of the `User-Agent` header.
    pub user_agent: String,
    /// How many redirections the transport may follow.
    pub redirects: u32,
}

/// What came back for one request.
#[derive(Clone, Copy, Debug, PartialEq, Eq, Structural)]
pub enum PingReply {
    /// The service answered with this HTTP status.
    Status(u16),
    /// No answer was had: the request could not be built, sent or read.
    Unreachable,
}

impl PingReply {
    /// Whether the reply acknowledges the report: only status 200 does.
    pub open spec fn is_acknowledged(self) -> bool {
        self == PingReply::Status(200)
    }

    /// Whether the reply acknowledges the report: only status 200 does. Every
    /// other status and a failed exchange alike count as not acknowledged.
    pub fn acknowledged(self) -> (ok: bool)
        ensures
            ok == self.is_acknowledged(),
            ok <==> self == PingReply::Status(200),
    {
        match self {
            PingReply::Status(code) => code == 200,
            PingReply::Unreachable => false,
        }
    }
}

/// Whether `request` is the one that reports `kind` for the check of `config`:
/// it goes to the URL of that report, carries the configured User-Agent and
/// follows no redirection.
pub open spec fn is_request_of(config: ConfigView, kind: PingKind, request: PingRequest) -> bool {
    &&& request.url@ == ping_url(config.uuid, kind)
    &&& request.user_agent@ == config.user_agent
    &&& request.redirects == REDIRECTS_FOLLOWED
}

/// Whether a report of `kind` for the check of `config` that came out as `ok`
/// is accounted for by `request` and `reply`: the request is the one of that
/// report, and the report was acknowledged exactly if the reply is status 200.
pub open spec fn reported(
    config: ConfigView,
    kind: PingKind,
    request: PingRequest,
    reply: PingReply,
    ok: bool,
) -> bool {
    &&& is_request_of(config, kind, request)
    &&& ok == reply.is_acknowledged()
}

/// Whether a report of `kind` for the check of `config` through `transport`
/// can have come out as `ok`: the transport gave some reply to the request of
/// that report, and that reply decides.
pub open spec fn reported_through<T: Fn(&PingRequest) -> PingReply>(
    config: ConfigView,
    kind: PingKind,
    transport: T,
    ok: bool,
) -> bool {
    exists|request: PingRequest, reply: PingReply| #[trigger]
        reported(config, kind, request, reply, ok) && call_ensures(transport, (&request,), reply)
}

/// A report through a transport that answers every request with status 200
/// is acknowledged; a report through a transport that never answers with
/// status 200, whatever else it gives or fails with, is not.
pub proof fn lemma_report_follows_transport<T: Fn(&PingRequest) -> PingReply>(
    config: ConfigView,
    kind: PingKind,
    transport: T,
    ok: bool,
)
    requires
        reported_through(config, kind, transport, ok),
    ensures
        (forall|request: PingRequest, reply: PingReply| #[trigger]
            call_ensures(transport, (&request,), reply) ==> reply == PingReply::Status(200)) ==> ok,
        (forall|request: PingRequest, reply: PingReply| #[trigger]
            call_ensures(transport, (&request,), reply) ==> reply != PingReply::Status(200))
            ==> !ok,
{
    let (request, reply) = choose|request: PingRequest, reply: PingReply| #[trigger]
        reported(config, kind, request, reply, ok) && call_ensures(transport, (&request,), reply);
    assert(call_ensures(transport, (&request,), reply));
}

/// Why no configuration was made.
#[derive(Clone, Debug, PartialEq, Eq)]
pub enum ConfigError {
    /// The text, held here as it was given, does not spell a UUID.
    InvalidUuid(String),
}

impl ConfigError {
    /// The text of the error, as a reader is shown it.
    pub open spec fn message_text(self) -> Seq<char> {
        match self {
            ConfigError::InvalidUuid(given) => "Invalid UUID: "@ + given@,
        }
    }

    /// The text of the error, as a reader is shown it.
    pub fn message(&self) -> (text: String)
        ensures
            text@ == self.message_text(),
    {
        match self {
            ConfigError::InvalidUuid(given) => {
                let mut text = String::from_str("Invalid UUID: ");
                text.append(given.as_str());
                text
            },
        }
    }
}

/// What a [`HealthcheckConfig`] stands for: the identifier of the check and
/// the User-Agent that its requests carry.
pub ghost struct ConfigView {
    pub uuid: Seq<char>,
    pub user_agent: Seq<char>,
}

/// The identifier of one check on healthchecks.io together with the
/// User-Agent to send. The identifier always spells a UUID.
#[derive(Debug)]
pub struct HealthcheckConfig {
    pub(crate) uuid: String,
    pub(crate) user_agent: String,
}

impl View for HealthcheckConfig {
    type V = ConfigView;

    closed spec fn view(&self) -> ConfigView {
        ConfigView { uuid: self.uuid@, user_agent: self.user_agent@ }
    }
}

/// Makes the configuration for the check named by `uuid`.
///
/// Succeeds exactly when `uuid` spells a UUID, and then keeps the text as it
/// was given. The User-Agent is the one supplied, or else the library's own.
/// A text that spells no UUID comes back inside the error.
pub fn create_config(uuid: String, user_agent: Option<String>) -> (made: Result<
    HealthcheckConfig,
    ConfigError,
>)
    ensures
        made is Ok <==> is_uuid_text(uuid@),
        made matches Ok(config) ==> {
            &&& config@.uuid == uuid@
            &&& config@.user_agent == match user_agent {
                Some(agent) => agent@,
                None => default_user_agent_text(),
            }
        },
        made matches Err(error) ==> error == ConfigError::InvalidUuid(uuid),
{
    if !parses_as_uuid(uuid.as_str()) {
        Err(ConfigError::InvalidUuid(uuid))
    } else {
        match user_agent {
            Some(agent) => Ok(HealthcheckConfig { uuid, user_agent: agent }),
            None => Ok(HealthcheckConfig { uuid, user_agent: default_user_agent() }),
        }
    }
}

/// Sends `request` with `ureq::get`, `Request::set`, `Request::redirects` and
/// `Request::call`, and reads the outcome with `Response::synthetic` and
/// `Response::status`.
///
/// Trusted, and nothing is claimed of the reply: it depends on the network
/// and on the service. Only the URL of a report is ever sent, which names a
/// host to connect to.
#[verifier::external_body]
fn exchange(request: &PingRequest) -> (reply: PingReply)
    requires
        is_ping_url(request.url@),
{
    let response = ureq::get(&request.url)
        .set("User-Agent", &request.user_agent)
        .redirects(request.redirects)
        .call();
    if response.synthetic() {
        PingReply::Unreachable
    } else {
        PingReply::Status(response.status())
    }
}

impl HealthcheckConfig {
    #[verifier::type_invariant]
    spec fn names_a_check(self) -> bool {
        is_uuid_text(self.uuid@)
    }

    /// The identifier, as it was given when the configuration was made.
    pub fn uuid(&self) -> (uuid: &str)
        ensures
            uuid@ == self@.uuid,
            is_uuid_text(uuid@),
    {
        proof {
            use_type_invariant(self);
        }
        self.uuid.as_str()
    }

    /// The User-Agent that every request of this configuration carries.
    pub fn user_agent(&self) -> (agent: &str)
        ensures
            agent@ == self@.user_agent,
    {
        self.user_agent.as_str()
    }

    /// The request that reports `kind` for this check.
    pub fn request(&self, kind: PingKind) -> (request: PingRequest)
        ensures
            is_request_of(self@, kind, request),
            is_ping_url(request.url@),
    {
        let mut url = String::from_str(HEALTHCHECK_PING_URL);
        url.append("/");
        url.append(self.uuid.as_str());
        url.append(kind.url_suffix());
        proof {
            use_type_invariant(self);
            assert(url@ == ping_url(self@.uuid, kind));
        }
        PingRequest { url, user_agent: self.user_agent.clone(), redirects: REDIRECTS_FOLLOWED }
    }

    /// Hands the request that reports `kind` to `transport`, once, and hands
    /// back the reply that the transport gave to it.
    pub fn ping_through<T: Fn(&PingRequest) -> PingReply>(&self, kind: PingKind, transport: T) -> (reply:
        PingReply)
        requires
            forall|request: &PingRequest|
                is_ping_url(request.url@) ==> call_requires(transport, (request,)),
        ensures
            exists|request: PingRequest| #[trigger]
                is_request_of(self@, kind, request) && call_ensures(transport, (&request,), reply),
    {
        let request = self.request(kind);
        let reply = transport(&request);
        proof {
            assert(is_request_of(self@, kind, request) && call_ensures(
                transport,
                (&request,),
                reply,
            ));
        }
        reply
    }

    /// Reports `kind` through `transport` and tells whether the reply that
    /// the transport gave to the request acknowledges the report.
    pub fn report_through<T: Fn(&PingRequest) -> PingReply>(&self, kind: PingKind, transport: T) -> (ok:
        bool)
        requires
            forall|request: &PingRequest|
                is_ping_url(request.url@) ==> call_requires(transport, (request,)),
        ensures
            reported_through(self@, kind, transport, ok),
    {
        let reply = self.ping_through(kind, transport);
        let ok = reply.acknowledged();
        proof {
            let request = choose|request: PingRequest| #[trigger]
                is_request_of(self@, kind, request) && call_ensures(transport, (&request,), reply);
            assert(reported(self@, kind, request, reply, ok));
        }
        ok
    }

    /// Sends the report of `kind` over the network, once, and hands back what
    /// came of it. Nothing is tried again.
    pub fn ping(&self, kind: PingKind) -> (reply: PingReply)
        ensures
            exists|request: PingRequest| #[trigger] is_request_of(self@, kind, request),
    {
        self.ping_through(kind, exchange)
    }

    /// Reports success: one GET to the URL of the check, with the configured
    /// User-Agent. Tells whether the service answered with status 200.
    pub fn report_success(&self) -> (ok: bool)
        ensures
            exists|request: PingRequest, reply: PingReply| #[trigger]
                reported(self@, PingKind::Success, request, reply, ok),
    {
        self.report_through(PingKind::Success, exchange)
    }

    /// Reports failure: one GET to the URL of the check followed by `/fail`,
    /// with the configured User-Agent. Tells whether the service answered
    /// with status 200.
    pub fn report_failure(&self) -> (ok: bool)
        ensures
            exists|request: PingRequest, reply: PingReply| #[trigger]
                reported(self@, PingKind::Failure, request, reply, ok),
    {
        self.report_through(PingKind::Failure, exchange)
    }

    /// Starts the timer that measures how long the job runs: one GET to the
    /// URL of the check followed by `/start`, with the configured User-Agent.
    /// Tells whether the service answered with status 200.
    pub fn start_timer(&self) -> (ok: bool)
        ensures
            exists|request: PingRequest, reply: PingReply| #[trigger]
                reported(self@, PingKind::Start, request, reply, ok),
    {
        self.report_through(PingKind::Start, exchange)
    }
}

} // verus!
