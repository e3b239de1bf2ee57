use crate::client::ApiVersion;
use crate::duration::{max_duration_nanos, nanos_of, NANOS_PER_MILLI};
use crate::error::ExporterError;
use crate::transport::uri_accepts;
use actix_web::http::uri::InvalidUri;
use actix_web::http::Uri;
use std::str::FromStr;
use std::time::Duration;
use tonic::transport::Endpoint;
use vstd::prelude::*;
use vstd::string::StringExecFns;

verus! {

/// Timeouts for gRPC: one to establish the connection, one for each request.
#[derive(Debug, Clone, Copy)]
pub struct Timeouts {
    connect: Duration,
    request: Duration,
}

impl Timeouts {
    /// The configured connect timeout.
    pub closed spec fn spec_connect(&self) -> Duration {
        self.connect
    }

    /// The configured request timeout.
    pub closed spec fn spec_request(&self) -> Duration {
        self.request
    }

    /// Return a new `Self` with the connect and request timeouts.
    pub fn new(connect: Duration, request: Duration) -> (r: Self)
        ensures
            r.spec_connect() == connect,
            r.spec_request() == request,
    {
        Self { connect, request }
    }

    /// Timeout to establish a connection to the node.
    pub fn connect(&self) -> (r: Duration)
        ensures
            r == self.spec_connect(),
    {
        self.connect
    }

    /// Timeout for the request itself.
    pub fn request(&self) -> (r: Duration)
        ensures
            r == self.spec_request(),
    {
        self.request
    }
}

/// Safety margin, in milliseconds, that the channel's own connect timeout
/// adds to the configured one.
pub const CONNECT_MARGIN_MILLIS: u64 = 500;

/// The URI that is parsed for a bare `host:port` endpoint.
pub open spec fn endpoint_uri(endpoint: Seq<char>) -> Seq<char> {
    "http://"@ + endpoint
}

/// The message of the error for an endpoint that does not parse.
pub open spec fn invalid_uri_message(endpoint: Seq<char>) -> Seq<char> {
    "Invalid uri: "@ + endpoint
}

/// Whether the channel's connect timeout, the configured one plus the margin,
/// fits in a `Duration`.
pub open spec fn margin_fits(timeouts: Timeouts) -> bool {
    nanos_of(timeouts.spec_connect()) + CONNECT_MARGIN_MILLIS * NANOS_PER_MILLI
        <= max_duration_nanos()
}

/// The channel's connect timeout: `connect` plus the safety margin.
fn with_margin(connect: Duration) -> (r: Duration)
    requires
        nanos_of(connect) + CONNECT_MARGIN_MILLIS * NANOS_PER_MILLI <= max_duration_nanos(),
    ensures
        nanos_of(r) == nanos_of(connect) + CONNECT_MARGIN_MILLIS * NANOS_PER_MILLI,
{
    match connect.checked_add(Duration::from_millis(CONNECT_MARGIN_MILLIS)) {
        Some(d) => d,
        // not reached: `requires` keeps the sum in range
        None => connect,
    }
}

/// Context for a gRPC client: where to connect, with which timeouts, and
/// which API version to speak.
#[derive(Debug, Clone)]
pub struct GrpcContext {
    endpoint: Endpoint,
    timeouts: Timeouts,
    api_version: ApiVersion,
    channel_connect: Duration,
    channel_request: Duration,
}

impl GrpcContext {
    /// The configured timeouts.
    pub closed spec fn spec_timeouts(&self) -> Timeouts {
        self.timeouts
    }

    /// The API version that a client of this context speaks.
    pub closed spec fn spec_api_version(&self) -> ApiVersion {
        self.api_version
    }

    /// The connect timeout that the channel endpoint was given.
    pub closed spec fn spec_channel_connect(&self) -> Duration {
        self.channel_connect
    }

    /// The request timeout that the channel endpoint was given.
    pub closed spec fn spec_channel_request(&self) -> Duration {
        self.channel_request
    }

    /// Whether `self` is the context for `timeouts` and `api_version`, with
    /// the channel timeouts derived from `timeouts`.
    pub open spec fn derived_from(&self, timeouts: Timeouts, api_version: ApiVersion) -> bool {
        &&& self.spec_timeouts() == timeouts
        &&& self.spec_api_version() == api_version
        &&& nanos_of(self.spec_channel_connect()) == nanos_of(timeouts.spec_connect())
            + CONNECT_MARGIN_MILLIS * NANOS_PER_MILLI
        &&& self.spec_channel_request() == timeouts.spec_request()
    }

    /// Initialize the context for a bare `host:port` endpoint.
    pub fn new(endpoint: &str, timeouts: Timeouts, api_version: ApiVersion) -> (r: Result<
        Self,
        ExporterError,
    >)
        requires
            margin_fits(timeouts),
        ensures
            r is Ok <==> uri_accepts(endpoint_uri(endpoint@)),
            r matches Ok(ctx) ==> ctx.derived_from(timeouts, api_version),
            r matches Err(e) ==> (e matches ExporterError::InvalidURI(m) && m@ == invalid_uri_message(
                endpoint@,
            )),
    {
        let mut uri = "http://".to_owned();
        uri.append(endpoint);
        let parsed = Uri::from_str(uri.as_str());
        Self::from_parsed(endpoint, parsed, timeouts, api_version)
    }

    /// Finish the context for `endpoint` once its URI has been parsed.
    pub fn from_parsed(
        endpoint: &str,
        parsed: Result<Uri, InvalidUri>,
        timeouts: Timeouts,
        api_version: ApiVersion,
    ) -> (r: Result<Self, ExporterError>)
        requires
            margin_fits(timeouts),
        ensures
            r is Ok <==> parsed is Ok,
            r matches Ok(ctx) ==> ctx.derived_from(timeouts, api_version),
            r matches Err(e) ==> (e matches ExporterError::InvalidURI(m) && m@ == invalid_uri_message(
                endpoint@,
            )),
    {
        match parsed {
            Ok(uri) => {
                let channel_connect = with_margin(timeouts.connect());
                let channel_request = timeouts.request();
                let endpoint = Endpoint::from(uri).connect_timeout(channel_connect).timeout(
                    channel_request,
                );
                Ok(Self { endpoint, timeouts, api_version, channel_connect, channel_request })
            },
            Err(_) => {
                let mut message = "Invalid uri: ".to_owned();
                message.append(endpoint);
                Err(ExporterError::InvalidURI(message))
            },
        }
    }
}

/// Backoff, in milliseconds, between a failed connect attempt and the next.
pub const RETRY_BACKOFF_MILLIS: u64 = 10_000;

/// The backoff in nanoseconds.
pub open spec fn retry_backoff_nanos() -> int {
    RETRY_BACKOFF_MILLIS * NANOS_PER_MILLI
}

impl GrpcContext {
    /// The channel endpoint, with its connect and request timeouts set.
    pub fn endpoint(&self) -> &Endpoint {
        &self.endpoint
    }

    /// The API version that a client of this context speaks.
    pub fn api_version(&self) -> (r: ApiVersion)
        ensures
            r == self.spec_api_version(),
    {
        self.api_version
    }

    /// The connect timeout that the channel endpoint was given.
    pub fn channel_connect_timeout(&self) -> (r: Duration)
        ensures
            r == self.spec_channel_connect(),
    {
        self.channel_connect
    }

    /// The request timeout that the channel endpoint was given.
    pub fn channel_request_timeout(&self) -> (r: Duration)
        ensures
            r == self.spec_channel_request(),
    {
        self.channel_request
    }

    /// The deadline of one connect attempt, on top of the channel's own
    /// connect timeout: the configured connect timeout.
    pub fn attempt_deadline(&self) -> (r: Duration)
        ensures
            r == self.spec_timeouts().spec_connect(),
    {
        self.timeouts.connect()
    }
}

/// A client of the V1 API. It holds the pool-management stub, and leaves room
/// for the stubs of more V1 services.
#[derive(Debug, Clone)]
pub struct MayaClientV1<P> {
    pub pool: P,
}

/// The connected client of exactly one API version.
#[derive(Debug, Clone)]
pub enum ClientHandle<C0, C1> {
    V0(C0),
    V1(MayaClientV1<C1>),
}

impl<C0, C1> ClientHandle<C0, C1> {
    /// The API version that the handle speaks.
    pub open spec fn spec_api_version(&self) -> ApiVersion {
        match self {
            ClientHandle::V0(_) => ApiVersion::V0,
            ClientHandle::V1(_) => ApiVersion::V1,
        }
    }
}

/// A connected gRPC client: its context, and the client of the context's API
/// version.
pub struct GrpcClient<C0, C1> {
    ctx: GrpcContext,
    handle: ClientHandle<C0, C1>,
}

impl<C0, C1> GrpcClient<C0, C1> {
    /// The handle always speaks the context's API version.
    #[verifier::type_invariant]
    spec fn handle_matches_version(&self) -> bool {
        self.handle.spec_api_version() == self.ctx.api_version
    }

    /// The context the client was connected with.
    pub closed spec fn spec_context(&self) -> GrpcContext {
        self.ctx
    }

    /// The connected client.
    pub closed spec fn spec_handle(&self) -> ClientHandle<C0, C1> {
        self.handle
    }

    /// What `client_v0` returns: a clone of the V0 client where there is one,
    /// else the error that names the missing client.
    pub open spec fn is_v0_result(&self, r: Result<C0, ExporterError>) -> bool
        where
            C0: Clone,
    {
        &&& r is Ok <==> self.spec_context().spec_api_version() == ApiVersion::V0
        &&& r matches Ok(c) ==> (self.spec_handle() matches ClientHandle::V0(h) && cloned(h, c))
        &&& r matches Err(e) ==> (e matches ExporterError::GrpcClientError(m) && m@
            == "Could not get v0 client"@)
    }

    /// What `client_v1` returns: a clone of the V1 client where there is one,
    /// else the error that names the missing client.
    pub open spec fn is_v1_result(&self, r: Result<MayaClientV1<C1>, ExporterError>) -> bool
        where
            C1: Clone,
    {
        &&& r is Ok <==> self.spec_context().spec_api_version() == ApiVersion::V1
        &&& r matches Ok(c) ==> (self.spec_handle() matches ClientHandle::V1(h) && cloned(
            h.pool,
            c.pool,
        ))
        &&& r matches Err(e) ==> (e matches ExporterError::GrpcClientError(m) && m@
            == "Could not get v1 client"@)
    }

    /// Get the v0 api client.
    pub fn client_v0(&self) -> (r: Result<C0, ExporterError>)
        where
            C0: Clone,
        ensures
            self.is_v0_result(r),
    {
        proof {
            use_type_invariant(self);
        }
        match &self.handle {
            ClientHandle::V0(c) => Ok(c.clone()),
            ClientHandle::V1(_) => Err(
                ExporterError::GrpcClientError("Could not get v0 client".to_owned()),
            ),
        }
    }

    /// Get the v1 api client.
    pub fn client_v1(&self) -> (r: Result<MayaClientV1<C1>, ExporterError>)
        where
            C1: Clone,
        ensures
            self.is_v1_result(r),
    {
        proof {
            use_type_invariant(self);
        }
        match &self.handle {
            ClientHandle::V1(c) => Ok(MayaClientV1 { pool: c.pool.clone() }),
            ClientHandle::V0(_) => Err(
                ExporterError::GrpcClientError("Could not get v1 client".to_owned()),
            ),
        }
    }

    /// Get the api version.
    pub fn api_version(&self) -> (r: ApiVersion)
        ensures
            r == self.spec_context().spec_api_version(),
            r == self.spec_handle().spec_api_version(),
    {
        proof {
            use_type_invariant(self);
        }
        self.ctx.api_version
    }

    /// Decide what follows one connect attempt for `context`: a client made of
    /// the connection where it succeeded, else the fixed backoff before the
    /// next attempt, with the context to make it with.
    pub fn connect_step(context: GrpcContext, outcome: ConnectOutcome<C0, C1>) -> (r: ConnectStep<
        C0,
        C1,
    >)
        requires
            outcome matches ConnectOutcome::Connected(h) ==> h.spec_api_version()
                == context.spec_api_version(),
        ensures
            step_follows(context, outcome, r),
    {
        match outcome {
            ConnectOutcome::TimedOut => ConnectStep::Retry {
                context,
                reason: RetryReason::ConnectTimeout,
                backoff: Duration::from_millis(RETRY_BACKOFF_MILLIS),
            },
            ConnectOutcome::Failed => ConnectStep::Retry {
                context,
                reason: RetryReason::ConnectionError,
                backoff: Duration::from_millis(RETRY_BACKOFF_MILLIS),
            },
            ConnectOutcome::Connected(handle) => ConnectStep::Ready(GrpcClient { ctx: context, handle }),
        }
    }
}

/// How one connect attempt ended.
pub enum ConnectOutcome<C0, C1> {
    /// The attempt's deadline passed before it completed.
    TimedOut,
    /// The attempt completed with a connection error.
    Failed,
    /// The attempt connected this client.
    Connected(ClientHandle<C0, C1>),
}

/// Why a connect attempt is retried.
#[derive(Debug, Clone, Copy, PartialEq, Eq, Structural)]
pub enum RetryReason {
    ConnectTimeout,
    ConnectionError,
}

impl RetryReason {
    /// The line to log for a failed attempt.
    pub fn message(&self) -> (r: &'static str)
        ensures
            *self == RetryReason::ConnectTimeout ==> r@ == "Grpc connection timeout, retrying after 10s"@,
            *self == RetryReason::ConnectionError ==> r@
                == "Grpc client connection error, retrying after 10s"@,
    {
        match self {
            RetryReason::ConnectTimeout => "Grpc connection timeout, retrying after 10s",
            RetryReason::ConnectionError => "Grpc client connection error, retrying after 10s",
        }
    }
}

/// What the connect loop does after an attempt.
pub enum ConnectStep<C0, C1> {
    /// Wait `backoff`, then attempt again with `context`.
    Retry { context: GrpcContext, reason: RetryReason, backoff: Duration },
    /// Connected: the loop ends with this client.
    Ready(GrpcClient<C0, C1>),
}

/// Whether `step` is what follows an attempt for `context` that ended with
/// `outcome`.
pub open spec fn step_follows<C0, C1>(
    context: GrpcContext,
    outcome: ConnectOutcome<C0, C1>,
    step: ConnectStep<C0, C1>,
) -> bool {
    match outcome {
        ConnectOutcome::TimedOut => step matches ConnectStep::Retry { context: c, reason, backoff }
            && c == context && reason == RetryReason::ConnectTimeout && nanos_of(backoff)
            == retry_backoff_nanos(),
        ConnectOutcome::Failed => step matches ConnectStep::Retry { context: c, reason, backoff }
            && c == context && reason == RetryReason::ConnectionError && nanos_of(backoff)
            == retry_backoff_nanos(),
        ConnectOutcome::Connected(h) => step matches ConnectStep::Ready(client)
            && client.spec_context() == context && client.spec_handle() == h,
    }
}

/// Total time, in nanoseconds, that the retries among `steps` back off.
pub open spec fn total_backoff<C0, C1>(steps: Seq<ConnectStep<C0, C1>>) -> int
    decreases steps.len(),
{
    if steps.len() == 0 {
        0
    } else {
        total_backoff(steps.drop_last()) + match steps.last() {
            ConnectStep::Retry { backoff, .. } => nanos_of(backoff),
            ConnectStep::Ready(_) => 0,
        }
    }
}

/// Whether `steps` are what followed a run of attempts for `context` that
/// ended with `outcomes`, one step for each attempt.
pub open spec fn is_run<C0, C1>(
    context: GrpcContext,
    outcomes: Seq<ConnectOutcome<C0, C1>>,
    steps: Seq<ConnectStep<C0, C1>>,
) -> bool {
    &&& steps.len() == outcomes.len()
    &&& forall|i: int|
        0 <= i < outcomes.len() ==> step_follows(context, #[trigger] outcomes[i], steps[i])
}

proof fn lemma_backoff_of_retries<C0, C1>(steps: Seq<ConnectStep<C0, C1>>, j: int)
    requires
        0 <= j <= steps.len(),
        forall|i: int|
            0 <= i < j ==> (#[trigger] steps[i] matches ConnectStep::Retry { backoff, .. }
                && nanos_of(backoff) == retry_backoff_nanos()),
    ensures
        total_backoff(steps.take(j)) == j * retry_backoff_nanos(),
    decreases j,
{
    if j > 0 {
        lemma_backoff_of_retries(steps, j - 1);
        assert(steps.take(j).drop_last() =~= steps.take(j - 1));
        assert(steps.take(j).last() == steps[j - 1]);
        assert(steps[j - 1] matches ConnectStep::Retry { backoff, .. } && nanos_of(backoff)
            == retry_backoff_nanos());
        assert((j - 1) * retry_backoff_nanos() + retry_backoff_nanos() == j
            * retry_backoff_nanos()) by (nonlinear_arith);
    } else {
        assert(steps.take(j).len() == 0);
    }
}

/// The connect loop ends at the first attempt that connects and at no
/// earlier one: each attempt before it is followed by a retry, the time spent
/// backing off before the client is ready is one fixed backoff for each of
/// those attempts, and the client holds the connection of that attempt and
/// the context the loop started with.
pub proof fn lemma_ready_at_first_connection<C0, C1>(
    context: GrpcContext,
    outcomes: Seq<ConnectOutcome<C0, C1>>,
    steps: Seq<ConnectStep<C0, C1>>,
    k: int,
)
    requires
        is_run(context, outcomes, steps),
        0 <= k < outcomes.len(),
        outcomes[k] is Connected,
        forall|i: int| 0 <= i < k ==> !(#[trigger] outcomes[i] is Connected),
    ensures
        forall|i: int| 0 <= i < k ==> #[trigger] steps[i] is Retry,
        steps[k] matches ConnectStep::Ready(client) && client.spec_context() == context
            && client.spec_handle() == outcomes[k]->Connected_0,
        total_backoff(steps.take(k)) == k * retry_backoff_nanos(),
{
    assert forall|i: int| 0 <= i < k implies (#[trigger] steps[i] matches ConnectStep::Retry {
        backoff,
        ..
    } && nanos_of(backoff) == retry_backoff_nanos()) by {
        assert(step_follows(context, outcomes[i], steps[i]));
    }
    assert(step_follows(context, outcomes[k], steps[k]));
    lemma_backoff_of_retries(steps, k);
}

/// A client serves exactly one API version: of `client_v0` and `client_v1`,
/// exactly one succeeds, and `client_v0` does where the context is for V0.
pub proof fn lemma_one_version_served<C0: Clone, C1: Clone>(
    client: GrpcClient<C0, C1>,
    r0: Result<C0, ExporterError>,
    r1: Result<MayaClientV1<C1>, ExporterError>,
)
    requires
        client.is_v0_result(r0),
        client.is_v1_result(r1),
    ensures
        r0 is Ok <==> !(r1 is Ok),
        r0 is Ok <==> client.spec_context().spec_api_version() == ApiVersion::V0,
        r1 is Ok <==> client.spec_context().spec_api_version() == ApiVersion::V1,
{
}

/// Asking a client for its V0 client again gives the same answer: both calls
/// succeed or both fail, and where they succeed both give a clone of the one
/// V0 client that the client holds.
pub proof fn lemma_client_v0_repeatable<C0: Clone, C1>(
    client: GrpcClient<C0, C1>,
    r: Result<C0, ExporterError>,
    again: Result<C0, ExporterError>,
)
    requires
        client.is_v0_result(r),
        client.is_v0_result(again),
    ensures
        r is Ok <==> again is Ok,
        r is Ok ==> (client.spec_handle() matches ClientHandle::V0(h) && cloned(h, r->Ok_0)
            && cloned(h, again->Ok_0)),
{
}

/// Asking a client for its V1 client again gives the same answer: both calls
/// succeed or both fail, and where they succeed both give a clone of the one
/// pool client that the client holds.
pub proof fn lemma_client_v1_repeatable<C0, C1: Clone>(
    client: GrpcClient<C0, C1>,
    r: Result<MayaClientV1<C1>, ExporterError>,
    again: Result<MayaClientV1<C1>, ExporterError>,
)
    requires
        client.is_v1_result(r),
        client.is_v1_result(again),
    ensures
        r is Ok <==> again is Ok,
        r is Ok ==> (client.spec_handle() matches ClientHandle::V1(h) && cloned(
            h.pool,
            r->Ok_0.pool,
        ) && cloned(h.pool, again->Ok_0.pool)),
{
}

/// A client connected from a context keeps the API version that the context
/// was made with.
pub proof fn lemma_api_version_kept<C0, C1>(
    context: GrpcContext,
    timeouts: Timeouts,
    api_version: ApiVersion,
    outcome: ConnectOutcome<C0, C1>,
    step: ConnectStep<C0, C1>,
)
    requires
        context.derived_from(timeouts, api_version),
        step_follows(context, outcome, step),
    ensures
        step matches ConnectStep::Retry { context: c, .. } ==> c.spec_api_version() == api_version,
        step matches ConnectStep::Ready(client) ==> client.spec_context().spec_api_version()
            == api_version,
{
}

} // verus!
