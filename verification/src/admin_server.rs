//! Decisions on running the admin server.
//!
//! Binding and serving are left to the caller, who reports back how they went.

use vstd::prelude::*;

verus! {

/// The IPv4 address, as a number, that stands for all interfaces.
pub const BIND_ALL_INTERFACES: u32 = 0;

/// How many requests may wait for the server.
pub const REQUEST_BUFFER_SIZE: usize = 50;

/// The time, in seconds, to which the limit on requests refers.
pub const RATE_PERIOD_SECS: u64 = 1;

/// The message that goes with [`AdminError::ShuttingDown`].
pub const SHUTDOWN_MESSAGE: &'static str = "Admin server shutting down";

/// How the admin server is to be run.
#[derive(Clone, Copy, Debug, PartialEq, Eq, Structural)]
pub struct AdminApiServerConfig {
    pub enable_server: bool,
    pub port: u16,
    pub max_concurrent_requests: u32,
    pub max_requests_per_second: u32,
}

/// What the admin server listens on.
#[derive(Debug, PartialEq, Eq)]
pub enum BindTarget<L> {
    /// A listener that is there already.
    Listener(L),
    /// An IPv4 address and port to bind to.
    SocketAddr { ip: u32, port: u16 },
}

/// What the admin server allows its clients.
#[derive(Clone, Copy, Debug, PartialEq, Eq, Structural)]
pub struct ServiceLimits {
    /// Requests handled at a time.
    pub concurrency: usize,
    /// Requests let through in each period.
    pub rate: u64,
    /// The length of a period in seconds.
    pub period_secs: u64,
    /// Requests that may wait.
    pub buffer: usize,
}

/// An admin server that has not been started.
#[derive(Debug, PartialEq, Eq)]
pub struct AdminServer<L> {
    pub bind_target: BindTarget<L>,
    pub max_concurrent_requests: u32,
    pub max_requests_per_second: u32,
}

/// Why the admin server does not run any more.
#[derive(Debug, PartialEq, Eq)]
pub enum AdminError<E> {
    /// Binding or serving failed.
    Failed(E),
    /// Serving came to an end.
    ShuttingDown,
}

/// Where a run of the admin server stands.
#[derive(Debug, PartialEq, Eq)]
pub enum AdminRun<L, E> {
    /// The target has to be bound.
    Bind { target: BindTarget<L>, limits: ServiceLimits },
    /// Requests have to be served within the limits.
    Serve { limits: ServiceLimits },
    /// The run is over.
    Ended(Result<(), AdminError<E>>),
}

/// What a server with the given settings allows its clients.
pub open spec fn limits_of(max_concurrent_requests: u32, max_requests_per_second: u32) -> ServiceLimits {
    ServiceLimits {
        concurrency: max_concurrent_requests as usize,
        rate: max_requests_per_second as u64,
        period_secs: RATE_PERIOD_SECS,
        buffer: REQUEST_BUFFER_SIZE,
    }
}

/// What a server listens on: an inherited listener if there is one, and otherwise the
/// configured port on all interfaces.
pub open spec fn target_of<L>(inherited_listener: Option<L>, port: u16) -> BindTarget<L> {
    match inherited_listener {
        Some(listener) => BindTarget::Listener(listener),
        None => BindTarget::SocketAddr { ip: BIND_ALL_INTERFACES, port },
    }
}

/// How a run begins.
pub open spec fn run_of<L, E>(
    config: AdminApiServerConfig,
    inherited_listener: Option<L>,
) -> AdminRun<L, E> {
    if config.enable_server {
        AdminRun::Bind {
            target: target_of(inherited_listener, config.port),
            limits: limits_of(config.max_concurrent_requests, config.max_requests_per_second),
        }
    } else {
        AdminRun::Ended(Ok(()))
    }
}

/// How a run goes on after an attempt to bind.
pub open spec fn after_bind<L, E>(limits: ServiceLimits, bound: Result<(), E>) -> AdminRun<L, E> {
    match bound {
        Ok(_) => AdminRun::Serve { limits },
        Err(error) => AdminRun::Ended(Err(AdminError::Failed(error))),
    }
}

/// How a run ends after serving.
pub open spec fn after_serve<L, E>(served: Result<(), E>) -> AdminRun<L, E> {
    match served {
        Ok(_) => AdminRun::Ended(Err(AdminError::ShuttingDown)),
        Err(error) => AdminRun::Ended(Err(AdminError::Failed(error))),
    }
}

impl<L> AdminServer<L> {
    /// Begins a run of this server.
    pub fn start<E>(self) -> (run: AdminRun<L, E>)
        ensures
            run == (AdminRun::<L, E>::Bind {
                target: self.bind_target,
                limits: limits_of(self.max_concurrent_requests, self.max_requests_per_second),
            }),
    {
        AdminRun::Bind {
            target: self.bind_target,
            limits: ServiceLimits {
                concurrency: self.max_concurrent_requests as usize,
                rate: self.max_requests_per_second as u64,
                period_secs: RATE_PERIOD_SECS,
                buffer: REQUEST_BUFFER_SIZE,
            },
        }
    }
}

impl<E> AdminError<E> {
    /// The message of an error that does not bring its own.
    pub open spec fn text(self) -> Option<Seq<char>> {
        match self {
            AdminError::ShuttingDown => Some(SHUTDOWN_MESSAGE@),
            AdminError::Failed(_) => None,
        }
    }

    /// Describes an error that does not bring its own message: the end of serving. A failed
    /// attempt to bind or serve is described by the error it brings.
    pub fn shutdown_text(&self) -> (text: Option<&'static str>)
        ensures
            match self.text() {
                Some(message) => text matches Some(t) && t@ == message,
                None => text is None,
            },
    {
        match self {
            AdminError::ShuttingDown => Some(SHUTDOWN_MESSAGE),
            AdminError::Failed(_) => None,
        }
    }
}

impl<L, E> AdminRun<L, E> {
    /// Goes on after an attempt to bind.
    pub fn bound(limits: ServiceLimits, bound: Result<(), E>) -> (run: Self)
        ensures
            run == after_bind::<L, E>(limits, bound),
    {
        match bound {
            Ok(_) => AdminRun::Serve { limits },
            Err(error) => AdminRun::Ended(Err(AdminError::Failed(error))),
        }
    }

    /// Goes on after serving has come to an end.
    pub fn served(served: Result<(), E>) -> (run: Self)
        ensures
            run == after_serve::<L, E>(served),
    {
        match served {
            Ok(_) => AdminRun::Ended(Err(AdminError::ShuttingDown)),
            Err(error) => AdminRun::Ended(Err(AdminError::Failed(error))),
        }
    }
}

/// Begins to run the admin server on the configured port.
pub fn run_server<L, E>(config: AdminApiServerConfig) -> (run: AdminRun<L, E>)
    ensures
        run == run_of::<L, E>(config, None),
{
    run_server_with_inherited_listener(config, None)
}

/// Begins to run the admin server, on `inherited_listener` if there is one.
///
/// A server that is not enabled is done at once.
pub fn run_server_with_inherited_listener<L, E>(
    config: AdminApiServerConfig,
    inherited_listener: Option<L>,
) -> (run: AdminRun<L, E>)
    ensures
        run == run_of::<L, E>(config, inherited_listener),
{
    if config.enable_server {
        let bind_target = if let Some(listener) = inherited_listener {
            BindTarget::Listener(listener)
        } else {
            BindTarget::SocketAddr { ip: BIND_ALL_INTERFACES, port: config.port }
        };
        AdminServer {
            bind_target,
            max_concurrent_requests: config.max_concurrent_requests,
            max_requests_per_second: config.max_requests_per_second,
        }.start()
    } else {
        AdminRun::Ended(Ok(()))
    }
}

/// The state in which a run ends, given how binding and serving go if it comes to that.
pub open spec fn final_state<L, E>(
    run: AdminRun<L, E>,
    bound: Result<(), E>,
    served: Result<(), E>,
) -> AdminRun<L, E> {
    match run {
        AdminRun::Bind { limits, .. } => match after_bind(limits, bound) {
            AdminRun::Serve { .. } => after_serve(served),
            ended => ended,
        },
        AdminRun::Serve { .. } => after_serve(served),
        ended => ended,
    }
}

/// A run ends well exactly if the server is not enabled: one that is enabled ends with an
/// error however binding and serving go.
pub proof fn law_enabled_server_ends_with_an_error<L, E>(
    config: AdminApiServerConfig,
    inherited_listener: Option<L>,
    bound: Result<(), E>,
    served: Result<(), E>,
)
    ensures
        ({
            let end = final_state(run_of::<L, E>(config, inherited_listener), bound, served);
            &&& end is Ended
            &&& end->Ended_0 is Ok <==> !config.enable_server
        }),
{
}

/// What an enabled server ends with: the error of a failed attempt to bind or serve, and
/// otherwise, though nothing failed, an error that says the server is shutting down.
pub proof fn law_end_of_an_enabled_server<L, E>(
    config: AdminApiServerConfig,
    inherited_listener: Option<L>,
    bound: Result<(), E>,
    served: Result<(), E>,
)
    requires
        config.enable_server,
    ensures
        ({
            let end = final_state(run_of::<L, E>(config, inherited_listener), bound, served);
            &&& end matches AdminRun::Ended(Err(error))
            &&& match (bound, served) {
                (Err(failure), _) => error == AdminError::Failed(failure),
                (Ok(_), Err(failure)) => error == AdminError::Failed(failure),
                (Ok(_), Ok(_)) => error.text() == Some("Admin server shutting down"@),
            }
        }),
{
}

/// An inherited listener is used whatever port is configured.
pub proof fn law_inherited_listener_goes_before_port<L, E>(
    config: AdminApiServerConfig,
    other: AdminApiServerConfig,
    listener: L,
)
    requires
        other == (AdminApiServerConfig { port: other.port, ..config }),
    ensures
        run_of::<L, E>(config, Some(listener)) == run_of::<L, E>(other, Some(listener)),
        config.enable_server ==> (run_of::<L, E>(config, Some(listener)) matches AdminRun::Bind {
            target,
            ..
        } && target == BindTarget::Listener(listener)),
{
}

/// Without an inherited listener, an enabled server binds the configured port on all
/// interfaces, which is the address 0.0.0.0.
pub proof fn law_configured_port_is_bound<L, E>(config: AdminApiServerConfig, run: AdminRun<L, E>)
    requires
        config.enable_server,
        call_ensures(run_server_with_inherited_listener::<L, E>, (config, None::<L>), run),
    ensures
        run matches AdminRun::Bind { target: BindTarget::SocketAddr { ip, port }, .. } && ip == 0
            && port == config.port,
{
}

/// An inherited listener is the one that an enabled server listens on.
pub proof fn law_inherited_listener_is_used<L, E>(
    config: AdminApiServerConfig,
    listener: L,
    run: AdminRun<L, E>,
)
    requires
        config.enable_server,
        call_ensures(run_server_with_inherited_listener::<L, E>, (config, Some(listener)), run),
    ensures
        run matches AdminRun::Bind { target: BindTarget::Listener(used), .. } && used == listener,
{
}

/// Whatever it listens on, an enabled server handles at most the configured number of
/// requests at a time, lets at most the configured number through in each second, and keeps
/// fifty waiting.
pub proof fn law_configured_limits_are_kept<L, E>(
    config: AdminApiServerConfig,
    inherited_listener: Option<L>,
    run: AdminRun<L, E>,
)
    requires
        config.enable_server,
        call_ensures(
            run_server_with_inherited_listener::<L, E>,
            (config, inherited_listener),
            run,
        ),
    ensures
        run matches AdminRun::Bind { limits, .. } && limits.concurrency
            == config.max_concurrent_requests && limits.rate == config.max_requests_per_second
            && limits.period_secs == 1 && limits.buffer == 50,
{
}

/// A server that is not enabled is done at once and well, even with a listener at hand.
pub proof fn law_disabled_server_succeeds<L, E>(
    config: AdminApiServerConfig,
    inherited_listener: Option<L>,
    run: AdminRun<L, E>,
)
    requires
        !config.enable_server,
        call_ensures(
            run_server_with_inherited_listener::<L, E>,
            (config, inherited_listener),
            run,
        ),
    ensures
        run matches AdminRun::Ended(Ok(_)),
{
}

/// Running a server is running it without an inherited listener.
pub proof fn law_run_server_inherits_nothing<L, E>(
    config: AdminApiServerConfig,
    run: AdminRun<L, E>,
    other: AdminRun<L, E>,
)
    requires
        call_ensures(run_server::<L, E>, (config,), run),
        call_ensures(run_server_with_inherited_listener::<L, E>, (config, None::<L>), other),
    ensures
        run == other,
        config.enable_server ==> (run matches AdminRun::Bind {
            target: BindTarget::SocketAddr { ip, port },
            limits,
        } && ip == 0 && port == config.port && limits.concurrency
            == config.max_concurrent_requests && limits.rate == config.max_requests_per_second
            && limits.period_secs == 1),
        !config.enable_server ==> (run matches AdminRun::Ended(Ok(_))),
{
}

/// A started server listens on its own target, within its own limits.
pub proof fn law_started_server_keeps_its_settings<L, E>(
    server: AdminServer<L>,
    run: AdminRun<L, E>,
)
    requires
        call_ensures(AdminServer::<L>::start::<E>, (server,), run),
    ensures
        run matches AdminRun::Bind { target, limits } && target == server.bind_target
            && limits.concurrency == server.max_concurrent_requests && limits.rate
            == server.max_requests_per_second && limits.period_secs == 1 && limits.buffer == 50,
{
}

/// A bound server is served within the limits it was bound with; one that could not be bound
/// ends with the error that says why.
pub proof fn law_binding_is_followed_by_serving<L, E>(
    limits: ServiceLimits,
    outcome: Result<(), E>,
    run: AdminRun<L, E>,
)
    requires
        call_ensures(AdminRun::<L, E>::bound, (limits, outcome), run),
    ensures
        outcome is Ok ==> (run matches AdminRun::Serve { limits: kept } && kept == limits),
        outcome matches Err(error) ==> (run matches AdminRun::Ended(
            Err(AdminError::Failed(reason)),
        ) && reason == error),
{
}

/// Serving never ends well: it ends with its own error, or with the one that says the
/// server is shutting down.
pub proof fn law_serving_ends_with_an_error<L, E>(
    outcome: Result<(), E>,
    run: AdminRun<L, E>,
    text: Option<&'static str>,
)
    requires
        call_ensures(AdminRun::<L, E>::served, (outcome,), run),
        run matches AdminRun::Ended(Err(error)) ==> call_ensures(
            AdminError::<E>::shutdown_text,
            (&error,),
            text,
        ),
    ensures
        outcome is Ok ==> (run matches AdminRun::Ended(Err(AdminError::ShuttingDown))) && (
        text matches Some(t) && t@ == "Admin server shutting down"@),
        outcome matches Err(error) ==> (run matches AdminRun::Ended(
            Err(AdminError::Failed(reason)),
        ) && reason == error) && text is None,
{
}

} // verus!
