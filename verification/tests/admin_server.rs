use sidecar::admin_server::{
    run_server, run_server_with_inherited_listener, AdminApiServerConfig, AdminError, AdminRun,
    AdminServer, BindTarget, ServiceLimits, SHUTDOWN_MESSAGE,
};

type Run = AdminRun<&'static str, &'static str>;

fn config(enable_server: bool) -> AdminApiServerConfig {
    AdminApiServerConfig {
        enable_server,
        port: 18887,
        max_concurrent_requests: 3,
        max_requests_per_second: 7,
    }
}

fn limits() -> ServiceLimits {
    ServiceLimits {
        concurrency: 3,
        rate: 7,
        period_secs: 1,
        buffer: 50,
    }
}

#[test]
fn configured_port_is_bound_on_all_interfaces() {
    let run: Run = run_server(config(true));
    assert_eq!(
        run,
        AdminRun::Bind {
            target: BindTarget::SocketAddr { ip: 0, port: 18887 },
            limits: limits(),
        }
    );
    let same: Run = run_server_with_inherited_listener(config(true), None);
    assert_eq!(run, same);
}

#[test]
fn inherited_listener_goes_before_port() {
    let run: Run = run_server_with_inherited_listener(config(true), Some("inherited"));
    let bound = AdminRun::Bind {
        target: BindTarget::Listener("inherited"),
        limits: limits(),
    };
    assert_eq!(run, bound);
    let elsewhere = AdminApiServerConfig {
        port: 1,
        ..config(true)
    };
    let run: Run = run_server_with_inherited_listener(elsewhere, Some("inherited"));
    assert_eq!(run, bound);
}

#[test]
fn disabled_server_is_done_at_once() {
    let run: Run = run_server(config(false));
    assert_eq!(run, AdminRun::Ended(Ok(())));
    let run: Run = run_server_with_inherited_listener(config(false), Some("inherited"));
    assert_eq!(run, AdminRun::Ended(Ok(())));
}

#[test]
fn started_server_keeps_its_settings() {
    let server = AdminServer {
        bind_target: BindTarget::Listener("here"),
        max_concurrent_requests: u32::MAX,
        max_requests_per_second: 1,
    };
    let run: Run = server.start();
    assert_eq!(
        run,
        AdminRun::Bind {
            target: BindTarget::Listener("here"),
            limits: ServiceLimits {
                concurrency: 4294967295,
                rate: 1,
                period_secs: 1,
                buffer: 50,
            },
        }
    );
}

#[test]
fn enabled_server_ends_with_an_error() {
    assert_eq!(
        Run::bound(limits(), Ok(())),
        AdminRun::Serve { limits: limits() }
    );
    assert_eq!(
        Run::bound(limits(), Err("in use")),
        AdminRun::Ended(Err(AdminError::Failed("in use")))
    );
    assert_eq!(
        Run::served(Ok(())),
        AdminRun::Ended(Err(AdminError::ShuttingDown))
    );
    assert_eq!(
        Run::served(Err("broken")),
        AdminRun::Ended(Err(AdminError::Failed("broken")))
    );
    assert_eq!(
        AdminError::<&str>::ShuttingDown.shutdown_text(),
        Some("Admin server shutting down")
    );
    assert_eq!(AdminError::Failed("broken").shutdown_text(), None);
    assert_eq!(SHUTDOWN_MESSAGE, "Admin server shutting down");
}
