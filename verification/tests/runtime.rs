use spud::discovery::{
    discover_loaded, discover_plugins, discovery_failed, is_manifest_file, loaded_until_failure,
    DiscoveredPlugin, DiscoveryError, LoadedManifest,
};
use spud::failure::{HandledRequest, RuntimeError};
use spud::manifest::{PluginCompatibility, PluginManifest, PluginPermissions, PluginRuntime as Launch};
use spud::protocol::error_code;
use spud::protocol::{
    ActiveModule, EventCategory, GetSnapshotParams, HandshakeParams, InvokeCommandParams,
    InvokeCommandResult, PublishEventParams, PublishEventResult, RequestId, StateSnapshot,
    SubscribeParams, SubscriptionResult,
};
use spud::runtime::{Delivery, PluginRuntime};
use spud::session::{HostBridge, PluginRequest, PluginResponse, RequestParams, ResponseBody};
use spud::transport::{
    frame_line, io_error, launch_plan, line_event, next_request, process_exited_error,
    skips_line, ExitPoll, Inbound, ReaderEvent, SpawnFailure,
};

fn plugin(
    path: &str,
    id: &str,
    host_api: &str,
    commands: &[&str],
    event_tags: &[&str],
    subscriptions: &[&str],
) -> DiscoveredPlugin {
    DiscoveredPlugin {
        manifest_path: path.to_string(),
        manifest: PluginManifest {
            id: id.to_string(),
            name: "Fixture Plugin".to_string(),
            version: "0.1.0".to_string(),
            runtime: Launch {
                entrypoint: "plugin.sh".to_string(),
                command: Some("sh".to_string()),
                args: vec![],
            },
            compatibility: PluginCompatibility {
                host_api: host_api.to_string(),
            },
            permissions: PluginPermissions {
                commands: commands.iter().map(|s| s.to_string()).collect(),
                event_tags: event_tags.iter().map(|s| s.to_string()).collect(),
                subscriptions: subscriptions.iter().map(|s| s.to_string()).collect(),
            },
        },
    }
}

fn fixture(id: &str) -> DiscoveredPlugin {
    plugin(
        &format!("/plugins/{id}/plugin.toml"),
        id,
        "^1.0.0",
        &["help"],
        &["plugin.metrics"],
        &["tick"],
    )
}

fn request(id: i64, method: &str, params: RequestParams) -> PluginRequest {
    PluginRequest {
        jsonrpc: "2.0".to_string(),
        id: RequestId::Number(id),
        method: method.to_string(),
        params,
    }
}

fn handshake(plugin_id: &str) -> PluginRequest {
    request(
        1,
        "spud.handshake",
        RequestParams::Handshake(HandshakeParams {
            plugin_id: plugin_id.to_string(),
            plugin_version: "0.1.0".to_string(),
            supported_api_versions: "^1.0.0".to_string(),
            requested_capabilities: vec![],
        }),
    )
}

fn subscribe_tick(id: i64) -> PluginRequest {
    request(
        id,
        "spud.events.subscribe",
        RequestParams::Subscription(SubscribeParams {
            categories: vec![EventCategory::Tick],
        }),
    )
}

#[derive(Default)]
struct MockHost {
    snapshot_calls: usize,
    invoked_commands: Vec<String>,
    published_tags: Vec<String>,
}

impl HostBridge for MockHost {
    fn state_snapshot(&mut self) -> Result<StateSnapshot, String> {
        self.snapshot_calls += 1;
        Ok(StateSnapshot {
            active_module: Some(ActiveModule {
                id: "hello".to_string(),
                title: "Hello".to_string(),
            }),
            status_line: "OK".to_string(),
            uptime_seconds: 42,
            tps_bits: 10.0f64.to_bits(),
            telemetry: Vec::new(),
        })
    }

    fn invoke_command(&mut self, params: InvokeCommandParams) -> Result<InvokeCommandResult, String> {
        self.invoked_commands.push(params.command.clone());
        Ok(InvokeCommandResult {
            lines: vec![format!("ok:{}", params.command)],
        })
    }

    fn publish_event(&mut self, params: PublishEventParams) -> Result<PublishEventResult, String> {
        self.published_tags.push(params.tag);
        Ok(PublishEventResult { accepted: true })
    }
}

fn started(ids: &[&str]) -> PluginRuntime {
    let mut runtime =
        PluginRuntime::from_manifests(ids.iter().map(|id| fixture(id)).collect()).unwrap();
    let mut host = MockHost::default();
    for id in ids {
        assert_eq!(runtime.ensure_startable(id), Ok(()));
        let turn = runtime.start(id, Ok(handshake(id)));
        assert!(turn.result.is_ok());
        let turn = runtime.pump_next(id, Ok(subscribe_tick(2)), &mut host);
        assert!(turn.result.is_ok());
    }
    runtime
}

fn exited(id: &str, code: i32) -> RuntimeError {
    RuntimeError::ProcessExited {
        plugin_id: id.to_string(),
        code: Some(code),
    }
}

#[test]
fn discover_plugins_rejects_duplicate_plugin_ids() {
    let found = vec![
        plugin("/root/a/plugin.toml", "spud.dup", "^1.0.0", &[], &[], &[]),
        plugin("/root/b/plugin.toml", "spud.dup", "^1.0.0", &[], &[], &[]),
    ];
    let err = discover_plugins(found).unwrap_err();
    assert!(err.message().contains("duplicate plugin id"));
    assert_eq!(
        err,
        DiscoveryError::DuplicatePluginId {
            id: "spud.dup".to_string(),
            first: "/root/a/plugin.toml".to_string(),
            second: "/root/b/plugin.toml".to_string(),
        }
    );
    assert_eq!(
        err.message(),
        "duplicate plugin id \"spud.dup\" in manifests /root/a/plugin.toml and /root/b/plugin.toml"
    );
}

#[test]
fn duplicate_ids_across_roots_fail_the_registry_and_name_both_paths() {
    let found = vec![
        plugin("/one/x/plugin.toml", "spud.a", "^1.0.0", &[], &[], &[]),
        plugin("/one/y/plugin.toml", "spud.dup", "^1.0.0", &[], &[], &[]),
        plugin("/two/z/plugin.toml", "spud.dup", "^1.0.0", &[], &[], &[]),
        plugin("/two/zz/plugin.toml", "spud.a", "^1.0.0", &[], &[], &[]),
    ];
    let err = match PluginRuntime::from_manifests(found) {
        Err(err) => err,
        Ok(_) => panic!("the registry was built"),
    };
    assert_eq!(
        err,
        RuntimeError::Discovery(
            "plugin discovery failed: duplicate plugin id \"spud.dup\" in manifests /one/y/plugin.toml and /two/z/plugin.toml"
                .to_string()
        )
    );
    assert_eq!(err, discovery_failed("duplicate plugin id \"spud.dup\" in manifests /one/y/plugin.toml and /two/z/plugin.toml"));
}

#[test]
fn discovered_plugins_come_back_sorted_by_id() {
    let found = vec![
        fixture("spud.c"),
        fixture("spud.a"),
        fixture("spud.b"),
        fixture("spud"),
    ];
    let plugins = discover_plugins(found.clone()).unwrap();
    let ids: Vec<&str> = plugins.iter().map(|p| p.manifest.id.as_str()).collect();
    assert_eq!(ids, vec!["spud", "spud.a", "spud.b", "spud.c"]);
    for p in &found {
        assert!(plugins.contains(p));
    }
    assert_eq!(discover_plugins(vec![]), Ok(vec![]));
    assert!(is_manifest_file("plugin.toml"));
    assert!(!is_manifest_file("Plugin.toml"));
    assert!(!is_manifest_file("plugin.toml.bak"));
}

#[test]
fn one_incompatible_manifest_fails_the_whole_registry() {
    let found = vec![
        fixture("spud.a"),
        plugin("/p/b/plugin.toml", "spud.b", "^2.0.0", &[], &[], &[]),
        plugin("/p/c/plugin.toml", "spud.c", "nonsense", &[], &[], &[]),
    ];
    let err = match PluginRuntime::register_discovered(found) {
        Err(err) => err,
        Ok(_) => panic!("the registry was built"),
    };
    assert_eq!(
        err,
        RuntimeError::Discovery(
            "plugin spud.b failed compatibility/permission validation: plugin requires host_api ^2.0.0, but host API is 1.0.0"
                .to_string()
        )
    );
    let err = match PluginRuntime::register_discovered(vec![fixture("x"), fixture("x")]) {
        Err(err) => err,
        Ok(_) => panic!("the registry was built"),
    };
    assert_eq!(
        err,
        RuntimeError::Discovery("duplicate plugin id in discovered set: x".to_string())
    );
}

#[test]
fn registry_lists_its_plugins_in_order() {
    let runtime =
        PluginRuntime::register_discovered(vec![fixture("b"), fixture("c"), fixture("a")]).unwrap();
    assert_eq!(runtime.plugin_ids(), vec!["a", "b", "c"]);
    assert!(!runtime.runs("a"));
    assert_eq!(
        runtime.plugin("b").unwrap().manifest_path,
        "/plugins/b/plugin.toml"
    );
    assert!(runtime.plugin("d").is_none());
    assert_eq!(
        runtime.ensure_startable("d"),
        Err(RuntimeError::UnknownPlugin("d".to_string()))
    );
    assert_eq!(
        runtime.ensure_running("a"),
        Err(RuntimeError::NotRunning("a".to_string()))
    );
    assert_eq!(
        runtime.ensure_running("d"),
        Err(RuntimeError::UnknownPlugin("d".to_string()))
    );
}

/// The flow of a plugin that keeps to the protocol: every response that
/// the host writes is kept, in order, as the plugin would see it.
#[test]
fn runtime_starts_handshakes_and_bridges_requests() {
    let mut runtime = PluginRuntime::from_manifests(vec![fixture("spud.fixture")]).unwrap();
    assert_eq!(runtime.plugin_ids(), vec!["spud.fixture"]);
    let mut transcript: Vec<PluginResponse> = Vec::new();

    let turn = runtime.start("spud.fixture", Ok(handshake("spud.fixture")));
    let handshake_result = turn.result.unwrap();
    assert_eq!(handshake_result.selected_api_version, "1.0.0");
    transcript.push(turn.response.unwrap());
    assert!(runtime.runs("spud.fixture"));
    assert_eq!(
        runtime.ensure_startable("spud.fixture"),
        Err(RuntimeError::AlreadyRunning("spud.fixture".to_string()))
    );

    let mut host = MockHost::default();
    let requests = vec![
        request(
            2,
            "spud.state.get_snapshot",
            RequestParams::GetSnapshot(GetSnapshotParams {}),
        ),
        request(
            3,
            "spud.host.invoke_command",
            RequestParams::InvokeCommand(InvokeCommandParams {
                command: "help".to_string(),
                args: vec![],
            }),
        ),
        request(
            4,
            "spud.host.publish_event",
            RequestParams::PublishEvent(PublishEventParams {
                tag: "plugin.metrics".to_string(),
                payload: "{}".to_string(),
            }),
        ),
        subscribe_tick(5),
    ];
    let mut methods = Vec::new();
    for req in requests {
        assert_eq!(runtime.ensure_running("spud.fixture"), Ok(()));
        let turn = runtime.pump_next("spud.fixture", Ok(req), &mut host);
        methods.push(turn.result.unwrap().method);
        transcript.push(turn.response.unwrap());
    }
    assert_eq!(
        methods,
        vec![
            "spud.state.get_snapshot".to_string(),
            "spud.host.invoke_command".to_string(),
            "spud.host.publish_event".to_string(),
            "spud.events.subscribe".to_string(),
        ]
    );

    let targets = runtime.broadcast_targets(EventCategory::Tick);
    assert_eq!(targets, vec!["spud.fixture".to_string()]);
    let note = runtime
        .notification(
            "spud.fixture",
            EventCategory::Tick,
            Some("tick"),
            "{\"now\":1}".to_string(),
        )
        .unwrap();
    let delivered = runtime
        .broadcast_event(EventCategory::Tick, vec![Delivery::Delivered])
        .unwrap();
    assert_eq!(delivered, 1);

    assert_eq!(transcript.len(), 5);
    for (i, response) in transcript.iter().enumerate() {
        assert_eq!(response.jsonrpc, "2.0");
        assert_eq!(response.id, RequestId::Number(i as i64 + 1));
    }
    assert_eq!(
        transcript[0].body,
        ResponseBody::Handshake(handshake_result)
    );
    match &transcript[1].body {
        ResponseBody::Snapshot(s) => assert_eq!(s.status_line, "OK"),
        other => panic!("unexpected {:?}", other),
    }
    assert_eq!(
        transcript[2].body,
        ResponseBody::Command(InvokeCommandResult {
            lines: vec!["ok:help".to_string()]
        })
    );
    assert_eq!(
        transcript[3].body,
        ResponseBody::Event(PublishEventResult { accepted: true })
    );
    assert_eq!(
        transcript[4].body,
        ResponseBody::Subscription(SubscriptionResult {
            subscribed: vec![EventCategory::Tick]
        })
    );
    assert_eq!(note.method, "spud.events.emit");
    assert_eq!(note.category, EventCategory::Tick);
    assert_eq!(note.category.as_str(), "tick");

    assert_eq!(host.snapshot_calls, 1);
    assert_eq!(host.invoked_commands, vec!["help".to_string()]);
    assert_eq!(host.published_tags, vec!["plugin.metrics".to_string()]);

    runtime.shutdown_all();
    assert!(!runtime.runs("spud.fixture"));
}

#[test]
fn runtime_denies_unallowlisted_command_invocation() {
    let mut runtime = PluginRuntime::from_manifests(vec![fixture("spud.deny")]).unwrap();
    runtime
        .start("spud.deny", Ok(handshake("spud.deny")))
        .result
        .unwrap();

    let mut host = MockHost::default();
    let turn = runtime.pump_next(
        "spud.deny",
        Ok(request(
            2,
            "spud.host.invoke_command",
            RequestParams::InvokeCommand(InvokeCommandParams {
                command: "quit".to_string(),
                args: vec![],
            }),
        )),
        &mut host,
    );
    let handled = turn.result.unwrap();
    assert_eq!(handled.method, "spud.host.invoke_command");
    assert!(handled.responded_with_error);
    assert!(host.invoked_commands.is_empty());

    match turn.response.unwrap().body {
        ResponseBody::Error(e) => assert_eq!(e.code, error_code::UNAUTHORIZED),
        other => panic!("unexpected {:?}", other),
    }

    runtime.shutdown_all();
}

#[test]
fn crashed_plugin_is_reported_without_panicking_host() {
    let mut runtime = PluginRuntime::from_manifests(vec![fixture("spud.crash")]).unwrap();
    assert_eq!(runtime.ensure_startable("spud.crash"), Ok(()));
    // the process wrote nothing and ended with code 17: the reader reports the end of
    // the output, and a look at the process shows the exit
    let first = next_request(
        "spud.crash",
        Inbound::Event(ReaderEvent::Eof),
        &ExitPoll::Exited(Some(17)),
        400,
    );
    let turn = runtime.start("spud.crash", first);
    assert!(turn.response.is_none());
    let err = turn.result.unwrap_err();

    assert!(matches!(
        err,
        RuntimeError::ProcessExited {
            plugin_id,
            code: Some(17)
        } if plugin_id == "spud.crash"
    ));
    assert!(!runtime.runs("spud.crash"));
    assert_eq!(runtime.ensure_startable("spud.crash"), Ok(()));
}

#[test]
fn a_start_that_fails_leaves_the_plugin_stopped() {
    let mut runtime = PluginRuntime::from_manifests(vec![fixture("p")]).unwrap();
    let turn = runtime.start(
        "p",
        Ok(request(
            1,
            "spud.state.get_snapshot",
            RequestParams::GetSnapshot(GetSnapshotParams {}),
        )),
    );
    match turn.response.unwrap().body {
        ResponseBody::Error(e) => assert_eq!(e.code, error_code::INVALID_PARAMS),
        other => panic!("unexpected {:?}", other),
    }
    assert_eq!(
        turn.result,
        Err(RuntimeError::Protocol(
            "plugin p did not start with spud.handshake".to_string()
        ))
    );
    assert!(!runtime.runs("p"));

    let turn = runtime.start("p", Ok(handshake("q")));
    assert!(turn.result.is_err());
    assert!(!runtime.runs("p"));

    let turn = runtime.start("nobody", Ok(handshake("nobody")));
    assert!(turn.response.is_none());
    assert_eq!(
        turn.result,
        Err(RuntimeError::UnknownPlugin("nobody".to_string()))
    );

    assert!(runtime.start("p", Ok(handshake("p"))).result.is_ok());
    let turn = runtime.start("p", Ok(handshake("p")));
    assert!(turn.response.is_none());
    assert_eq!(
        turn.result,
        Err(RuntimeError::AlreadyRunning("p".to_string()))
    );
    assert!(runtime.runs("p"));
}

#[test]
fn pump_removes_a_session_whose_process_has_ended() {
    let mut runtime = started(&["a", "b", "c", "d"]);
    let mut host = MockHost::default();

    let turn = runtime.pump_next(
        "a",
        Err(RuntimeError::Timeout {
            plugin_id: "a".to_string(),
            timeout_ms: 5,
        }),
        &mut host,
    );
    assert!(turn.response.is_none());
    assert!(matches!(turn.result, Err(RuntimeError::Timeout { .. })));
    assert!(runtime.runs("a"));

    let turn = runtime.pump_next("a", Err(exited("a", 3)), &mut host);
    assert_eq!(turn.result, Err(exited("a", 3)));
    assert!(!runtime.runs("a"));
    assert!(runtime.runs("b"));

    let turn = runtime.pump_next("a", Ok(subscribe_tick(9)), &mut host);
    assert!(turn.response.is_none());
    assert_eq!(turn.result, Err(RuntimeError::NotRunning("a".to_string())));
    let turn = runtime.pump_next("zz", Ok(subscribe_tick(9)), &mut host);
    assert_eq!(
        turn.result,
        Err(RuntimeError::UnknownPlugin("zz".to_string()))
    );

    // a break of the protocol and a failure of a pipe end the session too
    let broken = RuntimeError::Protocol("plugin b protocol error: bad".to_string());
    let turn = runtime.pump_next("b", Err(broken.clone()), &mut host);
    assert!(turn.response.is_none());
    assert_eq!(turn.result, Err(broken));
    assert!(!runtime.runs("b"));
    assert_eq!(
        runtime.ensure_running("b"),
        Err(RuntimeError::NotRunning("b".to_string()))
    );
    let turn = runtime.pump_next("b", Ok(subscribe_tick(9)), &mut host);
    assert_eq!(turn.result, Err(RuntimeError::NotRunning("b".to_string())));

    let closed = RuntimeError::Io("plugin c stdout read error: closed".to_string());
    let turn = runtime.pump_next("c", Err(closed.clone()), &mut host);
    assert_eq!(turn.result, Err(closed));
    assert!(!runtime.runs("c"));
    assert!(runtime.runs("d"));

    // until it is started again
    assert!(runtime.start("b", Ok(handshake("b"))).result.is_ok());
    assert!(runtime.runs("b"));
}

#[test]
fn a_failure_ends_the_session_unless_it_is_a_wait_that_ran_out() {
    let mut runtime = started(&["a", "b", "c"]);
    runtime.session_failed(
        "a",
        &RuntimeError::Timeout {
            plugin_id: "a".to_string(),
            timeout_ms: 1,
        },
    );
    assert!(runtime.runs("a"));
    runtime.session_failed("a", &RuntimeError::Io("broken pipe".to_string()));
    assert!(!runtime.runs("a"));
    runtime.session_failed("b", &exited("b", 1));
    assert!(!runtime.runs("b"));
    runtime.session_failed("c", &RuntimeError::Protocol("bad".to_string()));
    assert!(!runtime.runs("c"));
    runtime.session_failed("nobody", &exited("nobody", 1));

    assert!(exited("p", 0).ends_session());
    assert!(RuntimeError::Io(String::new()).ends_session());
    assert!(RuntimeError::Protocol(String::new()).ends_session());
    for other in [
        RuntimeError::Timeout {
            plugin_id: "p".to_string(),
            timeout_ms: 1,
        },
        RuntimeError::Discovery(String::new()),
        RuntimeError::Spawn(String::new()),
        RuntimeError::UnknownPlugin(String::new()),
        RuntimeError::AlreadyRunning(String::new()),
        RuntimeError::NotRunning(String::new()),
    ] {
        assert!(!other.ends_session());
    }
}

#[test]
fn a_failed_write_takes_the_place_of_the_result() {
    let mut runtime = started(&["a", "b"]);
    let handled = HandledRequest {
        plugin_id: "a".to_string(),
        method: "m".to_string(),
        responded_with_error: false,
    };
    assert_eq!(
        runtime.settle_pump("a", Ok(handled.clone()), Ok(())),
        Ok(handled.clone())
    );
    assert!(runtime.runs("a"));
    let broken = RuntimeError::Io("plugin a stdio error: broken pipe".to_string());
    assert_eq!(
        runtime.settle_pump("a", Ok(handled.clone()), Err(broken.clone())),
        Err(broken.clone())
    );
    assert!(!runtime.runs("a"));
    // a failure of the wait is returned as it is, and nothing was written
    let late = RuntimeError::Timeout {
        plugin_id: "b".to_string(),
        timeout_ms: 2,
    };
    assert_eq!(runtime.settle_pump("b", Err(late.clone()), Ok(())), Err(late));
    assert!(runtime.runs("b"));

    let mut runtime = PluginRuntime::from_manifests(vec![fixture("p")]).unwrap();
    let turn = runtime.start("p", Ok(handshake("p")));
    assert!(runtime.runs("p"));
    // the handshake was accepted, but the response could not be written
    assert_eq!(
        runtime.settle_start("p", turn.result, Err(exited("p", 2))),
        Err(exited("p", 2))
    );
    assert!(!runtime.runs("p"));
    let turn = runtime.start("p", Ok(handshake("p")));
    let result = runtime.settle_start("p", turn.result, Ok(())).unwrap();
    assert_eq!(result.selected_api_version, "1.0.0");
    assert!(runtime.runs("p"));
    let refused = runtime.settle_start(
        "p",
        Err(RuntimeError::Protocol("x".to_string())),
        Ok(()),
    );
    assert_eq!(refused, Err(RuntimeError::Protocol("x".to_string())));
    assert!(!runtime.runs("p"));
}

#[test]
fn a_delivery_says_whether_it_ends_the_broadcast() {
    assert!(!Delivery::Delivered.ends_broadcast());
    assert!(!Delivery::Failed(exited("p", 1)).ends_broadcast());
    assert!(Delivery::Failed(RuntimeError::Io(String::new())).ends_broadcast());
    assert!(Delivery::Failed(RuntimeError::Protocol(String::new())).ends_broadcast());
}

fn loaded(path: &str, id: &str) -> LoadedManifest {
    let found = plugin(path, id, "^1.0.0", &[], &[], &[]);
    LoadedManifest {
        manifest_path: found.manifest_path,
        manifest: Ok(found.manifest),
    }
}

fn unreadable(path: &str) -> LoadedManifest {
    LoadedManifest {
        manifest_path: path.to_string(),
        manifest: Err("expected `=`".to_string()),
    }
}

#[test]
fn the_first_fault_in_the_order_of_the_paths_decides() {
    // a repeated identifier before a manifest that cannot be loaded
    let outcomes = vec![
        loaded("/a/plugin.toml", "x"),
        loaded("/b/plugin.toml", "x"),
        unreadable("/c/plugin.toml"),
    ];
    assert_eq!(
        discover_loaded(outcomes),
        Err(DiscoveryError::DuplicatePluginId {
            id: "x".to_string(),
            first: "/a/plugin.toml".to_string(),
            second: "/b/plugin.toml".to_string(),
        })
    );
    // a manifest that cannot be loaded before a repeated identifier
    let outcomes = || {
        vec![
            loaded("/a/plugin.toml", "x"),
            unreadable("/b/plugin.toml"),
            loaded("/c/plugin.toml", "x"),
            unreadable("/d/plugin.toml"),
        ]
    };
    let err = discover_loaded(outcomes()).unwrap_err();
    assert_eq!(
        err,
        DiscoveryError::LoadFailed {
            path: "/b/plugin.toml".to_string(),
            why: "expected `=`".to_string(),
        }
    );
    assert_eq!(err.message(), "failed to load plugin manifest /b/plugin.toml");
    let (before, failure) = loaded_until_failure(outcomes());
    assert_eq!(before.len(), 1);
    assert_eq!(before[0].manifest.id, "x");
    assert_eq!(failure, Some(err));
    let err = match PluginRuntime::from_loaded(outcomes()) {
        Err(err) => err,
        Ok(_) => panic!("the registry was built"),
    };
    assert_eq!(
        err,
        RuntimeError::Discovery(
            "plugin discovery failed: failed to load plugin manifest /b/plugin.toml".to_string()
        )
    );
    // nothing wrong
    let plugins = discover_loaded(vec![
        loaded("/a/plugin.toml", "z"),
        loaded("/b/plugin.toml", "y"),
    ])
    .unwrap();
    let ids: Vec<&str> = plugins.iter().map(|p| p.manifest.id.as_str()).collect();
    assert_eq!(ids, vec!["y", "z"]);
    let runtime = PluginRuntime::from_loaded(vec![
        loaded("/a/plugin.toml", "z"),
        loaded("/b/plugin.toml", "y"),
    ])
    .unwrap();
    assert_eq!(runtime.plugin_ids(), vec!["y", "z"]);
    assert_eq!(discover_loaded(vec![]), Ok(vec![]));
}

#[test]
fn of_several_incompatible_manifests_the_least_identifier_is_named() {
    let found = vec![
        plugin("/p/1/plugin.toml", "spud.c", "nonsense", &[], &[], &[]),
        fixture("spud.a"),
        plugin("/p/2/plugin.toml", "spud.b", "^2.0.0", &[], &[], &[]),
        plugin("/p/3/plugin.toml", "spud.d", "^3", &[], &[], &[]),
    ];
    let err = match PluginRuntime::from_manifests(found) {
        Err(err) => err,
        Ok(_) => panic!("the registry was built"),
    };
    assert_eq!(
        err,
        RuntimeError::Discovery(
            "plugin spud.b failed compatibility/permission validation: plugin requires host_api ^2.0.0, but host API is 1.0.0"
                .to_string()
        )
    );
}

#[test]
fn broadcast_counts_deliveries_and_removes_crashed_sessions() {
    let mut runtime = started(&["a", "b", "c", "d"]);
    assert_eq!(
        runtime.broadcast_targets(EventCategory::Tick),
        vec!["a".to_string(), "b".to_string(), "c".to_string(), "d".to_string()]
    );
    assert!(runtime.broadcast_targets(EventCategory::Resize).is_empty());
    assert_eq!(
        runtime.notification("a", EventCategory::Resize, None, "{}".to_string()),
        None
    );

    let delivered = runtime.broadcast_event(
        EventCategory::Tick,
        vec![
            Delivery::Delivered,
            Delivery::Failed(exited("b", 9)),
            Delivery::Delivered,
            Delivery::Failed(exited("d", 0)),
        ],
    );
    assert_eq!(delivered, Ok(2));
    assert!(runtime.runs("a"));
    assert!(!runtime.runs("b"));
    assert!(runtime.runs("c"));
    assert!(!runtime.runs("d"));
    assert_eq!(
        runtime.broadcast_targets(EventCategory::Tick),
        vec!["a".to_string(), "c".to_string()]
    );
    assert_eq!(runtime.broadcast_event(EventCategory::Tick, vec![]), Ok(0));
    assert_eq!(
        runtime.broadcast_event(EventCategory::Resize, vec![Delivery::Delivered]),
        Ok(0)
    );
}

#[test]
fn broadcast_stops_at_a_failure_that_is_no_exit() {
    let mut runtime = started(&["a", "b", "c"]);
    let result = runtime.broadcast_event(
        EventCategory::Tick,
        vec![
            Delivery::Failed(exited("a", 2)),
            Delivery::Failed(RuntimeError::Io("plugin b stdio error: broken".to_string())),
            Delivery::Delivered,
        ],
    );
    assert_eq!(
        result,
        Err(RuntimeError::Io(
            "plugin b stdio error: broken".to_string()
        ))
    );
    // nothing is removed, not even the session that was found to have ended
    assert!(runtime.runs("a"));
    assert!(runtime.runs("b"));
    assert!(runtime.runs("c"));
}

#[test]
fn shutdown_ends_sessions() {
    let mut runtime = started(&["a", "b"]);
    assert_eq!(runtime.shutdown_plugin("a"), Ok(()));
    assert!(!runtime.runs("a"));
    assert!(runtime.runs("b"));
    assert_eq!(runtime.shutdown_plugin("a"), Ok(()));
    assert_eq!(
        runtime.shutdown_plugin("x"),
        Err(RuntimeError::UnknownPlugin("x".to_string()))
    );
    runtime.shutdown_all();
    assert!(!runtime.runs("b"));
    assert_eq!(runtime.plugin_ids(), vec!["a", "b"]);
    // a plugin that was shut down starts again with no subscriptions
    assert!(runtime.start("a", Ok(handshake("a"))).result.is_ok());
    assert!(runtime.broadcast_targets(EventCategory::Tick).is_empty());
}

#[test]
fn waiting_for_a_request_never_takes_a_dead_process_for_a_slow_one() {
    let running = ExitPoll::Running;
    let gone = ExitPoll::Exited(None);
    let failed = ExitPoll::Failed("EPERM".to_string());

    assert_eq!(
        next_request("p", Inbound::TimedOut, &running, 250),
        Err(RuntimeError::Timeout {
            plugin_id: "p".to_string(),
            timeout_ms: 250
        })
    );
    assert_eq!(
        next_request("p", Inbound::TimedOut, &gone, 250),
        Err(RuntimeError::ProcessExited {
            plugin_id: "p".to_string(),
            code: None
        })
    );
    assert_eq!(
        next_request("p", Inbound::TimedOut, &failed, 250),
        Err(RuntimeError::Io(
            "failed to poll plugin p process status: EPERM".to_string()
        ))
    );
    assert_eq!(
        next_request("p", Inbound::Event(ReaderEvent::Eof), &running, 250),
        Err(RuntimeError::Io(
            "plugin p request stream ended unexpectedly".to_string()
        ))
    );
    assert_eq!(
        next_request("p", Inbound::Disconnected, &ExitPoll::Exited(Some(1)), 250),
        Err(exited("p", 1))
    );
    assert_eq!(
        next_request(
            "p",
            Inbound::Event(ReaderEvent::ProtocolError("bad".to_string())),
            &gone,
            250
        ),
        Err(RuntimeError::Protocol(
            "plugin p protocol error: bad".to_string()
        ))
    );
    assert_eq!(
        next_request(
            "p",
            Inbound::Event(ReaderEvent::IoError("closed".to_string())),
            &gone,
            250
        ),
        Err(RuntimeError::Io(
            "plugin p stdout read error: closed".to_string()
        ))
    );
    let req = handshake("p");
    assert_eq!(
        next_request(
            "p",
            Inbound::Event(ReaderEvent::Request(req.clone())),
            &gone,
            250
        ),
        Ok(req)
    );
    assert!(Inbound::TimedOut.needs_poll());
    assert!(Inbound::Disconnected.needs_poll());
    assert!(Inbound::Event(ReaderEvent::Eof).needs_poll());
    assert!(!Inbound::Event(ReaderEvent::IoError(String::new())).needs_poll());
    assert_eq!(process_exited_error("p", &failed), RuntimeError::Io("failed to poll plugin p process status: EPERM".to_string()));
}

#[test]
fn failed_writes_are_told_apart_by_the_state_of_the_process() {
    assert_eq!(
        io_error("p", &ExitPoll::Exited(Some(4)), "broken pipe"),
        exited("p", 4)
    );
    assert_eq!(
        io_error("p", &ExitPoll::Running, "broken pipe"),
        RuntimeError::Io("plugin p stdio error: broken pipe".to_string())
    );
    assert_eq!(
        io_error("p", &ExitPoll::Failed("x".to_string()), "broken pipe"),
        RuntimeError::Io("plugin p stdio error: broken pipe".to_string())
    );
    assert!(ExitPoll::Running.calls_for_kill());
    assert!(!ExitPoll::Exited(Some(0)).calls_for_kill());
    assert!(!ExitPoll::Failed(String::new()).calls_for_kill());
}

#[test]
fn reader_skips_blank_lines_and_stops_after_anything_but_a_request() {
    assert!(skips_line(""));
    assert!(skips_line("  \t"));
    assert!(!skips_line(" {} "));
    let req = handshake("p");
    let event = line_event("{...}", Ok(req.clone()));
    assert_eq!(event, ReaderEvent::Request(req));
    assert!(!event.ends_reader());
    let event = line_event("nonsense", Err("expected value".to_string()));
    assert_eq!(
        event,
        ReaderEvent::ProtocolError(
            "invalid JSON-RPC request (expected value): nonsense".to_string()
        )
    );
    assert!(event.ends_reader());
    assert!(ReaderEvent::Eof.ends_reader());
    assert!(ReaderEvent::IoError(String::new()).ends_reader());
    assert_eq!(frame_line("{\"a\":1}"), "{\"a\":1}\n");
}

#[test]
fn command_line_puts_the_interpreter_first() {
    let with = Launch {
        entrypoint: "plugin.sh".to_string(),
        command: Some("sh".to_string()),
        args: vec!["-e".to_string(), "-u".to_string()],
    };
    let plan = launch_plan(&with, "/p/plugin.sh");
    assert_eq!(plan.program, "sh");
    assert_eq!(plan.args, vec!["-e", "-u", "/p/plugin.sh"]);
    assert_eq!(plan.entrypoint_at, Some(2));
    let without = Launch {
        entrypoint: "bin/plugin".to_string(),
        command: None,
        args: vec!["--fast".to_string()],
    };
    let plan = launch_plan(&without, "/p/bin/plugin");
    assert_eq!(plan.program, "/p/bin/plugin");
    assert_eq!(plan.args, vec!["--fast"]);
    assert_eq!(plan.entrypoint_at, None);
}

#[test]
fn spawn_failures_are_spawn_errors() {
    let cases = vec![
        (
            SpawnFailure::NoManifestDirectory("plugin.toml".to_string()),
            "manifest has no parent directory: plugin.toml",
        ),
        (
            SpawnFailure::MissingEntrypoint("/p/x.sh".to_string()),
            "plugin entrypoint does not exist: /p/x.sh",
        ),
        (
            SpawnFailure::NotStarted {
                plugin_id: "p".to_string(),
                why: "ENOENT".to_string(),
            },
            "failed to spawn plugin p process: ENOENT",
        ),
        (
            SpawnFailure::NoInputPipe("p".to_string()),
            "failed to capture plugin p stdin pipe",
        ),
        (
            SpawnFailure::NoOutputPipe("p".to_string()),
            "failed to capture plugin p stdout pipe",
        ),
    ];
    for (failure, text) in cases {
        assert_eq!(failure.to_error(), RuntimeError::Spawn(text.to_string()));
    }
}

#[test]
fn runtime_errors_say_what_went_wrong() {
    let cases = vec![
        (RuntimeError::Discovery("d".to_string()), "d"),
        (RuntimeError::Spawn("s".to_string()), "s"),
        (
            RuntimeError::UnknownPlugin("p".to_string()),
            "unknown plugin id: p",
        ),
        (
            RuntimeError::AlreadyRunning("p".to_string()),
            "plugin is already running: p",
        ),
        (
            RuntimeError::NotRunning("p".to_string()),
            "plugin is not running: p",
        ),
        (
            RuntimeError::Timeout {
                plugin_id: "p".to_string(),
                timeout_ms: 2000,
            },
            "timed out waiting for plugin p request after 2000ms",
        ),
        (exited("p", 17), "plugin process exited: p (code=Some(17))"),
        (exited("p", -1), "plugin process exited: p (code=Some(-1))"),
        (
            exited("p", i32::MIN),
            "plugin process exited: p (code=Some(-2147483648))",
        ),
        (
            RuntimeError::ProcessExited {
                plugin_id: "p".to_string(),
                code: None,
            },
            "plugin process exited: p (code=None)",
        ),
        (RuntimeError::Protocol("x".to_string()), "x"),
        (RuntimeError::Io("y".to_string()), "y"),
    ];
    for (err, text) in cases {
        assert_eq!(err.message(), text);
    }
    assert!(exited("p", 0).is_process_exit());
    assert!(!RuntimeError::Io(String::new()).is_process_exit());
    let handled = HandledRequest {
        plugin_id: "p".to_string(),
        method: "m".to_string(),
        responded_with_error: false,
    };
    assert_eq!(handled.clone(), handled);
}
