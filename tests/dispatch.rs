use psqlx::discovery::DiscoveryError;
use psqlx::dispatch::{Host, ResultCode};
use psqlx::gate::{GateAction, GateState};
use psqlx::loader::load_descriptor;
use psqlx::registry::{Origin, PluginDescriptor};

type Handler = fn(&str) -> ResultCode;

fn demo_execute(cmd: &str) -> ResultCode {
    if cmd == "alpha" {
        ResultCode::Success
    } else if cmd == "beta" {
        ResultCode::SkipLine
    } else {
        ResultCode::Error
    }
}

fn other_execute(_cmd: &str) -> ResultCode {
    ResultCode::RequestReedit
}

fn embedded(name: &str, cmds: &str, h: Handler) -> PluginDescriptor<Handler> {
    PluginDescriptor::new(name.to_string(), cmds, h, Origin::Embedded).unwrap()
}

fn ready_host(
    embedded: Vec<PluginDescriptor<Handler>>,
    discovered: Vec<Result<PluginDescriptor<Handler>, psqlx::loader::LoadError>>,
) -> Host<Handler> {
    let mut host = Host::new();
    assert_eq!(host.begin_initialization(), GateAction::RunPass);
    host.complete_initialization(embedded, Ok(discovered)).unwrap();
    host
}

fn run(host: &Host<Handler>, cmd: &str) -> ResultCode {
    host.execute_command(Some(cmd.as_bytes()), |h: &Handler, c: &str| h(c))
}

#[test]
fn demo_module_scenario() {
    let demo = load_descriptor(
        "/plugins/libdemo.so".to_string(),
        Some(Some(&b"demo"[..])),
        Some(Some(&b"alpha,beta"[..])),
        Some(demo_execute as Handler),
    )
    .unwrap();
    let host = ready_host(Vec::new(), vec![Ok(demo)]);
    assert!(host.has_command(Some(&b"alpha"[..])));
    assert!(!host.has_command(Some(&b"gamma"[..])));
    assert_eq!(run(&host, "alpha"), ResultCode::Success);
    assert_eq!(run(&host, "beta"), ResultCode::SkipLine);
}

#[test]
fn malformed_module_is_skipped_alone() {
    let broken = load_descriptor::<Handler>(
        "/plugins/libbroken.so".to_string(),
        Some(Some(&b"broken"[..])),
        Some(Some(&b"delta"[..])),
        None,
    );
    let good = load_descriptor(
        "/plugins/libdemo.so".to_string(),
        Some(Some(&b"demo"[..])),
        Some(Some(&b"alpha,beta"[..])),
        Some(demo_execute as Handler),
    );
    assert!(broken.is_err());
    let mut host = Host::new();
    host.begin_initialization();
    let skipped = host.complete_initialization(Vec::new(), Ok(vec![broken, good])).unwrap();
    assert_eq!(skipped.len(), 1);
    assert_eq!(host.gate_state(), GateState::Ready(true));
    assert!(!host.has_command(Some(&b"delta"[..])));
    assert!(host.has_command(Some(&b"alpha"[..])));
}

#[test]
fn every_owned_command_reaches_its_plugin() {
    let mut host: Host<char> = Host::new();
    host.begin_initialization();
    let a = PluginDescriptor::new("a".to_string(), "one,two", 'a', Origin::Embedded).unwrap();
    let b = PluginDescriptor::new("b".to_string(), "three", 'b', Origin::Embedded).unwrap();
    host.complete_initialization(vec![a, b], Ok(Vec::new())).unwrap();
    for (cmd, tag) in [("one", 'a'), ("two", 'a'), ("three", 'b')] {
        assert!(host.has_command(Some(cmd.as_bytes())));
        let mut reached = ' ';
        let r = host.execute_command(Some(cmd.as_bytes()), |h: &char, c: &str| {
            reached = *h;
            assert_eq!(c, cmd);
            if *h == 'a' { ResultCode::Success } else { ResultCode::SkipLine }
        });
        assert_eq!(reached, tag);
        assert_eq!(r, if tag == 'a' { ResultCode::Success } else { ResultCode::SkipLine });
    }
}

#[test]
fn disjoint_plugins_never_cross_invoke() {
    let host = ready_host(
        vec![embedded("a", "x", demo_execute), embedded("b", "y", other_execute)],
        Vec::new(),
    );
    let mut calls: Vec<String> = Vec::new();
    host.execute_command(Some(&b"x"[..]), |_h: &Handler, c: &str| {
        calls.push(format!("a:{}", c));
        ResultCode::Success
    });
    let r = host.execute_command(Some(&b"y"[..]), |h: &Handler, c: &str| {
        calls.push(format!("b:{}", c));
        h(c)
    });
    assert_eq!(calls, vec!["a:x".to_string(), "b:y".to_string()]);
    assert_eq!(r, ResultCode::RequestReedit);
}

#[test]
fn empty_directory_keeps_embedded_plugins() {
    let host = ready_host(vec![embedded("ai", "generate,fix", other_execute)], Vec::new());
    assert!(host.has_command(Some(&b"generate"[..])));
    assert!(host.has_command(Some(&b"fix"[..])));
    assert_eq!(run(&host, "fix"), ResultCode::RequestReedit);
    assert_eq!(host.registry().len(), 1);
}

#[test]
fn rejected_inputs_are_never_commands() {
    let before: Host<Handler> = Host::new();
    assert!(!before.has_command(Some(&b"generate"[..])));
    let host = ready_host(vec![embedded("ai", "generate,fix", other_execute)], Vec::new());
    assert!(!host.has_command(Some(&b""[..])));
    assert!(!host.has_command(None));
    let bad: [u8; 2] = [0xff, 0xfe];
    assert!(!host.has_command(Some(&bad[..])));
    assert_eq!(
        host.execute_command(Some(&bad[..]), |h: &Handler, c: &str| h(c)),
        ResultCode::Error
    );
    assert_eq!(host.execute_command(None, |h: &Handler, c: &str| h(c)), ResultCode::Error);
}

#[test]
fn unknown_command_leaves_buffer_untouched() {
    let host = ready_host(vec![embedded("ai", "generate,fix", other_execute)], Vec::new());
    let mut pending = b"select 1;".to_vec();
    let r = host.execute_command(Some(&b"nope"[..]), |_h: &Handler, _c: &str| {
        pending.clear();
        pending.extend_from_slice(b"changed");
        ResultCode::RequestReedit
    });
    assert_eq!(r, ResultCode::UnknownCommand);
    assert_eq!(pending, b"select 1;".to_vec());
}

#[test]
fn failed_initialization_hides_every_plugin() {
    let mut host = Host::new();
    host.begin_initialization();
    let e = DiscoveryError::CreateDir { path: "/p".to_string(), reason: "read-only".to_string() };
    assert!(host
        .complete_initialization(vec![embedded("ai", "generate", other_execute)], Err(e))
        .is_err());
    assert_eq!(host.gate_state(), GateState::Ready(false));
    assert_eq!(host.begin_initialization(), GateAction::Done(false));
    assert!(!host.has_command(Some(&b"generate"[..])));
    assert_eq!(run(&host, "generate"), ResultCode::UnknownCommand);
}

#[test]
fn simultaneous_first_callers_run_one_pass() {
    let mut host: Host<Handler> = Host::new();
    let answers: Vec<GateAction> = (0..16).map(|_| host.begin_initialization()).collect();
    assert_eq!(answers.iter().filter(|a| **a == GateAction::RunPass).count(), 1);
    host.complete_initialization(vec![embedded("ai", "generate,fix", other_execute)], Ok(Vec::new()))
        .unwrap();
    for _ in 0..16 {
        assert_eq!(host.begin_initialization(), GateAction::Done(true));
        assert!(host.has_command(Some(&b"fix"[..])));
    }
    assert_eq!(host.registry().len(), 1);
}
