use judge_agent::agent::{Action, AgentError, SessionState};
use judge_agent::config::{CompilationConfig, Config, TestConfig};
use judge_agent::models::{Compilation, Preparation, Request, TestRequest};
use judge_agent::Agent;

fn compile_config() -> CompilationConfig {
    CompilationConfig {
        path: String::new(),
        ext: ".rs".to_string(),
        output: String::new(),
        cmd: "rustc".to_string(),
        args: vec![
            "-O".to_string(),
            "-o".to_string(),
            "<output>".to_string(),
            "<path>".to_string(),
        ],
    }
}

fn test_config() -> TestConfig {
    TestConfig {
        path: String::new(),
        ext: String::new(),
        cmd: String::new(),
        args: Vec::new(),
    }
}

#[test]
fn templating_fills_empty_paths_and_sentinels() {
    let agent = Agent::new(
        Config {
            compile: Some(compile_config()),
            test: None,
        },
        "/tmp/prefix42",
    );
    let c = agent.config.compile.as_ref().unwrap();
    assert_eq!(c.path, "/tmp/prefix42.rs");
    assert_eq!(c.output, "/tmp/prefix42");
    assert_eq!(c.cmd, "rustc");
    assert_eq!(
        c.args,
        vec!["-O", "-o", "/tmp/prefix42", "/tmp/prefix42.rs"]
    );
}

#[test]
fn templating_keeps_explicit_paths() {
    let mut cfg = compile_config();
    cfg.path = "/srv/main.rs".to_string();
    cfg.output = "/srv/main".to_string();
    let agent = Agent::new(
        Config {
            compile: Some(cfg),
            test: None,
        },
        "/tmp/prefix42",
    );
    let c = agent.config.compile.as_ref().unwrap();
    assert_eq!(c.path, "/srv/main.rs");
    assert_eq!(c.output, "/srv/main");
    assert_eq!(c.args, vec!["-O", "-o", "/srv/main", "/srv/main.rs"]);
}

#[test]
fn templating_test_cmd_defaults_to_path() {
    let mut tcfg = test_config();
    tcfg.args = vec!["<path>".to_string(), "<output>".to_string()];
    let agent = Agent::new(
        Config {
            compile: None,
            test: Some(tcfg),
        },
        "/tmp/prefix42",
    );
    let t = agent.config.test.as_ref().unwrap();
    assert_eq!(t.path, "/tmp/prefix42");
    assert_eq!(t.cmd, "/tmp/prefix42");
    // A test tool has no output file: its sentinel resolves to nothing.
    assert_eq!(t.args, vec!["/tmp/prefix42", ""]);
}

#[test]
fn session_compile_is_one_shot() {
    let mut agent = Agent::new(
        Config {
            compile: Some(compile_config()),
            test: None,
        },
        "/tmp/prefix42",
    );
    let req = Compilation {
        code: b"fn main() {}".to_vec(),
        time_limit: 10,
        memory_limit: 64,
    };
    match agent.start(Request::Compilation(req.clone())) {
        Ok(Action::Compile(c)) => assert_eq!(c, req),
        other => panic!("unexpected: {:?}", other),
    }
    assert_eq!(agent.state, SessionState::Ended);
    let late = agent.start(Request::Test(TestRequest { input: vec![] }));
    assert_eq!(late, Err(AgentError::SessionEnded));
}

#[test]
fn session_prepare_then_tests_then_fin() {
    let mut agent = Agent::new(
        Config {
            compile: None,
            test: Some(test_config()),
        },
        "/tmp/prefix42",
    );
    let prep = Preparation {
        code: vec![1, 2, 3],
        time_limit: 10,
        memory_limit: 64,
        output_limit: 1,
    };
    match agent.start(Request::Preparation(prep)) {
        Ok(Action::WriteExecutable(code)) => assert_eq!(code, vec![1, 2, 3]),
        other => panic!("unexpected: {:?}", other),
    }
    assert_eq!(agent.state, SessionState::Ready);
    assert_eq!(agent.time_limit, 10);
    assert_eq!(agent.memory_limit, 64);
    assert_eq!(agent.output_limit, 1 << 20);

    match agent.start(Request::Test(TestRequest {
        input: b"1\n".to_vec(),
    })) {
        Ok(Action::RunTest(input)) => assert_eq!(input, b"1\n".to_vec()),
        other => panic!("unexpected: {:?}", other),
    }
    assert_eq!(agent.state, SessionState::Ready);

    assert_eq!(agent.start(Request::Fin), Ok(Action::Finish));
    assert_eq!(agent.state, SessionState::Ended);
    // After Fin nothing is accepted, so nothing more is ever sent.
    assert_eq!(
        agent.start(Request::Test(TestRequest { input: vec![] })),
        Err(AgentError::SessionEnded)
    );
}

#[test]
fn session_invalid_first_message_is_fatal() {
    let mut agent = Agent::new(
        Config {
            compile: None,
            test: Some(test_config()),
        },
        "/tmp/prefix42",
    );
    let r = agent.start(Request::Test(TestRequest { input: vec![] }));
    assert_eq!(r, Err(AgentError::InvalidFirstMessage));
    assert_eq!(agent.state, SessionState::Ended);
}

#[test]
fn session_ready_rejects_non_test() {
    let mut agent = Agent::new(
        Config {
            compile: None,
            test: Some(test_config()),
        },
        "/tmp/prefix42",
    );
    let prep = Preparation {
        code: vec![],
        time_limit: 1,
        memory_limit: 1,
        output_limit: 1,
    };
    agent.start(Request::Preparation(prep.clone())).unwrap();
    let r = agent.start(Request::Preparation(prep));
    assert_eq!(r, Err(AgentError::TestRequestRequired));
    assert_eq!(agent.state, SessionState::Ended);
}

#[test]
fn cleanup_lists_every_temp_path() {
    let agent = Agent::new(
        Config {
            compile: Some(compile_config()),
            test: Some(test_config()),
        },
        "/tmp/prefix42",
    );
    let paths = agent.cleanup_paths();
    assert_eq!(
        paths,
        vec!["/tmp/prefix42.rs", "/tmp/prefix42", "/tmp/prefix42"]
    );
}

#[test]
fn cleanup_skips_empty_source_path() {
    // A half-built configuration: the compile source path is empty, so
    // only the output path is unlinked.
    let agent = Agent {
        config: Config {
            compile: Some(CompilationConfig {
                path: String::new(),
                ext: String::new(),
                output: "/tmp/out".to_string(),
                cmd: "cc".to_string(),
                args: vec![],
            }),
            test: None,
        },
        time_limit: 0,
        memory_limit: 0,
        output_limit: 0,
        state: SessionState::Start,
    };
    assert_eq!(agent.cleanup_paths(), vec!["/tmp/out"]);
}
