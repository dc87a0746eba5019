use heisenberg::heisenberg::actions::{parse_action, response_is_malformed, AgentAction};
use heisenberg::heisenberg::repl::{classify_input, edit_command, ReplCommand};
use heisenberg::jesse::output::ExecutionResult;
use heisenberg::jesse::runner::{cap_output, JesseRunner, TRUNCATION_MARK};
use heisenberg::jesse::sandbox::{validate_script, SandboxError};
use heisenberg::mike::MemoryPressure;
use heisenberg::saul::config::{Config, DEFAULT_MAX_RAM, DEFAULT_TEMPERATURE_BITS};
use heisenberg::saul::policy::{PolicyEngine, PolicyError};
use heisenberg::the_lab::engine::{generation_tokens, InferenceEngine};
use heisenberg::the_lab::gguf::{plan_turbo_quant, GgufModelInfo, PromptFormat, QuantType};
use heisenberg::the_lab::prompt::ChatMessage;
use heisenberg::the_lab::server::server_args;

fn config() -> Config {
    Config::with_detected("models/m.gguf", "llama-server", "/tmp/heisenberg", Some(16))
}

fn llama_model() -> GgufModelInfo {
    GgufModelInfo {
        path: "models/llama-3.1-8b-q4_k_m.gguf".to_string(),
        filename: "llama-3.1-8b-q4_k_m.gguf".to_string(),
        file_size_bytes: 4_900_000_000,
        architecture: "llama".to_string(),
        param_count: 8_030_000_000,
        quant_type: QuantType::Q4_K_M,
        prompt_format: PromptFormat::Llama3,
        context_length: 8192,
        embedding_dim: 4096,
        head_count: 32,
        head_count_kv: 8,
        layer_count: 32,
    }
}

#[test]
fn default_configuration() {
    let c = config();
    assert_eq!(c.agent.name, "Heisenberg");
    assert_eq!(c.agent.max_ram_bytes, DEFAULT_MAX_RAM);
    assert_eq!(c.inference.server_port, 34884);
    assert_eq!(c.inference.threads, 2);
    assert_eq!(f32::from_bits(c.inference.temperature_bits), 0.7f32);
    assert_eq!(c.inference.temperature_bits, DEFAULT_TEMPERATURE_BITS);
    assert_eq!(c.execution.work_dir, "/tmp/heisenberg");
    assert_eq!(c.execution.max_output_bytes, 65536);
    assert_eq!(c.database.port, 5432);
    let one = Config::with_detected("m", "b", "w", Some(1));
    assert_eq!(one.inference.threads, 1);
    let unknown = Config::with_detected("m", "b", "w", None);
    assert_eq!(unknown.inference.threads, 2);
}

#[test]
fn policy_from_configuration() {
    let mut c = config();
    let p = PolicyEngine::from_config(&c);
    assert!(!p.allow_external_writes);
    assert!(!p.allow_network);
    assert_eq!(p.max_exec_secs, 30);
    assert!(matches!(p.check_browser(), Err(PolicyError::BrowserDisabled)));
    assert!(matches!(
        p.check_self_modification(),
        Err(PolicyError::SelfModificationDisabled)
    ));
    c.execution.browser_enabled = true;
    c.agent.self_improvement = true;
    let q = PolicyEngine::from_config(&c);
    assert!(q.check_browser().is_ok());
    assert!(q.check_self_modification().is_ok());
}

#[test]
fn policy_paths() {
    let p = PolicyEngine::from_config(&config());
    assert!(p
        .check_path("/tmp/heisenberg/a.txt", "/tmp/heisenberg", "/tmp/heisenberg/a.txt", "/tmp/heisenberg")
        .is_ok());
    let e = p.check_path("../etc/passwd", "/tmp/heisenberg", "/etc/passwd", "/tmp/heisenberg");
    match e {
        Err(err @ PolicyError::OutsideWorkDir { .. }) => assert_eq!(
            err.message(),
            "Policy violation: path '../etc/passwd' is outside work dir '/tmp/heisenberg'"
        ),
        other => panic!("unexpected: {:?}", other),
    }
    // Whole components only: a sibling with a longer name is outside.
    assert!(p.check_path("x", "w", "/tmp/heisenberg2/x", "/tmp/heisenberg").is_err());
    let open = PolicyEngine { allow_external_writes: true, ..p };
    assert!(open.check_path("x", "w", "/etc/passwd", "/tmp/heisenberg").is_ok());
}

#[test]
fn policy_messages() {
    assert_eq!(
        PolicyError::BrowserDisabled.message(),
        "Policy: browser automation is disabled. Enable via config."
    );
    assert_eq!(
        PolicyError::SelfModificationDisabled.message(),
        "Policy: self-modification is disabled. Set agent.self_improvement = true in config."
    );
}

#[test]
fn sandbox_refuses_destructive_scripts() {
    assert!(validate_script("ls -la && echo ok").is_ok());
    let e = validate_script("sudo rm -rf / --no-preserve-root").unwrap_err();
    assert!(matches!(&e, SandboxError::Blocked(p) if p == "rm -rf /"));
    assert_eq!(e.message(), "Blocked dangerous pattern: 'rm -rf /'");
    let f = validate_script("mkfs.ext4 /dev/sda; :(){:|:&};:").unwrap_err();
    assert!(matches!(&f, SandboxError::Blocked(p) if p == "mkfs"));
    let g = validate_script(":(){:|:&};:").unwrap_err();
    assert!(matches!(&g, SandboxError::Blocked(p) if p == ":(){:|:&};:"));
    assert!(validate_script("dd if=/dev/zero of=/dev/sda").is_err());
}

#[test]
fn output_is_capped_and_marked() {
    assert_eq!(cap_output("hello".to_string(), 5), "hello");
    assert_eq!(cap_output("hello world".to_string(), 5), format!("hello{}", TRUNCATION_MARK));
    assert_eq!(cap_output("héllo".to_string(), 3), format!("hé{}", TRUNCATION_MARK));
}

#[test]
fn runner_finishes_a_run() {
    let mut c = config();
    c.execution.max_output_bytes = 4;
    let r = JesseRunner::new(&c);
    assert_eq!(r.work_dir(), "/tmp/heisenberg");
    assert_eq!(r.timeout_secs(), 30);
    assert_eq!(r.max_output_bytes(), 4);
    assert!(!r.policy().allow_browser);
    let res = r.finish(None, "abcdef".to_string(), "".to_string(), 12);
    assert_eq!(res.exit_code, -1);
    assert_eq!(res.stdout, format!("abcd{}", TRUNCATION_MARK));
    assert_eq!(res.stderr, "");
    assert_eq!(res.elapsed_ms, 12);
    let ok = r.finish(Some(0), "ok".to_string(), "".to_string(), 3);
    assert!(ok.success());
}

#[test]
fn execution_result_text() {
    let r = ExecutionResult {
        exit_code: 2,
        stdout: "out".to_string(),
        stderr: "err".to_string(),
        elapsed_ms: 15,
    };
    assert!(!r.success());
    assert_eq!(r.combined_output(), "out\n[stderr]: err");
    assert_eq!(r.summary(), "[FAIL] exit=2 elapsed=15ms stdout_len=3");
    let ok = ExecutionResult { exit_code: 0, stdout: "é".to_string(), stderr: String::new(), elapsed_ms: 0 };
    assert_eq!(ok.combined_output(), "é");
    assert_eq!(ok.summary(), "[OK] exit=0 elapsed=0ms stdout_len=2");
    let neg = ExecutionResult { exit_code: -9, stdout: String::new(), stderr: String::new(), elapsed_ms: 1 };
    assert_eq!(neg.summary(), "[FAIL] exit=-9 elapsed=1ms stdout_len=0");
}

#[test]
fn actions_from_replies() {
    assert!(matches!(
        parse_action("Let me look.\n<execute>  ls -la </execute>"),
        AgentAction::Execute(c) if c == "ls -la"
    ));
    assert!(matches!(
        parse_action("<browse>https://example.com</browse>"),
        AgentAction::Browse(u) if u == "https://example.com"
    ));
    assert!(matches!(parse_action("<capture_screen></capture_screen>"), AgentAction::CaptureScreen));
    match parse_action("<write_file path=\"/tmp/a.txt\">\n  hello\n</write_file>") {
        AgentAction::WriteFile { path, content } => {
            assert_eq!(path, "/tmp/a.txt");
            assert_eq!(content, "hello");
        }
        other => panic!("unexpected: {:?}", other),
    }
    assert!(matches!(
        parse_action("<delete_file path=\"/tmp/a.txt\" />"),
        AgentAction::DeleteFile(p) if p == "/tmp/a.txt"
    ));
    match parse_action("<edit_file path=\"/tmp/a.txt\" mode=\"append\">more</edit_file>") {
        AgentAction::EditFile { path, mode, content } => {
            assert_eq!(path, "/tmp/a.txt");
            assert_eq!(mode, "append");
            assert_eq!(content, "more");
        }
        other => panic!("unexpected: {:?}", other),
    }
    assert!(matches!(
        parse_action("<patch> diff </patch>"),
        AgentAction::Patch(p) if p == "diff"
    ));
    assert!(matches!(parse_action("All done."), AgentAction::Done));
    // A closing tag before the opening one is no request.
    assert!(matches!(parse_action("</execute><execute>"), AgentAction::Done));
    // Execution wins over a file request in the same reply.
    assert!(matches!(
        parse_action("<delete_file path=\"x\" /><execute>pwd</execute>"),
        AgentAction::Execute(c) if c == "pwd"
    ));
}

#[test]
fn malformed_edit_requests_are_detected() {
    assert!(response_is_malformed("<edit_file path=\"a\""));
    assert!(!response_is_malformed("<edit_file path=\"a\" mode=\"append\">x</edit_file>"));
    assert!(!response_is_malformed("plain text"));
    assert!(!response_is_malformed("<execute>ls</execute><edit_file path=\"a\""));
}

#[test]
fn repl_commands() {
    assert_eq!(classify_input(""), ReplCommand::End);
    assert_eq!(classify_input("   \n"), ReplCommand::End);
    assert_eq!(classify_input("/q"), ReplCommand::Quit);
    assert_eq!(classify_input(" exit "), ReplCommand::Quit);
    assert_eq!(classify_input("quit\n"), ReplCommand::Quit);
    assert_eq!(classify_input("/status"), ReplCommand::Status);
    assert_eq!(classify_input("/clear"), ReplCommand::Clear);
    assert_eq!(classify_input("/turbo"), ReplCommand::Turbo);
    assert_eq!(classify_input("/model"), ReplCommand::Model);
    assert_eq!(classify_input("?"), ReplCommand::Help);
    assert_eq!(classify_input("/commands"), ReplCommand::Help);
    assert_eq!(classify_input("/nope"), ReplCommand::Unknown);
    assert_eq!(classify_input("hello there"), ReplCommand::Message);
}

#[test]
fn edit_commands() {
    assert_eq!(edit_command("/tmp/a", "append", "it's"), "echo 'it'\\''s' >> /tmp/a");
    assert_eq!(
        edit_command("/tmp/a", "replace", "x"),
        "echo 'Edit mode \"replace\" requires Bash implementation' && exit 1"
    );
}

#[test]
fn engine_state_follows_the_installed_model() {
    let c = config();
    let mut e = InferenceEngine::new(c.inference);
    assert_eq!(e.prompt_format(), PromptFormat::ChatML);
    assert!(e.active_plan().is_none());
    assert!(e.model_info().is_none());
    assert_eq!(e.base_context(), 4096);
    let m = llama_model();
    let plan = plan_turbo_quant(&m, 3_221_225_472);
    e.install(m, plan);
    assert_eq!(e.prompt_format(), PromptFormat::Llama3);
    assert_eq!(e.base_context(), 8192);
    assert_eq!(e.model_info().unwrap().filename, "llama-3.1-8b-q4_k_m.gguf");
    let params = e.completion_params(&[ChatMessage::user("Hi")], 2048, MemoryPressure::High);
    assert!(params.prompt.starts_with("<|begin_of_text|>"));
    assert_eq!(params.n_predict, 512);
    assert_eq!(params.stop, vec!["<|eot_id|>".to_string()]);
    assert_eq!(params.n_ctx, 2048);
    e.clear();
    assert!(e.active_plan().is_none());
    assert_eq!(e.prompt_format(), PromptFormat::Llama3);
    assert_eq!(e.config().context_length, 4096);
}

#[test]
fn generation_budget_under_pressure() {
    assert_eq!(generation_tokens(1024, MemoryPressure::Normal), 1024);
    assert_eq!(generation_tokens(1024, MemoryPressure::Elevated), 1024);
    assert_eq!(generation_tokens(1024, MemoryPressure::High), 512);
    assert_eq!(generation_tokens(1024, MemoryPressure::Critical), 256);
}

#[test]
fn server_command_line() {
    let m = llama_model();
    let plan = plan_turbo_quant(&m, 3_221_225_472);
    let args = server_args("models/llama.gguf", 2, 0, 34884, &plan);
    let expected: Vec<String> = [
        "--model", "models/llama.gguf", "--ctx-size", "8192", "--threads", "2", "--batch-size",
        "512", "--n-gpu-layers", "0", "--port", "34884", "--host", "127.0.0.1",
        "--cache-type-k", "q8_0", "--cache-type-v", "q8_0", "--log-disable", "--no-warmup",
        "--flash-attn", "on",
    ]
    .iter()
    .map(|s| s.to_string())
    .collect();
    assert_eq!(args, expected);
}
