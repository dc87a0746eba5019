use heisenberg::the_lab::gguf::{plan_turbo_quant, PromptFormat, QuantType};
use heisenberg::the_lab::gguf_header::{parse_gguf_header, GgufError};

fn push_string(out: &mut Vec<u8>, s: &str) {
    out.extend_from_slice(&(s.len() as u64).to_le_bytes());
    out.extend_from_slice(s.as_bytes());
}

fn push_u32_entry(out: &mut Vec<u8>, key: &str, value: u32) {
    push_string(out, key);
    out.extend_from_slice(&4u32.to_le_bytes());
    out.extend_from_slice(&value.to_le_bytes());
}

fn header(count: u64) -> Vec<u8> {
    let mut out = Vec::new();
    out.extend_from_slice(b"GGUF");
    out.extend_from_slice(&3u32.to_le_bytes());
    out.extend_from_slice(&0u64.to_le_bytes());
    out.extend_from_slice(&count.to_le_bytes());
    out
}

fn qwen_header() -> Vec<u8> {
    let mut out = header(9);
    push_string(&mut out, "general.architecture");
    out.extend_from_slice(&8u32.to_le_bytes());
    push_string(&mut out, "qwen2");
    // A float value, skipped.
    push_string(&mut out, "general.rope_scale");
    out.extend_from_slice(&6u32.to_le_bytes());
    out.extend_from_slice(&1.0f32.to_le_bytes());
    // An array of two strings, skipped.
    push_string(&mut out, "tokenizer.ggml.tokens");
    out.extend_from_slice(&9u32.to_le_bytes());
    out.extend_from_slice(&8u32.to_le_bytes());
    out.extend_from_slice(&2u64.to_le_bytes());
    push_string(&mut out, "<s>");
    push_string(&mut out, "</s>");
    push_u32_entry(&mut out, "qwen2.context_length", 32768);
    push_u32_entry(&mut out, "qwen2.embedding_length", 2048);
    push_u32_entry(&mut out, "qwen2.attention.head_count", 16);
    push_u32_entry(&mut out, "qwen2.attention.head_count_kv", 2);
    push_u32_entry(&mut out, "qwen2.block_count", 36);
    // An array of u32 values, skipped in one step.
    push_string(&mut out, "tokenizer.ggml.token_type");
    out.extend_from_slice(&9u32.to_le_bytes());
    out.extend_from_slice(&4u32.to_le_bytes());
    out.extend_from_slice(&3u64.to_le_bytes());
    for v in [1u32, 2, 3] {
        out.extend_from_slice(&v.to_le_bytes());
    }
    out
}

#[test]
fn test_real_model_if_exists() {
    let model_path = std::path::Path::new("models/Qwen2.5-3B-Instruct-Q4_K_M.gguf");
    if !model_path.exists() {
        println!("Skipping: model file not found");
        return;
    }
    let runtime = tokio::runtime::Runtime::new().expect("Failed to start a runtime");
    let data = runtime
        .block_on(tokio::fs::read(model_path))
        .expect("Failed to parse real GGUF");
    let info = parse_gguf_header(
        "models/Qwen2.5-3B-Instruct-Q4_K_M.gguf",
        "Qwen2.5-3B-Instruct-Q4_K_M.gguf",
        data.len() as u64,
        &data,
    )
    .expect("Failed to parse real GGUF");
    println!("=== REAL MODEL TEST ===");
    println!("Arch: {}", info.architecture);
    println!("Quant: {}", info.quant_type.name());
    println!("Format: {:?}", info.prompt_format);
    println!("Context: {}", info.context_length);

    let plan = plan_turbo_quant(&info, 3_221_225_472);
    let total_mb = plan.estimated_total_bytes as f64 / 1_048_576.0;
    assert!(total_mb <= 3072.0, "Plan exceeds 3GB: {:.0}MB", total_mb);
    assert!(info.architecture.to_lowercase().contains("qwen"));
    assert!(matches!(info.prompt_format, PromptFormat::ChatML));
}

#[test]
fn parses_a_built_header() {
    let data = qwen_header();
    let info = parse_gguf_header(
        "/models/Qwen2.5-3B-Instruct-Q4_K_M.gguf",
        "Qwen2.5-3B-Instruct-Q4_K_M.gguf",
        1_929_000_000,
        &data,
    )
    .unwrap();
    assert_eq!(info.path, "/models/Qwen2.5-3B-Instruct-Q4_K_M.gguf");
    assert_eq!(info.filename, "Qwen2.5-3B-Instruct-Q4_K_M.gguf");
    assert_eq!(info.file_size_bytes, 1_929_000_000);
    assert_eq!(info.architecture, "qwen2");
    assert_eq!(info.quant_type, QuantType::Q4_K_M);
    assert_eq!(info.prompt_format, PromptFormat::ChatML);
    assert_eq!(info.param_count, 3_429_333_333);
    assert_eq!(info.context_length, 32768);
    assert_eq!(info.embedding_dim, 2048);
    assert_eq!(info.head_count, 16);
    assert_eq!(info.head_count_kv, 2);
    assert_eq!(info.layer_count, 36);
}

#[test]
fn empty_metadata_gives_defaults() {
    let data = header(0);
    let info = parse_gguf_header("m.gguf", "m.gguf", 450, &data).unwrap();
    assert_eq!(info.architecture, "unknown");
    assert_eq!(info.context_length, 4096);
    assert_eq!(info.layer_count, 0);
    assert_eq!(info.param_count, 800);
}

#[test]
fn unknown_value_type_ends_the_reading() {
    let mut data = header(3);
    push_u32_entry(&mut data, "llama.block_count", 32);
    push_string(&mut data, "weird.key");
    data.extend_from_slice(&77u32.to_le_bytes());
    push_u32_entry(&mut data, "llama.context_length", 8192);
    let info = parse_gguf_header("m.gguf", "m.gguf", 0, &data).unwrap();
    assert_eq!(info.layer_count, 32);
    assert_eq!(info.context_length, 4096);
}

#[test]
fn metadata_count_limits_the_entries_read() {
    let mut data = header(1);
    push_u32_entry(&mut data, "llama.block_count", 32);
    push_u32_entry(&mut data, "llama.context_length", 8192);
    let info = parse_gguf_header("m.gguf", "m.gguf", 0, &data).unwrap();
    assert_eq!(info.layer_count, 32);
    assert_eq!(info.context_length, 4096);
}

#[test]
fn rejects_a_wrong_magic() {
    let mut data = header(0);
    data[0] = b'X';
    let magic = u32::from_le_bytes([b'X', b'G', b'U', b'F']);
    assert_eq!(
        parse_gguf_header("m", "m", 0, &data).err(),
        Some(GgufError::NotGguf(magic))
    );
}

#[test]
fn rejects_short_input() {
    assert_eq!(parse_gguf_header("m", "m", 0, b"GG").err(), Some(GgufError::Truncated));
    let data = header(0);
    assert_eq!(
        parse_gguf_header("m", "m", 0, &data[..20]).err(),
        Some(GgufError::Truncated)
    );
}

#[test]
fn rejects_a_truncated_wanted_value() {
    let mut data = header(1);
    push_string(&mut data, "llama.block_count");
    data.extend_from_slice(&4u32.to_le_bytes());
    data.extend_from_slice(&[1, 2]);
    assert_eq!(parse_gguf_header("m", "m", 0, &data).err(), Some(GgufError::Truncated));
}

#[test]
fn rejects_an_overlong_architecture() {
    let mut data = header(1);
    push_string(&mut data, "general.architecture");
    data.extend_from_slice(&8u32.to_le_bytes());
    data.extend_from_slice(&2_000_000u64.to_le_bytes());
    assert_eq!(
        parse_gguf_header("m", "m", 0, &data).err(),
        Some(GgufError::StringTooLong(2_000_000))
    );
}
