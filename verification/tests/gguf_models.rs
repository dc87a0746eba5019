use heisenberg::the_lab::gguf::{
    infer_quant_from_filename, order_models, plan_turbo_quant, select_best_model, GgufModelInfo,
    ModelError, PromptFormat, QuantType, CONTEXT_CAP, OVERHEAD_BYTES,
};

fn model(
    filename: &str,
    file_size_bytes: u64,
    architecture: &str,
    context_length: u32,
    embedding_dim: u32,
    head_count: u32,
    head_count_kv: u32,
    layer_count: u32,
) -> GgufModelInfo {
    GgufModelInfo {
        path: filename.to_string(),
        filename: filename.to_string(),
        file_size_bytes,
        architecture: architecture.to_string(),
        param_count: 0,
        quant_type: QuantType::Q4_K_M,
        prompt_format: PromptFormat::ChatML,
        context_length,
        embedding_dim,
        head_count,
        head_count_kv,
        layer_count,
    }
}

fn mib(bytes: u64) -> f64 {
    bytes as f64 / 1_048_576.0
}

#[test]
fn test_quant_from_filename() {
    assert_eq!(
        infer_quant_from_filename("Qwen2.5-3B-Instruct-Q4_K_M.gguf"),
        QuantType::Q4_K_M
    );
    assert_eq!(infer_quant_from_filename("llama-2-7b-Q2_K.gguf"), QuantType::Q2_K);
    assert_eq!(infer_quant_from_filename("phi-3-mini-IQ3_S.gguf"), QuantType::IQ3_S);
    assert_eq!(infer_quant_from_filename("model-F16.gguf"), QuantType::F16);
}

#[test]
fn test_prompt_format_detection() {
    assert_eq!(PromptFormat::detect("qwen2", "Qwen2.5-3B.gguf"), PromptFormat::ChatML);
    assert_eq!(PromptFormat::detect("llama", "llama-2-7b.gguf"), PromptFormat::Llama2);
    assert_eq!(PromptFormat::detect("llama", "Meta-Llama-3.1-8B.gguf"), PromptFormat::Llama3);
    assert_eq!(PromptFormat::detect("gemma", "gemma-2b.gguf"), PromptFormat::Gemma);
    assert_eq!(PromptFormat::detect("phi3", "phi-3-mini.gguf"), PromptFormat::Phi);
}

#[test]
fn test_kv_cache_calculation() {
    let mut m = model("test-Q4_K_M.gguf", 2_000_000_000, "qwen2", 4096, 2048, 16, 2, 36);
    m.path = "test.gguf".to_string();
    m.param_count = 3_000_000_000;

    // Q8_0 is 8 bits, that is 16 half-bits.
    let kv_q8 = m.kv_cache_bytes(4096, 16);
    assert!(kv_q8 > 50_000_000 && kv_q8 < 100_000_000);

    // Q4_0 is 4 bits: half as much.
    let kv_q4 = m.kv_cache_bytes(4096, 8);
    assert_eq!(kv_q4, kv_q8 / 2);
}

#[test]
fn test_turbo_quant_plan() {
    let mut m8 = model("llama-3.1-8b-q4_k_m.gguf", 4_900_000_000, "llama", 8192, 4096, 32, 8, 32);
    m8.param_count = 8_030_000_000;
    m8.prompt_format = PromptFormat::Llama3;

    let plan_8b = plan_turbo_quant(&m8, 3_221_225_472);
    println!("\n=== 8B Q4_K_M on 3GB budget ===");
    println!("  Plan: {:?}", plan_8b);
    println!("  KV memory: {:.0} MB", mib(plan_8b.kv_cache_bytes));
    println!("  Total est: {:.0} MB / 3072 MB budget", mib(plan_8b.estimated_total_bytes));
    assert!(
        mib(plan_8b.estimated_total_bytes) <= 3072.0,
        "8B plan exceeds 3GB: {:.0}MB",
        mib(plan_8b.estimated_total_bytes)
    );
    assert!(plan_8b.flash_attn, "flash_attn must be on");
    assert!(plan_8b.mmap, "mmap must be on");
    let bits = plan_8b.kv_quant_half_bits as f64 / 2.0;
    assert!(bits <= 8.0, "KV bits must be <= 8, got {:.1}", bits);

    let mut m3 = model("qwen2.5-3b-q4_k_m.gguf", 1_929_000_000, "qwen2", 32768, 2048, 16, 2, 36);
    m3.param_count = 3_090_000_000;

    let plan_3b = plan_turbo_quant(&m3, 3_221_225_472);
    println!("\n=== Qwen2.5-3B Q4_K_M on 3GB budget ===");
    println!("  ctx: {} (native: 32768, capped to 8192)", plan_3b.context_length);
    assert!(
        mib(plan_3b.estimated_total_bytes) <= 3072.0,
        "3B plan exceeds 3GB: {:.0}MB",
        mib(plan_3b.estimated_total_bytes)
    );
    assert_eq!(plan_3b.context_length, 8192, "context should be capped at 8192");
}

#[test]
fn plan_for_small_model_takes_first_rung_exactly() {
    let m3 = model("qwen2.5-3b-q4_k_m.gguf", 1_929_000_000, "qwen2", 32768, 2048, 16, 2, 36);
    let plan = plan_turbo_quant(&m3, 3_221_225_472);
    assert_eq!(plan.kv_cache_k_type, "q8_0");
    assert_eq!(plan.kv_cache_v_type, "q8_0");
    assert_eq!(plan.kv_quant_half_bits, 16);
    assert_eq!(plan.context_length, CONTEXT_CAP);
    assert_eq!(plan.batch_size, 512);
    assert!(!plan.mlock, "a file over half the budget is planned without mlock");
    assert_eq!(plan.kv_cache_bytes, 150_994_944);
    assert_eq!(plan.weight_bytes, 675_150_000);
    assert_eq!(plan.estimated_total_bytes, 1_035_860_144);
    assert_eq!(
        plan.estimated_total_bytes,
        plan.weight_bytes + plan.kv_cache_bytes + OVERHEAD_BYTES
    );
}

#[test]
fn plan_for_8b_model_fits_first_rung() {
    let m8 = model("llama-3.1-8b-q4_k_m.gguf", 4_900_000_000, "llama", 8192, 4096, 32, 8, 32);
    let plan = plan_turbo_quant(&m8, 3_221_225_472);
    assert_eq!(plan.kv_cache_k_type, "q8_0");
    assert_eq!(plan.kv_cache_bytes, 536_870_912);
    assert_eq!(plan.estimated_total_bytes, 2_461_586_112);
}

#[test]
fn plan_descends_the_ladder_under_a_tight_budget() {
    let m8 = model("llama-3.1-8b-q4_k_m.gguf", 4_900_000_000, "llama", 8192, 4096, 32, 8, 32);
    // 2 GiB: Q8 at full context no longer fits.
    let plan = plan_turbo_quant(&m8, 2_147_483_648);
    assert!(plan.estimated_total_bytes <= 2_147_483_648);
    assert!(plan.kv_quant_half_bits <= 16);
    assert!(plan.context_length >= 512);
    assert!(!(plan.kv_cache_k_type == "q8_0" && plan.context_length == 8192));
}

#[test]
fn plan_falls_back_when_nothing_fits() {
    let huge = model("huge.gguf", 40_000_000_000, "llama", 8192, 8192, 64, 8, 80);
    let plan = plan_turbo_quant(&huge, 1_000_000_000);
    assert_eq!(plan.kv_cache_k_type, "q4_0");
    assert_eq!(plan.kv_cache_v_type, "q4_0");
    assert_eq!(plan.context_length, 512);
    assert_eq!(plan.batch_size, 64);
    assert_eq!(plan.estimated_total_bytes, 1_000_000_000);
    assert_eq!(plan.kv_cache_bytes, 0);
    assert_eq!(plan.weight_bytes, 12_000_000_000);
    assert!(!plan.mlock);
}

#[test]
fn memory_estimates_are_exact() {
    let m = model("m.gguf", 1_000, "qwen2", 4096, 2048, 16, 2, 36);
    assert_eq!(m.weight_memory_bytes(), 1_000);
    assert_eq!(m.kv_cache_bytes(1024, 16), 36 * 2 * 128 * 1024 * 2);
    assert_eq!(
        m.total_memory_estimate(1024, 16),
        500 + 36 * 2 * 128 * 1024 * 2 + OVERHEAD_BYTES
    );
    // Missing head counts fall back to 128-wide heads and 32 layers.
    let bare = model("bare.gguf", 0, "x", 4096, 0, 0, 0, 0);
    assert_eq!(bare.kv_cache_bytes(8, 16), 0);
    let no_kv = model("nokv.gguf", 0, "x", 4096, 4096, 32, 0, 0);
    assert_eq!(no_kv.kv_cache_bytes(8, 16), 32 * 32 * 128 * 8 * 2);
}

#[test]
fn quant_ids_names_and_bits() {
    assert_eq!(QuantType::from_id(15), QuantType::Q4_K_M);
    assert_eq!(QuantType::from_id(0), QuantType::F32);
    assert_eq!(QuantType::from_id(99), QuantType::Unknown(99));
    assert_eq!(QuantType::Q4_K_M.name(), "Q4_K_M");
    assert_eq!(QuantType::Unknown(7).name(), "Unknown");
    assert_eq!(QuantType::Q4_K_M.bits_per_weight_centi(), 450);
    assert_eq!(QuantType::F16.bits_per_weight_centi(), 1600);
    assert_eq!(QuantType::IQ1_S.bits_per_weight_centi(), 160);
}

#[test]
fn quant_falls_back_to_q4_k_m() {
    assert_eq!(infer_quant_from_filename("model.gguf"), QuantType::Q4_K_M);
    assert_eq!(infer_quant_from_filename("tiny-q8_0.gguf"), QuantType::Q8_0);
    assert_eq!(infer_quant_from_filename("m-Q5_K_M.gguf"), QuantType::Q5_K_M);
}

#[test]
fn format_detection_other_families() {
    assert_eq!(PromptFormat::detect("mistral", "mistral-7b.gguf"), PromptFormat::Mistral);
    assert_eq!(PromptFormat::detect("deepseek2", "x.gguf"), PromptFormat::DeepSeek);
    assert_eq!(PromptFormat::detect("llama", "vicuna-13b.gguf"), PromptFormat::Vicuna);
    assert_eq!(PromptFormat::detect("llama", "alpaca.gguf"), PromptFormat::Alpaca);
    assert_eq!(PromptFormat::detect("gpt2", "other.gguf"), PromptFormat::ChatML);
    assert_eq!(PromptFormat::detect("llama", "Yi-34B.gguf"), PromptFormat::ChatML);
}

#[test]
fn stop_tokens_per_format() {
    assert_eq!(PromptFormat::ChatML.stop_tokens(), vec!["<|im_end|>".to_string()]);
    assert_eq!(
        PromptFormat::Mistral.stop_tokens(),
        vec!["</s>".to_string(), "[/INST]".to_string()]
    );
    assert!(PromptFormat::Raw.stop_tokens().is_empty());
}

#[test]
fn select_best_model_takes_the_largest() {
    let small = model("small.gguf", 1_000_000_000, "qwen2", 4096, 2048, 16, 2, 36);
    let large = model("large.gguf", 4_900_000_000, "llama", 8192, 4096, 32, 8, 32);
    let (chosen, plan) = select_best_model(&[small, large], 3_221_225_472).unwrap();
    assert_eq!(chosen.filename, "large.gguf");
    assert_eq!(plan.estimated_total_bytes, 2_461_586_112);
}

#[test]
fn select_best_model_skips_a_larger_model_that_does_not_fit() {
    let small = model("small.gguf", 1_000_000_000, "qwen2", 4096, 2048, 16, 2, 36);
    let huge = model("huge.gguf", 40_000_000_000, "llama", 8192, 8192, 64, 8, 80);
    let (chosen, plan) = select_best_model(&[small, huge], 3_221_225_472).unwrap();
    assert_eq!(chosen.filename, "small.gguf");
    assert!(plan.estimated_total_bytes <= 3_221_225_472);
    assert_eq!(plan.kv_cache_k_type, "q8_0");
}

#[test]
fn select_best_model_falls_back_to_the_smallest() {
    let a = model("a.gguf", 30_000_000_000, "llama", 8192, 8192, 64, 8, 80);
    let b = model("b.gguf", 40_000_000_000, "llama", 8192, 8192, 64, 8, 80);
    let (chosen, plan) = select_best_model(&[a, b], 1_000_000_000).unwrap();
    assert_eq!(chosen.filename, "a.gguf");
    assert_eq!(plan.context_length, 512);
    assert_eq!(plan.batch_size, 64);
    assert_eq!(plan.kv_cache_bytes, 0);
    assert_eq!(plan.estimated_total_bytes, 1_000_000_000);
}

#[test]
fn quant_tags_read_back_in_any_case() {
    let all = [
        QuantType::F32, QuantType::F16, QuantType::Q4_0, QuantType::Q4_1, QuantType::Q5_0,
        QuantType::Q5_1, QuantType::Q8_0, QuantType::Q8_1, QuantType::Q2_K, QuantType::Q3_K_S,
        QuantType::Q3_K_M, QuantType::Q3_K_L, QuantType::Q4_K_S, QuantType::Q4_K_M,
        QuantType::Q5_K_S, QuantType::Q5_K_M, QuantType::Q6_K, QuantType::IQ2_XXS,
        QuantType::IQ2_XS, QuantType::IQ2_S, QuantType::IQ3_XXS, QuantType::IQ3_S,
        QuantType::IQ4_NL, QuantType::IQ4_XS, QuantType::IQ1_S,
    ];
    for q in all {
        assert_eq!(infer_quant_from_filename(q.name()), q);
        assert_eq!(infer_quant_from_filename(&q.name().to_lowercase()), q);
    }
}

#[test]
fn select_best_model_refuses_an_empty_list() {
    assert_eq!(select_best_model(&[], 3_221_225_472).err(), Some(ModelError::NoModels));
}

#[test]
fn order_models_sorts_by_size_and_keeps_ties_in_order() {
    let a = model("a.gguf", 300, "x", 4096, 0, 0, 0, 0);
    let b = model("b.gguf", 100, "x", 4096, 0, 0, 0, 0);
    let c = model("c.gguf", 300, "x", 4096, 0, 0, 0, 0);
    let d = model("d.gguf", 200, "x", 4096, 0, 0, 0, 0);
    let ordered = order_models(&[a, b, c, d]).unwrap();
    let names: Vec<&str> = ordered.iter().map(|m| m.filename.as_str()).collect();
    assert_eq!(names, vec!["b.gguf", "d.gguf", "a.gguf", "c.gguf"]);
}

#[test]
fn order_models_refuses_an_empty_list() {
    assert_eq!(order_models(&[]).err(), Some(ModelError::NoModels));
}
