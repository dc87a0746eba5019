//! GGUF model metadata and the TurboQuant memory planner.
//!
//! The planner picks the KV-cache quantization and context window that fit a
//! model into a RAM budget. All sizes are bytes; a plan's "average bits" are
//! kept in halves of a bit so that the asymmetric Q5/Q4 step (4.5 bits) is exact.
#![allow(non_camel_case_types)]

use crate::text::{
    all_ascii, ascii_upper, contains, lowercase, owned, str_contains, to_lowercase, to_uppercase,
    uppercase,
};
use vstd::prelude::*;

verus! {

// ── Quantization ─────────────────────────────────────────────────────

/// Weight quantization of a GGUF model.
#[derive(Debug, Clone, Copy, PartialEq, Eq, Structural)]
pub enum QuantType {
    F32,
    F16,
    Q4_0,
    Q4_1,
    Q5_0,
    Q5_1,
    Q8_0,
    Q8_1,
    Q2_K,
    Q3_K_S,
    Q3_K_M,
    Q3_K_L,
    Q4_K_S,
    Q4_K_M,
    Q5_K_S,
    Q5_K_M,
    Q6_K,
    IQ2_XXS,
    IQ2_XS,
    IQ2_S,
    IQ3_XXS,
    IQ3_S,
    IQ4_NL,
    IQ4_XS,
    IQ1_S,
    Unknown(u32),
}

/// The quantization that the GGUF type id `id` stands for.
pub open spec fn quant_of_id(id: u32) -> QuantType {
    match id {
        0 => QuantType::F32,
        1 => QuantType::F16,
        2 => QuantType::Q4_0,
        3 => QuantType::Q4_1,
        6 => QuantType::Q5_0,
        7 => QuantType::Q5_1,
        8 => QuantType::Q8_0,
        9 => QuantType::Q8_1,
        10 => QuantType::Q2_K,
        11 => QuantType::Q3_K_S,
        12 => QuantType::Q3_K_M,
        13 => QuantType::Q3_K_L,
        14 => QuantType::Q4_K_S,
        15 => QuantType::Q4_K_M,
        16 => QuantType::Q5_K_S,
        17 => QuantType::Q5_K_M,
        18 => QuantType::Q6_K,
        19 => QuantType::IQ2_XXS,
        20 => QuantType::IQ2_XS,
        21 => QuantType::IQ3_XXS,
        22 => QuantType::IQ1_S,
        23 => QuantType::IQ4_NL,
        24 => QuantType::IQ3_S,
        25 => QuantType::IQ2_S,
        26 => QuantType::IQ4_XS,
        v => QuantType::Unknown(v),
    }
}

/// Bits per weight, in hundredths of a bit.
pub open spec fn centibits(q: QuantType) -> nat {
    match q {
        QuantType::F32 => 3200,
        QuantType::F16 => 1600,
        QuantType::Q8_0 | QuantType::Q8_1 => 800,
        QuantType::Q6_K => 650,
        QuantType::Q5_K_S | QuantType::Q5_K_M | QuantType::Q5_0 | QuantType::Q5_1 => 550,
        QuantType::Q4_K_S | QuantType::Q4_K_M | QuantType::Q4_0 | QuantType::Q4_1 => 450,
        QuantType::IQ4_NL | QuantType::IQ4_XS => 425,
        QuantType::Q3_K_L => 410,
        QuantType::Q3_K_M => 390,
        QuantType::Q3_K_S => 340,
        QuantType::IQ3_XXS | QuantType::IQ3_S => 310,
        QuantType::Q2_K => 260,
        QuantType::IQ2_XXS => 210,
        QuantType::IQ2_XS | QuantType::IQ2_S => 230,
        QuantType::IQ1_S => 160,
        QuantType::Unknown(_) => 450,
    }
}

/// The display name of a quantization.
pub open spec fn quant_name(q: QuantType) -> Seq<char> {
    match q {
        QuantType::F32 => "F32"@,
        QuantType::F16 => "F16"@,
        QuantType::Q4_0 => "Q4_0"@,
        QuantType::Q4_1 => "Q4_1"@,
        QuantType::Q5_0 => "Q5_0"@,
        QuantType::Q5_1 => "Q5_1"@,
        QuantType::Q8_0 => "Q8_0"@,
        QuantType::Q8_1 => "Q8_1"@,
        QuantType::Q2_K => "Q2_K"@,
        QuantType::Q3_K_S => "Q3_K_S"@,
        QuantType::Q3_K_M => "Q3_K_M"@,
        QuantType::Q3_K_L => "Q3_K_L"@,
        QuantType::Q4_K_S => "Q4_K_S"@,
        QuantType::Q4_K_M => "Q4_K_M"@,
        QuantType::Q5_K_S => "Q5_K_S"@,
        QuantType::Q5_K_M => "Q5_K_M"@,
        QuantType::Q6_K => "Q6_K"@,
        QuantType::IQ2_XXS => "IQ2_XXS"@,
        QuantType::IQ2_XS => "IQ2_XS"@,
        QuantType::IQ2_S => "IQ2_S"@,
        QuantType::IQ3_XXS => "IQ3_XXS"@,
        QuantType::IQ3_S => "IQ3_S"@,
        QuantType::IQ4_NL => "IQ4_NL"@,
        QuantType::IQ4_XS => "IQ4_XS"@,
        QuantType::IQ1_S => "IQ1_S"@,
        QuantType::Unknown(_) => "Unknown"@,
    }
}

impl QuantType {
    /// The quantization for a GGUF tensor type id; unknown ids are kept.
    pub fn from_id(id: u32) -> (q: QuantType)
        ensures
            q == quant_of_id(id),
    {
        match id {
            0 => QuantType::F32,
            1 => QuantType::F16,
            2 => QuantType::Q4_0,
            3 => QuantType::Q4_1,
            6 => QuantType::Q5_0,
            7 => QuantType::Q5_1,
            8 => QuantType::Q8_0,
            9 => QuantType::Q8_1,
            10 => QuantType::Q2_K,
            11 => QuantType::Q3_K_S,
            12 => QuantType::Q3_K_M,
            13 => QuantType::Q3_K_L,
            14 => QuantType::Q4_K_S,
            15 => QuantType::Q4_K_M,
            16 => QuantType::Q5_K_S,
            17 => QuantType::Q5_K_M,
            18 => QuantType::Q6_K,
            19 => QuantType::IQ2_XXS,
            20 => QuantType::IQ2_XS,
            21 => QuantType::IQ3_XXS,
            22 => QuantType::IQ1_S,
            23 => QuantType::IQ4_NL,
            24 => QuantType::IQ3_S,
            25 => QuantType::IQ2_S,
            26 => QuantType::IQ4_XS,
            v => QuantType::Unknown(v),
        }
    }

    /// Bits per weight in hundredths of a bit (450 stands for 4.5 bits).
    pub fn bits_per_weight_centi(&self) -> (b: u32)
        ensures
            b == centibits(*self),
    {
        match self {
            QuantType::F32 => 3200,
            QuantType::F16 => 1600,
            QuantType::Q8_0 | QuantType::Q8_1 => 800,
            QuantType::Q6_K => 650,
            QuantType::Q5_K_S | QuantType::Q5_K_M | QuantType::Q5_0 | QuantType::Q5_1 => 550,
            QuantType::Q4_K_S | QuantType::Q4_K_M | QuantType::Q4_0 | QuantType::Q4_1 => 450,
            QuantType::IQ4_NL | QuantType::IQ4_XS => 425,
            QuantType::Q3_K_L => 410,
            QuantType::Q3_K_M => 390,
            QuantType::Q3_K_S => 340,
            QuantType::IQ3_XXS | QuantType::IQ3_S => 310,
            QuantType::Q2_K => 260,
            QuantType::IQ2_XXS => 210,
            QuantType::IQ2_XS | QuantType::IQ2_S => 230,
            QuantType::IQ1_S => 160,
            QuantType::Unknown(_) => 450,
        }
    }

    /// The display name, such as `Q4_K_M`.
    pub fn name(&self) -> (s: &'static str)
        ensures
            s@ == quant_name(*self),
    {
        match self {
            QuantType::F32 => "F32",
            QuantType::F16 => "F16",
            QuantType::Q4_0 => "Q4_0",
            QuantType::Q4_1 => "Q4_1",
            QuantType::Q5_0 => "Q5_0",
            QuantType::Q5_1 => "Q5_1",
            QuantType::Q8_0 => "Q8_0",
            QuantType::Q8_1 => "Q8_1",
            QuantType::Q2_K => "Q2_K",
            QuantType::Q3_K_S => "Q3_K_S",
            QuantType::Q3_K_M => "Q3_K_M",
            QuantType::Q3_K_L => "Q3_K_L",
            QuantType::Q4_K_S => "Q4_K_S",
            QuantType::Q4_K_M => "Q4_K_M",
            QuantType::Q5_K_S => "Q5_K_S",
            QuantType::Q5_K_M => "Q5_K_M",
            QuantType::Q6_K => "Q6_K",
            QuantType::IQ2_XXS => "IQ2_XXS",
            QuantType::IQ2_XS => "IQ2_XS",
            QuantType::IQ2_S => "IQ2_S",
            QuantType::IQ3_XXS => "IQ3_XXS",
            QuantType::IQ3_S => "IQ3_S",
            QuantType::IQ4_NL => "IQ4_NL",
            QuantType::IQ4_XS => "IQ4_XS",
            QuantType::IQ1_S => "IQ1_S",
            QuantType::Unknown(_) => "Unknown",
        }
    }
}

/// The quantization that a file name announces: the first of the known tags,
/// most specific first, that occurs in the upper-cased name; `Q4_K_M` when
/// none does.
pub open spec fn quant_of_upper_name(u: Seq<char>) -> QuantType {
    if contains(u, "IQ1_S"@) {
        QuantType::IQ1_S
    } else if contains(u, "IQ2_XXS"@) {
        QuantType::IQ2_XXS
    } else if contains(u, "IQ2_XS"@) {
        QuantType::IQ2_XS
    } else if contains(u, "IQ2_S"@) {
        QuantType::IQ2_S
    } else if contains(u, "IQ3_XXS"@) {
        QuantType::IQ3_XXS
    } else if contains(u, "IQ3_S"@) {
        QuantType::IQ3_S
    } else if contains(u, "IQ4_NL"@) {
        QuantType::IQ4_NL
    } else if contains(u, "IQ4_XS"@) {
        QuantType::IQ4_XS
    } else if contains(u, "Q2_K"@) {
        QuantType::Q2_K
    } else if contains(u, "Q3_K_S"@) {
        QuantType::Q3_K_S
    } else if contains(u, "Q3_K_M"@) {
        QuantType::Q3_K_M
    } else if contains(u, "Q3_K_L"@) {
        QuantType::Q3_K_L
    } else if contains(u, "Q4_K_S"@) {
        QuantType::Q4_K_S
    } else if contains(u, "Q4_K_M"@) {
        QuantType::Q4_K_M
    } else if contains(u, "Q4_0"@) {
        QuantType::Q4_0
    } else if contains(u, "Q4_1"@) {
        QuantType::Q4_1
    } else if contains(u, "Q5_K_S"@) {
        QuantType::Q5_K_S
    } else if contains(u, "Q5_K_M"@) {
        QuantType::Q5_K_M
    } else if contains(u, "Q5_0"@) {
        QuantType::Q5_0
    } else if contains(u, "Q5_1"@) {
        QuantType::Q5_1
    } else if contains(u, "Q6_K"@) {
        QuantType::Q6_K
    } else if contains(u, "Q8_0"@) {
        QuantType::Q8_0
    } else if contains(u, "Q8_1"@) {
        QuantType::Q8_1
    } else if contains(u, "F16"@) {
        QuantType::F16
    } else if contains(u, "F32"@) {
        QuantType::F32
    } else {
        QuantType::Q4_K_M
    }
}

/// Infers the quantization from a GGUF file name such as
/// `Qwen2.5-3B-Instruct-Q4_K_M.gguf`.
pub fn infer_quant_from_filename(name: &str) -> (q: QuantType)
    ensures
        q == quant_of_upper_name(uppercase(name@)),
        all_ascii(name@) ==> q == quant_of_upper_name(name@.map_values(|c: char| ascii_upper(c))),
{
    let upper = to_uppercase(name);
    let u = upper.as_str();
    if str_contains(u, "IQ1_S") {
        return QuantType::IQ1_S;
    }
    if str_contains(u, "IQ2_XXS") {
        return QuantType::IQ2_XXS;
    }
    if str_contains(u, "IQ2_XS") {
        return QuantType::IQ2_XS;
    }
    if str_contains(u, "IQ2_S") {
        return QuantType::IQ2_S;
    }
    if str_contains(u, "IQ3_XXS") {
        return QuantType::IQ3_XXS;
    }
    if str_contains(u, "IQ3_S") {
        return QuantType::IQ3_S;
    }
    if str_contains(u, "IQ4_NL") {
        return QuantType::IQ4_NL;
    }
    if str_contains(u, "IQ4_XS") {
        return QuantType::IQ4_XS;
    }
    if str_contains(u, "Q2_K") {
        return QuantType::Q2_K;
    }
    if str_contains(u, "Q3_K_S") {
        return QuantType::Q3_K_S;
    }
    if str_contains(u, "Q3_K_M") {
        return QuantType::Q3_K_M;
    }
    if str_contains(u, "Q3_K_L") {
        return QuantType::Q3_K_L;
    }
    if str_contains(u, "Q4_K_S") {
        return QuantType::Q4_K_S;
    }
    if str_contains(u, "Q4_K_M") {
        return QuantType::Q4_K_M;
    }
    if str_contains(u, "Q4_0") {
        return QuantType::Q4_0;
    }
    if str_contains(u, "Q4_1") {
        return QuantType::Q4_1;
    }
    if str_contains(u, "Q5_K_S") {
        return QuantType::Q5_K_S;
    }
    if str_contains(u, "Q5_K_M") {
        return QuantType::Q5_K_M;
    }
    if str_contains(u, "Q5_0") {
        return QuantType::Q5_0;
    }
    if str_contains(u, "Q5_1") {
        return QuantType::Q5_1;
    }
    if str_contains(u, "Q6_K") {
        return QuantType::Q6_K;
    }
    if str_contains(u, "Q8_0") {
        return QuantType::Q8_0;
    }
    if str_contains(u, "Q8_1") {
        return QuantType::Q8_1;
    }
    if str_contains(u, "F16") {
        return QuantType::F16;
    }
    if str_contains(u, "F32") {
        return QuantType::F32;
    }
    QuantType::Q4_K_M
}

// ── Prompt format ────────────────────────────────────────────────────

/// The chat template a model expects.
#[derive(Debug, Clone, Copy, PartialEq, Eq, Structural)]
pub enum PromptFormat {
    ChatML,
    Llama3,
    Llama2,
    Alpaca,
    Gemma,
    Phi,
    Mistral,
    DeepSeek,
    Vicuna,
    Raw,
}

/// The prompt format for a lower-cased architecture `a` and file name `f`.
pub open spec fn format_of(a: Seq<char>, f: Seq<char>) -> PromptFormat {
    if contains(a, "qwen"@) || contains(f, "qwen"@) || contains(f, "yi-"@) || contains(
        f,
        "openhermes"@,
    ) {
        PromptFormat::ChatML
    } else if contains(a, "gemma"@) || contains(f, "gemma"@) {
        PromptFormat::Gemma
    } else if contains(a, "phi"@) || contains(f, "phi"@) {
        PromptFormat::Phi
    } else if contains(a, "mistral"@) || contains(f, "mistral"@) {
        PromptFormat::Mistral
    } else if contains(a, "deepseek"@) || contains(f, "deepseek"@) {
        PromptFormat::DeepSeek
    } else if contains(f, "vicuna"@) {
        PromptFormat::Vicuna
    } else if contains(f, "alpaca"@) {
        PromptFormat::Alpaca
    } else if contains(a, "llama"@) {
        if contains(f, "llama-2"@) || contains(f, "llama2"@) {
            PromptFormat::Llama2
        } else {
            PromptFormat::Llama3
        }
    } else {
        PromptFormat::ChatML
    }
}

/// The stop sequences of a prompt format.
pub open spec fn stop_tokens_of(f: PromptFormat) -> Seq<Seq<char>> {
    match f {
        PromptFormat::ChatML => seq!["<|im_end|>"@],
        PromptFormat::Llama3 => seq!["<|eot_id|>"@],
        PromptFormat::Llama2 => seq!["</s>"@],
        PromptFormat::Gemma => seq!["<end_of_turn>"@],
        PromptFormat::Phi => seq!["<|end|>"@],
        PromptFormat::Mistral => seq!["</s>"@, "[/INST]"@],
        PromptFormat::DeepSeek => seq!["<|end_of_sentence|>"@],
        PromptFormat::Vicuna | PromptFormat::Alpaca => seq!["</s>"@, "###"@],
        PromptFormat::Raw => seq![],
    }
}

/// The views of a list of strings.
pub open spec fn string_views(v: Seq<String>) -> Seq<Seq<char>> {
    v.map_values(|s: String| s@)
}

impl PromptFormat {
    /// Detects the prompt format from the architecture name and the file name.
    pub fn detect(arch: &str, filename: &str) -> (f: PromptFormat)
        ensures
            f == format_of(lowercase(arch@), lowercase(filename@)),
    {
        let a_s = to_lowercase(arch);
        let f_s = to_lowercase(filename);
        let a = a_s.as_str();
        let f = f_s.as_str();
        if str_contains(a, "qwen") || str_contains(f, "qwen") || str_contains(f, "yi-")
            || str_contains(f, "openhermes") {
            PromptFormat::ChatML
        } else if str_contains(a, "gemma") || str_contains(f, "gemma") {
            PromptFormat::Gemma
        } else if str_contains(a, "phi") || str_contains(f, "phi") {
            PromptFormat::Phi
        } else if str_contains(a, "mistral") || str_contains(f, "mistral") {
            PromptFormat::Mistral
        } else if str_contains(a, "deepseek") || str_contains(f, "deepseek") {
            PromptFormat::DeepSeek
        } else if str_contains(f, "vicuna") {
            PromptFormat::Vicuna
        } else if str_contains(f, "alpaca") {
            PromptFormat::Alpaca
        } else if str_contains(a, "llama") {
            if str_contains(f, "llama-2") || str_contains(f, "llama2") {
                PromptFormat::Llama2
            } else {
                PromptFormat::Llama3
            }
        } else {
            PromptFormat::ChatML
        }
    }

    /// The sequences at which generation stops for this format.
    pub fn stop_tokens(&self) -> (v: Vec<String>)
        ensures
            string_views(v@) == stop_tokens_of(*self),
    {
        let mut v: Vec<String> = Vec::new();
        match self {
            PromptFormat::ChatML => {
                v.push(owned("<|im_end|>"));
            },
            PromptFormat::Llama3 => {
                v.push(owned("<|eot_id|>"));
            },
            PromptFormat::Llama2 => {
                v.push(owned("</s>"));
            },
            PromptFormat::Gemma => {
                v.push(owned("<end_of_turn>"));
            },
            PromptFormat::Phi => {
                v.push(owned("<|end|>"));
            },
            PromptFormat::Mistral => {
                v.push(owned("</s>"));
                v.push(owned("[/INST]"));
            },
            PromptFormat::DeepSeek => {
                v.push(owned("<|end_of_sentence|>"));
            },
            PromptFormat::Vicuna | PromptFormat::Alpaca => {
                v.push(owned("</s>"));
                v.push(owned("###"));
            },
            PromptFormat::Raw => {},
        }
        assert(string_views(v@) =~= stop_tokens_of(*self));
        v
    }
}

/// Qwen, Yi and OpenHermes models speak ChatML whatever else the names
/// hold: a lower-cased file name with `openhermes`, `yi-` or `qwen` in it,
/// or an architecture with `qwen` in it, is detected as ChatML.
pub proof fn lemma_chat_ml_families(arch: Seq<char>, filename: Seq<char>)
    ensures
        contains(lowercase(filename), "openhermes"@) ==> format_of(lowercase(arch), lowercase(filename))
            == PromptFormat::ChatML,
        contains(lowercase(filename), "yi-"@) ==> format_of(lowercase(arch), lowercase(filename))
            == PromptFormat::ChatML,
        contains(lowercase(filename), "qwen"@) || contains(lowercase(arch), "qwen"@) ==> format_of(
            lowercase(arch),
            lowercase(filename),
        ) == PromptFormat::ChatML,
{
}

// ── Model metadata ───────────────────────────────────────────────────

/// What the GGUF header and the file name tell about a model.
#[derive(Debug)]
pub struct GgufModelInfo {
    pub path: String,
    pub filename: String,
    pub file_size_bytes: u64,
    pub architecture: String,
    /// Estimated from the file size and the quantization.
    pub param_count: u64,
    /// Inferred from the file name.
    pub quant_type: QuantType,
    pub prompt_format: PromptFormat,
    /// The architecture's default context length.
    pub context_length: u32,
    pub embedding_dim: u32,
    pub head_count: u32,
    pub head_count_kv: u32,
    pub layer_count: u32,
}

/// The mathematical content of a `GgufModelInfo`.
pub struct ModelInfoView {
    pub path: Seq<char>,
    pub filename: Seq<char>,
    pub file_size_bytes: u64,
    pub architecture: Seq<char>,
    pub param_count: u64,
    pub quant_type: QuantType,
    pub prompt_format: PromptFormat,
    pub context_length: u32,
    pub embedding_dim: u32,
    pub head_count: u32,
    pub head_count_kv: u32,
    pub layer_count: u32,
}

impl View for GgufModelInfo {
    type V = ModelInfoView;

    open spec fn view(&self) -> ModelInfoView {
        ModelInfoView {
            path: self.path@,
            filename: self.filename@,
            file_size_bytes: self.file_size_bytes,
            architecture: self.architecture@,
            param_count: self.param_count,
            quant_type: self.quant_type,
            prompt_format: self.prompt_format,
            context_length: self.context_length,
            embedding_dim: self.embedding_dim,
            head_count: self.head_count,
            head_count_kv: self.head_count_kv,
            layer_count: self.layer_count,
        }
    }
}

impl Clone for GgufModelInfo {
    fn clone(&self) -> (r: Self)
        ensures
            r@ == self@,
    {
        GgufModelInfo {
            path: self.path.clone(),
            filename: self.filename.clone(),
            file_size_bytes: self.file_size_bytes,
            architecture: self.architecture.clone(),
            param_count: self.param_count,
            quant_type: self.quant_type,
            prompt_format: self.prompt_format,
            context_length: self.context_length,
            embedding_dim: self.embedding_dim,
            head_count: self.head_count,
            head_count_kv: self.head_count_kv,
            layer_count: self.layer_count,
        }
    }
}

/// Per-head dimension: embedding over heads, 128 when the head count is unknown.
pub open spec fn head_dim(m: ModelInfoView) -> nat {
    if m.head_count > 0 {
        (m.embedding_dim / m.head_count) as nat
    } else {
        128
    }
}

/// KV heads: the KV head count, else the head count.
pub open spec fn kv_heads(m: ModelInfoView) -> nat {
    if m.head_count_kv > 0 {
        m.head_count_kv as nat
    } else {
        m.head_count as nat
    }
}

/// Layers: the block count, 32 when it is unknown.
pub open spec fn layers(m: ModelInfoView) -> nat {
    if m.layer_count > 0 {
        m.layer_count as nat
    } else {
        32
    }
}

/// The largest value of a `u64`, as a mathematical integer.
pub open spec fn u64_cap(x: int) -> int {
    if x > u64::MAX {
        u64::MAX as int
    } else {
        x
    }
}

/// KV-cache bytes: 2 (K and V) × layers × KV heads × head dimension × context
/// × bits/8, with `half_bits` halves of a bit per element, rounded down and
/// capped at `u64::MAX`.
pub open spec fn kv_bytes(m: ModelInfoView, context: nat, half_bits: nat) -> int {
    u64_cap((layers(m) * kv_heads(m) * head_dim(m) * context * half_bits) as int / 8)
}

/// The memory a model needs at a context and KV precision: half the file
/// (the mapped working set) plus the KV cache plus 200 MiB of overhead.
pub open spec fn memory_estimate(m: ModelInfoView, context: nat, half_bits: nat) -> int {
    m.file_size_bytes as int / 2 + kv_bytes(m, context, half_bits) + OVERHEAD_BYTES as int
}

/// Process overhead that every plan budgets for: 200 MiB.
pub const OVERHEAD_BYTES: u64 = 209715200;

proof fn lemma_product_bounds(l: nat, n: nat, d: nat, c: nat, h: nat)
    requires
        l <= u32::MAX,
        n <= u32::MAX,
        d <= u32::MAX,
    ensures
        l * n <= 0xffff_ffff_ffff_ffff_ffff_ffff_ffff_ffffnat,
        l * n * d <= 0xffff_ffff_ffff_ffff_ffff_ffff_ffff_ffffnat,
        l * n * d * c * h == (l * n * d) * c * h,
{
    assert(l * n <= 0xffff_ffff_ffff_ffffnat) by (nonlinear_arith)
        requires
            l <= u32::MAX,
            n <= u32::MAX,
    ;
    assert(l * n * d <= 0xffff_ffff_ffff_ffff_ffff_ffffnat) by (nonlinear_arith)
        requires
            l * n <= 0xffff_ffff_ffff_ffffnat,
            d <= u32::MAX,
    ;
}

/// At 4 bits per element (8 half-bits) the KV cache takes exactly half the
/// bytes it takes at 8 bits (16 half-bits), as long as the larger one is
/// not capped at `u64::MAX`.
pub proof fn lemma_kv_halves_with_the_bits(m: ModelInfoView, context: nat)
    requires
        layers(m) * kv_heads(m) * head_dim(m) * context * 2 <= u64::MAX,
    ensures
        2 * kv_bytes(m, context, 8) == kv_bytes(m, context, 16),
{
    let p = layers(m) * kv_heads(m) * head_dim(m) * context;
    assert(p * 16 / 8 == 2 * p) by (nonlinear_arith);
    assert(p * 8 / 8 == p) by (nonlinear_arith);
}

impl GgufModelInfo {
    /// Memory that the mapped weights may take at worst: the file size.
    pub fn weight_memory_bytes(&self) -> (b: u64)
        ensures
            b == self.file_size_bytes,
    {
        self.file_size_bytes
    }

    /// KV-cache bytes at `context` tokens with `kv_quant_half_bits` halves of
    /// a bit per element (16 for Q8, 9 for the asymmetric Q5/Q4 pair).
    pub fn kv_cache_bytes(&self, context: u32, kv_quant_half_bits: u32) -> (b: u64)
        ensures
            b == kv_bytes(self@, context as nat, kv_quant_half_bits as nat),
    {
        let d_head: u32 = if self.head_count > 0 {
            self.embedding_dim / self.head_count
        } else {
            128
        };
        let n_kv: u32 = if self.head_count_kv > 0 {
            self.head_count_kv
        } else {
            self.head_count
        };
        let n_layers: u32 = if self.layer_count > 0 {
            self.layer_count
        } else {
            32
        };
        proof {
            lemma_product_bounds(
                n_layers as nat,
                n_kv as nat,
                d_head as nat,
                context as nat,
                kv_quant_half_bits as nat,
            );
        }
        let a: u128 = (n_layers as u128) * (n_kv as u128);
        let b: u128 = a * (d_head as u128);
        let ghost exact = (layers(self@) * kv_heads(self@) * head_dim(self@) * context
            * kv_quant_half_bits) as int;
        if context == 0 || kv_quant_half_bits == 0 {
            assert(exact == 0) by (nonlinear_arith)
                requires
                    exact == b * context * kv_quant_half_bits,
                    context == 0 || kv_quant_half_bits == 0,
            ;
            return 0;
        }
        match b.checked_mul(context as u128) {
            None => {
                assert(exact / 8 > u64::MAX) by (nonlinear_arith)
                    requires
                        exact == b * context * kv_quant_half_bits,
                        b * context > u128::MAX,
                        kv_quant_half_bits >= 1,
                ;
                u64::MAX
            },
            Some(x) => match x.checked_mul(kv_quant_half_bits as u128) {
                None => {
                    assert(exact / 8 > u64::MAX) by (nonlinear_arith)
                        requires
                            exact == x * kv_quant_half_bits,
                            x * kv_quant_half_bits > u128::MAX,
                    ;
                    u64::MAX
                },
                Some(y) => {
                    let q = y / 8;
                    if q > (u64::MAX as u128) {
                        u64::MAX
                    } else {
                        q as u64
                    }
                },
            },
        }
    }

    /// Total memory estimate at a context and KV precision: half the file,
    /// the KV cache and 200 MiB of overhead.
    pub fn total_memory_estimate(&self, context: u32, kv_quant_half_bits: u32) -> (b: u64)
        requires
            memory_estimate(self@, context as nat, kv_quant_half_bits as nat) <= u64::MAX,
        ensures
            b == memory_estimate(self@, context as nat, kv_quant_half_bits as nat),
    {
        let mmap_working_set = self.file_size_bytes / 2;
        let kv = self.kv_cache_bytes(context, kv_quant_half_bits);
        mmap_working_set + kv + OVERHEAD_BYTES
    }
}

// ── TurboQuant planner ───────────────────────────────────────────────

/// A memory plan for llama-server: KV cache types, context, batch and flags.
#[derive(Debug)]
pub struct TurboQuantPlan {
    /// The `--cache-type-k` value.
    pub kv_cache_k_type: String,
    /// The `--cache-type-v` value.
    pub kv_cache_v_type: String,
    /// Average bits per KV element, in halves of a bit.
    pub kv_quant_half_bits: u32,
    pub context_length: u32,
    pub batch_size: u32,
    pub flash_attn: bool,
    pub mmap: bool,
    pub mlock: bool,
    pub estimated_total_bytes: u64,
    pub kv_cache_bytes: u64,
    pub weight_bytes: u64,
}

/// The mathematical content of a plan.
pub struct PlanView {
    pub k_type: Seq<char>,
    pub v_type: Seq<char>,
    pub half_bits: nat,
    pub context_length: nat,
    pub batch_size: nat,
    pub flash_attn: bool,
    pub mmap: bool,
    pub mlock: bool,
    pub estimated_total_bytes: int,
    pub kv_cache_bytes: int,
    pub weight_bytes: int,
}

impl View for TurboQuantPlan {
    type V = PlanView;

    open spec fn view(&self) -> PlanView {
        PlanView {
            k_type: self.kv_cache_k_type@,
            v_type: self.kv_cache_v_type@,
            half_bits: self.kv_quant_half_bits as nat,
            context_length: self.context_length as nat,
            batch_size: self.batch_size as nat,
            flash_attn: self.flash_attn,
            mmap: self.mmap,
            mlock: self.mlock,
            estimated_total_bytes: self.estimated_total_bytes as int,
            kv_cache_bytes: self.kv_cache_bytes as int,
            weight_bytes: self.weight_bytes as int,
        }
    }
}

impl Clone for TurboQuantPlan {
    fn clone(&self) -> (r: Self)
        ensures
            r@ == self@,
    {
        TurboQuantPlan {
            kv_cache_k_type: self.kv_cache_k_type.clone(),
            kv_cache_v_type: self.kv_cache_v_type.clone(),
            kv_quant_half_bits: self.kv_quant_half_bits,
            context_length: self.context_length,
            batch_size: self.batch_size,
            flash_attn: self.flash_attn,
            mmap: self.mmap,
            mlock: self.mlock,
            estimated_total_bytes: self.estimated_total_bytes,
            kv_cache_bytes: self.kv_cache_bytes,
            weight_bytes: self.weight_bytes,
        }
    }
}

/// One rung of the compression ladder: KV types, average half-bits, the
/// divisor of the base context, and the batch size.
pub struct Rung {
    pub k_type: Seq<char>,
    pub v_type: Seq<char>,
    pub half_bits: nat,
    pub ctx_divisor: nat,
    pub batch: nat,
}

/// Number of rungs on the ladder.
pub const RUNGS: usize = 9;

/// The ladder, best quality first: Q8/Q8, Q8/Q8 at half context, Q5/Q4
/// (asymmetric), Q5/Q4 at half context, Q5/Q5, Q4/Q4, then Q4/Q4 at half, a
/// quarter and an eighth of the context.
pub open spec fn rung(i: int) -> Rung {
    if i == 0 {
        Rung { k_type: "q8_0"@, v_type: "q8_0"@, half_bits: 16, ctx_divisor: 1, batch: 512 }
    } else if i == 1 {
        Rung { k_type: "q8_0"@, v_type: "q8_0"@, half_bits: 16, ctx_divisor: 2, batch: 512 }
    } else if i == 2 {
        Rung { k_type: "q5_0"@, v_type: "q4_0"@, half_bits: 9, ctx_divisor: 1, batch: 512 }
    } else if i == 3 {
        Rung { k_type: "q5_0"@, v_type: "q4_0"@, half_bits: 9, ctx_divisor: 2, batch: 512 }
    } else if i == 4 {
        Rung { k_type: "q5_0"@, v_type: "q5_0"@, half_bits: 10, ctx_divisor: 1, batch: 256 }
    } else if i == 5 {
        Rung { k_type: "q4_0"@, v_type: "q4_0"@, half_bits: 8, ctx_divisor: 1, batch: 256 }
    } else if i == 6 {
        Rung { k_type: "q4_0"@, v_type: "q4_0"@, half_bits: 8, ctx_divisor: 2, batch: 256 }
    } else if i == 7 {
        Rung { k_type: "q4_0"@, v_type: "q4_0"@, half_bits: 8, ctx_divisor: 4, batch: 128 }
    } else {
        Rung { k_type: "q4_0"@, v_type: "q4_0"@, half_bits: 8, ctx_divisor: 8, batch: 64 }
    }
}

/// Context is capped at 8192 tokens before the ladder scales it down.
pub const CONTEXT_CAP: u32 = 8192;

/// The smallest context a plan ever uses.
pub const MIN_CONTEXT: u32 = 512;

/// The context a rung gives a model.
pub open spec fn rung_context(m: ModelInfoView, r: Rung) -> nat {
    let base = if m.context_length < CONTEXT_CAP {
        m.context_length as nat
    } else {
        CONTEXT_CAP as nat
    };
    let c = base / r.ctx_divisor;
    if c < MIN_CONTEXT {
        MIN_CONTEXT as nat
    } else {
        c
    }
}

/// A model is planned aggressively when its file is over half the budget.
pub open spec fn aggressive(m: ModelInfoView, max_ram: u64) -> bool {
    2 * m.file_size_bytes > max_ram
}

/// The share of the file, in percent, counted as mapped working set.
pub open spec fn weight_percent(m: ModelInfoView, max_ram: u64) -> nat {
    if aggressive(m, max_ram) {
        35
    } else {
        55
    }
}

/// A rung fits when working set + KV cache + overhead stay within the
/// budget, compared exactly (no rounding of the working-set share).
pub open spec fn rung_fits(m: ModelInfoView, max_ram: u64, r: Rung) -> bool {
    100 * (kv_bytes(m, rung_context(m, r), r.half_bits) + OVERHEAD_BYTES) + weight_percent(
        m,
        max_ram,
    ) * m.file_size_bytes <= 100 * max_ram
}

/// The plan a fitting rung gives.
pub open spec fn rung_plan(m: ModelInfoView, max_ram: u64, r: Rung) -> PlanView {
    let kv = kv_bytes(m, rung_context(m, r), r.half_bits);
    let w = weight_percent(m, max_ram) * m.file_size_bytes / 100;
    PlanView {
        k_type: r.k_type,
        v_type: r.v_type,
        half_bits: r.half_bits,
        context_length: rung_context(m, r),
        batch_size: r.batch,
        flash_attn: true,
        mmap: true,
        mlock: !aggressive(m, max_ram),
        estimated_total_bytes: w + kv + OVERHEAD_BYTES,
        kv_cache_bytes: kv,
        weight_bytes: w,
    }
}

/// The last resort when no rung fits: Q4/Q4 at 512 tokens, batch 64, no
/// mlock, the whole budget as estimate, 30% of the file as working set.
pub open spec fn fallback_plan(m: ModelInfoView, max_ram: u64) -> PlanView {
    PlanView {
        k_type: "q4_0"@,
        v_type: "q4_0"@,
        half_bits: 8,
        context_length: 512,
        batch_size: 64,
        flash_attn: true,
        mmap: true,
        mlock: false,
        estimated_total_bytes: max_ram as int,
        kv_cache_bytes: 0,
        weight_bytes: 3 * m.file_size_bytes / 10,
    }
}

/// The plan from rung `i` down the ladder: the first rung that fits.
pub open spec fn plan_from(m: ModelInfoView, max_ram: u64, i: int) -> PlanView
    decreases RUNGS - i,
{
    if i >= RUNGS || i < 0 {
        fallback_plan(m, max_ram)
    } else if rung_fits(m, max_ram, rung(i)) {
        rung_plan(m, max_ram, rung(i))
    } else {
        plan_from(m, max_ram, i + 1)
    }
}

/// The TurboQuant plan of a model under a RAM budget.
pub open spec fn plan_spec(m: ModelInfoView, max_ram: u64) -> PlanView {
    plan_from(m, max_ram, 0)
}

/// Some rung from `i` down the ladder fits the budget.
pub open spec fn fits_from(m: ModelInfoView, max_ram: u64, i: int) -> bool
    decreases RUNGS - i,
{
    if i >= RUNGS || i < 0 {
        false
    } else if rung_fits(m, max_ram, rung(i)) {
        true
    } else {
        fits_from(m, max_ram, i + 1)
    }
}

/// A model fits the budget when some rung of the ladder does, so that its
/// plan is not the last-resort fallback.
pub open spec fn fits_budget(m: ModelInfoView, max_ram: u64) -> bool {
    fits_from(m, max_ram, 0)
}

struct RungExec {
    k_type: &'static str,
    v_type: &'static str,
    half_bits: u32,
    ctx_divisor: u32,
    batch: u32,
}

fn rung_exec(i: usize) -> (r: RungExec)
    requires
        i < RUNGS,
    ensures
        r.k_type@ == rung(i as int).k_type,
        r.v_type@ == rung(i as int).v_type,
        r.half_bits == rung(i as int).half_bits,
        r.ctx_divisor == rung(i as int).ctx_divisor,
        r.batch == rung(i as int).batch,
{
    if i == 0 {
        RungExec { k_type: "q8_0", v_type: "q8_0", half_bits: 16, ctx_divisor: 1, batch: 512 }
    } else if i == 1 {
        RungExec { k_type: "q8_0", v_type: "q8_0", half_bits: 16, ctx_divisor: 2, batch: 512 }
    } else if i == 2 {
        RungExec { k_type: "q5_0", v_type: "q4_0", half_bits: 9, ctx_divisor: 1, batch: 512 }
    } else if i == 3 {
        RungExec { k_type: "q5_0", v_type: "q4_0", half_bits: 9, ctx_divisor: 2, batch: 512 }
    } else if i == 4 {
        RungExec { k_type: "q5_0", v_type: "q5_0", half_bits: 10, ctx_divisor: 1, batch: 256 }
    } else if i == 5 {
        RungExec { k_type: "q4_0", v_type: "q4_0", half_bits: 8, ctx_divisor: 1, batch: 256 }
    } else if i == 6 {
        RungExec { k_type: "q4_0", v_type: "q4_0", half_bits: 8, ctx_divisor: 2, batch: 256 }
    } else if i == 7 {
        RungExec { k_type: "q4_0", v_type: "q4_0", half_bits: 8, ctx_divisor: 4, batch: 128 }
    } else {
        RungExec { k_type: "q4_0", v_type: "q4_0", half_bits: 8, ctx_divisor: 8, batch: 64 }
    }
}

/// The plan of the first rung from the top of the ladder whose estimate
/// fits the budget; `None` when no rung fits.
fn ladder_plan(model: &GgufModelInfo, max_ram_bytes: u64) -> (r: Option<TurboQuantPlan>)
    ensures
        r is Some <==> fits_budget(model@, max_ram_bytes),
        r matches Some(plan) ==> plan@ == plan_spec(model@, max_ram_bytes),
        r is None ==> plan_spec(model@, max_ram_bytes) == fallback_plan(model@, max_ram_bytes),
{
    let needs_aggressive = model.file_size_bytes > max_ram_bytes / 2;
    assert(needs_aggressive == aggressive(model@, max_ram_bytes));
    let pct: u64 = if needs_aggressive {
        35
    } else {
        55
    };
    let base_ctx: u32 = if model.context_length < CONTEXT_CAP {
        model.context_length
    } else {
        CONTEXT_CAP
    };
    let mut i: usize = 0;
    while i < RUNGS
        invariant
            i <= RUNGS,
            pct == weight_percent(model@, max_ram_bytes),
            needs_aggressive == aggressive(model@, max_ram_bytes),
            base_ctx as nat == (if model.context_length < CONTEXT_CAP {
                model.context_length as nat
            } else {
                CONTEXT_CAP as nat
            }),
            plan_from(model@, max_ram_bytes, 0) == plan_from(model@, max_ram_bytes, i as int),
            fits_from(model@, max_ram_bytes, 0) == fits_from(model@, max_ram_bytes, i as int),
        decreases RUNGS - i,
    {
        let c = rung_exec(i);
        let ghost r = rung(i as int);
        let scaled = base_ctx / c.ctx_divisor;
        let ctx: u32 = if scaled < MIN_CONTEXT {
            MIN_CONTEXT
        } else {
            scaled
        };
        assert(ctx as nat == rung_context(model@, r));
        let kv = model.kv_cache_bytes(ctx, c.half_bits);
        let lhs: u128 = 100 * ((kv as u128) + (OVERHEAD_BYTES as u128)) + (pct as u128) * (
        model.file_size_bytes as u128);
        let rhs: u128 = 100 * (max_ram_bytes as u128);
        if lhs <= rhs {
            let weight: u64 = ((pct as u128) * (model.file_size_bytes as u128) / 100) as u64;
            assert(weight + kv + OVERHEAD_BYTES <= max_ram_bytes) by (nonlinear_arith)
                requires
                    100 * (kv + OVERHEAD_BYTES) + pct * model.file_size_bytes <= 100
                        * max_ram_bytes,
                    weight == pct * model.file_size_bytes / 100,
            ;
            let plan = TurboQuantPlan {
                kv_cache_k_type: owned(c.k_type),
                kv_cache_v_type: owned(c.v_type),
                kv_quant_half_bits: c.half_bits,
                context_length: ctx,
                batch_size: c.batch,
                flash_attn: true,
                mmap: true,
                mlock: !needs_aggressive,
                estimated_total_bytes: weight + kv + OVERHEAD_BYTES,
                kv_cache_bytes: kv,
                weight_bytes: weight,
            };
            return Some(plan);
        }
        i = i + 1;
    }
    None
}

/// Plans KV-cache quantization and context so that the model fits the RAM
/// budget: walks the ladder from best quality and takes the first rung whose
/// estimate fits, else falls back to the minimal settings.
pub fn plan_turbo_quant(model: &GgufModelInfo, max_ram_bytes: u64) -> (plan: TurboQuantPlan)
    ensures
        plan@ == plan_spec(model@, max_ram_bytes),
{
    if let Some(plan) = ladder_plan(model, max_ram_bytes) {
        return plan;
    }
    let weight: u64 = ((model.file_size_bytes as u128) * 3 / 10) as u64;
    TurboQuantPlan {
        kv_cache_k_type: owned("q4_0"),
        kv_cache_v_type: owned("q4_0"),
        kv_quant_half_bits: 8,
        context_length: 512,
        batch_size: 64,
        flash_attn: true,
        mmap: true,
        mlock: false,
        estimated_total_bytes: max_ram_bytes,
        kv_cache_bytes: 0,
        weight_bytes: weight,
    }
}

/// Bits per element of a KV-cache type: 8 for `q8_0`, 5 for `q5_0`, 4 for
/// `q4_0`, 0 for anything else.
pub open spec fn kv_type_bits(t: Seq<char>) -> nat {
    if t == "q8_0"@ {
        8
    } else if t == "q5_0"@ {
        5
    } else if t == "q4_0"@ {
        4
    } else {
        0
    }
}

proof fn lemma_kv_type_bits()
    ensures
        kv_type_bits("q8_0"@) == 8,
        kv_type_bits("q5_0"@) == 5,
        kv_type_bits("q4_0"@) == 4,
{
    reveal_strlit("q8_0");
    reveal_strlit("q5_0");
    reveal_strlit("q4_0");
    assert("q5_0"@[1] != "q8_0"@[1]);
    assert("q4_0"@[1] != "q8_0"@[1]);
    assert("q4_0"@[1] != "q5_0"@[1]);
}

/// Keys are never quantized harder than values: in every plan the K-cache
/// type has at least as many bits as the V-cache type, both are one of
/// `q8_0`, `q5_0`, `q4_0`, and the plan's half-bits are the two types' bits
/// added. The asymmetric plans (9 half-bits) keep keys at `q5_0` and drop
/// values to `q4_0`; 16 half-bits is `q8_0` for both, 10 is `q5_0` for
/// both, 8 is `q4_0` for both.
pub proof fn lemma_plan_keys_at_least_values(m: ModelInfoView, max_ram: u64)
    ensures
        kv_type_bits(plan_spec(m, max_ram).k_type) >= kv_type_bits(plan_spec(m, max_ram).v_type),
        kv_type_bits(plan_spec(m, max_ram).v_type) >= 4,
        plan_spec(m, max_ram).half_bits == kv_type_bits(plan_spec(m, max_ram).k_type)
            + kv_type_bits(plan_spec(m, max_ram).v_type),
        plan_spec(m, max_ram).half_bits == 9 ==> plan_spec(m, max_ram).k_type == "q5_0"@
            && plan_spec(m, max_ram).v_type == "q4_0"@,
        plan_spec(m, max_ram).half_bits == 16 ==> plan_spec(m, max_ram).k_type == "q8_0"@
            && plan_spec(m, max_ram).v_type == "q8_0"@,
        plan_spec(m, max_ram).half_bits == 10 ==> plan_spec(m, max_ram).k_type == "q5_0"@
            && plan_spec(m, max_ram).v_type == "q5_0"@,
        plan_spec(m, max_ram).half_bits == 8 ==> plan_spec(m, max_ram).k_type == "q4_0"@
            && plan_spec(m, max_ram).v_type == "q4_0"@,
{
    lemma_kv_type_bits();
    lemma_plan_from_keys(m, max_ram, 0);
}

proof fn lemma_plan_from_keys(m: ModelInfoView, max_ram: u64, i: int)
    requires
        0 <= i,
        kv_type_bits("q8_0"@) == 8,
        kv_type_bits("q5_0"@) == 5,
        kv_type_bits("q4_0"@) == 4,
    ensures
        ({
            let p = plan_from(m, max_ram, i);
            &&& kv_type_bits(p.k_type) >= kv_type_bits(p.v_type)
            &&& kv_type_bits(p.v_type) >= 4
            &&& p.half_bits == kv_type_bits(p.k_type) + kv_type_bits(p.v_type)
            &&& p.half_bits == 9 ==> p.k_type == "q5_0"@ && p.v_type == "q4_0"@
            &&& p.half_bits == 16 ==> p.k_type == "q8_0"@ && p.v_type == "q8_0"@
            &&& p.half_bits == 10 ==> p.k_type == "q5_0"@ && p.v_type == "q5_0"@
            &&& p.half_bits == 8 ==> p.k_type == "q4_0"@ && p.v_type == "q4_0"@
        }),
    decreases RUNGS - i,
{
    if i >= RUNGS {
    } else if rung_fits(m, max_ram, rung(i)) {
    } else {
        lemma_plan_from_keys(m, max_ram, i + 1);
    }
}

/// Every plan stays within the budget it was made for, keeps flash
/// attention and memory mapping on, uses at most 8 bits per KV element and
/// at least 512 tokens of context, and never raises the context above the
/// larger of 512 and the model's own context capped at 8192.
pub proof fn lemma_plan_within_budget(m: ModelInfoView, max_ram: u64)
    ensures
        plan_spec(m, max_ram).estimated_total_bytes <= max_ram,
        plan_spec(m, max_ram).flash_attn,
        plan_spec(m, max_ram).mmap,
        plan_spec(m, max_ram).half_bits <= 16,
        plan_spec(m, max_ram).context_length >= MIN_CONTEXT,
        plan_spec(m, max_ram).context_length <= MIN_CONTEXT || plan_spec(
            m,
            max_ram,
        ).context_length <= m.context_length && plan_spec(m, max_ram).context_length
            <= CONTEXT_CAP,
{
    lemma_plan_from_within_budget(m, max_ram, 0);
}

proof fn lemma_plan_from_within_budget(m: ModelInfoView, max_ram: u64, i: int)
    requires
        0 <= i,
    ensures
        plan_from(m, max_ram, i).estimated_total_bytes <= max_ram,
        plan_from(m, max_ram, i).flash_attn,
        plan_from(m, max_ram, i).mmap,
        plan_from(m, max_ram, i).half_bits <= 16,
        plan_from(m, max_ram, i).context_length >= MIN_CONTEXT,
        plan_from(m, max_ram, i).context_length <= MIN_CONTEXT || plan_from(
            m,
            max_ram,
            i,
        ).context_length <= m.context_length && plan_from(m, max_ram, i).context_length
            <= CONTEXT_CAP,
    decreases RUNGS - i,
{
    if i >= RUNGS {
    } else if rung_fits(m, max_ram, rung(i)) {
        let r = rung(i);
        let kv = kv_bytes(m, rung_context(m, r), r.half_bits);
        let pct = weight_percent(m, max_ram);
        let w = pct * m.file_size_bytes / 100;
        assert(w + kv + OVERHEAD_BYTES <= max_ram) by (nonlinear_arith)
            requires
                100 * (kv + OVERHEAD_BYTES) + pct * m.file_size_bytes <= 100 * max_ram,
                w == pct * m.file_size_bytes / 100,
        ;
        let base = if m.context_length < CONTEXT_CAP {
            m.context_length as nat
        } else {
            CONTEXT_CAP as nat
        };
        assert(base / r.ctx_divisor <= base) by (nonlinear_arith)
            requires
                r.ctx_divisor >= 1,
        ;
    } else {
        lemma_plan_from_within_budget(m, max_ram, i + 1);
    }
}

// ── Model selection ──────────────────────────────────────────────────

/// Why no model could be chosen.
#[derive(Debug, Clone, Copy, PartialEq, Eq, Structural)]
pub enum ModelError {
    /// The list of candidate models is empty.
    NoModels,
}

/// The index of the last of the first `n` models that fits the budget.
pub open spec fn last_fitting(models: Seq<ModelInfoView>, max_ram: u64, n: int) -> Option<int>
    decreases n,
{
    if n <= 0 {
        None
    } else if fits_budget(models[n - 1], max_ram) {
        Some(n - 1)
    } else {
        last_fitting(models, max_ram, n - 1)
    }
}

/// The model chosen from a list (in size order): the largest whose plan
/// fits the budget, else the first (smallest).
pub open spec fn chosen_index(models: Seq<ModelInfoView>, max_ram: u64) -> int {
    match last_fitting(models, max_ram, models.len() as int) {
        Some(j) => j,
        None => 0,
    }
}

/// Selects the model to run and its plan: tries the models from the last
/// (the largest, in size order) down and takes the first one for which a
/// rung of the ladder fits the budget; when none fits, the first (smallest)
/// model with its fallback plan.
pub fn select_best_model(models: &[GgufModelInfo], max_ram_bytes: u64) -> (r: Result<
    (GgufModelInfo, TurboQuantPlan),
    ModelError,
>)
    ensures
        models@.len() == 0 <==> r is Err,
        r matches Err(e) ==> e == ModelError::NoModels,
        r matches Ok((m, p)) ==> m@ == models@[chosen_index(model_views(models@), max_ram_bytes)]@
            && p@ == plan_spec(m@, max_ram_bytes),
{
    if models.len() == 0 {
        return Err(ModelError::NoModels);
    }
    let ghost views = model_views(models@);
    let mut i = models.len();
    while i > 0
        invariant
            0 <= i <= models@.len(),
            models@.len() > 0,
            views == model_views(models@),
            last_fitting(views, max_ram_bytes, models@.len() as int) == last_fitting(
                views,
                max_ram_bytes,
                i as int,
            ),
        decreases i,
    {
        let model = &models[i - 1];
        assert(views[i - 1] == model@);
        if let Some(plan) = ladder_plan(model, max_ram_bytes) {
            return Ok((model.clone(), plan));
        }
        i = i - 1;
    }
    let smallest = &models[0];
    let plan = plan_turbo_quant(smallest, max_ram_bytes);
    Ok((smallest.clone(), plan))
}

/// The model selected is the largest that fits: it fits the budget and no
/// later (larger) model does; when no model fits, none is reported as the
/// one chosen by fit and the first model is taken.
pub proof fn lemma_selection_is_largest_fitting(models: Seq<ModelInfoView>, max_ram: u64)
    ensures
        last_fitting(models, max_ram, models.len() as int) matches Some(j) ==> 0 <= j < models.len()
            && fits_budget(models[j], max_ram) && forall|k: int|
            j < k < models.len() ==> !#[trigger] fits_budget(models[k], max_ram),
        last_fitting(models, max_ram, models.len() as int) is None ==> forall|k: int|
            0 <= k < models.len() ==> !#[trigger] fits_budget(models[k], max_ram),
{
    lemma_last_fitting(models, max_ram, models.len() as int);
}

proof fn lemma_last_fitting(models: Seq<ModelInfoView>, max_ram: u64, n: int)
    requires
        n <= models.len(),
    ensures
        last_fitting(models, max_ram, n) matches Some(j) ==> 0 <= j < n && fits_budget(
            models[j],
            max_ram,
        ) && forall|k: int| j < k < n ==> !#[trigger] fits_budget(models[k], max_ram),
        last_fitting(models, max_ram, n) is None ==> forall|k: int|
            0 <= k < n ==> !#[trigger] fits_budget(models[k], max_ram),
    decreases n,
{
    if n > 0 {
        lemma_last_fitting(models, max_ram, n - 1);
    }
}

/// A plan made for a model that fits is a rung of the ladder: it keeps the
/// model within the budget by its own estimate, and is not the fallback.
pub proof fn lemma_fitting_plan_is_a_rung(m: ModelInfoView, max_ram: u64)
    requires
        fits_budget(m, max_ram),
    ensures
        exists|i: int| 0 <= i < RUNGS && #[trigger] plan_spec(m, max_ram) == rung_plan(m, max_ram, rung(i))
            && rung_fits(m, max_ram, rung(i)),
        plan_spec(m, max_ram).estimated_total_bytes <= max_ram,
{
    lemma_fits_from_rung(m, max_ram, 0);
    lemma_plan_within_budget(m, max_ram);
}

proof fn lemma_fits_from_rung(m: ModelInfoView, max_ram: u64, i: int)
    requires
        0 <= i,
        fits_from(m, max_ram, i),
    ensures
        exists|k: int| i <= k < RUNGS && #[trigger] plan_from(m, max_ram, i) == rung_plan(m, max_ram, rung(k))
            && rung_fits(m, max_ram, rung(k)),
    decreases RUNGS - i,
{
    if rung_fits(m, max_ram, rung(i)) {
        assert(plan_from(m, max_ram, i) == rung_plan(m, max_ram, rung(i)));
    } else {
        lemma_fits_from_rung(m, max_ram, i + 1);
        let k = choose|k: int| i + 1 <= k < RUNGS && #[trigger] plan_from(m, max_ram, i + 1)
            == rung_plan(m, max_ram, rung(k)) && rung_fits(m, max_ram, rung(k));
        assert(plan_from(m, max_ram, i) == rung_plan(m, max_ram, rung(k)));
    }
}

// ── Model ordering ───────────────────────────────────────────────────

/// The views of a list of models.
pub open spec fn model_views(v: Seq<GgufModelInfo>) -> Seq<ModelInfoView> {
    v.map_values(|m: GgufModelInfo| m@)
}

/// `x` placed into `s` after every model that is no larger than it and
/// before the larger ones at the end.
pub open spec fn insert_by_size(s: Seq<ModelInfoView>, x: ModelInfoView) -> Seq<ModelInfoView>
    decreases s.len(),
{
    if s.len() == 0 {
        seq![x]
    } else if s.last().file_size_bytes <= x.file_size_bytes {
        s.push(x)
    } else {
        insert_by_size(s.drop_last(), x).push(s.last())
    }
}

/// The models ordered by file size, smallest first; models of equal size
/// keep the order in which they came.
pub open spec fn by_size(s: Seq<ModelInfoView>) -> Seq<ModelInfoView>
    decreases s.len(),
{
    if s.len() == 0 {
        s
    } else {
        insert_by_size(by_size(s.drop_last()), s.last())
    }
}

/// A list of models whose file sizes never decrease.
pub open spec fn size_sorted(s: Seq<ModelInfoView>) -> bool {
    forall|i: int, j: int|
        0 <= i <= j < s.len() ==> #[trigger] s[i].file_size_bytes <= #[trigger] s[j].file_size_bytes
}

proof fn lemma_insert_at(s: Seq<ModelInfoView>, x: ModelInfoView, j: int)
    requires
        0 <= j <= s.len(),
        forall|k: int| j <= k < s.len() ==> #[trigger] s[k].file_size_bytes > x.file_size_bytes,
        j > 0 ==> s[j - 1].file_size_bytes <= x.file_size_bytes,
    ensures
        insert_by_size(s, x) == s.insert(j, x),
    decreases s.len(),
{
    if s.len() == 0 {
        assert(seq![x] =~= s.insert(j, x));
    } else if j == s.len() {
        assert(s.push(x) =~= s.insert(j, x));
    } else {
        assert(s.last().file_size_bytes > x.file_size_bytes);
        let t = s.drop_last();
        lemma_insert_at(t, x, j);
        assert(t.insert(j, x).push(s.last()) =~= s.insert(j, x));
    }
}

proof fn lemma_insert_keeps_order(s: Seq<ModelInfoView>, x: ModelInfoView)
    requires
        size_sorted(s),
    ensures
        size_sorted(insert_by_size(s, x)),
        insert_by_size(s, x).to_multiset() == s.to_multiset().insert(x),
        insert_by_size(s, x).len() == s.len() + 1,
    decreases s.len(),
{
    broadcast use vstd::seq_lib::group_to_multiset_ensures;

    if s.len() == 0 {
        assert(seq![x] =~= s.push(x));
    } else if s.last().file_size_bytes <= x.file_size_bytes {
    } else {
        let t = s.drop_last();
        assert(s =~= t.push(s.last()));
        lemma_insert_keeps_order(t, x);
        let u = insert_by_size(t, x);
        assert forall|i: int, j: int| 0 <= i <= j < u.push(s.last()).len() implies
            #[trigger] u.push(s.last())[i].file_size_bytes <= #[trigger] u.push(
            s.last(),
        )[j].file_size_bytes by {
            if j == u.len() && i < u.len() {
                assert(u.to_multiset().contains(u[i]));
                assert(t.to_multiset().insert(x).contains(u[i]));
                if u[i] != x {
                    assert(t.to_multiset().contains(u[i]));
                    let k = choose|k: int| 0 <= k < t.len() && t[k] == u[i];
                    assert(s[k] == t[k]);
                }
            }
        }
    }
}

proof fn lemma_by_size(s: Seq<ModelInfoView>)
    ensures
        size_sorted(by_size(s)),
        by_size(s).to_multiset() == s.to_multiset(),
        by_size(s).len() == s.len(),
    decreases s.len(),
{
    broadcast use vstd::seq_lib::group_to_multiset_ensures;

    if s.len() > 0 {
        let t = s.drop_last();
        lemma_by_size(t);
        lemma_insert_keeps_order(by_size(t), s.last());
        assert(s =~= t.push(s.last()));
    }
}

/// Ordering models by size gives a list whose sizes never decrease and that
/// holds exactly the models it was given.
pub proof fn lemma_order_is_sorted_permutation(s: Seq<ModelInfoView>)
    ensures
        size_sorted(by_size(s)),
        by_size(s).to_multiset() == s.to_multiset(),
{
    lemma_by_size(s);
}

/// Orders the models found in a directory by file size, smallest first,
/// keeping the order of models of equal size; an empty list is an error.
pub fn order_models(models: &[GgufModelInfo]) -> (r: Result<Vec<GgufModelInfo>, ModelError>)
    ensures
        models@.len() == 0 <==> r is Err,
        r matches Err(e) ==> e == ModelError::NoModels,
        r matches Ok(v) ==> model_views(v@) == by_size(model_views(models@)),
{
    let mut out: Vec<GgufModelInfo> = Vec::new();
    let mut i: usize = 0;
    while i < models.len()
        invariant
            i <= models@.len(),
            model_views(out@) == by_size(model_views(models@.subrange(0, i as int))),
            size_sorted(model_views(out@)),
        decreases models@.len() - i,
    {
        let x = models[i].clone();
        let ghost before = model_views(out@);
        let mut j: usize = out.len();
        while j > 0 && out[j - 1].file_size_bytes > x.file_size_bytes
            invariant
                j <= out@.len(),
                before == model_views(out@),
                forall|k: int| j <= k < before.len() ==> #[trigger] before[k].file_size_bytes
                    > x.file_size_bytes,
            decreases j,
        {
            j = j - 1;
        }
        proof {
            lemma_insert_at(before, x@, j as int);
            lemma_insert_keeps_order(before, x@);
            let pre = model_views(models@.subrange(0, i as int));
            let post = model_views(models@.subrange(0, i + 1));
            assert(post.drop_last() =~= pre);
            assert(post.last() == x@);
        }
        out.insert(j, x);
        proof {
            assert(model_views(out@) =~= before.insert(j as int, x@));
        }
        i = i + 1;
    }
    assert(models@.subrange(0, models@.len() as int) =~= models@);
    if out.len() == 0 {
        return Err(ModelError::NoModels);
    }
    proof {
        lemma_by_size(model_views(models@));
    }
    Ok(out)
}

// ── Quantization tags read back ─────────────────────────────────────

proof fn lemma_absent_char(s: Seq<char>, p: Seq<char>, k: int)
    requires
        0 <= k < p.len(),
        forall|i: int| 0 <= i < s.len() ==> s[i] != p[k],
    ensures
        !contains(s, p),
{
    assert forall|i: int| !crate::text::matches_at(s, p, i) by {
        if crate::text::matches_at(s, p, i) {
            assert(s.subrange(i, i + p.len())[k] == p[k]);
        }
    }
}

proof fn lemma_longer_absent(s: Seq<char>, p: Seq<char>)
    requires
        p.len() > s.len(),
    ensures
        !contains(s, p),
{
}

proof fn lemma_contains_itself(s: Seq<char>)
    ensures
        contains(s, s),
{
    assert(s.subrange(0, s.len() as int) =~= s);
    assert(crate::text::matches_at(s, s, 0));
}

/// Each known tag, matched against the list in its order, is found as
/// itself: no tag checked before it occurs in it.
#[verifier::rlimit(50)]
proof fn lemma_tag_reads_back(q: QuantType)
    requires
        !(q is Unknown),
    ensures
        quant_of_upper_name(quant_name(q)) == q,
{
    match q {
        QuantType::IQ1_S => {
            reveal_strlit("IQ1_S");
            lemma_contains_itself("IQ1_S"@);
        },
        QuantType::IQ2_XXS => {
            reveal_strlit("IQ2_XXS");
            reveal_strlit("IQ1_S");
            lemma_absent_char("IQ2_XXS"@, "IQ1_S"@, 2);
            lemma_contains_itself("IQ2_XXS"@);
        },
        QuantType::IQ2_XS => {
            reveal_strlit("IQ2_XS");
            reveal_strlit("IQ1_S");
            lemma_absent_char("IQ2_XS"@, "IQ1_S"@, 2);
            reveal_strlit("IQ2_XXS");
            lemma_longer_absent("IQ2_XS"@, "IQ2_XXS"@);
            lemma_contains_itself("IQ2_XS"@);
        },
        QuantType::IQ2_S => {
            reveal_strlit("IQ2_S");
            reveal_strlit("IQ1_S");
            lemma_absent_char("IQ2_S"@, "IQ1_S"@, 2);
            reveal_strlit("IQ2_XXS");
            lemma_longer_absent("IQ2_S"@, "IQ2_XXS"@);
            reveal_strlit("IQ2_XS");
            lemma_longer_absent("IQ2_S"@, "IQ2_XS"@);
            lemma_contains_itself("IQ2_S"@);
        },
        QuantType::IQ3_XXS => {
            reveal_strlit("IQ3_XXS");
            reveal_strlit("IQ1_S");
            lemma_absent_char("IQ3_XXS"@, "IQ1_S"@, 2);
            reveal_strlit("IQ2_XXS");
            lemma_absent_char("IQ3_XXS"@, "IQ2_XXS"@, 2);
            reveal_strlit("IQ2_XS");
            lemma_absent_char("IQ3_XXS"@, "IQ2_XS"@, 2);
            reveal_strlit("IQ2_S");
            lemma_absent_char("IQ3_XXS"@, "IQ2_S"@, 2);
            lemma_contains_itself("IQ3_XXS"@);
        },
        QuantType::IQ3_S => {
            reveal_strlit("IQ3_S");
            reveal_strlit("IQ1_S");
            lemma_absent_char("IQ3_S"@, "IQ1_S"@, 2);
            reveal_strlit("IQ2_XXS");
            lemma_longer_absent("IQ3_S"@, "IQ2_XXS"@);
            reveal_strlit("IQ2_XS");
            lemma_longer_absent("IQ3_S"@, "IQ2_XS"@);
            reveal_strlit("IQ2_S");
            lemma_absent_char("IQ3_S"@, "IQ2_S"@, 2);
            reveal_strlit("IQ3_XXS");
            lemma_longer_absent("IQ3_S"@, "IQ3_XXS"@);
            lemma_contains_itself("IQ3_S"@);
        },
        QuantType::IQ4_NL => {
            reveal_strlit("IQ4_NL");
            reveal_strlit("IQ1_S");
            lemma_absent_char("IQ4_NL"@, "IQ1_S"@, 2);
            reveal_strlit("IQ2_XXS");
            lemma_longer_absent("IQ4_NL"@, "IQ2_XXS"@);
            reveal_strlit("IQ2_XS");
            lemma_absent_char("IQ4_NL"@, "IQ2_XS"@, 2);
            reveal_strlit("IQ2_S");
            lemma_absent_char("IQ4_NL"@, "IQ2_S"@, 2);
            reveal_strlit("IQ3_XXS");
            lemma_longer_absent("IQ4_NL"@, "IQ3_XXS"@);
            reveal_strlit("IQ3_S");
            lemma_absent_char("IQ4_NL"@, "IQ3_S"@, 2);
            lemma_contains_itself("IQ4_NL"@);
        },
        QuantType::IQ4_XS => {
            reveal_strlit("IQ4_XS");
            reveal_strlit("IQ1_S");
            lemma_absent_char("IQ4_XS"@, "IQ1_S"@, 2);
            reveal_strlit("IQ2_XXS");
            lemma_longer_absent("IQ4_XS"@, "IQ2_XXS"@);
            reveal_strlit("IQ2_XS");
            lemma_absent_char("IQ4_XS"@, "IQ2_XS"@, 2);
            reveal_strlit("IQ2_S");
            lemma_absent_char("IQ4_XS"@, "IQ2_S"@, 2);
            reveal_strlit("IQ3_XXS");
            lemma_longer_absent("IQ4_XS"@, "IQ3_XXS"@);
            reveal_strlit("IQ3_S");
            lemma_absent_char("IQ4_XS"@, "IQ3_S"@, 2);
            reveal_strlit("IQ4_NL");
            lemma_absent_char("IQ4_XS"@, "IQ4_NL"@, 4);
            lemma_contains_itself("IQ4_XS"@);
        },
        QuantType::Q2_K => {
            reveal_strlit("Q2_K");
            reveal_strlit("IQ1_S");
            lemma_longer_absent("Q2_K"@, "IQ1_S"@);
            reveal_strlit("IQ2_XXS");
            lemma_longer_absent("Q2_K"@, "IQ2_XXS"@);
            reveal_strlit("IQ2_XS");
            lemma_longer_absent("Q2_K"@, "IQ2_XS"@);
            reveal_strlit("IQ2_S");
            lemma_longer_absent("Q2_K"@, "IQ2_S"@);
            reveal_strlit("IQ3_XXS");
            lemma_longer_absent("Q2_K"@, "IQ3_XXS"@);
            reveal_strlit("IQ3_S");
            lemma_longer_absent("Q2_K"@, "IQ3_S"@);
            reveal_strlit("IQ4_NL");
            lemma_longer_absent("Q2_K"@, "IQ4_NL"@);
            reveal_strlit("IQ4_XS");
            lemma_longer_absent("Q2_K"@, "IQ4_XS"@);
            lemma_contains_itself("Q2_K"@);
        },
        QuantType::Q3_K_S => {
            reveal_strlit("Q3_K_S");
            reveal_strlit("IQ1_S");
            lemma_absent_char("Q3_K_S"@, "IQ1_S"@, 0);
            reveal_strlit("IQ2_XXS");
            lemma_longer_absent("Q3_K_S"@, "IQ2_XXS"@);
            reveal_strlit("IQ2_XS");
            lemma_absent_char("Q3_K_S"@, "IQ2_XS"@, 0);
            reveal_strlit("IQ2_S");
            lemma_absent_char("Q3_K_S"@, "IQ2_S"@, 0);
            reveal_strlit("IQ3_XXS");
            lemma_longer_absent("Q3_K_S"@, "IQ3_XXS"@);
            reveal_strlit("IQ3_S");
            lemma_absent_char("Q3_K_S"@, "IQ3_S"@, 0);
            reveal_strlit("IQ4_NL");
            lemma_absent_char("Q3_K_S"@, "IQ4_NL"@, 0);
            reveal_strlit("IQ4_XS");
            lemma_absent_char("Q3_K_S"@, "IQ4_XS"@, 0);
            reveal_strlit("Q2_K");
            lemma_absent_char("Q3_K_S"@, "Q2_K"@, 1);
            lemma_contains_itself("Q3_K_S"@);
        },
        QuantType::Q3_K_M => {
            reveal_strlit("Q3_K_M");
            reveal_strlit("IQ1_S");
            lemma_absent_char("Q3_K_M"@, "IQ1_S"@, 0);
            reveal_strlit("IQ2_XXS");
            lemma_longer_absent("Q3_K_M"@, "IQ2_XXS"@);
            reveal_strlit("IQ2_XS");
            lemma_absent_char("Q3_K_M"@, "IQ2_XS"@, 0);
            reveal_strlit("IQ2_S");
            lemma_absent_char("Q3_K_M"@, "IQ2_S"@, 0);
            reveal_strlit("IQ3_XXS");
            lemma_longer_absent("Q3_K_M"@, "IQ3_XXS"@);
            reveal_strlit("IQ3_S");
            lemma_absent_char("Q3_K_M"@, "IQ3_S"@, 0);
            reveal_strlit("IQ4_NL");
            lemma_absent_char("Q3_K_M"@, "IQ4_NL"@, 0);
            reveal_strlit("IQ4_XS");
            lemma_absent_char("Q3_K_M"@, "IQ4_XS"@, 0);
            reveal_strlit("Q2_K");
            lemma_absent_char("Q3_K_M"@, "Q2_K"@, 1);
            reveal_strlit("Q3_K_S");
            lemma_absent_char("Q3_K_M"@, "Q3_K_S"@, 5);
            lemma_contains_itself("Q3_K_M"@);
        },
        QuantType::Q3_K_L => {
            reveal_strlit("Q3_K_L");
            reveal_strlit("IQ1_S");
            lemma_absent_char("Q3_K_L"@, "IQ1_S"@, 0);
            reveal_strlit("IQ2_XXS");
            lemma_longer_absent("Q3_K_L"@, "IQ2_XXS"@);
            reveal_strlit("IQ2_XS");
            lemma_absent_char("Q3_K_L"@, "IQ2_XS"@, 0);
            reveal_strlit("IQ2_S");
            lemma_absent_char("Q3_K_L"@, "IQ2_S"@, 0);
            reveal_strlit("IQ3_XXS");
            lemma_longer_absent("Q3_K_L"@, "IQ3_XXS"@);
            reveal_strlit("IQ3_S");
            lemma_absent_char("Q3_K_L"@, "IQ3_S"@, 0);
            reveal_strlit("IQ4_NL");
            lemma_absent_char("Q3_K_L"@, "IQ4_NL"@, 0);
            reveal_strlit("IQ4_XS");
            lemma_absent_char("Q3_K_L"@, "IQ4_XS"@, 0);
            reveal_strlit("Q2_K");
            lemma_absent_char("Q3_K_L"@, "Q2_K"@, 1);
            reveal_strlit("Q3_K_S");
            lemma_absent_char("Q3_K_L"@, "Q3_K_S"@, 5);
            reveal_strlit("Q3_K_M");
            lemma_absent_char("Q3_K_L"@, "Q3_K_M"@, 5);
            lemma_contains_itself("Q3_K_L"@);
        },
        QuantType::Q4_K_S => {
            reveal_strlit("Q4_K_S");
            reveal_strlit("IQ1_S");
            lemma_absent_char("Q4_K_S"@, "IQ1_S"@, 0);
            reveal_strlit("IQ2_XXS");
            lemma_longer_absent("Q4_K_S"@, "IQ2_XXS"@);
            reveal_strlit("IQ2_XS");
            lemma_absent_char("Q4_K_S"@, "IQ2_XS"@, 0);
            reveal_strlit("IQ2_S");
            lemma_absent_char("Q4_K_S"@, "IQ2_S"@, 0);
            reveal_strlit("IQ3_XXS");
            lemma_longer_absent("Q4_K_S"@, "IQ3_XXS"@);
            reveal_strlit("IQ3_S");
            lemma_absent_char("Q4_K_S"@, "IQ3_S"@, 0);
            reveal_strlit("IQ4_NL");
            lemma_absent_char("Q4_K_S"@, "IQ4_NL"@, 0);
            reveal_strlit("IQ4_XS");
            lemma_absent_char("Q4_K_S"@, "IQ4_XS"@, 0);
            reveal_strlit("Q2_K");
            lemma_absent_char("Q4_K_S"@, "Q2_K"@, 1);
            reveal_strlit("Q3_K_S");
            lemma_absent_char("Q4_K_S"@, "Q3_K_S"@, 1);
            reveal_strlit("Q3_K_M");
            lemma_absent_char("Q4_K_S"@, "Q3_K_M"@, 1);
            reveal_strlit("Q3_K_L");
            lemma_absent_char("Q4_K_S"@, "Q3_K_L"@, 1);
            lemma_contains_itself("Q4_K_S"@);
        },
        QuantType::Q4_K_M => {
            reveal_strlit("Q4_K_M");
            reveal_strlit("IQ1_S");
            lemma_absent_char("Q4_K_M"@, "IQ1_S"@, 0);
            reveal_strlit("IQ2_XXS");
            lemma_longer_absent("Q4_K_M"@, "IQ2_XXS"@);
            reveal_strlit("IQ2_XS");
            lemma_absent_char("Q4_K_M"@, "IQ2_XS"@, 0);
            reveal_strlit("IQ2_S");
            lemma_absent_char("Q4_K_M"@, "IQ2_S"@, 0);
            reveal_strlit("IQ3_XXS");
            lemma_longer_absent("Q4_K_M"@, "IQ3_XXS"@);
            reveal_strlit("IQ3_S");
            lemma_absent_char("Q4_K_M"@, "IQ3_S"@, 0);
            reveal_strlit("IQ4_NL");
            lemma_absent_char("Q4_K_M"@, "IQ4_NL"@, 0);
            reveal_strlit("IQ4_XS");
            lemma_absent_char("Q4_K_M"@, "IQ4_XS"@, 0);
            reveal_strlit("Q2_K");
            lemma_absent_char("Q4_K_M"@, "Q2_K"@, 1);
            reveal_strlit("Q3_K_S");
            lemma_absent_char("Q4_K_M"@, "Q3_K_S"@, 1);
            reveal_strlit("Q3_K_M");
            lemma_absent_char("Q4_K_M"@, "Q3_K_M"@, 1);
            reveal_strlit("Q3_K_L");
            lemma_absent_char("Q4_K_M"@, "Q3_K_L"@, 1);
            reveal_strlit("Q4_K_S");
            lemma_absent_char("Q4_K_M"@, "Q4_K_S"@, 5);
            lemma_contains_itself("Q4_K_M"@);
        },
        QuantType::Q4_0 => {
            reveal_strlit("Q4_0");
            reveal_strlit("IQ1_S");
            lemma_longer_absent("Q4_0"@, "IQ1_S"@);
            reveal_strlit("IQ2_XXS");
            lemma_longer_absent("Q4_0"@, "IQ2_XXS"@);
            reveal_strlit("IQ2_XS");
            lemma_longer_absent("Q4_0"@, "IQ2_XS"@);
            reveal_strlit("IQ2_S");
            lemma_longer_absent("Q4_0"@, "IQ2_S"@);
            reveal_strlit("IQ3_XXS");
            lemma_longer_absent("Q4_0"@, "IQ3_XXS"@);
            reveal_strlit("IQ3_S");
            lemma_longer_absent("Q4_0"@, "IQ3_S"@);
            reveal_strlit("IQ4_NL");
            lemma_longer_absent("Q4_0"@, "IQ4_NL"@);
            reveal_strlit("IQ4_XS");
            lemma_longer_absent("Q4_0"@, "IQ4_XS"@);
            reveal_strlit("Q2_K");
            lemma_absent_char("Q4_0"@, "Q2_K"@, 1);
            reveal_strlit("Q3_K_S");
            lemma_longer_absent("Q4_0"@, "Q3_K_S"@);
            reveal_strlit("Q3_K_M");
            lemma_longer_absent("Q4_0"@, "Q3_K_M"@);
            reveal_strlit("Q3_K_L");
            lemma_longer_absent("Q4_0"@, "Q3_K_L"@);
            reveal_strlit("Q4_K_S");
            lemma_longer_absent("Q4_0"@, "Q4_K_S"@);
            reveal_strlit("Q4_K_M");
            lemma_longer_absent("Q4_0"@, "Q4_K_M"@);
            lemma_contains_itself("Q4_0"@);
        },
        QuantType::Q4_1 => {
            reveal_strlit("Q4_1");
            reveal_strlit("IQ1_S");
            lemma_longer_absent("Q4_1"@, "IQ1_S"@);
            reveal_strlit("IQ2_XXS");
            lemma_longer_absent("Q4_1"@, "IQ2_XXS"@);
            reveal_strlit("IQ2_XS");
            lemma_longer_absent("Q4_1"@, "IQ2_XS"@);
            reveal_strlit("IQ2_S");
            lemma_longer_absent("Q4_1"@, "IQ2_S"@);
            reveal_strlit("IQ3_XXS");
            lemma_longer_absent("Q4_1"@, "IQ3_XXS"@);
            reveal_strlit("IQ3_S");
            lemma_longer_absent("Q4_1"@, "IQ3_S"@);
            reveal_strlit("IQ4_NL");
            lemma_longer_absent("Q4_1"@, "IQ4_NL"@);
            reveal_strlit("IQ4_XS");
            lemma_longer_absent("Q4_1"@, "IQ4_XS"@);
            reveal_strlit("Q2_K");
            lemma_absent_char("Q4_1"@, "Q2_K"@, 1);
            reveal_strlit("Q3_K_S");
            lemma_longer_absent("Q4_1"@, "Q3_K_S"@);
            reveal_strlit("Q3_K_M");
            lemma_longer_absent("Q4_1"@, "Q3_K_M"@);
            reveal_strlit("Q3_K_L");
            lemma_longer_absent("Q4_1"@, "Q3_K_L"@);
            reveal_strlit("Q4_K_S");
            lemma_longer_absent("Q4_1"@, "Q4_K_S"@);
            reveal_strlit("Q4_K_M");
            lemma_longer_absent("Q4_1"@, "Q4_K_M"@);
            reveal_strlit("Q4_0");
            lemma_absent_char("Q4_1"@, "Q4_0"@, 3);
            lemma_contains_itself("Q4_1"@);
        },
        QuantType::Q5_K_S => {
            reveal_strlit("Q5_K_S");
            reveal_strlit("IQ1_S");
            lemma_absent_char("Q5_K_S"@, "IQ1_S"@, 0);
            reveal_strlit("IQ2_XXS");
            lemma_longer_absent("Q5_K_S"@, "IQ2_XXS"@);
            reveal_strlit("IQ2_XS");
            lemma_absent_char("Q5_K_S"@, "IQ2_XS"@, 0);
            reveal_strlit("IQ2_S");
            lemma_absent_char("Q5_K_S"@, "IQ2_S"@, 0);
            reveal_strlit("IQ3_XXS");
            lemma_longer_absent("Q5_K_S"@, "IQ3_XXS"@);
            reveal_strlit("IQ3_S");
            lemma_absent_char("Q5_K_S"@, "IQ3_S"@, 0);
            reveal_strlit("IQ4_NL");
            lemma_absent_char("Q5_K_S"@, "IQ4_NL"@, 0);
            reveal_strlit("IQ4_XS");
            lemma_absent_char("Q5_K_S"@, "IQ4_XS"@, 0);
            reveal_strlit("Q2_K");
            lemma_absent_char("Q5_K_S"@, "Q2_K"@, 1);
            reveal_strlit("Q3_K_S");
            lemma_absent_char("Q5_K_S"@, "Q3_K_S"@, 1);
            reveal_strlit("Q3_K_M");
            lemma_absent_char("Q5_K_S"@, "Q3_K_M"@, 1);
            reveal_strlit("Q3_K_L");
            lemma_absent_char("Q5_K_S"@, "Q3_K_L"@, 1);
            reveal_strlit("Q4_K_S");
            lemma_absent_char("Q5_K_S"@, "Q4_K_S"@, 1);
            reveal_strlit("Q4_K_M");
            lemma_absent_char("Q5_K_S"@, "Q4_K_M"@, 1);
            reveal_strlit("Q4_0");
            lemma_absent_char("Q5_K_S"@, "Q4_0"@, 1);
            reveal_strlit("Q4_1");
            lemma_absent_char("Q5_K_S"@, "Q4_1"@, 1);
            lemma_contains_itself("Q5_K_S"@);
        },
        QuantType::Q5_K_M => {
            reveal_strlit("Q5_K_M");
            reveal_strlit("IQ1_S");
            lemma_absent_char("Q5_K_M"@, "IQ1_S"@, 0);
            reveal_strlit("IQ2_XXS");
            lemma_longer_absent("Q5_K_M"@, "IQ2_XXS"@);
            reveal_strlit("IQ2_XS");
            lemma_absent_char("Q5_K_M"@, "IQ2_XS"@, 0);
            reveal_strlit("IQ2_S");
            lemma_absent_char("Q5_K_M"@, "IQ2_S"@, 0);
            reveal_strlit("IQ3_XXS");
            lemma_longer_absent("Q5_K_M"@, "IQ3_XXS"@);
            reveal_strlit("IQ3_S");
            lemma_absent_char("Q5_K_M"@, "IQ3_S"@, 0);
            reveal_strlit("IQ4_NL");
            lemma_absent_char("Q5_K_M"@, "IQ4_NL"@, 0);
            reveal_strlit("IQ4_XS");
            lemma_absent_char("Q5_K_M"@, "IQ4_XS"@, 0);
            reveal_strlit("Q2_K");
            lemma_absent_char("Q5_K_M"@, "Q2_K"@, 1);
            reveal_strlit("Q3_K_S");
            lemma_absent_char("Q5_K_M"@, "Q3_K_S"@, 1);
            reveal_strlit("Q3_K_M");
            lemma_absent_char("Q5_K_M"@, "Q3_K_M"@, 1);
            reveal_strlit("Q3_K_L");
            lemma_absent_char("Q5_K_M"@, "Q3_K_L"@, 1);
            reveal_strlit("Q4_K_S");
            lemma_absent_char("Q5_K_M"@, "Q4_K_S"@, 1);
            reveal_strlit("Q4_K_M");
            lemma_absent_char("Q5_K_M"@, "Q4_K_M"@, 1);
            reveal_strlit("Q4_0");
            lemma_absent_char("Q5_K_M"@, "Q4_0"@, 1);
            reveal_strlit("Q4_1");
            lemma_absent_char("Q5_K_M"@, "Q4_1"@, 1);
            reveal_strlit("Q5_K_S");
            lemma_absent_char("Q5_K_M"@, "Q5_K_S"@, 5);
            lemma_contains_itself("Q5_K_M"@);
        },
        QuantType::Q5_0 => {
            reveal_strlit("Q5_0");
            reveal_strlit("IQ1_S");
            lemma_longer_absent("Q5_0"@, "IQ1_S"@);
            reveal_strlit("IQ2_XXS");
            lemma_longer_absent("Q5_0"@, "IQ2_XXS"@);
            reveal_strlit("IQ2_XS");
            lemma_longer_absent("Q5_0"@, "IQ2_XS"@);
            reveal_strlit("IQ2_S");
            lemma_longer_absent("Q5_0"@, "IQ2_S"@);
            reveal_strlit("IQ3_XXS");
            lemma_longer_absent("Q5_0"@, "IQ3_XXS"@);
            reveal_strlit("IQ3_S");
            lemma_longer_absent("Q5_0"@, "IQ3_S"@);
            reveal_strlit("IQ4_NL");
            lemma_longer_absent("Q5_0"@, "IQ4_NL"@);
            reveal_strlit("IQ4_XS");
            lemma_longer_absent("Q5_0"@, "IQ4_XS"@);
            reveal_strlit("Q2_K");
            lemma_absent_char("Q5_0"@, "Q2_K"@, 1);
            reveal_strlit("Q3_K_S");
            lemma_longer_absent("Q5_0"@, "Q3_K_S"@);
            reveal_strlit("Q3_K_M");
            lemma_longer_absent("Q5_0"@, "Q3_K_M"@);
            reveal_strlit("Q3_K_L");
            lemma_longer_absent("Q5_0"@, "Q3_K_L"@);
            reveal_strlit("Q4_K_S");
            lemma_longer_absent("Q5_0"@, "Q4_K_S"@);
            reveal_strlit("Q4_K_M");
            lemma_longer_absent("Q5_0"@, "Q4_K_M"@);
            reveal_strlit("Q4_0");
            lemma_absent_char("Q5_0"@, "Q4_0"@, 1);
            reveal_strlit("Q4_1");
            lemma_absent_char("Q5_0"@, "Q4_1"@, 1);
            reveal_strlit("Q5_K_S");
            lemma_longer_absent("Q5_0"@, "Q5_K_S"@);
            reveal_strlit("Q5_K_M");
            lemma_longer_absent("Q5_0"@, "Q5_K_M"@);
            lemma_contains_itself("Q5_0"@);
        },
        QuantType::Q5_1 => {
            reveal_strlit("Q5_1");
            reveal_strlit("IQ1_S");
            lemma_longer_absent("Q5_1"@, "IQ1_S"@);
            reveal_strlit("IQ2_XXS");
            lemma_longer_absent("Q5_1"@, "IQ2_XXS"@);
            reveal_strlit("IQ2_XS");
            lemma_longer_absent("Q5_1"@, "IQ2_XS"@);
            reveal_strlit("IQ2_S");
            lemma_longer_absent("Q5_1"@, "IQ2_S"@);
            reveal_strlit("IQ3_XXS");
            lemma_longer_absent("Q5_1"@, "IQ3_XXS"@);
            reveal_strlit("IQ3_S");
            lemma_longer_absent("Q5_1"@, "IQ3_S"@);
            reveal_strlit("IQ4_NL");
            lemma_longer_absent("Q5_1"@, "IQ4_NL"@);
            reveal_strlit("IQ4_XS");
            lemma_longer_absent("Q5_1"@, "IQ4_XS"@);
            reveal_strlit("Q2_K");
            lemma_absent_char("Q5_1"@, "Q2_K"@, 1);
            reveal_strlit("Q3_K_S");
            lemma_longer_absent("Q5_1"@, "Q3_K_S"@);
            reveal_strlit("Q3_K_M");
            lemma_longer_absent("Q5_1"@, "Q3_K_M"@);
            reveal_strlit("Q3_K_L");
            lemma_longer_absent("Q5_1"@, "Q3_K_L"@);
            reveal_strlit("Q4_K_S");
            lemma_longer_absent("Q5_1"@, "Q4_K_S"@);
            reveal_strlit("Q4_K_M");
            lemma_longer_absent("Q5_1"@, "Q4_K_M"@);
            reveal_strlit("Q4_0");
            lemma_absent_char("Q5_1"@, "Q4_0"@, 1);
            reveal_strlit("Q4_1");
            lemma_absent_char("Q5_1"@, "Q4_1"@, 1);
            reveal_strlit("Q5_K_S");
            lemma_longer_absent("Q5_1"@, "Q5_K_S"@);
            reveal_strlit("Q5_K_M");
            lemma_longer_absent("Q5_1"@, "Q5_K_M"@);
            reveal_strlit("Q5_0");
            lemma_absent_char("Q5_1"@, "Q5_0"@, 3);
            lemma_contains_itself("Q5_1"@);
        },
        QuantType::Q6_K => {
            reveal_strlit("Q6_K");
            reveal_strlit("IQ1_S");
            lemma_longer_absent("Q6_K"@, "IQ1_S"@);
            reveal_strlit("IQ2_XXS");
            lemma_longer_absent("Q6_K"@, "IQ2_XXS"@);
            reveal_strlit("IQ2_XS");
            lemma_longer_absent("Q6_K"@, "IQ2_XS"@);
            reveal_strlit("IQ2_S");
            lemma_longer_absent("Q6_K"@, "IQ2_S"@);
            reveal_strlit("IQ3_XXS");
            lemma_longer_absent("Q6_K"@, "IQ3_XXS"@);
            reveal_strlit("IQ3_S");
            lemma_longer_absent("Q6_K"@, "IQ3_S"@);
            reveal_strlit("IQ4_NL");
            lemma_longer_absent("Q6_K"@, "IQ4_NL"@);
            reveal_strlit("IQ4_XS");
            lemma_longer_absent("Q6_K"@, "IQ4_XS"@);
            reveal_strlit("Q2_K");
            lemma_absent_char("Q6_K"@, "Q2_K"@, 1);
            reveal_strlit("Q3_K_S");
            lemma_longer_absent("Q6_K"@, "Q3_K_S"@);
            reveal_strlit("Q3_K_M");
            lemma_longer_absent("Q6_K"@, "Q3_K_M"@);
            reveal_strlit("Q3_K_L");
            lemma_longer_absent("Q6_K"@, "Q3_K_L"@);
            reveal_strlit("Q4_K_S");
            lemma_longer_absent("Q6_K"@, "Q4_K_S"@);
            reveal_strlit("Q4_K_M");
            lemma_longer_absent("Q6_K"@, "Q4_K_M"@);
            reveal_strlit("Q4_0");
            lemma_absent_char("Q6_K"@, "Q4_0"@, 1);
            reveal_strlit("Q4_1");
            lemma_absent_char("Q6_K"@, "Q4_1"@, 1);
            reveal_strlit("Q5_K_S");
            lemma_longer_absent("Q6_K"@, "Q5_K_S"@);
            reveal_strlit("Q5_K_M");
            lemma_longer_absent("Q6_K"@, "Q5_K_M"@);
            reveal_strlit("Q5_0");
            lemma_absent_char("Q6_K"@, "Q5_0"@, 1);
            reveal_strlit("Q5_1");
            lemma_absent_char("Q6_K"@, "Q5_1"@, 1);
            lemma_contains_itself("Q6_K"@);
        },
        QuantType::Q8_0 => {
            reveal_strlit("Q8_0");
            reveal_strlit("IQ1_S");
            lemma_longer_absent("Q8_0"@, "IQ1_S"@);
            reveal_strlit("IQ2_XXS");
            lemma_longer_absent("Q8_0"@, "IQ2_XXS"@);
            reveal_strlit("IQ2_XS");
            lemma_longer_absent("Q8_0"@, "IQ2_XS"@);
            reveal_strlit("IQ2_S");
            lemma_longer_absent("Q8_0"@, "IQ2_S"@);
            reveal_strlit("IQ3_XXS");
            lemma_longer_absent("Q8_0"@, "IQ3_XXS"@);
            reveal_strlit("IQ3_S");
            lemma_longer_absent("Q8_0"@, "IQ3_S"@);
            reveal_strlit("IQ4_NL");
            lemma_longer_absent("Q8_0"@, "IQ4_NL"@);
            reveal_strlit("IQ4_XS");
            lemma_longer_absent("Q8_0"@, "IQ4_XS"@);
            reveal_strlit("Q2_K");
            lemma_absent_char("Q8_0"@, "Q2_K"@, 1);
            reveal_strlit("Q3_K_S");
            lemma_longer_absent("Q8_0"@, "Q3_K_S"@);
            reveal_strlit("Q3_K_M");
            lemma_longer_absent("Q8_0"@, "Q3_K_M"@);
            reveal_strlit("Q3_K_L");
            lemma_longer_absent("Q8_0"@, "Q3_K_L"@);
            reveal_strlit("Q4_K_S");
            lemma_longer_absent("Q8_0"@, "Q4_K_S"@);
            reveal_strlit("Q4_K_M");
            lemma_longer_absent("Q8_0"@, "Q4_K_M"@);
            reveal_strlit("Q4_0");
            lemma_absent_char("Q8_0"@, "Q4_0"@, 1);
            reveal_strlit("Q4_1");
            lemma_absent_char("Q8_0"@, "Q4_1"@, 1);
            reveal_strlit("Q5_K_S");
            lemma_longer_absent("Q8_0"@, "Q5_K_S"@);
            reveal_strlit("Q5_K_M");
            lemma_longer_absent("Q8_0"@, "Q5_K_M"@);
            reveal_strlit("Q5_0");
            lemma_absent_char("Q8_0"@, "Q5_0"@, 1);
            reveal_strlit("Q5_1");
            lemma_absent_char("Q8_0"@, "Q5_1"@, 1);
            reveal_strlit("Q6_K");
            lemma_absent_char("Q8_0"@, "Q6_K"@, 1);
            lemma_contains_itself("Q8_0"@);
        },
        QuantType::Q8_1 => {
            reveal_strlit("Q8_1");
            reveal_strlit("IQ1_S");
            lemma_longer_absent("Q8_1"@, "IQ1_S"@);
            reveal_strlit("IQ2_XXS");
            lemma_longer_absent("Q8_1"@, "IQ2_XXS"@);
            reveal_strlit("IQ2_XS");
            lemma_longer_absent("Q8_1"@, "IQ2_XS"@);
            reveal_strlit("IQ2_S");
            lemma_longer_absent("Q8_1"@, "IQ2_S"@);
            reveal_strlit("IQ3_XXS");
            lemma_longer_absent("Q8_1"@, "IQ3_XXS"@);
            reveal_strlit("IQ3_S");
            lemma_longer_absent("Q8_1"@, "IQ3_S"@);
            reveal_strlit("IQ4_NL");
            lemma_longer_absent("Q8_1"@, "IQ4_NL"@);
            reveal_strlit("IQ4_XS");
            lemma_longer_absent("Q8_1"@, "IQ4_XS"@);
            reveal_strlit("Q2_K");
            lemma_absent_char("Q8_1"@, "Q2_K"@, 1);
            reveal_strlit("Q3_K_S");
            lemma_longer_absent("Q8_1"@, "Q3_K_S"@);
            reveal_strlit("Q3_K_M");
            lemma_longer_absent("Q8_1"@, "Q3_K_M"@);
            reveal_strlit("Q3_K_L");
            lemma_longer_absent("Q8_1"@, "Q3_K_L"@);
            reveal_strlit("Q4_K_S");
            lemma_longer_absent("Q8_1"@, "Q4_K_S"@);
            reveal_strlit("Q4_K_M");
            lemma_longer_absent("Q8_1"@, "Q4_K_M"@);
            reveal_strlit("Q4_0");
            lemma_absent_char("Q8_1"@, "Q4_0"@, 1);
            reveal_strlit("Q4_1");
            lemma_absent_char("Q8_1"@, "Q4_1"@, 1);
            reveal_strlit("Q5_K_S");
            lemma_longer_absent("Q8_1"@, "Q5_K_S"@);
            reveal_strlit("Q5_K_M");
            lemma_longer_absent("Q8_1"@, "Q5_K_M"@);
            reveal_strlit("Q5_0");
            lemma_absent_char("Q8_1"@, "Q5_0"@, 1);
            reveal_strlit("Q5_1");
            lemma_absent_char("Q8_1"@, "Q5_1"@, 1);
            reveal_strlit("Q6_K");
            lemma_absent_char("Q8_1"@, "Q6_K"@, 1);
            reveal_strlit("Q8_0");
            lemma_absent_char("Q8_1"@, "Q8_0"@, 3);
            lemma_contains_itself("Q8_1"@);
        },
        QuantType::F16 => {
            reveal_strlit("F16");
            reveal_strlit("IQ1_S");
            lemma_longer_absent("F16"@, "IQ1_S"@);
            reveal_strlit("IQ2_XXS");
            lemma_longer_absent("F16"@, "IQ2_XXS"@);
            reveal_strlit("IQ2_XS");
            lemma_longer_absent("F16"@, "IQ2_XS"@);
            reveal_strlit("IQ2_S");
            lemma_longer_absent("F16"@, "IQ2_S"@);
            reveal_strlit("IQ3_XXS");
            lemma_longer_absent("F16"@, "IQ3_XXS"@);
            reveal_strlit("IQ3_S");
            lemma_longer_absent("F16"@, "IQ3_S"@);
            reveal_strlit("IQ4_NL");
            lemma_longer_absent("F16"@, "IQ4_NL"@);
            reveal_strlit("IQ4_XS");
            lemma_longer_absent("F16"@, "IQ4_XS"@);
            reveal_strlit("Q2_K");
            lemma_longer_absent("F16"@, "Q2_K"@);
            reveal_strlit("Q3_K_S");
            lemma_longer_absent("F16"@, "Q3_K_S"@);
            reveal_strlit("Q3_K_M");
            lemma_longer_absent("F16"@, "Q3_K_M"@);
            reveal_strlit("Q3_K_L");
            lemma_longer_absent("F16"@, "Q3_K_L"@);
            reveal_strlit("Q4_K_S");
            lemma_longer_absent("F16"@, "Q4_K_S"@);
            reveal_strlit("Q4_K_M");
            lemma_longer_absent("F16"@, "Q4_K_M"@);
            reveal_strlit("Q4_0");
            lemma_longer_absent("F16"@, "Q4_0"@);
            reveal_strlit("Q4_1");
            lemma_longer_absent("F16"@, "Q4_1"@);
            reveal_strlit("Q5_K_S");
            lemma_longer_absent("F16"@, "Q5_K_S"@);
            reveal_strlit("Q5_K_M");
            lemma_longer_absent("F16"@, "Q5_K_M"@);
            reveal_strlit("Q5_0");
            lemma_longer_absent("F16"@, "Q5_0"@);
            reveal_strlit("Q5_1");
            lemma_longer_absent("F16"@, "Q5_1"@);
            reveal_strlit("Q6_K");
            lemma_longer_absent("F16"@, "Q6_K"@);
            reveal_strlit("Q8_0");
            lemma_longer_absent("F16"@, "Q8_0"@);
            reveal_strlit("Q8_1");
            lemma_longer_absent("F16"@, "Q8_1"@);
            lemma_contains_itself("F16"@);
        },
        QuantType::F32 => {
            reveal_strlit("F32");
            reveal_strlit("IQ1_S");
            lemma_longer_absent("F32"@, "IQ1_S"@);
            reveal_strlit("IQ2_XXS");
            lemma_longer_absent("F32"@, "IQ2_XXS"@);
            reveal_strlit("IQ2_XS");
            lemma_longer_absent("F32"@, "IQ2_XS"@);
            reveal_strlit("IQ2_S");
            lemma_longer_absent("F32"@, "IQ2_S"@);
            reveal_strlit("IQ3_XXS");
            lemma_longer_absent("F32"@, "IQ3_XXS"@);
            reveal_strlit("IQ3_S");
            lemma_longer_absent("F32"@, "IQ3_S"@);
            reveal_strlit("IQ4_NL");
            lemma_longer_absent("F32"@, "IQ4_NL"@);
            reveal_strlit("IQ4_XS");
            lemma_longer_absent("F32"@, "IQ4_XS"@);
            reveal_strlit("Q2_K");
            lemma_longer_absent("F32"@, "Q2_K"@);
            reveal_strlit("Q3_K_S");
            lemma_longer_absent("F32"@, "Q3_K_S"@);
            reveal_strlit("Q3_K_M");
            lemma_longer_absent("F32"@, "Q3_K_M"@);
            reveal_strlit("Q3_K_L");
            lemma_longer_absent("F32"@, "Q3_K_L"@);
            reveal_strlit("Q4_K_S");
            lemma_longer_absent("F32"@, "Q4_K_S"@);
            reveal_strlit("Q4_K_M");
            lemma_longer_absent("F32"@, "Q4_K_M"@);
            reveal_strlit("Q4_0");
            lemma_longer_absent("F32"@, "Q4_0"@);
            reveal_strlit("Q4_1");
            lemma_longer_absent("F32"@, "Q4_1"@);
            reveal_strlit("Q5_K_S");
            lemma_longer_absent("F32"@, "Q5_K_S"@);
            reveal_strlit("Q5_K_M");
            lemma_longer_absent("F32"@, "Q5_K_M"@);
            reveal_strlit("Q5_0");
            lemma_longer_absent("F32"@, "Q5_0"@);
            reveal_strlit("Q5_1");
            lemma_longer_absent("F32"@, "Q5_1"@);
            reveal_strlit("Q6_K");
            lemma_longer_absent("F32"@, "Q6_K"@);
            reveal_strlit("Q8_0");
            lemma_longer_absent("F32"@, "Q8_0"@);
            reveal_strlit("Q8_1");
            lemma_longer_absent("F32"@, "Q8_1"@);
            reveal_strlit("F16");
            lemma_absent_char("F32"@, "F16"@, 1);
            lemma_contains_itself("F32"@);
        },
        QuantType::Unknown(_) => {},
    }
}

/// A file name that is a quantization's tag, in any mix of letter case,
/// is read back as that quantization.
pub proof fn lemma_quant_name_round_trip(q: QuantType, s: Seq<char>)
    requires
        !(q is Unknown),
        all_ascii(s),
        s.map_values(|c: char| ascii_upper(c)) == quant_name(q),
    ensures
        quant_of_upper_name(s.map_values(|c: char| ascii_upper(c))) == q,
{
    lemma_tag_reads_back(q);
}

} // verus!
