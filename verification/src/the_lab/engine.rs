//! The inference engine's state and the parameters of each completion.

use crate::mike::MemoryPressure;
use crate::saul::config::InferenceConfig;
use crate::the_lab::gguf::{
    stop_tokens_of, string_views, GgufModelInfo, ModelInfoView, PlanView, PromptFormat,
    TurboQuantPlan,
};
use crate::the_lab::prompt::{prompt_of, ChatMessage, PromptBuilder};
use vstd::prelude::*;

verus! {

/// Tokens to generate under a pressure: a quarter when Critical, half when
/// High, all otherwise.
pub open spec fn tokens_for(p: MemoryPressure, max_tokens: u32) -> u32 {
    match p {
        MemoryPressure::Critical => max_tokens / 4,
        MemoryPressure::High => max_tokens / 2,
        _ => max_tokens,
    }
}

/// Tokens to generate under a pressure.
pub fn generation_tokens(max_tokens: u32, pressure: MemoryPressure) -> (n: u32)
    ensures
        n == tokens_for(pressure, max_tokens),
{
    match pressure {
        MemoryPressure::Critical => max_tokens / 4,
        MemoryPressure::High => max_tokens / 2,
        _ => max_tokens,
    }
}

/// What one completion request asks of llama-server.
#[derive(Debug)]
pub struct CompletionParams {
    pub prompt: String,
    pub n_predict: u32,
    pub stop: Vec<String>,
    pub n_ctx: u32,
}

/// The engine's model, plan and prompt format.
pub struct InferenceEngine {
    config: InferenceConfig,
    prompt_format: PromptFormat,
    turbo_plan: Option<TurboQuantPlan>,
    model_info: Option<GgufModelInfo>,
}

impl InferenceEngine {
    /// The active prompt format.
    pub closed spec fn format(&self) -> PromptFormat {
        self.prompt_format
    }

    /// The active plan's content, if any.
    pub closed spec fn plan(&self) -> Option<PlanView> {
        match self.turbo_plan {
            Some(p) => Some(p@),
            None => None,
        }
    }

    /// The active model's content, if any.
    pub closed spec fn model(&self) -> Option<ModelInfoView> {
        match self.model_info {
            Some(m) => Some(m@),
            None => None,
        }
    }

    /// The inference settings the engine was made with.
    pub closed spec fn settings(&self) -> InferenceConfig {
        self.config
    }

    /// The configured context length.
    pub open spec fn context_setting(&self) -> u32 {
        self.settings().context_length
    }

    /// The configured generation limit.
    pub open spec fn max_tokens_setting(&self) -> u32 {
        self.settings().max_tokens
    }

    /// An engine with no model yet, defaulting to ChatML.
    pub fn new(config: InferenceConfig) -> (e: InferenceEngine)
        ensures
            e.format() == PromptFormat::ChatML,
            e.plan() is None,
            e.model() is None,
            e.settings() == config,
    {
        InferenceEngine {
            config,
            prompt_format: PromptFormat::ChatML,
            turbo_plan: None,
            model_info: None,
        }
    }

    /// The inference settings.
    pub fn config(&self) -> (c: &InferenceConfig)
        ensures
            *c == self.settings(),
    {
        &self.config
    }

    /// Takes on a selected model and its plan; the prompt format follows
    /// the model.
    pub fn install(&mut self, model: GgufModelInfo, plan: TurboQuantPlan)
        ensures
            final(self).format() == model.prompt_format,
            final(self).model() == Some(model@),
            final(self).plan() == Some(plan@),
            final(self).settings() == old(self).settings(),
    {
        self.prompt_format = model.prompt_format;
        self.model_info = Some(model);
        self.turbo_plan = Some(plan);
    }

    /// Drops the model and plan (the prompt format stays).
    pub fn clear(&mut self)
        ensures
            final(self).plan() is None,
            final(self).model() is None,
            final(self).format() == old(self).format(),
            final(self).settings() == old(self).settings(),
    {
        self.turbo_plan = None;
        self.model_info = None;
    }

    /// The active prompt format.
    pub fn prompt_format(&self) -> (f: PromptFormat)
        ensures
            f == self.format(),
    {
        self.prompt_format
    }

    /// The active plan.
    pub fn active_plan(&self) -> (p: Option<&TurboQuantPlan>)
        ensures
            match p {
                Some(q) => self.plan() == Some(q@),
                None => self.plan() is None,
            },
    {
        match &self.turbo_plan {
            Some(p) => Some(p),
            None => None,
        }
    }

    /// The active model.
    pub fn model_info(&self) -> (m: Option<&GgufModelInfo>)
        ensures
            match m {
                Some(x) => self.model() == Some(x@),
                None => self.model() is None,
            },
    {
        match &self.model_info {
            Some(m) => Some(m),
            None => None,
        }
    }

    /// The context to start from: the plan's, else the configured one.
    pub fn base_context(&self) -> (c: u32)
        ensures
            c == (match self.plan() {
                Some(p) => p.context_length,
                None => self.context_setting() as nat,
            }),
    {
        match &self.turbo_plan {
            Some(p) => p.context_length,
            None => self.config.context_length,
        }
    }

    /// The request for `messages`: the prompt in the active format, the
    /// token budget under `pressure`, the format's stop sequences, and the
    /// context `ctx`.
    pub fn completion_params(&self, messages: &[ChatMessage], ctx: u32, pressure: MemoryPressure) -> (r:
        CompletionParams)
        ensures
            r.prompt@ == prompt_of(messages@, self.format()),
            r.n_predict == tokens_for(pressure, self.max_tokens_setting()),
            string_views(r.stop@) == stop_tokens_of(self.format()),
            r.n_ctx == ctx,
    {
        CompletionParams {
            prompt: PromptBuilder::build(messages, self.prompt_format),
            n_predict: generation_tokens(self.config.max_tokens, pressure),
            stop: self.prompt_format.stop_tokens(),
            n_ctx: ctx,
        }
    }
}

} // verus!
