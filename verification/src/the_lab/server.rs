//! The llama-server command line for a model and its TurboQuant plan.

use crate::text::{decimal, decimal_string, owned};
use crate::the_lab::gguf::{string_views, PlanView, TurboQuantPlan};
use vstd::prelude::*;

verus! {

/// The arguments llama-server is started with: model, context, threads,
/// batch, GPU layers, port, local host, the KV cache types, no logging and
/// no warm-up; then `--flash-attn on` when the plan wants it, `--no-mmap`
/// when it does not map memory, and `--mlock` when it locks pages.
pub open spec fn server_args_of(
    model: Seq<char>,
    threads: u32,
    gpu_layers: u32,
    port: u16,
    plan: PlanView,
) -> Seq<Seq<char>> {
    seq![
        "--model"@,
        model,
        "--ctx-size"@,
        decimal(plan.context_length),
        "--threads"@,
        decimal(threads as nat),
        "--batch-size"@,
        decimal(plan.batch_size),
        "--n-gpu-layers"@,
        decimal(gpu_layers as nat),
        "--port"@,
        decimal(port as nat),
        "--host"@,
        "127.0.0.1"@,
        "--cache-type-k"@,
        plan.k_type,
        "--cache-type-v"@,
        plan.v_type,
        "--log-disable"@,
        "--no-warmup"@,
    ] + (if plan.flash_attn {
        seq!["--flash-attn"@, "on"@]
    } else {
        Seq::empty()
    }) + (if !plan.mmap {
        seq!["--no-mmap"@]
    } else {
        Seq::empty()
    }) + (if plan.mlock {
        seq!["--mlock"@]
    } else {
        Seq::empty()
    })
}

/// The command-line arguments for llama-server running `model` under `plan`.
pub fn server_args(model: &str, threads: u32, gpu_layers: u32, port: u16, plan: &TurboQuantPlan) -> (v:
    Vec<String>)
    ensures
        string_views(v@) == server_args_of(model@, threads, gpu_layers, port, plan@),
{
    let mut v: Vec<String> = Vec::new();
    v.push(owned("--model"));
    v.push(owned(model));
    v.push(owned("--ctx-size"));
    v.push(decimal_string(plan.context_length as u64));
    v.push(owned("--threads"));
    v.push(decimal_string(threads as u64));
    v.push(owned("--batch-size"));
    v.push(decimal_string(plan.batch_size as u64));
    v.push(owned("--n-gpu-layers"));
    v.push(decimal_string(gpu_layers as u64));
    v.push(owned("--port"));
    v.push(decimal_string(port as u64));
    v.push(owned("--host"));
    v.push(owned("127.0.0.1"));
    v.push(owned("--cache-type-k"));
    v.push(plan.kv_cache_k_type.clone());
    v.push(owned("--cache-type-v"));
    v.push(plan.kv_cache_v_type.clone());
    v.push(owned("--log-disable"));
    v.push(owned("--no-warmup"));
    if plan.flash_attn {
        v.push(owned("--flash-attn"));
        v.push(owned("on"));
    }
    if !plan.mmap {
        v.push(owned("--no-mmap"));
    }
    if plan.mlock {
        v.push(owned("--mlock"));
    }
    assert(string_views(v@) =~= server_args_of(model@, threads, gpu_layers, port, plan@));
    v
}

} // verus!
