use heisenberg::the_lab::gguf::PromptFormat;
use heisenberg::the_lab::prompt::{ChatMessage, PromptBuilder, Role};

#[test]
fn test_chat_ml_format() {
    let msgs = vec![ChatMessage::system("You are helpful."), ChatMessage::user("Hello")];
    let prompt = PromptBuilder::build_chat_ml(&msgs);
    assert!(prompt.contains("<|im_start|>system"));
    assert!(prompt.contains("<|im_start|>user"));
    assert!(prompt.ends_with("<|im_start|>assistant\n"));
}

#[test]
fn test_llama3_format() {
    let msgs = vec![ChatMessage::system("You are helpful."), ChatMessage::user("Hi")];
    let prompt = PromptBuilder::build(&msgs, PromptFormat::Llama3);
    assert!(prompt.contains("<|begin_of_text|>"));
    assert!(prompt.contains("<|start_header_id|>system<|end_header_id|>"));
    assert!(prompt.ends_with("<|start_header_id|>assistant<|end_header_id|>\n\n"));
}

#[test]
fn test_multi_format_dispatch() {
    let msgs = vec![ChatMessage::user("Hello")];
    for fmt in [
        PromptFormat::ChatML,
        PromptFormat::Llama3,
        PromptFormat::Llama2,
        PromptFormat::Gemma,
        PromptFormat::Phi,
        PromptFormat::Mistral,
        PromptFormat::DeepSeek,
        PromptFormat::Vicuna,
        PromptFormat::Alpaca,
        PromptFormat::Raw,
    ] {
        let prompt = PromptBuilder::build(&msgs, fmt);
        assert!(!prompt.is_empty(), "Empty prompt for {:?}", fmt);
    }
}

fn conversation() -> Vec<ChatMessage> {
    vec![
        ChatMessage::system("Be brief."),
        ChatMessage::user("Hi"),
        ChatMessage::assistant("Hello!"),
        ChatMessage::user("Bye"),
    ]
}

#[test]
fn chat_ml_exact() {
    let p = PromptBuilder::build_chat_ml(&conversation());
    assert_eq!(
        p,
        "<|im_start|>system\nBe brief.<|im_end|>\n<|im_start|>user\nHi<|im_end|>\n\
         <|im_start|>assistant\nHello!<|im_end|>\n<|im_start|>user\nBye<|im_end|>\n\
         <|im_start|>assistant\n"
    );
    assert_eq!(PromptBuilder::build(&conversation(), PromptFormat::DeepSeek), p);
}

#[test]
fn llama3_exact() {
    let p = PromptBuilder::build_llama3(&[ChatMessage::user("Hi")]);
    assert_eq!(
        p,
        "<|begin_of_text|><|start_header_id|>user<|end_header_id|>\n\nHi<|eot_id|>\
         <|start_header_id|>assistant<|end_header_id|>\n\n"
    );
}

#[test]
fn llama2_carries_the_system_text_into_the_next_instruction() {
    let p = PromptBuilder::build_llama2(&conversation());
    assert_eq!(
        p,
        "<s>[INST] <<SYS>>\nBe brief.\n<</SYS>>\n\nHi [/INST] Hello! </s><s>[INST] Bye [/INST] "
    );
    let ends_with_assistant = PromptBuilder::build_llama2(&conversation()[..3]);
    assert_eq!(
        ends_with_assistant,
        "<s>[INST] <<SYS>>\nBe brief.\n<</SYS>>\n\nHi [/INST] Hello! </s>"
    );
}

#[test]
fn gemma_phi_mistral_exact() {
    let msgs = vec![ChatMessage::system("S"), ChatMessage::user("U"), ChatMessage::assistant("A")];
    assert_eq!(
        PromptBuilder::build_gemma(&msgs),
        "<start_of_turn>user\nS<end_of_turn>\n<start_of_turn>user\nU<end_of_turn>\n\
         <start_of_turn>model\nA<end_of_turn>\n<start_of_turn>model\n"
    );
    assert_eq!(
        PromptBuilder::build_phi(&msgs),
        "<|system|>\nS<|end|>\n<|user|>\nU<|end|>\n<|assistant|>\nA<|end|>\n<|assistant|>\n"
    );
    assert_eq!(PromptBuilder::build_mistral(&msgs), "[INST] S [/INST][INST] U [/INST]A</s>");
}

#[test]
fn vicuna_alpaca_raw_exact() {
    let msgs = vec![ChatMessage::system("S"), ChatMessage::user("U"), ChatMessage::assistant("A")];
    assert_eq!(
        PromptBuilder::build_vicuna(&msgs),
        "SYSTEM: S\nUSER: U\nASSISTANT: A\nASSISTANT: "
    );
    assert_eq!(
        PromptBuilder::build_alpaca(&msgs),
        "### System:\nS\n\n### Instruction:\nU\n\n### Response:\nA\n\n### Response:\n"
    );
    assert_eq!(PromptBuilder::build_raw(&msgs), "S\nU\nA");
    assert_eq!(PromptBuilder::build_raw(&[]), "");
}

#[test]
fn empty_conversation_still_cues_the_assistant() {
    assert_eq!(PromptBuilder::build_chat_ml(&[]), "<|im_start|>assistant\n");
    assert_eq!(PromptBuilder::build(&[], PromptFormat::Mistral), "");
}

#[test]
fn messages_and_roles() {
    let m = ChatMessage::assistant("ok");
    assert_eq!(m.role, Role::Assistant);
    assert_eq!(m.content, "ok");
    assert_eq!(Role::System.as_str(), "system");
    assert_eq!(Role::User.as_str(), "user");
    assert_eq!(Role::Assistant.as_str(), "assistant");
    let c = m.clone();
    assert_eq!(c.content, "ok");
}

#[test]
fn system_prompt_names_the_tool_tags() {
    let s = PromptBuilder::system_prompt();
    assert!(s.starts_with("You are Heisenberg"));
    assert!(s.contains("<execute>ls -la</execute>"));
    assert!(s.ends_with("Say my name."));
}

#[test]
fn chat_ml_prompts_append() {
    let a = vec![ChatMessage::system("S"), ChatMessage::user("U")];
    let b = vec![ChatMessage::assistant("A"), ChatMessage::user("V")];
    let ab: Vec<ChatMessage> = a.iter().chain(b.iter()).cloned().collect();
    let turns_a = PromptBuilder::build_chat_ml(&a);
    let turns_a = turns_a.strip_suffix("<|im_start|>assistant\n").unwrap();
    assert_eq!(
        PromptBuilder::build_chat_ml(&ab),
        format!("{}{}", turns_a, PromptBuilder::build_chat_ml(&b))
    );
}
