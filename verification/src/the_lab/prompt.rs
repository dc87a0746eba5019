//! Prompt templates: ChatML, Llama 2 and 3, Gemma, Phi, Mistral, Vicuna,
//! Alpaca and raw concatenation.

use crate::text::{owned, push_str};
use crate::the_lab::gguf::PromptFormat;
use vstd::prelude::*;

verus! {

/// Who speaks a message.
#[derive(Debug, Clone, Copy, PartialEq, Eq, Structural)]
pub enum Role {
    System,
    User,
    Assistant,
}

/// The lower-case name of a role, as the templates write it.
pub open spec fn role_name(r: Role) -> Seq<char> {
    match r {
        Role::System => "system"@,
        Role::User => "user"@,
        Role::Assistant => "assistant"@,
    }
}

impl Role {
    /// The lower-case name of the role: `system`, `user` or `assistant`.
    pub fn as_str(&self) -> (s: &'static str)
        ensures
            s@ == role_name(*self),
    {
        match self {
            Role::System => "system",
            Role::User => "user",
            Role::Assistant => "assistant",
        }
    }
}

/// One message of a conversation.
#[derive(Debug)]
pub struct ChatMessage {
    pub role: Role,
    pub content: String,
}

impl Clone for ChatMessage {
    fn clone(&self) -> (r: Self)
        ensures
            r.role == self.role,
            r.content@ == self.content@,
    {
        ChatMessage { role: self.role, content: self.content.clone() }
    }
}

impl ChatMessage {
    /// A system message.
    pub fn system(content: &str) -> (m: ChatMessage)
        ensures
            m.role == Role::System,
            m.content@ == content@,
    {
        ChatMessage { role: Role::System, content: owned(content) }
    }

    /// A user message.
    pub fn user(content: &str) -> (m: ChatMessage)
        ensures
            m.role == Role::User,
            m.content@ == content@,
    {
        ChatMessage { role: Role::User, content: owned(content) }
    }

    /// An assistant message.
    pub fn assistant(content: &str) -> (m: ChatMessage)
        ensures
            m.role == Role::Assistant,
            m.content@ == content@,
    {
        ChatMessage { role: Role::Assistant, content: owned(content) }
    }
}

/// The pieces `f` gives each message, concatenated in order.
pub open spec fn turns(ms: Seq<ChatMessage>, f: spec_fn(ChatMessage) -> Seq<char>) -> Seq<char>
    decreases ms.len(),
{
    if ms.len() == 0 {
        Seq::empty()
    } else {
        turns(ms.drop_last(), f) + f(ms.last())
    }
}

proof fn lemma_turns_step(ms: Seq<ChatMessage>, i: int, f: spec_fn(ChatMessage) -> Seq<char>)
    requires
        0 <= i < ms.len(),
    ensures
        turns(ms.take(i + 1), f) == turns(ms.take(i), f) + f(ms[i]),
{
    assert(ms.take(i + 1).drop_last() =~= ms.take(i));
}

/// A ChatML turn.
pub open spec fn chat_ml_turn(m: ChatMessage) -> Seq<char> {
    "<|im_start|>"@ + role_name(m.role) + "\n"@ + m.content@ + "<|im_end|>\n"@
}

/// A Llama 3 turn.
pub open spec fn llama3_turn(m: ChatMessage) -> Seq<char> {
    "<|start_header_id|>"@ + role_name(m.role) + "<|end_header_id|>\n\n"@ + m.content@
        + "<|eot_id|>"@
}

/// A Gemma turn: system and user speak as `user`, the assistant as `model`.
pub open spec fn gemma_turn(m: ChatMessage) -> Seq<char> {
    let role = match m.role {
        Role::System | Role::User => "user"@,
        Role::Assistant => "model"@,
    };
    "<start_of_turn>"@ + role + "\n"@ + m.content@ + "<end_of_turn>\n"@
}

/// A Phi turn.
pub open spec fn phi_turn(m: ChatMessage) -> Seq<char> {
    "<|"@ + role_name(m.role) + "|>\n"@ + m.content@ + "<|end|>\n"@
}

/// A Mistral turn: system and user are instructions, the assistant's text
/// closes with `</s>`.
pub open spec fn mistral_turn(m: ChatMessage) -> Seq<char> {
    match m.role {
        Role::System | Role::User => "[INST] "@ + m.content@ + " [/INST]"@,
        Role::Assistant => m.content@ + "</s>"@,
    }
}

/// A Vicuna turn.
pub open spec fn vicuna_turn(m: ChatMessage) -> Seq<char> {
    let role = match m.role {
        Role::System => "SYSTEM"@,
        Role::User => "USER"@,
        Role::Assistant => "ASSISTANT"@,
    };
    role + ": "@ + m.content@ + "\n"@
}

/// An Alpaca turn.
pub open spec fn alpaca_turn(m: ChatMessage) -> Seq<char> {
    let head = match m.role {
        Role::System => "### System:\n"@,
        Role::User => "### Instruction:\n"@,
        Role::Assistant => "### Response:\n"@,
    };
    head + m.content@ + "\n\n"@
}

/// One Llama 2 step over (prompt so far, pending system text): a system
/// message replaces the pending text; a user message opens an `[INST]`
/// block that carries the pending text (then cleared); an assistant
/// message closes with `</s>`.
pub open spec fn llama2_step(acc: (Seq<char>, Seq<char>), m: ChatMessage) -> (Seq<char>, Seq<char>) {
    let (prompt, sys) = acc;
    match m.role {
        Role::System => (prompt, m.content@),
        Role::User => {
            let head = if sys.len() > 0 {
                "<s>[INST] "@ + "<<SYS>>\n"@ + sys + "\n<</SYS>>\n\n"@
            } else {
                "<s>[INST] "@
            };
            (prompt + head + m.content@ + " [/INST]"@, Seq::empty())
        },
        Role::Assistant => (prompt + " "@ + m.content@ + " </s>"@, sys),
    }
}

/// The Llama 2 state after all of `ms`.
pub open spec fn llama2_state(ms: Seq<ChatMessage>) -> (Seq<char>, Seq<char>)
    decreases ms.len(),
{
    if ms.len() == 0 {
        (Seq::empty(), Seq::empty())
    } else {
        llama2_step(llama2_state(ms.drop_last()), ms.last())
    }
}

/// Raw: the contents joined by newlines.
pub open spec fn raw_join(ms: Seq<ChatMessage>) -> Seq<char>
    decreases ms.len(),
{
    if ms.len() == 0 {
        Seq::empty()
    } else if ms.len() == 1 {
        ms[0].content@
    } else {
        raw_join(ms.drop_last()) + "\n"@ + ms.last().content@
    }
}

/// The prompt for a conversation in a format.
pub open spec fn prompt_of(ms: Seq<ChatMessage>, f: PromptFormat) -> Seq<char> {
    match f {
        PromptFormat::ChatML | PromptFormat::DeepSeek => turns(ms, |m| chat_ml_turn(m))
            + "<|im_start|>assistant\n"@,
        PromptFormat::Llama3 => "<|begin_of_text|>"@ + turns(ms, |m| llama3_turn(m))
            + "<|start_header_id|>assistant<|end_header_id|>\n\n"@,
        PromptFormat::Llama2 => if ms.len() > 0 && ms.last().role == Role::User {
            llama2_state(ms).0 + " "@
        } else {
            llama2_state(ms).0
        },
        PromptFormat::Gemma => turns(ms, |m| gemma_turn(m)) + "<start_of_turn>model\n"@,
        PromptFormat::Phi => turns(ms, |m| phi_turn(m)) + "<|assistant|>\n"@,
        PromptFormat::Mistral => turns(ms, |m| mistral_turn(m)),
        PromptFormat::Vicuna => turns(ms, |m| vicuna_turn(m)) + "ASSISTANT: "@,
        PromptFormat::Alpaca => turns(ms, |m| alpaca_turn(m)) + "### Response:\n"@,
        PromptFormat::Raw => raw_join(ms),
    }
}

/// Builds prompts in the template of a model.
pub struct PromptBuilder;

fn chat_ml_piece(m: &ChatMessage) -> (s: String)
    ensures
        s@ == chat_ml_turn(*m),
{
    let mut s = owned("<|im_start|>");
    push_str(&mut s, m.role.as_str());
    push_str(&mut s, "\n");
    push_str(&mut s, m.content.as_str());
    push_str(&mut s, "<|im_end|>\n");
    s
}

fn llama3_piece(m: &ChatMessage) -> (s: String)
    ensures
        s@ == llama3_turn(*m),
{
    let mut s = owned("<|start_header_id|>");
    push_str(&mut s, m.role.as_str());
    push_str(&mut s, "<|end_header_id|>\n\n");
    push_str(&mut s, m.content.as_str());
    push_str(&mut s, "<|eot_id|>");
    s
}

fn gemma_piece(m: &ChatMessage) -> (s: String)
    ensures
        s@ == gemma_turn(*m),
{
    let role = match m.role {
        Role::System | Role::User => "user",
        Role::Assistant => "model",
    };
    let mut s = owned("<start_of_turn>");
    push_str(&mut s, role);
    push_str(&mut s, "\n");
    push_str(&mut s, m.content.as_str());
    push_str(&mut s, "<end_of_turn>\n");
    s
}

fn phi_piece(m: &ChatMessage) -> (s: String)
    ensures
        s@ == phi_turn(*m),
{
    let mut s = owned("<|");
    push_str(&mut s, m.role.as_str());
    push_str(&mut s, "|>\n");
    push_str(&mut s, m.content.as_str());
    push_str(&mut s, "<|end|>\n");
    s
}

fn mistral_piece(m: &ChatMessage) -> (s: String)
    ensures
        s@ == mistral_turn(*m),
{
    match m.role {
        Role::System | Role::User => {
            let mut s = owned("[INST] ");
            push_str(&mut s, m.content.as_str());
            push_str(&mut s, " [/INST]");
            s
        },
        Role::Assistant => {
            let mut s = owned(m.content.as_str());
            push_str(&mut s, "</s>");
            s
        },
    }
}

fn vicuna_piece(m: &ChatMessage) -> (s: String)
    ensures
        s@ == vicuna_turn(*m),
{
    let role = match m.role {
        Role::System => "SYSTEM",
        Role::User => "USER",
        Role::Assistant => "ASSISTANT",
    };
    let mut s = owned(role);
    push_str(&mut s, ": ");
    push_str(&mut s, m.content.as_str());
    push_str(&mut s, "\n");
    s
}

fn alpaca_piece(m: &ChatMessage) -> (s: String)
    ensures
        s@ == alpaca_turn(*m),
{
    let head = match m.role {
        Role::System => "### System:\n",
        Role::User => "### Instruction:\n",
        Role::Assistant => "### Response:\n",
    };
    let mut s = owned(head);
    push_str(&mut s, m.content.as_str());
    push_str(&mut s, "\n\n");
    s
}

/// Which template a turn is written in.
#[derive(Clone, Copy, PartialEq, Eq, Structural)]
enum Turn {
    ChatMl,
    Llama3,
    Gemma,
    Phi,
    Mistral,
    Vicuna,
    Alpaca,
}

spec fn turn_fn(t: Turn) -> spec_fn(ChatMessage) -> Seq<char> {
    match t {
        Turn::ChatMl => |m| chat_ml_turn(m),
        Turn::Llama3 => |m| llama3_turn(m),
        Turn::Gemma => |m| gemma_turn(m),
        Turn::Phi => |m| phi_turn(m),
        Turn::Mistral => |m| mistral_turn(m),
        Turn::Vicuna => |m| vicuna_turn(m),
        Turn::Alpaca => |m| alpaca_turn(m),
    }
}

fn piece(t: Turn, m: &ChatMessage) -> (s: String)
    ensures
        s@ == (turn_fn(t))(*m),
{
    match t {
        Turn::ChatMl => chat_ml_piece(m),
        Turn::Llama3 => llama3_piece(m),
        Turn::Gemma => gemma_piece(m),
        Turn::Phi => phi_piece(m),
        Turn::Mistral => mistral_piece(m),
        Turn::Vicuna => vicuna_piece(m),
        Turn::Alpaca => alpaca_piece(m),
    }
}

/// Appends the turns of all messages in template `t`.
fn push_turns(out: &mut String, messages: &[ChatMessage], t: Turn)
    ensures
        final(out)@ == old(out)@ + turns(messages@, turn_fn(t)),
{
    let mut i: usize = 0;
    let ghost start = old(out)@;
    assert(messages@.take(0) =~= Seq::<ChatMessage>::empty());
    while i < messages.len()
        invariant
            i <= messages@.len(),
            out@ == start + turns(messages@.take(i as int), turn_fn(t)),
        decreases messages@.len() - i,
    {
        let p = piece(t, &messages[i]);
        push_str(out, p.as_str());
        proof {
            lemma_turns_step(messages@, i as int, turn_fn(t));
        }
        assert(out@ =~= start + turns(messages@.take(i + 1), turn_fn(t)));
        i = i + 1;
    }
    assert(messages@.take(messages@.len() as int) =~= messages@);
}

impl PromptBuilder {
    /// The prompt for `messages` in the template `format`.
    pub fn build(messages: &[ChatMessage], format: PromptFormat) -> (s: String)
        ensures
            s@ == prompt_of(messages@, format),
    {
        match format {
            PromptFormat::ChatML => Self::build_chat_ml(messages),
            PromptFormat::Llama3 => Self::build_llama3(messages),
            PromptFormat::Llama2 => Self::build_llama2(messages),
            PromptFormat::Gemma => Self::build_gemma(messages),
            PromptFormat::Phi => Self::build_phi(messages),
            PromptFormat::Mistral => Self::build_mistral(messages),
            PromptFormat::DeepSeek => Self::build_chat_ml(messages),
            PromptFormat::Vicuna => Self::build_vicuna(messages),
            PromptFormat::Alpaca => Self::build_alpaca(messages),
            PromptFormat::Raw => Self::build_raw(messages),
        }
    }

    /// ChatML (Qwen, Yi, OpenHermes, DeepSeek).
    pub fn build_chat_ml(messages: &[ChatMessage]) -> (s: String)
        ensures
            s@ == prompt_of(messages@, PromptFormat::ChatML),
    {
        let mut s = String::new();
        push_turns(&mut s, messages, Turn::ChatMl);
        push_str(&mut s, "<|im_start|>assistant\n");
        assert(s@ =~= prompt_of(messages@, PromptFormat::ChatML));
        s
    }

    /// Llama 3 and later.
    pub fn build_llama3(messages: &[ChatMessage]) -> (s: String)
        ensures
            s@ == prompt_of(messages@, PromptFormat::Llama3),
    {
        let mut s = owned("<|begin_of_text|>");
        push_turns(&mut s, messages, Turn::Llama3);
        push_str(&mut s, "<|start_header_id|>assistant<|end_header_id|>\n\n");
        s
    }

    /// Llama 2: the last system text is folded into the next user turn; a
    /// trailing user turn is followed by a space for the reply.
    pub fn build_llama2(messages: &[ChatMessage]) -> (s: String)
        ensures
            s@ == prompt_of(messages@, PromptFormat::Llama2),
    {
        let mut prompt = String::new();
        let mut system_text = String::new();
        let mut i: usize = 0;
        assert(messages@.take(0) =~= Seq::<ChatMessage>::empty());
        assert(prompt@ =~= Seq::<char>::empty());
        while i < messages.len()
            invariant
                i <= messages@.len(),
                (prompt@, system_text@) == llama2_state(messages@.take(i as int)),
            decreases messages@.len() - i,
        {
            let ghost before = (prompt@, system_text@);
            let msg = &messages[i];
            match msg.role {
                Role::System => {
                    system_text = msg.content.clone();
                },
                Role::User => {
                    push_str(&mut prompt, "<s>[INST] ");
                    if !system_text.as_str().is_empty() {
                        push_str(&mut prompt, "<<SYS>>\n");
                        push_str(&mut prompt, system_text.as_str());
                        push_str(&mut prompt, "\n<</SYS>>\n\n");
                        system_text = String::new();
                    }
                    push_str(&mut prompt, msg.content.as_str());
                    push_str(&mut prompt, " [/INST]");
                },
                Role::Assistant => {
                    push_str(&mut prompt, " ");
                    push_str(&mut prompt, msg.content.as_str());
                    push_str(&mut prompt, " </s>");
                },
            }
            assert(messages@.take(i + 1).drop_last() =~= messages@.take(i as int));
            assert((prompt@, system_text@) =~~= llama2_step(before, messages@[i as int]));
            i = i + 1;
        }
        assert(messages@.take(messages@.len() as int) =~= messages@);
        if messages.len() > 0 && messages[messages.len() - 1].role == Role::User {
            push_str(&mut prompt, " ");
        }
        prompt
    }

    /// Google Gemma.
    pub fn build_gemma(messages: &[ChatMessage]) -> (s: String)
        ensures
            s@ == prompt_of(messages@, PromptFormat::Gemma),
    {
        let mut s = String::new();
        push_turns(&mut s, messages, Turn::Gemma);
        push_str(&mut s, "<start_of_turn>model\n");
        assert(s@ =~= prompt_of(messages@, PromptFormat::Gemma));
        s
    }

    /// Microsoft Phi.
    pub fn build_phi(messages: &[ChatMessage]) -> (s: String)
        ensures
            s@ == prompt_of(messages@, PromptFormat::Phi),
    {
        let mut s = String::new();
        push_turns(&mut s, messages, Turn::Phi);
        push_str(&mut s, "<|assistant|>\n");
        assert(s@ =~= prompt_of(messages@, PromptFormat::Phi));
        s
    }

    /// Mistral Instruct.
    pub fn build_mistral(messages: &[ChatMessage]) -> (s: String)
        ensures
            s@ == prompt_of(messages@, PromptFormat::Mistral),
    {
        let mut s = String::new();
        push_turns(&mut s, messages, Turn::Mistral);
        assert(s@ =~= prompt_of(messages@, PromptFormat::Mistral));
        s
    }

    /// Vicuna / ShareGPT.
    pub fn build_vicuna(messages: &[ChatMessage]) -> (s: String)
        ensures
            s@ == prompt_of(messages@, PromptFormat::Vicuna),
    {
        let mut s = String::new();
        push_turns(&mut s, messages, Turn::Vicuna);
        push_str(&mut s, "ASSISTANT: ");
        assert(s@ =~= prompt_of(messages@, PromptFormat::Vicuna));
        s
    }

    /// Alpaca.
    pub fn build_alpaca(messages: &[ChatMessage]) -> (s: String)
        ensures
            s@ == prompt_of(messages@, PromptFormat::Alpaca),
    {
        let mut s = String::new();
        push_turns(&mut s, messages, Turn::Alpaca);
        push_str(&mut s, "### Response:\n");
        assert(s@ =~= prompt_of(messages@, PromptFormat::Alpaca));
        s
    }

    /// Raw: the contents joined by newlines, with no template.
    pub fn build_raw(messages: &[ChatMessage]) -> (s: String)
        ensures
            s@ == prompt_of(messages@, PromptFormat::Raw),
    {
        let mut s = String::new();
        let mut i: usize = 0;
        assert(messages@.take(0) =~= Seq::<ChatMessage>::empty());
        while i < messages.len()
            invariant
                i <= messages@.len(),
                s@ == raw_join(messages@.take(i as int)),
            decreases messages@.len() - i,
        {
            if i > 0 {
                push_str(&mut s, "\n");
            }
            push_str(&mut s, messages[i].content.as_str());
            assert(messages@.take(i + 1).drop_last() =~= messages@.take(i as int));
            assert(s@ =~= raw_join(messages@.take(i + 1)));
            i = i + 1;
        }
        assert(messages@.take(messages@.len() as int) =~= messages@);
        s
    }

    /// The agent's system prompt, describing its tool tags.
    pub fn system_prompt() -> (s: String)
        ensures
            s@ == SYSTEM_PROMPT@,
    {
        owned(SYSTEM_PROMPT)
    }
}

/// The agent's system prompt.
pub const SYSTEM_PROMPT: &'static str = "You are Heisenberg — a precise, disciplined local AI agent.
You operate exclusively on the local system with no external network access.
You possess advanced modular tools (Arms). Use the following EXACT tags to execute them:

1. Bash execution:
   <execute>ls -la</execute>

2. Write a file (creates or overwrites):
   <write_file path=\"/path/to/file\">
   file content here
   </write_file>

3. Edit/append to a file:
   <edit_file path=\"/path/to/file\" mode=\"append\">
   content to append
   </edit_file>
   Modes: \"append\", \"prepend\", \"replace\"
   For replace mode, include search and replace:
   <edit_file path=\"/path/to/file\" mode=\"replace\" search=\"old text\">new text</edit_file>

4. Delete a file:
   <delete_file path=\"/path/to/file\" />

5. Browser navigation:
   <browse>https://example.com</browse>

6. Take a screenshot:
   <capture_screen></capture_screen>

7. Self-modification (diff patch):
   <patch>patch content</patch>

RULES:
- Wait for the system to provide the output of your execution before proceeding.
- Be concise, accurate, and structured.
- When generating code or commands, format them clearly.
- Use <write_file> for creating new files instead of echo/cat in bash when possible.
- Use <edit_file> for modifying existing files.
- Never fabricate information. If uncertain, say so explicitly.
- Say my name.";

/// Every template but Mistral and Raw ends with the cue for the assistant's
/// reply (ChatML and DeepSeek with `<|im_start|>assistant\n`, Llama 3 with its
/// assistant header), Llama 3 prompts open with `<|begin_of_text|>`, and a
/// conversation that ends with a non-empty user message gives a non-empty
/// prompt in every format.
pub proof fn lemma_prompt_shape(ms: Seq<ChatMessage>, f: PromptFormat)
    ensures
        (f == PromptFormat::ChatML || f == PromptFormat::DeepSeek) ==> crate::text::ends_with(
            prompt_of(ms, f),
            "<|im_start|>assistant\n"@,
        ),
        f == PromptFormat::Llama3 ==> crate::text::starts_with(
            prompt_of(ms, f),
            "<|begin_of_text|>"@,
        ) && crate::text::ends_with(
            prompt_of(ms, f),
            "<|start_header_id|>assistant<|end_header_id|>\n\n"@,
        ),
        ms.len() > 0 && ms.last().role == Role::User && ms.last().content@.len() > 0 ==> prompt_of(
            ms,
            f,
        ).len() > 0,
{
    let p = prompt_of(ms, f);
    if f == PromptFormat::ChatML || f == PromptFormat::DeepSeek {
        let a = turns(ms, |m| chat_ml_turn(m));
        assert(p.subrange(p.len() - "<|im_start|>assistant\n"@.len(), p.len() as int)
            =~= "<|im_start|>assistant\n"@);
    }
    if f == PromptFormat::Llama3 {
        let t = turns(ms, |m| llama3_turn(m));
        let h = "<|start_header_id|>assistant<|end_header_id|>\n\n"@;
        assert(p.subrange(0, "<|begin_of_text|>"@.len() as int) =~= "<|begin_of_text|>"@);
        assert(p.subrange(p.len() - h.len(), p.len() as int) =~= h);
    }
    if ms.len() > 0 && ms.last().role == Role::User && ms.last().content@.len() > 0 {
        let c = ms.last().content@;
        match f {
            PromptFormat::Mistral => {
                assert(turns(ms, |m| mistral_turn(m)).len() >= mistral_turn(ms.last()).len());
            },
            PromptFormat::Raw => {
                if ms.len() == 1 {
                } else {
                    assert(raw_join(ms).len() >= c.len());
                }
            },
            _ => {},
        }
    }
}

/// The pieces of two conversations put together are the pieces of the
/// first followed by those of the second.
pub proof fn lemma_turns_append(a: Seq<ChatMessage>, b: Seq<ChatMessage>, f: spec_fn(ChatMessage) -> Seq<char>)
    ensures
        turns(a + b, f) == turns(a, f) + turns(b, f),
    decreases b.len(),
{
    if b.len() == 0 {
        assert(a + b =~= a);
        assert(turns(a, f) + Seq::empty() =~= turns(a, f));
    } else {
        lemma_turns_append(a, b.drop_last(), f);
        assert((a + b).drop_last() =~= a + b.drop_last());
        assert((a + b).last() == b.last());
        assert(turns(a, f) + turns(b.drop_last(), f) + f(b.last()) =~= turns(a, f) + (turns(
            b.drop_last(),
            f,
        ) + f(b.last())));
    }
}

/// ChatML prompts compose: the prompt for `a` followed by `b` is the turns
/// of `a` followed by the prompt for `b`; with no messages it is the cue
/// for the assistant alone.
pub proof fn lemma_chat_ml_append(a: Seq<ChatMessage>, b: Seq<ChatMessage>)
    ensures
        prompt_of(a + b, PromptFormat::ChatML) == turns(a, |m| chat_ml_turn(m)) + prompt_of(
            b,
            PromptFormat::ChatML,
        ),
        prompt_of(Seq::empty(), PromptFormat::ChatML) == "<|im_start|>assistant\n"@,
{
    let f = |m| chat_ml_turn(m);
    lemma_turns_append(a, b, f);
    assert(turns(a, f) + turns(b, f) + "<|im_start|>assistant\n"@ =~= turns(a, f) + (turns(b, f)
        + "<|im_start|>assistant\n"@));
    assert(Seq::<char>::empty() + "<|im_start|>assistant\n"@ =~= "<|im_start|>assistant\n"@);
}

/// The Llama 3 prompt grows turn by turn: with no messages it is
/// `<|begin_of_text|>` and the assistant header; one more message, of any
/// role, is inserted before that closing header as its own header with the
/// role's name, a blank line, the content and `<|eot_id|>`.
pub proof fn lemma_llama3_layout(ms: Seq<ChatMessage>, m: ChatMessage)
    ensures
        prompt_of(Seq::empty(), PromptFormat::Llama3) == "<|begin_of_text|>"@
            + "<|start_header_id|>assistant<|end_header_id|>\n\n"@,
        prompt_of(ms.push(m), PromptFormat::Llama3) == prompt_of(ms, PromptFormat::Llama3).subrange(
            0,
            prompt_of(ms, PromptFormat::Llama3).len()
                - "<|start_header_id|>assistant<|end_header_id|>\n\n"@.len(),
        ) + "<|start_header_id|>"@ + role_name(m.role) + "<|end_header_id|>\n\n"@ + m.content@
            + "<|eot_id|>"@ + "<|start_header_id|>assistant<|end_header_id|>\n\n"@,
{
    let f = |x| llama3_turn(x);
    let b = "<|begin_of_text|>"@;
    let a = "<|start_header_id|>assistant<|end_header_id|>\n\n"@;
    assert(b + Seq::<char>::empty() + a =~= b + a);
    assert(ms.push(m).drop_last() =~= ms);
    assert(turns(ms.push(m), f) == turns(ms, f) + f(m));
    let p = prompt_of(ms, PromptFormat::Llama3);
    assert(p == b + turns(ms, f) + a);
    assert(p.subrange(0, p.len() - a.len()) =~= b + turns(ms, f));
    assert(prompt_of(ms.push(m), PromptFormat::Llama3) =~= p.subrange(0, p.len() - a.len())
        + "<|start_header_id|>"@ + role_name(m.role) + "<|end_header_id|>\n\n"@ + m.content@
        + "<|eot_id|>"@ + a);
}

} // verus!
