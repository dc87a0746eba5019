//! Reading what the user typed at the prompt, and shell commands for edits.

use crate::text::{chars_of, contains, owned, push_str, str_contains, trim, trim_str};
use vstd::prelude::*;

verus! {

/// What a line typed at the prompt asks for.
#[derive(Debug, Clone, Copy, PartialEq, Eq, Structural)]
pub enum ReplCommand {
    /// An empty line: leave quietly.
    End,
    /// `/q`, `exit` or `quit`.
    Quit,
    /// `/status`.
    Status,
    /// `/clear`: forget the conversation but for the system prompt.
    Clear,
    /// `/turbo`: the memory plan report.
    Turbo,
    /// `/model`.
    Model,
    /// `/help`, `/commands` or `?`.
    Help,
    /// Another word starting with `/`.
    Unknown,
    /// Anything else: a message for the model.
    Message,
}

/// The command a line asks for, judged on the trimmed line.
pub open spec fn command_of(line: Seq<char>) -> ReplCommand {
    let t = trim(line);
    if t.len() == 0 {
        ReplCommand::End
    } else if t == "/q"@ || t == "exit"@ || t == "quit"@ {
        ReplCommand::Quit
    } else if t == "/status"@ {
        ReplCommand::Status
    } else if t == "/clear"@ {
        ReplCommand::Clear
    } else if t == "/turbo"@ {
        ReplCommand::Turbo
    } else if t == "/model"@ {
        ReplCommand::Model
    } else if t == "/help"@ || t == "/commands"@ || t == "?"@ {
        ReplCommand::Help
    } else if t[0] == '/' {
        ReplCommand::Unknown
    } else {
        ReplCommand::Message
    }
}

fn is(t: &String, word: &str) -> (b: bool)
    ensures
        b == (t@ == word@),
{
    *t == owned(word)
}

/// The command a typed line asks for.
pub fn classify_input(line: &str) -> (c: ReplCommand)
    ensures
        c == command_of(line@),
{
    let t = trim_str(line);
    if t.as_str().is_empty() {
        ReplCommand::End
    } else if is(&t, "/q") || is(&t, "exit") || is(&t, "quit") {
        ReplCommand::Quit
    } else if is(&t, "/status") {
        ReplCommand::Status
    } else if is(&t, "/clear") {
        ReplCommand::Clear
    } else if is(&t, "/turbo") {
        ReplCommand::Turbo
    } else if is(&t, "/model") {
        ReplCommand::Model
    } else if is(&t, "/help") || is(&t, "/commands") || is(&t, "?") {
        ReplCommand::Help
    } else {
        let cs = chars_of(t.as_str());
        if cs[0] == '/' {
            ReplCommand::Unknown
        } else {
            ReplCommand::Message
        }
    }
}

/// A line that reads `/help`, `/commands` or `?` once trimmed asks for the
/// help; `/q`, `exit` or `quit` ends the session; `/status` asks for the
/// status; a line of only whitespace ends quietly.
pub proof fn lemma_named_commands(line: Seq<char>)
    ensures
        trim(line) == "/help"@ || trim(line) == "/commands"@ || trim(line) == "?"@ ==> command_of(line)
            == ReplCommand::Help,
        trim(line) == "/q"@ || trim(line) == "exit"@ || trim(line) == "quit"@ ==> command_of(line)
            == ReplCommand::Quit,
        trim(line) == "/status"@ ==> command_of(line) == ReplCommand::Status,
        trim(line).len() == 0 ==> command_of(line) == ReplCommand::End,
{
    reveal_strlit("/help");
    reveal_strlit("/commands");
    reveal_strlit("?");
    reveal_strlit("/q");
    reveal_strlit("exit");
    reveal_strlit("quit");
    reveal_strlit("/status");
    reveal_strlit("/clear");
    reveal_strlit("/turbo");
    reveal_strlit("/model");
}

/// `s` quoted for the inside of a single-quoted shell word: each `'`
/// becomes `'\''`.
pub open spec fn shell_escape(s: Seq<char>) -> Seq<char>
    decreases s.len(),
{
    if s.len() == 0 {
        Seq::empty()
    } else {
        shell_escape(s.drop_last()) + (if s.last() == '\'' {
            seq!['\'', '\\', '\'', '\'']
        } else {
            seq![s.last()]
        })
    }
}

/// The shell command for an edit: appending echoes the quoted content onto
/// the file; every other mode is refused by a command that fails.
pub open spec fn edit_command_of(path: Seq<char>, mode: Seq<char>, content: Seq<char>) -> Seq<char> {
    if contains(mode, "append"@) {
        "echo '"@ + shell_escape(content) + "' >> "@ + path
    } else {
        "echo 'Edit mode \""@ + mode + "\" requires Bash implementation' && exit 1"@
    }
}

/// The shell command that performs an edit request.
pub fn edit_command(path: &str, mode: &str, content: &str) -> (s: String)
    ensures
        s@ == edit_command_of(path@, mode@, content@),
{
    if str_contains(mode, "append") {
        let mut s = owned("echo '");
        let cs = chars_of(content);
        let ghost start = s@;
        let mut i: usize = 0;
        assert(cs@.take(0) =~= Seq::<char>::empty());
        while i < cs.len()
            invariant
                i <= cs@.len(),
                cs@ == content@,
                s@ == start + shell_escape(cs@.take(i as int)),
            decreases cs@.len() - i,
        {
            if cs[i] == '\'' {
                s.push('\'');
                s.push('\\');
                s.push('\'');
                s.push('\'');
            } else {
                s.push(cs[i]);
            }
            assert(cs@.take(i + 1).drop_last() =~= cs@.take(i as int));
            assert(s@ =~= start + shell_escape(cs@.take(i + 1)));
            i = i + 1;
        }
        assert(cs@.take(cs@.len() as int) =~= cs@);
        push_str(&mut s, "' >> ");
        push_str(&mut s, path);
        s
    } else {
        let mut s = owned("echo 'Edit mode \"");
        push_str(&mut s, mode);
        push_str(&mut s, "\" requires Bash implementation' && exit 1");
        s
    }
}

} // verus!
