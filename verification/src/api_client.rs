//! The messages handed to the completion endpoint: the system preamble —
//! personalized with the captured user context when one is available — and
//! the user's query. Transport, headers and marshaling live at the process
//! edge; this module only states and builds the message content.

use vstd::prelude::*;

use crate::personalization::UserContext;

verus! {

/// One chat message: a role and its content.
#[derive(Debug, Clone)]
pub struct Message {
    /// Role of the sender: `system`, `user` or `assistant`.
    pub role: String,
    /// Content of the message.
    pub content: String,
}

/// The system preamble: personalized with the user's machine facts when a
/// context is available, plain otherwise.
pub open spec fn preamble_text(ctx: Option<UserContext>) -> Seq<char> {
    match ctx {
        Some(c) => "You are Chris, a helpful AI assistant. You are talking to "@ + c.username@
            + " who is using "@ + c.os_name@ + " "@ + c.os_version@ + " with kernel version "@
            + c.kernel_version@
            + ". Always provide responses specific to their operating system and environment. If you need additional system information, ask the user or suggest specific commands they can run. Never provide instructions for other operating systems unless explicitly asked."@,
        None => "You are Chris, a helpful AI assistant."@,
    }
}

/// Builds the two messages of one turn: the system preamble, then the
/// user's query.
pub fn create_messages(query: &str, user_context: Option<&UserContext>) -> (msgs: Vec<Message>)
    ensures
        msgs@.len() == 2,
        msgs@[0].role@ == "system"@,
        user_context matches Some(c) ==> msgs@[0].content@ == preamble_text(Some(*c)),
        user_context is None ==> msgs@[0].content@ == preamble_text(None),
        msgs@[1].role@ == "user"@,
        msgs@[1].content@ == query@,
{
    let system_content: String = match user_context {
        Some(c) => {
            let mut s = String::new();
            s.append("You are Chris, a helpful AI assistant. You are talking to ");
            s.append(c.username.as_str());
            s.append(" who is using ");
            s.append(c.os_name.as_str());
            s.append(" ");
            s.append(c.os_version.as_str());
            s.append(" with kernel version ");
            s.append(c.kernel_version.as_str());
            s.append(
                ". Always provide responses specific to their operating system and environment. If you need additional system information, ask the user or suggest specific commands they can run. Never provide instructions for other operating systems unless explicitly asked.",
            );
            proof {
                assert(s@ =~= preamble_text(Some(*c)));
            }
            s
        },
        None => "You are Chris, a helpful AI assistant.".to_owned(),
    };
    let mut msgs: Vec<Message> = Vec::new();
    msgs.push(Message { role: "system".to_owned(), content: system_content });
    msgs.push(Message { role: "user".to_owned(), content: query.to_owned() });
    msgs
}

} // verus!
