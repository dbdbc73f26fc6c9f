use vstd::prelude::*;

use crate::config::{merged, override_of, GlobalConfig, ModelConfig, ModelConfigView, Temperature};
use crate::state::{Conversation, Message, MessageRole};
use crate::text::owned;

verus! {

/// The roles and texts of a list of messages.
pub open spec fn messages_view(v: Seq<Message>) -> Seq<(MessageRole, Seq<char>)> {
    v.map_values(|m: Message| (m.role, m.content@))
}

/// The message list of a request: a system message when the configuration
/// has a system prompt, then the turns in order.
pub open spec fn chat_messages_spec(c: ModelConfigView, turns: Seq<(MessageRole, Seq<char>)>) -> Seq<(MessageRole, Seq<char>)> {
    match c.system_prompt {
        Some(s) => seq![(MessageRole::System, s)] + turns,
        None => turns,
    }
}

/// The turns of a conversation as sent: the context, when there is one, is
/// put in front of the last turn, separated by a blank line.
pub open spec fn with_context_spec(turns: Seq<(MessageRole, Seq<char>)>, context: Seq<char>) -> Seq<(MessageRole, Seq<char>)> {
    if context.len() == 0 || turns.len() == 0 {
        turns
    } else {
        turns.update(turns.len() - 1, (turns.last().0, context + "\n\n"@ + turns.last().1))
    }
}

/// A copy of a message list.
fn copy_messages(v: &Vec<Message>) -> (r: Vec<Message>)
    ensures
        messages_view(r@) == messages_view(v@),
{
    let mut out: Vec<Message> = Vec::new();
    let mut i: usize = 0;
    while i < v.len()
        invariant
            i <= v@.len(),
            out@.len() == i,
            forall|j: int| 0 <= j < i ==> (#[trigger] out@[j]).role == v@[j].role && out@[j].content@ == v@[j].content@,
        decreases v@.len() - i,
    {
        out.push(Message { role: v[i].role, content: v[i].content.clone() });
        i += 1;
    }
    proof {
        assert(messages_view(out@) =~= messages_view(v@));
    }
    out
}

/// Builds the message list of a request from a configuration and turns.
pub fn build_chat_messages(config: &ModelConfig, turns: &Vec<Message>) -> (r: Vec<Message>)
    ensures
        messages_view(r@) == chat_messages_spec(config@, messages_view(turns@)),
{
    let body = copy_messages(turns);
    match &config.system_prompt {
        Some(s) => {
            let mut out: Vec<Message> = vec![Message { role: MessageRole::System, content: s.clone() }];
            let mut i: usize = 0;
            while i < body.len()
                invariant
                    i <= body@.len(),
                    out@.len() == i + 1,
                    messages_view(out@)[0] == (MessageRole::System, s@),
                    forall|j: int| 0 <= j < i ==> (#[trigger] out@[j + 1]).role == body@[j].role && out@[j + 1].content@
                        == body@[j].content@,
                decreases body@.len() - i,
            {
                out.push(Message { role: body[i].role, content: body[i].content.clone() });
                i += 1;
            }
            proof {
                let want = seq![(MessageRole::System, s@)] + messages_view(body@);
                assert forall|k: int| 0 <= k < out@.len() implies messages_view(out@)[k] == want[k] by {
                    if k > 0 {
                        let j = k - 1;
                        assert(out@[j + 1].role == body@[j].role);
                    }
                }
                assert(messages_view(out@) =~= want);
            }
            out
        },
        None => body,
    }
}

/// Puts a conversation's context in front of the last turn.
pub fn apply_context(turns: &Vec<Message>, context: &str) -> (r: Vec<Message>)
    ensures
        messages_view(r@) == with_context_spec(messages_view(turns@), context@),
{
    let mut out = copy_messages(turns);
    let n = out.len();
    if context.unicode_len() == 0 || n == 0 {
        return out;
    }
    let mut text = owned(context);
    text.append("\n\n");
    text.append(out[n - 1].content.as_str());
    let role = out[n - 1].role;
    out.set(n - 1, Message { role, content: text });
    proof {
        assert(messages_view(out@) =~= with_context_spec(messages_view(turns@), context@));
    }
    out
}

/// The conversation's own configuration layer: its temperature if set, its
/// system prompt if not empty.
pub open spec fn own_layer(c: Conversation) -> ModelConfigView {
    ModelConfigView {
        temperature: match c.config.temperature {
            Some(t) => Some(t.text@),
            None => None,
        },
        system_prompt: if c.config.system_prompt@.len() > 0 {
            Some(c.config.system_prompt@)
        } else {
            None
        },
    }
}

/// The effective configuration of a conversation's request: the global
/// defaults, overlaid by its model's override, overlaid by its own layer.
pub open spec fn conversation_config_spec(c: Conversation, g: GlobalConfig) -> ModelConfigView {
    merged(merged(g.default_config@, override_of(g.model_configs@, c.config.model@)), own_layer(c))
}

/// The configuration and message list of a conversation's next request.
pub fn conversation_request(c: &Conversation, g: &GlobalConfig) -> (r: (ModelConfig, Vec<Message>))
    ensures
        r.0@ == conversation_config_spec(*c, *g),
        messages_view(r.1@) == chat_messages_spec(
            r.0@,
            with_context_spec(messages_view(c.history@), c.context@),
        ),
{
    let own = ModelConfig {
        temperature: match &c.config.temperature {
            Some(t) => Some(Temperature { text: t.text.clone() }),
            None => None,
        },
        system_prompt: if c.config.system_prompt.unicode_len() > 0 {
            Some(c.config.system_prompt.clone())
        } else {
            None
        },
    };
    let config = g.effective_config(c.config.model.as_str(), &own);
    let turns = apply_context(&c.history, c.context.as_str());
    let messages = build_chat_messages(&config, &turns);
    (config, messages)
}

/// The configuration and message list of a one-off query to a model.
pub fn model_request(model: &str, prompt: &str, g: &GlobalConfig) -> (r: (ModelConfig, Vec<Message>))
    ensures
        r.0@ == merged(
            merged(g.default_config@, override_of(g.model_configs@, model@)),
            ModelConfigView { temperature: None, system_prompt: None },
        ),
        messages_view(r.1@) == chat_messages_spec(r.0@, seq![(MessageRole::User, prompt@)]),
{
    let config = g.effective_config(model, &ModelConfig::unset());
    let turns = vec![Message { role: MessageRole::User, content: owned(prompt) }];
    proof {
        assert(messages_view(turns@) =~= seq![(MessageRole::User, prompt@)]);
    }
    let messages = build_chat_messages(&config, &turns);
    (config, messages)
}

} // verus!
