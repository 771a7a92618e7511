//! Conversation messages and the prompt formatter: the pure
//! transformation from a role-tagged message sequence to the single
//! linear prompt fed to the inference engine.

use vstd::prelude::*;
use vstd::string::StrSliceExecFns;
use vstd::string::StringExecFns;

verus! {

/// The role of one conversation turn. The three standard roles use fixed
/// delimiter tags; any other role string is carried through verbatim as
/// its own tag.
pub enum Role {
    System,
    User,
    Assistant,
    Other(String),
}

/// One conversation turn: a role and its text content. Immutable once
/// received; ordering within a conversation is significant.
pub struct Message {
    pub role: Role,
    pub content: String,
}

/// The delimiter tag emitted for a role: a fixed word for the standard
/// roles, the role string itself for any other.
pub open spec fn spec_role_tag(r: Role) -> Seq<char> {
    match r {
        Role::System => "system"@,
        Role::User => "user"@,
        Role::Assistant => "assistant"@,
        Role::Other(tag) => tag@,
    }
}

/// The delimited block one message contributes to the prompt:
/// `<|tag|>` on its own line, then the content and a newline.
pub open spec fn spec_block(m: Message) -> Seq<char> {
    "<|"@ + spec_role_tag(m.role) + "|>\n"@ + m.content@ + "\n"@
}

/// The concatenation of every message's block, in message order.
pub open spec fn spec_blocks(ms: Seq<Message>) -> Seq<char>
    decreases ms.len(),
{
    if ms.len() == 0 {
        Seq::empty()
    } else {
        spec_block(ms[0]) + spec_blocks(ms.skip(1))
    }
}

/// The assistant-turn opening marker appended after all messages, which
/// signals the engine to generate from that point.
pub open spec fn spec_marker() -> Seq<char> {
    "<|assistant|>\n"@
}

/// The whole formatted prompt: every block, then the trailing marker.
pub open spec fn spec_format(ms: Seq<Message>) -> Seq<char> {
    spec_blocks(ms) + spec_marker()
}

/// Appending one message appends exactly its block.
pub proof fn lemma_blocks_push(ms: Seq<Message>, m: Message)
    ensures
        spec_blocks(ms.push(m)) == spec_blocks(ms) + spec_block(m),
    decreases ms.len(),
{
    if ms.len() == 0 {
        let p = ms.push(m);
        assert(p.len() == 1);
        assert(p[0] == m);
        assert(p.skip(1) =~= Seq::<Message>::empty());
        assert(spec_blocks(p.skip(1)) == Seq::<char>::empty());
        assert(spec_blocks(p) == spec_block(m) + Seq::<char>::empty());
        assert(spec_blocks(p) =~= spec_block(m));
        assert(spec_blocks(ms) == Seq::<char>::empty());
        assert(spec_blocks(ms) + spec_block(m) =~= spec_block(m));
    } else {
        assert(ms.push(m).skip(1) =~= ms.skip(1).push(m));
        lemma_blocks_push(ms.skip(1), m);
        assert(spec_blocks(ms.push(m)) =~= spec_blocks(ms) + spec_block(m));
    }
}

/// Each message contributes exactly one delimited block, in order: the
/// blocks of a concatenated message sequence are the concatenated blocks
/// of its parts.
pub proof fn lemma_blocks_concat(ms1: Seq<Message>, ms2: Seq<Message>)
    ensures
        spec_blocks(ms1 + ms2) == spec_blocks(ms1) + spec_blocks(ms2),
    decreases ms2.len(),
{
    if ms2.len() == 0 {
        assert(ms1 + ms2 =~= ms1);
        assert(spec_blocks(ms1 + ms2) =~= spec_blocks(ms1) + spec_blocks(ms2));
    } else {
        let last = ms2.last();
        assert(ms1 + ms2 =~= (ms1 + ms2.drop_last()).push(last));
        assert(ms2 =~= ms2.drop_last().push(last));
        lemma_blocks_push(ms1 + ms2.drop_last(), last);
        lemma_blocks_push(ms2.drop_last(), last);
        lemma_blocks_concat(ms1, ms2.drop_last());
        assert(spec_blocks(ms1 + ms2) =~= spec_blocks(ms1) + spec_blocks(ms2));
    }
}

/// A single message's sequence formats to exactly its own block.
pub proof fn lemma_single_message_block(m: Message)
    ensures
        spec_blocks(seq![m]) == spec_block(m),
{
    assert(seq![m] =~= Seq::<Message>::empty().push(m));
    lemma_blocks_push(Seq::<Message>::empty(), m);
    assert(spec_blocks(Seq::<Message>::empty()) == Seq::<char>::empty());
    assert(spec_blocks(seq![m]) =~= spec_block(m));
}

/// The formatted prompt always ends with the assistant-turn opening
/// marker: one trailing marker is appended whatever the input, the empty
/// sequence included.
pub proof fn lemma_format_ends_with_marker(ms: Seq<Message>)
    ensures
        spec_format(ms).len() >= spec_marker().len(),
        spec_format(ms).skip(spec_format(ms).len() - spec_marker().len()) == spec_marker(),
{
    let b = spec_blocks(ms);
    assert((b + spec_marker()).skip(b.len() as int) =~= spec_marker());
}

/// Non-standard role tags are emitted verbatim: a message with any
/// other role contributes a block whose delimiter tag is exactly that
/// role string.
pub proof fn lemma_other_role_verbatim(tag: String, content: String)
    ensures
        spec_block(Message { role: Role::Other(tag), content }) == "<|"@ + tag@ + "|>\n"@
            + content@ + "\n"@,
{
}

/// The character of a standard-role block at index two is the first
/// character of its role tag.
proof fn lemma_block_tag_char(m: Message)
    requires
        !(m.role matches Role::Other(_)),
    ensures
        spec_block(m).len() > 2,
        spec_block(m)[2] == spec_role_tag(m.role)[0],
        spec_role_tag(m.role).len() > 0,
{
    reveal_strlit("<|");
    reveal_strlit("system");
    reveal_strlit("user");
    reveal_strlit("assistant");
    let t = spec_role_tag(m.role);
    assert(t.len() > 0);
    assert(("<|"@ + t)[2] == t[0]);
    assert(spec_block(m)[2] == ("<|"@ + t)[2]);
}

/// Formatting is reversible for the standard roles: two messages with
/// standard roles that contribute the same block carry the same role
/// and the same content.
pub proof fn lemma_standard_block_recovery(m1: Message, m2: Message)
    requires
        !(m1.role matches Role::Other(_)),
        !(m2.role matches Role::Other(_)),
        spec_block(m1) == spec_block(m2),
    ensures
        m1.role == m2.role,
        m1.content@ == m2.content@,
{
    reveal_strlit("<|");
    reveal_strlit("|>\n");
    reveal_strlit("\n");
    reveal_strlit("system");
    reveal_strlit("user");
    reveal_strlit("assistant");
    lemma_block_tag_char(m1);
    lemma_block_tag_char(m2);
    let t1 = spec_role_tag(m1.role);
    let t2 = spec_role_tag(m2.role);
    assert(t1[0] == t2[0]);
    assert(m1.role == m2.role) by {
        assert("system"@[0] == 's' && "user"@[0] == 'u' && "assistant"@[0] == 'a');
    }
    let q = "<|"@ + t1 + "|>\n"@;
    let c1 = m1.content@;
    let c2 = m2.content@;
    assert(spec_block(m1) == (q + c1) + "\n"@);
    assert(spec_block(m2) == (q + c2) + "\n"@);
    assert(c1.len() == c2.len());
    assert(c1 =~= c2) by {
        assert forall|i: int| 0 <= i < c1.len() implies c1[i] == c2[i] by {
            assert(((q + c1) + "\n"@)[q.len() + i] == c1[i]);
            assert(((q + c2) + "\n"@)[q.len() + i] == c2[i]);
        }
    }
}

/// Format a conversation for the engine: one delimited block per
/// message, then the assistant-turn opening marker.
pub fn format_messages_for_llama(messages: &Vec<Message>) -> (r: String)
    ensures
        r@ == spec_format(messages@),
{
    let mut formatted = String::new();
    let n = messages.len();
    let mut i: usize = 0;
    while i < n
        invariant
            n == messages.len(),
            i <= n,
            formatted@ == spec_blocks(messages@.take(i as int)),
        decreases n - i,
    {
        let m = &messages[i];
        formatted.append("<|");
        match &m.role {
            Role::System => formatted.append("system"),
            Role::User => formatted.append("user"),
            Role::Assistant => formatted.append("assistant"),
            Role::Other(tag) => formatted.append(tag.as_str()),
        }
        formatted.append("|>\n");
        formatted.append(m.content.as_str());
        formatted.append("\n");
        proof {
            assert(messages@.take(i + 1) =~= messages@.take(i as int).push(messages@[i as int]));
            lemma_blocks_push(messages@.take(i as int), messages@[i as int]);
            assert(formatted@ =~= spec_blocks(messages@.take(i as int)) + spec_block(messages@[i as int]));
        }
        i = i + 1;
    }
    proof {
        assert(messages@.take(n as int) =~= messages@);
    }
    formatted.append("<|assistant|>\n");
    proof {
        assert(formatted@ =~= spec_format(messages@));
    }
    formatted
}

/// The block a prepended system-prompt template contributes.
pub open spec fn spec_system_block(system_prompt: Seq<char>) -> Seq<char> {
    "<|"@ + "system"@ + "|>\n"@ + system_prompt + "\n"@
}

/// The prompt for a request: the formatted messages, preceded by a
/// system block when a non-empty template text was supplied.
pub open spec fn spec_prompt_with_system(ms: Seq<Message>, system_prompt: Seq<char>) -> Seq<char> {
    if system_prompt.len() == 0 {
        spec_format(ms)
    } else {
        spec_system_block(system_prompt) + spec_format(ms)
    }
}

/// Build the full prompt for a request: prepend a system message when
/// the template text is non-empty, then format every message and the
/// trailing assistant-turn marker.
pub fn build_prompt(messages: Vec<Message>, system_prompt: String) -> (r: String)
    ensures
        r@ == spec_prompt_with_system(messages@, system_prompt@),
{
    let ghost orig: Seq<Message> = messages@;
    let mut messages = messages;
    if !system_prompt.as_str().is_empty() {
        let sys = Message { role: Role::System, content: system_prompt };
        messages.insert(0, sys);
        let r = format_messages_for_llama(&messages);
        proof {
            assert(messages@ =~= seq![sys] + orig);
            lemma_blocks_concat(seq![sys], orig);
            lemma_single_message_block(sys);
            assert(r@ =~= spec_system_block(sys.content@) + spec_format(orig));
        }
        r
    } else {
        format_messages_for_llama(&messages)
    }
}

} // verus!
