//! Token counting for context-window budgeting.
use vstd::prelude::*;
use vstd::utf8::encode_utf8;

verus! {

#[verifier::external_type_specification]
#[verifier::external_body]
pub struct ExTokenizer(tokenizers::Tokenizer);

/// Calls `Tokenizer::encode` without special tokens and returns the number of
/// tokens, or nothing when encoding fails. Nothing is claimed of the count:
/// it is the loaded tokenizer's.
#[verifier::external_body]
fn encoded_len(tokenizer: &tokenizers::Tokenizer, text: &str) -> (n: Option<usize>) {
    match tokenizer.encode(text, false) {
        Ok(encoding) => Some(encoding.len()),
        Err(_) => None,
    }
}

/// The role of a chat message.
#[derive(Debug, Clone, Copy, PartialEq, Eq, Structural)]
pub enum MessageRole {
    System,
    User,
    Assistant,
    Tool,
}

/// A chat message: its role and text.
#[derive(Debug)]
pub struct Message {
    pub role: MessageRole,
    pub content: String,
}

/// Number of tokens guessed from the byte length of a text: about four bytes
/// per token, and never less than one.
pub open spec fn estimated_tokens(byte_len: nat) -> nat {
    if byte_len / 4 >= 1 {
        byte_len / 4
    } else {
        1
    }
}

/// The number of UTF-8 bytes of a text.
pub open spec fn utf8_len(s: Seq<char>) -> nat {
    encode_utf8(s).len()
}

/// Tokens for a role prefix: "system: ", "user: " and "tool: " take two,
/// "assistant: " three.
pub open spec fn role_tokens(role: MessageRole) -> nat {
    match role {
        MessageRole::System => 2,
        MessageRole::User => 2,
        MessageRole::Assistant => 3,
        MessageRole::Tool => 2,
    }
}

/// The tokens of a list of messages, given the token count of each
/// message's text: each message adds its text's count, its role prefix and
/// one separator.
pub open spec fn counted_tokens(messages: Seq<Message>, counts: Seq<nat>) -> nat
    decreases messages.len(),
{
    if messages.len() == 0 {
        0
    } else {
        counted_tokens(messages.drop_last(), counts.drop_last()) + counts.last() + role_tokens(
            messages.last().role,
        ) + 1
    }
}

/// The estimated token count of each message's text.
pub open spec fn estimated_counts(messages: Seq<Message>) -> Seq<nat> {
    messages.map_values(|m: Message| estimated_tokens(utf8_len(m.content@)))
}

/// The estimated tokens of a list of messages.
pub open spec fn messages_tokens(messages: Seq<Message>) -> nat {
    counted_tokens(messages, estimated_counts(messages))
}

/// The estimated tokens of a conversation: its messages and three framing
/// tokens.
pub open spec fn conversation_tokens(messages: Seq<Message>) -> nat {
    messages_tokens(messages) + 3
}

/// A count capped at the largest `usize`.
pub open spec fn capped(n: nat) -> usize {
    if n <= usize::MAX {
        n as usize
    } else {
        usize::MAX
    }
}

/// Rough character-based token estimate (about 4 bytes per token for English text).
pub fn estimate_tokens(text: &str) -> (n: usize)
    ensures
        n == estimated_tokens(utf8_len(text@)),
        n >= 1,
{
    let q = text.as_bytes().len() / 4;
    if q >= 1 {
        q
    } else {
        1
    }
}

/// Estimated token overhead for a message role prefix.
pub fn role_overhead(role: MessageRole) -> (n: usize)
    ensures
        n == role_tokens(role),
{
    match role {
        MessageRole::System => 2,
        MessageRole::User => 2,
        MessageRole::Assistant => 3,
        MessageRole::Tool => 2,
    }
}

/// The token count of a text given the tokenizer's count, falling back to
/// the estimate when the tokenizer could not encode it.
pub fn count_from_encoding(encoded: Option<usize>, text: &str) -> (n: usize)
    ensures
        n == match encoded {
            Some(c) => c,
            None => estimated_tokens(utf8_len(text@)) as usize,
        },
{
    match encoded {
        Some(c) => c,
        None => estimate_tokens(text),
    }
}

/// Token counter backed by a Hugging Face tokenizer, falling back to a
/// byte-length estimate when none is loaded or encoding fails.
pub struct TokenCounter {
    tokenizer: Option<tokenizers::Tokenizer>,
    model_identifier: String,
}

impl TokenCounter {
    /// Whether a tokenizer is loaded.
    pub closed spec fn has_tokenizer(self) -> bool {
        self.tokenizer is Some
    }

    /// The model identifier the counter was created with.
    pub closed spec fn model(self) -> Seq<char> {
        self.model_identifier@
    }

    /// A counter for the model identifier with the tokenizer loaded for it,
    /// if loading succeeded; without one the counter works with the
    /// estimate. Always succeeds.
    pub fn new(model_identifier: &str, tokenizer: Option<tokenizers::Tokenizer>) -> (r: Result<
        TokenCounter,
        crate::error::AgentError,
    >)
        ensures
            r matches Ok(c) && c.model() == model_identifier@ && c.has_tokenizer()
                == tokenizer is Some,
    {
        Ok(TokenCounter { tokenizer, model_identifier: String::from_str(model_identifier) })
    }

    /// Count the tokens of a text: the tokenizer's count, or the estimate
    /// when no tokenizer is loaded or encoding fails.
    pub fn count_text(&self, text: &str) -> (n: usize)
        ensures
            !self.has_tokenizer() ==> n == estimated_tokens(utf8_len(text@)),
    {
        match &self.tokenizer {
            Some(tok) => count_from_encoding(encoded_len(tok, text), text),
            None => estimate_tokens(text),
        }
    }

    /// Count tokens for chat messages: each message's text, its role prefix
    /// and a separator, plus three framing tokens (capped at the largest
    /// `usize`). Without a tokenizer each text counts as its estimate.
    pub fn count_messages(&self, messages: &[Message]) -> (n: usize)
        ensures
            n >= 3,
            exists|counts: Seq<nat>|
                #![trigger counted_tokens(messages@, counts)]
                counts.len() == messages@.len() && n == capped(
                    counted_tokens(messages@, counts) + 3,
                ),
            !self.has_tokenizer() ==> n == capped(conversation_tokens(messages@)),
    {
        let mut total: usize = 0;
        let mut i: usize = 0;
        let ghost mut counts: Seq<nat> = Seq::empty();
        while i < messages.len()
            invariant
                i <= messages.len(),
                counts.len() == i,
                total == capped(counted_tokens(messages@.take(i as int), counts)),
                !self.has_tokenizer() ==> counts == estimated_counts(messages@.take(i as int)),
            decreases messages.len() - i,
        {
            let m = &messages[i];
            let c = self.count_text(m.content.as_str());
            proof {
                assert(messages@.take(i + 1).drop_last() =~= messages@.take(i as int));
                assert(messages@.take(i + 1).last() == messages@[i as int]);
                assert(counts.push(c as nat).drop_last() =~= counts);
                if !self.has_tokenizer() {
                    assert(estimated_counts(messages@.take(i + 1)) =~= counts.push(c as nat));
                }
                counts = counts.push(c as nat);
            }
            total = total.saturating_add(c);
            total = total.saturating_add(role_overhead(m.role));
            total = total.saturating_add(1);
            i = i + 1;
        }
        assert(messages@.take(messages.len() as int) =~= messages@);
        total.saturating_add(3)
    }

    /// The model identifier this counter was created with.
    pub fn model_identifier(&self) -> (s: &str)
        ensures
            s@ == self.model(),
    {
        self.model_identifier.as_str()
    }
}

} // verus!

verus! {

/// Token counts of messages add up: the tokens of two lists together are
/// the tokens of each list, less the three framing tokens counted once, and a
/// single message counts its text, its role prefix, one separator and the
/// framing.
pub proof fn law_message_counts_add(a: Seq<Message>, b: Seq<Message>, m: Message)
    ensures
        conversation_tokens(a + b) == conversation_tokens(a) + conversation_tokens(b) - 3,
        conversation_tokens(seq![m]) == estimated_tokens(utf8_len(m.content@)) + role_tokens(
            m.role,
        ) + 1 + 3,
{
    lemma_counted_tokens_concat(a, estimated_counts(a), b, estimated_counts(b));
    assert(estimated_counts(a + b) =~= estimated_counts(a) + estimated_counts(b));
    let one = seq![m];
    let c = estimated_counts(one);
    assert(one.drop_last() =~= Seq::<Message>::empty());
    assert(c.drop_last() =~= Seq::<nat>::empty());
    assert(one.last() == m);
    assert(c.last() == estimated_tokens(utf8_len(m.content@)));
    assert(counted_tokens(Seq::<Message>::empty(), Seq::<nat>::empty()) == 0);
    assert(counted_tokens(one, c) == counted_tokens(one.drop_last(), c.drop_last()) + c.last()
        + role_tokens(one.last().role) + 1);
}

/// Counting two lists together, each with its own text counts, adds their
/// counts.
pub proof fn lemma_counted_tokens_concat(a: Seq<Message>, ca: Seq<nat>, b: Seq<Message>, cb: Seq<nat>)
    requires
        ca.len() == a.len(),
        cb.len() == b.len(),
    ensures
        counted_tokens(a + b, ca + cb) == counted_tokens(a, ca) + counted_tokens(b, cb),
    decreases b.len(),
{
    if b.len() == 0 {
        assert(a + b =~= a);
        assert(ca + cb =~= ca);
    } else {
        assert((a + b).drop_last() =~= a + b.drop_last());
        assert((ca + cb).drop_last() =~= ca + cb.drop_last());
        lemma_counted_tokens_concat(a, ca, b.drop_last(), cb.drop_last());
    }
}

} // verus!
