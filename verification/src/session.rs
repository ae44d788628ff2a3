//! What a session sends: the caller's identifier and the prompt that
//! carries the earlier exchanges along.

use std::collections::VecDeque;
use uuid::Uuid;
use vstd::prelude::*;

verus! {

/// The number of exchanges that a session carries along.
pub const MAX_PROMPTS: usize = 10;

/// A prompt that was sent, and the response that came back.
#[derive(Debug)]
pub struct PromptResponse {
    pub prompt: String,
    pub response: String,
}

/// How an earlier exchange reads in a prompt.
pub open spec fn exchange_text(exchange: PromptResponse) -> Seq<char> {
    "Prompt: "@ + exchange.prompt@ + "\nResponse: "@ + exchange.response@ + "\n"@
}

/// How the prompt of the user reads in what is sent.
pub open spec fn current_text(prompt: Seq<char>) -> Seq<char> {
    "Prompt: "@ + prompt
        + "\n. Do not prefix your response with the word \"Response\" or a newline character."@
}

/// The prompt that is sent: the earlier exchanges, oldest first, then the
/// prompt of the user, with nothing between them.
pub open spec fn prompt_text(exchanges: Seq<PromptResponse>, prompt: Seq<char>) -> Seq<char> {
    exchanges.map_values(|exchange: PromptResponse| exchange_text(exchange)).flatten()
        + current_text(prompt)
}

/// Builds the prompt to send from the exchanges kept and the prompt of
/// the user.
pub fn build_prompt(exchanges: &VecDeque<PromptResponse>, prompt: &str) -> (text: String)
    ensures
        text@ == prompt_text(exchanges@, prompt@),
{
    let ghost parts = exchanges@.map_values(|exchange: PromptResponse| exchange_text(exchange));
    let mut text = String::new();
    let mut i: usize = 0;
    while i < exchanges.len()
        invariant
            i <= exchanges@.len(),
            parts == exchanges@.map_values(|exchange: PromptResponse| exchange_text(exchange)),
            text@ == parts.subrange(0, i as int).flatten(),
        decreases exchanges@.len() - i,
    {
        proof {
            parts.subrange(0, i as int).lemma_flatten_push(parts[i as int]);
            assert(parts.subrange(0, i as int).push(parts[i as int]) =~= parts.subrange(0, i + 1));
        }
        let exchange = &exchanges[i];
        text.append("Prompt: ");
        text.append(exchange.prompt.as_str());
        text.append("\nResponse: ");
        text.append(exchange.response.as_str());
        text.append("\n");
        i += 1;
    }
    proof {
        assert(parts.subrange(0, i as int) =~= parts);
    }
    text.append("Prompt: ");
    text.append(prompt);
    text.append(
        "\n. Do not prefix your response with the word \"Response\" or a newline character.",
    );
    text
}

/// A lower-case hexadecimal digit.
pub open spec fn is_lower_hex(c: char) -> bool {
    ('0' <= c && c <= '9') || ('a' <= c && c <= 'f')
}

/// The hyphenated form of a random UUID: 36 characters, a hyphen at each of
/// four fixed places, lower-case hexadecimal digits elsewhere, and the
/// version digit `4`.
pub open spec fn is_random_uuid_text(text: Seq<char>) -> bool {
    &&& text.len() == 36
    &&& forall|i: int|
        0 <= i < 36 ==> if i == 8 || i == 13 || i == 18 || i == 23 {
            text[i] == '-'
        } else {
            is_lower_hex(#[trigger] text[i])
        }
    &&& text[14] == '4'
}

/// The identifier under which a session calls the server.
pub open spec fn session_id_of(token: Seq<char>) -> Seq<char> {
    "wingman-user-"@ + token
}

/// Wraps `uuid::Uuid::new_v4` and the `Display` of the result: a fresh
/// random UUID of version 4, written in hyphenated lower-case form. Which
/// one comes back is left open. The call fails only where the operating
/// system has no random bytes to give.
#[verifier::external_body]
fn random_uuid_text() -> (text: String)
    ensures
        is_random_uuid_text(text@),
{
    Uuid::new_v4().to_string()
}

/// The identifier of a session with the given token.
pub fn session_user_id(token: &str) -> (id: String)
    ensures
        id@ == session_id_of(token@),
{
    let mut id = "wingman-user-".to_owned();
    id.append(token);
    id
}

/// The identifier of a new session: a fresh random token behind the fixed
/// opening.
pub fn new_session_user_id() -> (id: String)
    ensures
        exists|token: Seq<char>|
            is_random_uuid_text(token) && id@ == #[trigger] session_id_of(token),
{
    let token = random_uuid_text();
    session_user_id(token.as_str())
}

} // verus!
