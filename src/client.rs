use vstd::prelude::*;
use std::collections::VecDeque;
use crate::error::GeminiError;
use crate::models::{turns_view, GeminiContent, GeminiResponse};

verus! {

/// How many turns a new client keeps.
pub const DEFAULT_MAX_MEMORY: usize = 50;

/// The role of the caller's turns.
pub const USER_ROLE: &'static str = "user";

/// The role of the model's turns.
pub const MODEL_ROLE: &'static str = "model";

/// A turn as its role and the texts of its fragments.
pub type TurnView = (Seq<char>, Seq<Seq<char>>);

/// Configuration for the Gemini client.
#[derive(Clone, Debug)]
pub struct ClientConfig {
    pub api_key: String,
    pub model: String,
    pub max_memory_size: usize,
}

/// Gemini AI client with conversation memory.
pub struct Client {
    config: ClientConfig,
    memory: VecDeque<GeminiContent>,
}

/// The last `k` items of `h`, or all of them where there are no more than `k`.
pub open spec fn keep_last<A>(h: Seq<A>, k: nat) -> Seq<A> {
    if h.len() > k {
        h.skip(h.len() - k)
    } else {
        h
    }
}

/// Keeping the last `k` items never leaves more than `k`.
pub proof fn lemma_keep_last_bounded<A>(h: Seq<A>, k: nat)
    ensures
        keep_last(h, k).len() <= k,
{
}

/// A whole chat, its first half and then its second on whatever the transport
/// returned, leaves at most `max` turns, from any history.
pub proof fn lemma_chat_within_bound(
    h: Seq<TurnView>,
    max: nat,
    input: Seq<char>,
    outcome: Result<GeminiResponse, GeminiError>,
)
    ensures
        after_reply(keep_last(h.push(single_turn(USER_ROLE@, input)), max), max, outcome).len()
            <= max,
{
    let sent = keep_last(h.push(single_turn(USER_ROLE@, input)), max);
    lemma_keep_last_bounded(h.push(single_turn(USER_ROLE@, input)), max);
    if let Ok(resp) = outcome {
        lemma_keep_last_bounded(sent.push(single_turn(MODEL_ROLE@, resp.answer())), max);
    }
}

/// A turn of `role` that holds `text` alone.
pub open spec fn single_turn(role: Seq<char>, text: Seq<char>) -> TurnView {
    (role, seq![text])
}

/// What a conversation turns into when the model has answered: the answer to `outcome`
/// appended and the oldest turns dropped, or nothing changed on a failure.
pub open spec fn after_reply(
    h: Seq<TurnView>,
    max: nat,
    outcome: Result<GeminiResponse, GeminiError>,
) -> Seq<TurnView> {
    match outcome {
        Ok(resp) => keep_last(h.push(single_turn(MODEL_ROLE@, resp.answer())), max),
        Err(_) => h,
    }
}

/// The text that a caller gets for `outcome`, or the error that failed it.
pub open spec fn reply_matches(
    outcome: Result<GeminiResponse, GeminiError>,
    r: Result<String, GeminiError>,
) -> bool {
    match outcome {
        Ok(resp) => r matches Ok(t) && t@ == resp.answer(),
        Err(e) => r == Err::<String, GeminiError>(e),
    }
}

/// The answer to a transport's outcome: the cleaned text of a response, or the
/// transport's error unchanged. `get_string` always yields a text, so
/// `GeminiError::NoResponseText` does not come from here.
pub fn reply_text(outcome: Result<GeminiResponse, GeminiError>) -> (r: Result<String, GeminiError>)
    ensures
        reply_matches(outcome, r),
{
    match outcome {
        Ok(resp) => match resp.get_string() {
            Some(t) => Ok(t),
            None => Err(GeminiError::NoResponseText),
        },
        Err(e) => Err(e),
    }
}

/// A turn of the caller that holds `input`.
pub fn user_turn(input: &str) -> (r: GeminiContent)
    ensures
        r@ == single_turn(USER_ROLE@, input@),
{
    GeminiContent::new(USER_ROLE.to_owned(), input.to_owned())
}

impl Client {
    /// The turns kept, oldest first.
    pub closed spec fn history(&self) -> Seq<TurnView> {
        turns_view(self.memory@)
    }

    /// The configuration the client was made with, its bound as last set.
    pub closed spec fn settings(&self) -> ClientConfig {
        self.config
    }

    /// The bound on the number of turns kept.
    pub open spec fn max_memory(&self) -> nat {
        self.settings().max_memory_size as nat
    }

    /// The history never holds more turns than the bound.
    pub open spec fn wf(&self) -> bool {
        self.history().len() <= self.max_memory()
    }

    /// Create a new client instance, with the default bound.
    pub fn new(api_key: &str, model: &str) -> (r: Self)
        ensures
            r.wf(),
            r.history().len() == 0,
            r.settings().api_key@ == api_key@,
            r.settings().model@ == model@,
            r.max_memory() == DEFAULT_MAX_MEMORY,
    {
        Self {
            config: ClientConfig {
                api_key: api_key.to_owned(),
                model: model.to_owned(),
                max_memory_size: DEFAULT_MAX_MEMORY,
            },
            memory: VecDeque::new(),
        }
    }

    /// Create a new client with custom configuration.
    pub fn with_config(config: ClientConfig) -> (r: Self)
        ensures
            r.wf(),
            r.history().len() == 0,
            r.settings() == config,
    {
        Self { config, memory: VecDeque::new() }
    }

    /// The configuration that requests are made with.
    pub fn config(&self) -> (r: &ClientConfig)
        ensures
            *r == self.settings(),
    {
        &self.config
    }

    /// Clear conversation memory.
    pub fn clear_memory(&mut self)
        requires
            old(self).wf(),
        ensures
            final(self).wf(),
            final(self).history().len() == 0,
            final(self).settings() == old(self).settings(),
    {
        self.memory.clear();
        assert(turns_view(self.memory@) =~= Seq::<TurnView>::empty());
    }

    /// Get current memory size.
    pub fn memory_size(&self) -> (r: usize)
        ensures
            r == self.history().len(),
    {
        self.memory.len()
    }

    /// Get conversation history, as a copy.
    pub fn get_history(&self) -> (r: Vec<GeminiContent>)
        ensures
            turns_view(r@) == self.history(),
    {
        let mut out: Vec<GeminiContent> = Vec::new();
        let mut i: usize = 0;
        while i < self.memory.len()
            invariant
                i <= self.memory@.len(),
                out@.len() == i,
                forall|j: int| 0 <= j < i ==> out@[j]@ == self.memory@[j]@,
            decreases self.memory@.len() - i,
        {
            out.push(self.memory[i].duplicate());
            i = i + 1;
        }
        assert(turns_view(out@) =~= turns_view(self.memory@));
        out
    }

    /// Set maximum memory size; the oldest turns beyond it are dropped at once.
    pub fn set_max_memory_size(&mut self, size: usize)
        requires
            old(self).wf(),
        ensures
            final(self).wf(),
            final(self).max_memory() == size,
            final(self).settings().api_key == old(self).settings().api_key,
            final(self).settings().model == old(self).settings().model,
            final(self).history() == keep_last(old(self).history(), size as nat),
            old(self).history().len() > size ==> final(self).history().len() == size,
    {
        self.config.max_memory_size = size;
        self.trim_memory();
    }

    /// Add message to memory with size management.
    fn add_to_memory(&mut self, message: GeminiContent)
        ensures
            final(self).wf(),
            final(self).settings() == old(self).settings(),
            final(self).history() == keep_last(
                old(self).history().push(message@),
                old(self).max_memory(),
            ),
    {
        self.memory.push_back(message);
        assert(turns_view(self.memory@) =~= turns_view(old(self).memory@).push(message@));
        self.trim_memory();
    }

    /// Trim memory to max size (removes oldest messages).
    fn trim_memory(&mut self)
        ensures
            final(self).wf(),
            final(self).settings() == old(self).settings(),
            final(self).history() == keep_last(old(self).history(), old(self).max_memory()),
    {
        let ghost start = self.memory@;
        let ghost max = self.config.max_memory_size as nat;
        while self.memory.len() > self.config.max_memory_size
            invariant
                self.config == old(self).config,
                start == old(self).memory@,
                max == self.config.max_memory_size,
                self.memory@.len() <= start.len(),
                start.len() > max ==> self.memory@.len() >= max,
                start.len() <= max ==> self.memory@.len() == start.len(),
                self.memory@ == start.skip(start.len() - self.memory@.len()),
            decreases self.memory@.len(),
        {
            self.memory.pop_front();
            assert(self.memory@ =~= start.skip(start.len() - self.memory@.len()));
        }
        assert(self.memory@ == keep_last(start, max));
        assert(turns_view(keep_last(start, max)) =~= keep_last(turns_view(start), max));
    }

    /// The first half of a chat: the caller's turn joins the history, the oldest turns
    /// beyond the bound leave it, and what is returned is the whole history to send.
    /// The turn stays even where the call then fails.
    pub fn begin_chat(&mut self, input: &str) -> (r: Vec<GeminiContent>)
        requires
            old(self).wf(),
        ensures
            final(self).wf(),
            final(self).settings() == old(self).settings(),
            final(self).history() == keep_last(
                old(self).history().push(single_turn(USER_ROLE@, input@)),
                old(self).max_memory(),
            ),
            turns_view(r@) == final(self).history(),
    {
        let turn = user_turn(input);
        self.add_to_memory(turn);
        self.get_history()
    }

    /// The second half of a chat, given what the transport returned: on a response its
    /// cleaned text is appended as the model's turn (the oldest turns beyond the bound
    /// leave) and returned; on an error the history stays as it is and the error is
    /// returned.
    pub fn finish_chat(&mut self, outcome: Result<GeminiResponse, GeminiError>) -> (r: Result<
        String,
        GeminiError,
    >)
        requires
            old(self).wf(),
        ensures
            final(self).wf(),
            final(self).settings() == old(self).settings(),
            final(self).history() == after_reply(old(self).history(), old(self).max_memory(), outcome),
            reply_matches(outcome, r),
    {
        let r = reply_text(outcome);
        match r {
            Ok(text) => {
                let turn = GeminiContent::new(MODEL_ROLE.to_owned(), text.clone());
                self.add_to_memory(turn);
                Ok(text)
            },
            Err(e) => Err(e),
        }
    }
}

} // verus!
