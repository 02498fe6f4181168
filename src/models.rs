use vstd::prelude::*;
use crate::text::{strip_fence, unfenced};

verus! {

/// One text fragment of a turn.
#[derive(Clone, Debug, PartialEq)]
pub struct GeminiPart {
    pub text: String,
}

/// One turn of a conversation: a role ("user" or "model") and its text fragments.
#[derive(Clone, Debug, PartialEq)]
pub struct GeminiContent {
    pub role: String,
    pub parts: Vec<GeminiPart>,
}

#[derive(Clone, Debug)]
pub struct ThinkingConfig {
    pub thinking_budget: i32,
}

#[derive(Clone, Debug)]
pub struct GenerationConfig {
    pub thinking_config: ThinkingConfig,
    pub response_mime_type: String,
}

/// What is sent: the conversation so far and the generation options.
#[derive(Clone, Debug)]
pub struct GeminiRequest {
    pub contents: Vec<GeminiContent>,
    pub generation_config: GenerationConfig,
}

/// What comes back. Every field may be absent.
#[derive(Clone, Debug)]
pub struct GeminiResponse {
    pub candidates: Option<Vec<Candidate>>,
}

#[derive(Clone, Debug)]
pub struct Candidate {
    pub content: Option<Content>,
    pub finish_reason: Option<String>,
    pub index: Option<u32>,
    pub safety_ratings: Option<Vec<SafetyRating>>,
}

#[derive(Clone, Debug)]
pub struct Content {
    pub parts: Option<Vec<Part>>,
    pub role: Option<String>,
}

#[derive(Clone, Debug)]
pub struct Part {
    pub text: Option<String>,
}

#[derive(Clone, Debug)]
pub struct SafetyRating {
    pub category: Option<String>,
    pub probability: Option<String>,
}

impl View for GeminiPart {
    type V = Seq<char>;

    open spec fn view(&self) -> Seq<char> {
        self.text@
    }
}

/// A turn seen as its role and the texts of its fragments.
pub open spec fn turn_view(t: GeminiContent) -> (Seq<char>, Seq<Seq<char>>) {
    (t.role@, t.parts@.map_values(|p: GeminiPart| p@))
}

impl View for GeminiContent {
    type V = (Seq<char>, Seq<Seq<char>>);

    open spec fn view(&self) -> (Seq<char>, Seq<Seq<char>>) {
        turn_view(*self)
    }
}

/// The turns of a conversation, each seen through its view.
pub open spec fn turns_view(ts: Seq<GeminiContent>) -> Seq<(Seq<char>, Seq<Seq<char>>)> {
    ts.map_values(|t: GeminiContent| t@)
}

/// The texts of `ps` that are present, in order.
pub open spec fn part_texts(ps: Seq<Part>) -> Seq<String>
    decreases ps.len(),
{
    if ps.len() == 0 {
        Seq::empty()
    } else {
        part_texts(ps.drop_last()) + match ps.last().text {
            Some(t) => seq![t],
            None => Seq::empty(),
        }
    }
}

/// The texts that a candidate holds, in order.
pub open spec fn candidate_texts(c: Candidate) -> Seq<String> {
    match c.content {
        Some(ct) => match ct.parts {
            Some(ps) => part_texts(ps@),
            None => Seq::empty(),
        },
        None => Seq::empty(),
    }
}

/// The texts of all candidates: candidate order, then part order.
pub open spec fn candidates_texts(cs: Seq<Candidate>) -> Seq<String>
    decreases cs.len(),
{
    if cs.len() == 0 {
        Seq::empty()
    } else {
        candidates_texts(cs.drop_last()) + candidate_texts(cs.last())
    }
}

/// Each text followed by one space, so that consecutive texts stand one space apart.
pub open spec fn joined(ts: Seq<String>) -> Seq<char>
    decreases ts.len(),
{
    if ts.len() == 0 {
        Seq::empty()
    } else {
        joined(ts.drop_last()) + ts.last()@ + seq![' ']
    }
}

impl GeminiContent {
    /// A turn that holds `content` as its one fragment.
    pub fn new(role: String, content: String) -> (r: GeminiContent)
        ensures
            r.role == role,
            r.parts@.len() == 1,
            r.parts@[0].text == content,
            r@ == (role@, seq![content@]),
    {
        let part = GeminiPart { text: content };
        let r = GeminiContent { role, parts: vec![part] };
        assert(r@.1 =~= seq![r.parts@[0].text@]);
        r
    }

    /// A copy of this turn.
    pub fn duplicate(&self) -> (r: GeminiContent)
        ensures
            r@ == self@,
    {
        let mut parts: Vec<GeminiPart> = Vec::new();
        let mut i: usize = 0;
        while i < self.parts.len()
            invariant
                i <= self.parts@.len(),
                parts@.len() == i,
                forall|j: int| 0 <= j < i ==> parts@[j]@ == self.parts@[j]@,
            decreases self.parts@.len() - i,
        {
            parts.push(GeminiPart { text: self.parts[i].text.clone() });
            i = i + 1;
        }
        let r = GeminiContent { role: self.role.clone(), parts };
        assert(r@.1 =~= self@.1);
        r
    }
}

impl GeminiResponse {
    /// The first text of the first part of the first candidate, where that chain is complete.
    pub open spec fn first_text(&self) -> Option<String> {
        match self.candidates {
            Some(cs) => if cs@.len() > 0 {
                match cs@[0].content {
                    Some(ct) => match ct.parts {
                        Some(ps) => if ps@.len() > 0 {
                            ps@[0].text
                        } else {
                            None
                        },
                        None => None,
                    },
                    None => None,
                }
            } else {
                None
            },
            None => None,
        }
    }

    /// Every text that the response holds.
    pub open spec fn all_texts(&self) -> Seq<String> {
        match self.candidates {
            Some(cs) => candidates_texts(cs@),
            None => Seq::empty(),
        }
    }

    /// The cleaned answer: all texts joined, with whitespace and code fence removed.
    pub open spec fn answer(&self) -> Seq<char> {
        unfenced(joined(self.all_texts()))
    }

    /// Extract the first generated text from the response.
    pub fn extract_text(&self) -> (r: Option<String>)
        ensures
            r == self.first_text(),
            (self.candidates is Some && self.candidates->0@.len() > 0
                && self.candidates->0@[0].content is None) ==> r is None,
    {
        match &self.candidates {
            Some(cs) => {
                if cs.len() == 0 {
                    return None;
                }
                match &cs[0].content {
                    Some(ct) => match &ct.parts {
                        Some(ps) => {
                            if ps.len() == 0 {
                                return None;
                            }
                            match &ps[0].text {
                                Some(t) => Some(t.clone()),
                                None => None,
                            }
                        },
                        None => None,
                    },
                    None => None,
                }
            },
            None => None,
        }
    }

    /// Extract all generated texts from all candidates, skipping absent fields.
    pub fn extract_all_texts(&self) -> (r: Vec<String>)
        ensures
            r@ == self.all_texts(),
    {
        let mut texts: Vec<String> = Vec::new();
        if let Some(candidates) = &self.candidates {
            let mut i: usize = 0;
            while i < candidates.len()
                invariant
                    i <= candidates@.len(),
                    texts@ == candidates_texts(candidates@.take(i as int)),
                decreases candidates@.len() - i,
            {
                let ghost before = texts@;
                if let Some(content) = &candidates[i].content {
                    if let Some(parts) = &content.parts {
                        let mut j: usize = 0;
                        while j < parts.len()
                            invariant
                                j <= parts@.len(),
                                texts@ == before + part_texts(parts@.take(j as int)),
                            decreases parts@.len() - j,
                        {
                            assert(parts@.take(j + 1).drop_last() =~= parts@.take(j as int));
                            if let Some(text) = &parts[j].text {
                                texts.push(text.clone());
                            }
                            assert(texts@ =~= before + part_texts(parts@.take(j + 1)));
                            j = j + 1;
                        }
                        assert(parts@.take(parts@.len() as int) =~= parts@);
                    }
                }
                assert(candidates@.take(i + 1).drop_last() =~= candidates@.take(i as int));
                assert(texts@ =~= candidates_texts(candidates@.take(i + 1)));
                i = i + 1;
            }
            assert(candidates@.take(candidates@.len() as int) =~= candidates@);
        }
        texts
    }

    /// The answer as one string: all texts joined by spaces, then stripped of the
    /// surrounding whitespace and of a Markdown code fence ("```json" or "```" in front,
    /// "```" behind). It is present for every response, and empty when no text is.
    pub fn get_string(&self) -> (r: Option<String>)
        ensures
            r is Some,
            r->0@ == self.answer(),
            self.all_texts().len() == 0 ==> r->0@.len() == 0,
    {
        let texts = self.extract_all_texts();
        let mut out: String = String::new();
        let mut i: usize = 0;
        while i < texts.len()
            invariant
                i <= texts@.len(),
                out@ == joined(texts@.take(i as int)),
            decreases texts@.len() - i,
        {
            assert(texts@.take(i + 1).drop_last() =~= texts@.take(i as int));
            out.append(texts[i].as_str());
            out.append(" ");
            proof {
                reveal_strlit(" ");
            }
            assert(out@ =~= joined(texts@.take(i + 1)));
            i = i + 1;
        }
        assert(texts@.take(texts@.len() as int) =~= texts@);
        let cleaned = strip_fence(out.as_str());
        proof {
            if self.all_texts().len() == 0 {
                crate::text::lemma_unfenced_empty();
            }
        }
        Some(cleaned)
    }
}

} // verus!
