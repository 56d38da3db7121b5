//! The boundary to the inference engine: requests go in, tokens come out.

use vstd::prelude::*;
use vstd::string::{StrSliceExecFns, StringExecFns};

use crate::text::{lines, str_eq, strip_all, text_lines, trim, trim_start_matches, trimmed};
use crate::types::LlmRequest;

verus! {

/// One generated token.
#[derive(Clone, Debug)]
pub struct LlmToken {
    pub token_id: u32,
    pub text: String,
}

/// Failure of the inference engine.
#[derive(Debug)]
pub struct LlmError {
    pub message: String,
}

/// An inference engine: answers a request with the tokens it generates.
pub trait LlmEngine {
    fn generate(&self, req: LlmRequest) -> Result<Vec<LlmToken>, LlmError>;
}

/// An engine that generates nothing.
#[derive(Clone, Copy, Debug)]
pub struct NullLlmEngine;

impl LlmEngine for NullLlmEngine {
    /// Succeeds with no tokens, whatever the request.
    fn generate(&self, req: LlmRequest) -> (r: Result<Vec<LlmToken>, LlmError>)
        ensures
            r matches Ok(tokens) && tokens@.len() == 0,
    {
        Ok(Vec::new())
    }
}

/// Where chat completions are asked of an engine that lives at `base_url`.
pub fn completions_url(base_url: &str) -> (url: String)
    ensures
        url@ == base_url@ + "/chat/completions"@,
{
    let mut url = base_url.to_owned();
    url.append("/chat/completions");
    url
}

/// The payload of one line of an event stream, if it carries one: the line
/// without surrounding white space and without its `data: ` prefix. Empty
/// lines, a bare `data:` and the end marker `[DONE]` carry none.
pub open spec fn line_payload(line: Seq<char>) -> Option<Seq<char>> {
    let inner = trimmed(line);
    if inner.len() == 0 || inner == "data:"@ {
        None
    } else if strip_all(inner, "data: "@) == "[DONE]"@ {
        None
    } else {
        Some(strip_all(inner, "data: "@))
    }
}

/// The payloads of a sequence of lines, in order.
pub open spec fn payloads(all: Seq<Seq<char>>) -> Seq<Seq<char>>
    decreases all.len(),
{
    if all.len() == 0 {
        Seq::empty()
    } else {
        match line_payload(all.last()) {
            Some(p) => payloads(all.drop_last()).push(p),
            None => payloads(all.drop_last()),
        }
    }
}

/// The payloads that a chunk of an event stream carries, borrowed from it.
/// Each is to be decoded as one JSON document.
pub fn sse_payloads<'a>(chunk: &'a str) -> (found: Vec<&'a str>)
    ensures
        found.deep_view() == payloads(text_lines(chunk@)),
{
    let all = lines(chunk);
    let ghost views = all.deep_view();
    let mut found: Vec<&'a str> = Vec::new();
    let mut i: usize = 0;
    assert(found.deep_view() == payloads(views.take(0)));
    while i < all.len()
        invariant
            i <= all.len(),
            views == all.deep_view(),
            found.deep_view() == payloads(views.take(i as int)),
        decreases all.len() - i,
    {
        assert(views.take(i as int + 1).drop_last() == views.take(i as int));
        assert(views[i as int] == all@[i as int]@);
        let ghost before = found.deep_view();
        let inner = trim(all[i]);
        if !(inner.is_empty() || str_eq(inner, "data:")) {
            proof {
                reveal_strlit("data: ");
            }
            let payload = trim_start_matches(inner, "data: ");
            if !str_eq(payload, "[DONE]") {
                found.push(payload);
                assert(found.deep_view() == before.push(payload@));
            }
        }
        i = i + 1;
    }
    assert(views.take(i as int) == views);
    found
}

/// A token as plain values.
pub struct TokenView {
    pub token_id: u32,
    pub text: Seq<char>,
}

/// The views of a sequence of tokens.
pub open spec fn token_views(tokens: Seq<LlmToken>) -> Seq<TokenView> {
    tokens.map_values(|t: LlmToken| TokenView { token_id: t.token_id, text: t.text@ })
}

/// How many of the contents are not empty.
pub open spec fn count_nonempty(contents: Seq<Seq<char>>) -> nat
    decreases contents.len(),
{
    if contents.len() == 0 {
        0
    } else if contents.last().len() == 0 {
        count_nonempty(contents.drop_last())
    } else {
        count_nonempty(contents.drop_last()) + 1
    }
}

/// The tokens that the contents of one chunk make: one per content that is
/// not empty, numbered from `first_id` on.
pub open spec fn numbered(first_id: int, contents: Seq<Seq<char>>) -> Seq<TokenView>
    decreases contents.len(),
{
    if contents.len() == 0 {
        Seq::empty()
    } else if contents.last().len() == 0 {
        numbered(first_id, contents.drop_last())
    } else {
        numbered(first_id, contents.drop_last()).push(
            TokenView {
                token_id: (first_id + count_nonempty(contents.drop_last())) as u32,
                text: contents.last(),
            },
        )
    }
}

/// Makes tokens of the contents decoded from one chunk of an event stream.
/// Empty contents make no token; the others are numbered from `first_id`
/// on, which is the position of the chunk in the stream.
pub fn number_tokens(first_id: u32, contents: Vec<String>) -> (tokens: Vec<LlmToken>)
    requires
        first_id + count_nonempty(contents.deep_view()) <= u32::MAX,
    ensures
        token_views(tokens@) == numbered(first_id as int, contents.deep_view()),
{
    let ghost views = contents.deep_view();
    let mut contents = contents;
    let n = contents.len();
    let mut rest: Vec<String> = Vec::new();
    let mut tokens: Vec<LlmToken> = Vec::new();
    let mut next_id: u32 = first_id;
    let mut i: usize = 0;
    assert(token_views(tokens@) == numbered(first_id as int, views.take(0)));
    while i < n
        invariant
            i <= n,
            n == contents@.len(),
            views == contents.deep_view(),
            first_id + count_nonempty(views) <= u32::MAX,
            next_id == first_id + count_nonempty(views.take(i as int)),
            token_views(tokens@) == numbered(first_id as int, views.take(i as int)),
        decreases n - i,
    {
        assert(views.take(i as int + 1).drop_last() == views.take(i as int));
        assert(views[i as int] == contents@[i as int]@);
        proof {
            lemma_count_grows(views, i as int + 1);
        }
        let ghost before = token_views(tokens@);
        if !contents[i].as_str().is_empty() {
            let token = LlmToken { token_id: next_id, text: contents[i].clone() };
            tokens.push(token);
            assert(token_views(tokens@) == before.push(
                TokenView { token_id: next_id, text: views[i as int] },
            ));
            next_id = next_id + 1;
        }
        i = i + 1;
    }
    assert(views.take(i as int) == views);
    tokens
}

/// A prefix of the contents has no more that are not empty than the whole.
pub proof fn lemma_count_grows(contents: Seq<Seq<char>>, n: int)
    requires
        0 <= n <= contents.len(),
    ensures
        count_nonempty(contents.take(n)) <= count_nonempty(contents),
    decreases contents.len() - n,
{
    if n < contents.len() {
        assert(contents.take(n + 1).drop_last() == contents.take(n));
        lemma_count_grows(contents, n + 1);
    } else {
        assert(contents.take(n) == contents);
    }
}

/// What the front door has gathered of a token stream: the texts of the
/// tokens seen so far, joined, and the limit in characters at which it
/// stops listening.
pub struct Transcript {
    text: String,
    limit: usize,
}

impl Transcript {
    /// The text gathered so far.
    pub closed spec fn text(&self) -> Seq<char> {
        self.text@
    }

    /// The limit in characters.
    pub closed spec fn limit(&self) -> nat {
        self.limit as nat
    }

    /// An empty transcript with the given limit.
    pub fn new(limit: usize) -> (t: Transcript)
        ensures
            t.text() == Seq::<char>::empty(),
            t.limit() == limit,
    {
        Transcript { text: String::new(), limit }
    }

    /// Adds the text of one more token. Returns whether the stream is to
    /// be cut here: the text has reached the limit.
    pub fn push(&mut self, token: &LlmToken) -> (full: bool)
        ensures
            final(self).limit() == old(self).limit(),
            final(self).text() == old(self).text() + token.text@,
            full == (final(self).text().len() >= final(self).limit()),
    {
        self.text.append(token.text.as_str());
        self.text.as_str().unicode_len() >= self.limit
    }

    /// The text gathered.
    pub fn into_text(self) -> (text: String)
        ensures
            text@ == self.text(),
    {
        self.text
    }
}

} // verus!
