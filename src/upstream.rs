//! The generation service's request and reply formats, and the four-way
//! classification of what a call to it produced.
use vstd::prelude::*;
use crate::text::{json_quote, json_quoted};

verus! {

/// The generation endpoint, naming the model.
pub const ENDPOINT_URL: &'static str = "https://generativelanguage.googleapis.com/v1beta/models/gemini-2.5-flash:generateContent";

/// The request header that carries the service key.
pub const API_KEY_HEADER: &'static str = "x-goog-api-key";

/// `items` separated by commas.
pub open spec fn join_commas(items: Seq<Seq<char>>) -> Seq<char>
    decreases items.len(),
{
    if items.len() == 0 {
        Seq::empty()
    } else if items.len() == 1 {
        items[0]
    } else {
        join_commas(items.drop_last()) + ","@ + items.last()
    }
}

/// The JSON object of one text part.
pub open spec fn part_json(text: Seq<char>) -> Seq<char> {
    "{\"text\":"@ + json_quoted(text) + "}"@
}

/// The JSON object of one content block whose parts hold `texts`.
pub open spec fn block_json(texts: Seq<Seq<char>>) -> Seq<char> {
    "{\"parts\":["@ + join_commas(texts.map_values(|t: Seq<char>| part_json(t))) + "]}"@
}

/// The JSON request body whose content blocks hold `blocks`.
pub open spec fn request_json(blocks: Seq<Seq<Seq<char>>>) -> Seq<char> {
    "{\"contents\":["@ + join_commas(blocks.map_values(|b: Seq<Seq<char>>| block_json(b))) + "]}"@
}

/// One text part of a request.
pub struct TextPart {
    pub text: String,
}

/// One content block of a request.
pub struct ContentBlock {
    pub parts: Vec<TextPart>,
}

impl View for ContentBlock {
    /// The texts of the parts, in order.
    type V = Seq<Seq<char>>;

    open spec fn view(&self) -> Seq<Seq<char>> {
        self.parts@.map_values(|p: TextPart| p.text@)
    }
}

/// The body of a generation request.
pub struct UpstreamRequestBody {
    pub contents: Vec<ContentBlock>,
}

impl View for UpstreamRequestBody {
    /// For each content block, the texts of its parts.
    type V = Seq<Seq<Seq<char>>>;

    open spec fn view(&self) -> Seq<Seq<Seq<char>>> {
        self.contents@.map_values(|b: ContentBlock| b@)
    }
}

/// Joins the views of `items` with commas.
fn join_with_commas(items: &Vec<String>) -> (r: String)
    ensures
        r@ == join_commas(items@.map_values(|s: String| s@)),
{
    let ghost views = items@.map_values(|s: String| s@);
    let mut out = String::new();
    let mut i: usize = 0;
    while i < items.len()
        invariant
            i <= items.len(),
            views == items@.map_values(|s: String| s@),
            out@ == join_commas(views.take(i as int)),
        decreases items.len() - i,
    {
        assert(views.take(i + 1).drop_last() =~= views.take(i as int));
        if i > 0 {
            out.append(",");
        } else {
            assert(out@ =~= Seq::<char>::empty());
        }
        out.append(items[i].as_str());
        i = i + 1;
    }
    assert(views.take(items.len() as int) =~= views);
    out
}

/// The JSON object of one text part.
fn part_to_json(text: &str) -> (r: String)
    ensures
        r@ == part_json(text@),
{
    let mut out = String::from_str("{\"text\":");
    let quoted = json_quote(text);
    out.append(quoted.as_str());
    out.append("}");
    out
}

impl ContentBlock {
    /// The block's JSON object.
    pub fn to_json(&self) -> (r: String)
        ensures
            r@ == block_json(self@),
    {
        let ghost texts = self@;
        let mut items: Vec<String> = Vec::new();
        let mut i: usize = 0;
        while i < self.parts.len()
            invariant
                i <= self.parts.len(),
                texts == self@,
                items@.len() == i,
                forall|j: int| 0 <= j < i ==> (#[trigger] items@[j])@ == part_json(texts[j]),
            decreases self.parts.len() - i,
        {
            let part = part_to_json(self.parts[i].text.as_str());
            assert(texts[i as int] == self.parts@[i as int].text@);
            items.push(part);
            i = i + 1;
        }
        assert(items@.map_values(|s: String| s@) =~= texts.map_values(|t: Seq<char>| part_json(t)));
        let mut out = String::from_str("{\"parts\":[");
        let joined = join_with_commas(&items);
        out.append(joined.as_str());
        out.append("]}");
        out
    }
}

impl UpstreamRequestBody {
    /// The body that asks for a completion of `prompt`: one content block
    /// holding one part whose text is the prompt.
    pub fn for_prompt(prompt: String) -> (r: UpstreamRequestBody)
        ensures
            r@ == seq![seq![prompt@]],
    {
        let mut parts: Vec<TextPart> = Vec::new();
        parts.push(TextPart { text: prompt });
        let block = ContentBlock { parts };
        assert(block@ =~= seq![prompt@]);
        let mut contents: Vec<ContentBlock> = Vec::new();
        contents.push(block);
        let r = UpstreamRequestBody { contents };
        assert(r@ =~= seq![seq![prompt@]]);
        r
    }

    /// The body's JSON text.
    pub fn to_json(&self) -> (r: String)
        ensures
            r@ == request_json(self@),
    {
        let ghost blocks = self@;
        let mut items: Vec<String> = Vec::new();
        let mut i: usize = 0;
        while i < self.contents.len()
            invariant
                i <= self.contents.len(),
                blocks == self@,
                items@.len() == i,
                forall|j: int| 0 <= j < i ==> (#[trigger] items@[j])@ == block_json(blocks[j]),
            decreases self.contents.len() - i,
        {
            let block = self.contents[i].to_json();
            assert(blocks[i as int] == self.contents@[i as int]@);
            items.push(block);
            i = i + 1;
        }
        assert(items@.map_values(|s: String| s@) =~= blocks.map_values(
            |b: Seq<Seq<char>>| block_json(b),
        ));
        let mut out = String::from_str("{\"contents\":[");
        let joined = join_with_commas(&items);
        out.append(joined.as_str());
        out.append("]}");
        out
    }
}

/// A request body with one block of one part, holding `prompt`, is
/// written as exactly `{"contents":[{"parts":[{"text":...}]}]}` with the
/// prompt as that one JSON string.
pub proof fn lemma_single_prompt_json(prompt: Seq<char>)
    ensures
        request_json(seq![seq![prompt]]) == "{\"contents\":[{\"parts\":[{\"text\":"@ + json_quoted(prompt)
            + "}]}]}"@,
{
    let texts = seq![prompt];
    let parts = texts.map_values(|t: Seq<char>| part_json(t));
    assert(parts =~= seq![part_json(prompt)]);
    assert(join_commas(parts) == part_json(prompt));
    let blocks = seq![texts].map_values(|b: Seq<Seq<char>>| block_json(b));
    assert(blocks =~= seq![block_json(texts)]);
    assert(join_commas(blocks) == block_json(texts));
    reveal_strlit("{\"contents\":[");
    reveal_strlit("{\"parts\":[");
    reveal_strlit("{\"text\":");
    reveal_strlit("}");
    reveal_strlit("]}");
    reveal_strlit("{\"contents\":[{\"parts\":[{\"text\":");
    reveal_strlit("}]}]}");
    assert(request_json(seq![texts]) =~= "{\"contents\":[{\"parts\":[{\"text\":"@ + json_quoted(prompt)
        + "}]}]}"@);
}

/// One text part of a reply.
pub struct Part {
    pub text: String,
}

/// The content of one reply candidate.
pub struct Content {
    pub parts: Vec<Part>,
}

/// One candidate completion of a reply.
pub struct Candidate {
    pub content: Content,
}

/// The body of a generation reply.
pub struct UpstreamResponseBody {
    pub candidates: Vec<Candidate>,
}

impl View for UpstreamResponseBody {
    /// For each candidate, the texts of its parts.
    type V = Seq<Seq<Seq<char>>>;

    open spec fn view(&self) -> Seq<Seq<Seq<char>>> {
        self.candidates@.map_values(|c: Candidate| c.content.parts@.map_values(|p: Part| p.text@))
    }
}

/// The text of the first part of the first candidate, if there is one.
pub open spec fn first_text_of(candidates: Seq<Seq<Seq<char>>>) -> Option<Seq<char>> {
    if candidates.len() > 0 && candidates[0].len() > 0 {
        Some(candidates[0][0])
    } else {
        None
    }
}

impl UpstreamResponseBody {
    /// The text of the first part of the first candidate, if there is one.
    pub fn first_text(&self) -> (r: Option<String>)
        ensures
            match r {
                Some(t) => first_text_of(self@) == Some(t@),
                None => first_text_of(self@) is None,
            },
    {
        if self.candidates.len() > 0 && self.candidates[0].content.parts.len() > 0 {
            Some(self.candidates[0].content.parts[0].text.clone())
        } else {
            None
        }
    }
}

/// What one call to the generation service gave back.
pub enum UpstreamReply {
    /// The call itself failed: no connection, no TLS, a timeout.
    TransportFailed,
    /// A reply came but its body is not a reply body.
    Unparsable,
    /// A reply body came.
    Parsed(UpstreamResponseBody),
}

/// The classified result of one call.
pub enum UpstreamOutcome {
    /// Advice text came back.
    Success(String),
    /// The call itself failed.
    TransportError,
    /// The reply could not be read as a reply body.
    PayloadError,
    /// The reply body held no candidate, or its first candidate no part.
    EmptyResult,
}

/// `o` is the classification of `reply`.
pub open spec fn classifies(reply: &UpstreamReply, o: &UpstreamOutcome) -> bool {
    match reply {
        UpstreamReply::TransportFailed => o is TransportError,
        UpstreamReply::Unparsable => o is PayloadError,
        UpstreamReply::Parsed(body) => match first_text_of(body@) {
            Some(t) => o matches UpstreamOutcome::Success(s) && s@ == t,
            None => o is EmptyResult,
        },
    }
}

/// Classifies what a call gave back: only the first part of the first
/// candidate is consulted.
pub fn classify(reply: &UpstreamReply) -> (r: UpstreamOutcome)
    ensures
        classifies(reply, &r),
{
    match reply {
        UpstreamReply::TransportFailed => UpstreamOutcome::TransportError,
        UpstreamReply::Unparsable => UpstreamOutcome::PayloadError,
        UpstreamReply::Parsed(body) => match body.first_text() {
            Some(t) => UpstreamOutcome::Success(t),
            None => UpstreamOutcome::EmptyResult,
        },
    }
}

} // verus!
