use vstd::prelude::*;
use vstd::string::StrSliceExecFns;

use crate::json::{
    arr_rep, rep_field, rep_of, json_doc_of, node_field, parse_json, str_eq, JsonNode, JsonRep,
};

verus! {

broadcast use vstd::string::group_string_axioms;

/// How recovering a deck from the assistant's reply can fail: no brace-
/// delimited span in the text at all, or a span that does not hold a deck.
#[derive(Clone, Copy, Debug, PartialEq, Eq, Structural)]
pub enum ExtractError {
    NoJsonFound,
    MalformedJson,
}

impl ExtractError {
    /// The failure, in words.
    pub fn message(&self) -> (r: String)
        ensures
            *self == ExtractError::NoJsonFound ==> r@ == "No JSON found in assistant's reply"@,
            *self == ExtractError::MalformedJson ==> r@
                == "Reply's JSON is not a flashcard deck"@,
    {
        match self {
            ExtractError::NoJsonFound => "No JSON found in assistant's reply".to_owned(),
            ExtractError::MalformedJson => "Reply's JSON is not a flashcard deck".to_owned(),
        }
    }
}

/// The least position at or after `i` holding `'{'`; the text's length where
/// there is none.
pub open spec fn first_open(s: Seq<char>, i: int) -> int
    decreases s.len() - i,
{
    if i < 0 || i >= s.len() {
        s.len() as int
    } else if s[i] == '{' {
        i
    } else {
        first_open(s, i + 1)
    }
}

/// The greatest position at or before `i` holding `'}'`; `-1` where there is
/// none.
pub open spec fn last_close(s: Seq<char>, i: int) -> int
    decreases i + 1,
{
    if i < 0 || i >= s.len() {
        -1
    } else if s[i] == '}' {
        i
    } else {
        last_close(s, i - 1)
    }
}

/// Whether the text holds some `'{'` with a `'}'` somewhere after it: exactly
/// when it does, a span can be extracted.
pub open spec fn has_json_span(s: Seq<char>) -> bool {
    first_open(s, 0) < last_close(s, s.len() - 1)
}

/// The extracted span: from the first `'{'` in the text through the last
/// `'}'`, both included.
pub open spec fn json_span_of(s: Seq<char>) -> Seq<char> {
    s.subrange(first_open(s, 0), last_close(s, s.len() - 1) + 1)
}

/// The least position at or after `i` holding `'{'`, as executable code.
fn find_first_open(text: &str) -> (r: usize)
    ensures
        r as int == first_open(text@, 0),
        r <= text@.len(),
{
    let n = text.unicode_len();
    let mut i: usize = 0;
    while i < n
        invariant
            i <= n,
            n == text@.len(),
            first_open(text@, 0) == first_open(text@, i as int),
        decreases n - i,
    {
        if text.get_char(i) == '{' {
            return i;
        }
        i = i + 1;
    }
    n
}

/// The greatest position holding `'}'`, as executable code.
fn find_last_close(text: &str) -> (r: Option<usize>)
    ensures
        match r {
            Some(j) => j as int == last_close(text@, text@.len() - 1) && j < text@.len()
                && text@.len() <= usize::MAX,
            None => last_close(text@, text@.len() - 1) == -1,
        },
{
    let n = text.unicode_len();
    let mut i: usize = n;
    while i > 0
        invariant
            i <= n,
            n == text@.len(),
            last_close(text@, n - 1) == last_close(text@, i as int - 1),
        decreases i,
    {
        let j = i - 1;
        if text.get_char(j) == '}' {
            return Some(j);
        }
        i = j;
    }
    None
}

/// Recovers the brace-delimited span from the assistant's reply: everything
/// from the first `'{'` through the last `'}'` of the whole text, on purpose
/// with no regard to brace balance, so that a fenced single object comes out
/// whole while a reply holding two objects yields one span across both.
pub fn extract_json(text: &str) -> (r: Result<String, ExtractError>)
    ensures
        has_json_span(text@) ==> (r matches Ok(j) && j@ == json_span_of(text@)),
        !has_json_span(text@) ==> r == Err::<String, ExtractError>(ExtractError::NoJsonFound),
{
    let i = find_first_open(text);
    match find_last_close(text) {
        Some(j) => {
            if i < j {
                let span = text.substring_char(i, j + 1);
                Ok(span.to_owned())
            } else {
                Err(ExtractError::NoJsonFound)
            }
        },
        None => Err(ExtractError::NoJsonFound),
    }
}

/// Where every position in `[i, r)` misses `'{'` and `r` is the length or
/// holds `'{'`, the first opening brace at or after `i` stands at `r`.
proof fn lemma_first_open_at(s: Seq<char>, i: int, r: int)
    requires
        0 <= i <= r <= s.len(),
        forall|k: int| i <= k < r ==> s[k] != '{',
        r == s.len() || s[r] == '{',
    ensures
        first_open(s, i) == r,
    decreases r - i,
{
    if i < r {
        lemma_first_open_at(s, i + 1, r);
    }
}

/// Where every position in `(r, i]` misses `'}'` and `r` is `-1` or holds
/// `'}'`, the last closing brace at or before `i` stands at `r`.
proof fn lemma_last_close_at(s: Seq<char>, i: int, r: int)
    requires
        -1 <= r <= i < s.len(),
        forall|k: int| r < k <= i ==> s[k] != '}',
        r == -1 || s[r] == '}',
    ensures
        last_close(s, i) == r,
    decreases i - r,
{
    if r < i {
        lemma_last_close_at(s, i - 1, r);
    }
}

/// A text holding one object, wrapped in prose or a fenced block with no
/// braces of its own, extracts to exactly the object's text.
pub proof fn lemma_extract_single_object(pre: Seq<char>, obj: Seq<char>, post: Seq<char>)
    requires
        forall|k: int| 0 <= k < pre.len() ==> pre[k] != '{',
        forall|k: int| 0 <= k < post.len() ==> post[k] != '}',
        obj.len() >= 2,
        obj[0] == '{',
        obj[obj.len() - 1] == '}',
    ensures
        has_json_span(pre + obj + post),
        json_span_of(pre + obj + post) == obj,
{
    let s = pre + obj + post;
    let a = pre.len() as int;
    let b = pre.len() + obj.len() - 1;
    lemma_first_open_at(s, 0, a);
    lemma_last_close_at(s, s.len() - 1, b);
    assert(json_span_of(s) =~= obj);
}

/// A text with no opening brace at all has no span to extract.
pub proof fn lemma_no_brace_no_span(s: Seq<char>)
    requires
        forall|k: int| 0 <= k < s.len() ==> s[k] != '{',
    ensures
        !has_json_span(s),
{
    lemma_first_open_at(s, 0, s.len() as int);
    if s.len() > 0 {
        assert(last_close(s, s.len() - 1) <= s.len() - 1) by {
            lemma_last_close_le(s, s.len() - 1);
        }
    }
}

/// The last closing brace at or before `i` never stands after `i`.
proof fn lemma_last_close_le(s: Seq<char>, i: int)
    requires
        i >= -1,
    ensures
        last_close(s, i) <= i,
    decreases i + 1,
{
    if 0 <= i < s.len() && s[i] != '}' {
        lemma_last_close_le(s, i - 1);
    }
}

/// One flashcard: a front in the target language, a back in the native
/// language, and an example sentence with its translation.
#[derive(Debug, Clone)]
pub struct Flashcard {
    pub front: String,
    pub back: String,
    pub example: String,
    pub example_translate: String,
}

/// The model of a flashcard.
pub struct CardRep {
    pub front: Seq<char>,
    pub back: Seq<char>,
    pub example: Seq<char>,
    pub example_translate: Seq<char>,
}

impl View for Flashcard {
    type V = CardRep;

    open spec fn view(&self) -> CardRep {
        CardRep {
            front: self.front@,
            back: self.back@,
            example: self.example@,
            example_translate: self.example_translate@,
        }
    }
}

/// A deck: its name and its cards, in order.
#[derive(Debug, Clone)]
pub struct FlashcardResponse {
    pub deck_name: String,
    pub cards: Vec<Flashcard>,
}

/// The model of a deck.
pub struct DeckRep {
    pub deck_name: Seq<char>,
    pub cards: Seq<CardRep>,
}

impl View for FlashcardResponse {
    type V = DeckRep;

    open spec fn view(&self) -> DeckRep {
        DeckRep { deck_name: self.deck_name@, cards: self.cards@.map_values(|c: Flashcard| c@) }
    }
}

/// The flashcard a JSON document describes: an object whose `front`, `back`,
/// `example` and `example_translate` fields are all strings; other fields are
/// passed over.
pub open spec fn card_of_doc(doc: JsonRep) -> Option<CardRep> {
    match (
        rep_field(doc, "front"@),
        rep_field(doc, "back"@),
        rep_field(doc, "example"@),
        rep_field(doc, "example_translate"@),
    ) {
        (
            Some(JsonRep::Str(f)),
            Some(JsonRep::Str(b)),
            Some(JsonRep::Str(e)),
            Some(JsonRep::Str(t)),
        ) => Some(CardRep { front: f, back: b, example: e, example_translate: t }),
        _ => None,
    }
}

/// Whether every item of a `cards` array describes a flashcard.
pub open spec fn all_cards_ok(items: Seq<JsonRep>) -> bool {
    forall|k: int| 0 <= k < items.len() ==> card_of_doc(items[k]) is Some
}

/// The flashcards a `cards` array describes, in the array's order.
pub open spec fn cards_of_docs(items: Seq<JsonRep>) -> Seq<CardRep> {
    Seq::new(items.len(), |k: int| card_of_doc(items[k]).unwrap())
}

/// The deck a JSON document describes: an object whose `deck_name` field is a
/// string and whose `cards` field is an array of flashcard objects; other
/// fields are passed over.  An empty `cards` array describes a valid deck
/// with no cards.
pub open spec fn deck_of_doc(doc: JsonRep) -> Option<DeckRep> {
    match (rep_field(doc, "deck_name"@), rep_field(doc, "cards"@)) {
        (Some(JsonRep::Str(name)), Some(JsonRep::Arr(items))) => if all_cards_ok(items) {
            Some(DeckRep { deck_name: name, cards: cards_of_docs(items) })
        } else {
            None
        },
        _ => None,
    }
}

/// Reads one flashcard out of a parsed JSON node.
pub fn card_from_node(node: &JsonNode) -> (r: Option<Flashcard>)
    ensures
        match r {
            Some(c) => card_of_doc(node@) == Some(c@),
            None => card_of_doc(node@) is None,
        },
{
    let front = match node_field(node, "front") {
        Some(JsonNode::Str(s)) => s,
        _ => {
            return None;
        },
    };
    let back = match node_field(node, "back") {
        Some(JsonNode::Str(s)) => s,
        _ => {
            return None;
        },
    };
    let example = match node_field(node, "example") {
        Some(JsonNode::Str(s)) => s,
        _ => {
            return None;
        },
    };
    let example_translate = match node_field(node, "example_translate") {
        Some(JsonNode::Str(s)) => s,
        _ => {
            return None;
        },
    };
    Some(
        Flashcard {
            front: front.clone(),
            back: back.clone(),
            example: example.clone(),
            example_translate: example_translate.clone(),
        },
    )
}

/// Reads a whole deck out of a parsed JSON node.
#[verifier::loop_isolation(false)]
pub fn deck_from_node(node: &JsonNode) -> (r: Option<FlashcardResponse>)
    ensures
        match r {
            Some(d) => deck_of_doc(node@) == Some(d@),
            None => deck_of_doc(node@) is None,
        },
{
    let deck_name = match node_field(node, "deck_name") {
        Some(JsonNode::Str(s)) => s,
        _ => {
            return None;
        },
    };
    let items = match node_field(node, "cards") {
        Some(JsonNode::Arr(v)) => v,
        _ => {
            return None;
        },
    };
    let n = items.len();
    let mut cards: Vec<Flashcard> = Vec::new();
    let mut k: usize = 0;
    while k < n
        invariant
            n == items@.len(),
            k <= n,
            cards@.len() == k,
            forall|j: int| 0 <= j < k ==> card_of_doc(arr_rep(items@)[j]) == Some(cards@[j]@),
        decreases n - k,
    {
        match card_from_node(&items[k]) {
            Some(c) => {
                cards.push(c);
            },
            None => {
                assert(card_of_doc(arr_rep(items@)[k as int]) is None);
                return None;
            },
        }
        k = k + 1;
    }
    let deck = FlashcardResponse { deck_name: deck_name.clone(), cards };
    proof {
        assert(all_cards_ok(arr_rep(items@)));
        assert(cards_of_docs(arr_rep(items@)) =~= deck@.cards);
    }
    Some(deck)
}

/// The JSON document that describes a flashcard.
pub open spec fn card_doc(c: CardRep) -> JsonRep {
    JsonRep::Obj(
        seq![
            ("front"@, JsonRep::Str(c.front)),
            ("back"@, JsonRep::Str(c.back)),
            ("example"@, JsonRep::Str(c.example)),
            ("example_translate"@, JsonRep::Str(c.example_translate)),
        ],
    )
}

/// The JSON document that describes a deck.
pub open spec fn deck_doc(d: DeckRep) -> JsonRep {
    JsonRep::Obj(
        seq![
            ("deck_name"@, JsonRep::Str(d.deck_name)),
            ("cards"@, JsonRep::Arr(d.cards.map_values(|c: CardRep| card_doc(c)))),
        ],
    )
}

/// Builds the JSON node that describes a flashcard.
pub fn card_to_node(c: &Flashcard) -> (r: JsonNode)
    ensures
        r@ == card_doc(c@),
{
    let mut entries: Vec<(String, JsonNode)> = Vec::new();
    entries.push(("front".to_owned(), JsonNode::Str(c.front.clone())));
    entries.push(("back".to_owned(), JsonNode::Str(c.back.clone())));
    entries.push(("example".to_owned(), JsonNode::Str(c.example.clone())));
    entries.push(("example_translate".to_owned(), JsonNode::Str(c.example_translate.clone())));
    let r = JsonNode::Obj(entries);
    proof {
        let er = crate::json::entries_rep(entries@);
        assert(er[0] == ("front"@, JsonRep::Str(c.front@)));
        assert(er[1] == ("back"@, JsonRep::Str(c.back@)));
        assert(er[2] == ("example"@, JsonRep::Str(c.example@)));
        assert(er[3] == ("example_translate"@, JsonRep::Str(c.example_translate@)));
        assert(rep_of(r) == JsonRep::Obj(er));
        assert(er =~= (card_doc(c@))->Obj_0);
    }
    r
}

/// Builds the JSON node that describes a deck.
#[verifier::loop_isolation(false)]
pub fn deck_to_node(d: &FlashcardResponse) -> (r: JsonNode)
    ensures
        r@ == deck_doc(d@),
{
    let n = d.cards.len();
    let mut items: Vec<JsonNode> = Vec::new();
    let mut k: usize = 0;
    while k < n
        invariant
            k <= n,
            items@.len() == k,
            forall|j: int| 0 <= j < k ==> rep_of(items@[j]) == card_doc(d.cards@[j]@),
        decreases n - k,
    {
        let node = card_to_node(&d.cards[k]);
        items.push(node);
        k = k + 1;
    }
    proof {
        assert(arr_rep(items@) =~= d@.cards.map_values(|c: CardRep| card_doc(c)));
    }
    let mut entries: Vec<(String, JsonNode)> = Vec::new();
    entries.push(("deck_name".to_owned(), JsonNode::Str(d.deck_name.clone())));
    entries.push(("cards".to_owned(), JsonNode::Arr(items)));
    let r = JsonNode::Obj(entries);
    proof {
        let es = entries@;
        let er = crate::json::entries_rep(es);
        assert(er.len() == 2);
        assert(er[0] == ("deck_name"@, JsonRep::Str(d.deck_name@)));
        assert(er[1] == ("cards"@, JsonRep::Arr(arr_rep(items@))));
        assert(rep_of(r) == JsonRep::Obj(er));
        assert(er =~= (deck_doc(d@))->Obj_0);
    }
    r
}

/// Reading a flashcard back out of the document that describes it yields the
/// flashcard again, field for field.
pub proof fn lemma_card_round_trip(c: CardRep)
    ensures
        card_of_doc(card_doc(c)) == Some(c),
{
    reveal_with_fuel(crate::json::rep_lookup_from, 6);
    reveal_strlit("front");
    reveal_strlit("back");
    reveal_strlit("example");
    reveal_strlit("example_translate");
    let doc = card_doc(c);
    assert("front"@.len() == 5);
    assert("back"@.len() == 4);
    assert("example"@.len() == 7);
    assert("example_translate"@.len() == 17);
    assert(rep_field(doc, "front"@) == Some(JsonRep::Str(c.front)));
    assert(rep_field(doc, "back"@) == Some(JsonRep::Str(c.back)));
    assert(rep_field(doc, "example"@) == Some(JsonRep::Str(c.example)));
    assert(rep_field(doc, "example_translate"@) == Some(JsonRep::Str(c.example_translate)));
}

/// Reading a deck back out of the document that describes it yields the deck
/// again: the same name and the same cards in the same order.
pub proof fn lemma_deck_round_trip(d: DeckRep)
    ensures
        deck_of_doc(deck_doc(d)) == Some(d),
{
    reveal_with_fuel(crate::json::rep_lookup_from, 4);
    reveal_strlit("deck_name");
    reveal_strlit("cards");
    assert("deck_name"@.len() == 9);
    assert("cards"@.len() == 5);
    let doc = deck_doc(d);
    let items = d.cards.map_values(|c: CardRep| card_doc(c));
    assert(rep_field(doc, "deck_name"@) == Some(JsonRep::Str(d.deck_name)));
    assert(rep_field(doc, "cards"@) == Some(JsonRep::Arr(items)));
    assert forall|k: int| 0 <= k < items.len() implies card_of_doc(items[k]) is Some by {
        lemma_card_round_trip(d.cards[k]);
    }
    assert forall|k: int| 0 <= k < items.len() implies cards_of_docs(items)[k] == d.cards[k] by {
        lemma_card_round_trip(d.cards[k]);
    }
    assert(cards_of_docs(items) =~= d.cards);
}

/// Turns a JSON text into a deck: `None` exactly where the text is not
/// well-formed JSON or its document does not describe a deck.
pub fn deck_from_json_text(text: &str) -> (r: Option<FlashcardResponse>)
    ensures
        match r {
            Some(d) => json_doc_of(text@) matches Some(doc) && deck_of_doc(doc) == Some(d@),
            None => json_doc_of(text@) is None || deck_of_doc(
                json_doc_of(text@).unwrap(),
            ) is None,
        },
{
    match parse_json(text) {
        Some(node) => deck_from_node(&node),
        None => None,
    }
}

/// Recovers a deck from the assistant's whole reply: extracts the brace-
/// delimited span, then reads the deck out of it.  Fails with `NoJsonFound`
/// where no span exists, and with `MalformedJson` where the span is not a
/// well-formed deck document.
pub fn deck_from_reply(text: &str) -> (r: Result<FlashcardResponse, ExtractError>)
    ensures
        !has_json_span(text@) ==> r == Err::<FlashcardResponse, ExtractError>(
            ExtractError::NoJsonFound,
        ),
        has_json_span(text@) ==> match r {
            Ok(d) => json_doc_of(json_span_of(text@)) matches Some(doc) && deck_of_doc(doc)
                == Some(d@),
            Err(e) => e == ExtractError::MalformedJson && (json_doc_of(json_span_of(text@)) is None
                || deck_of_doc(json_doc_of(json_span_of(text@)).unwrap()) is None),
        },
{
    match extract_json(text) {
        Ok(span) => match deck_from_json_text(span.as_str()) {
            Some(d) => Ok(d),
            None => Err(ExtractError::MalformedJson),
        },
        Err(e) => Err(e),
    }
}

/// A configuration fault, fatal before any network call is attempted.
#[derive(Clone, Copy, Debug, PartialEq, Eq, Structural)]
pub enum ConfigError {
    MissingCredential,
    UnsupportedEngine,
}

impl ConfigError {
    /// The fault, in words.
    pub fn message(&self) -> (r: String)
        ensures
            *self == ConfigError::MissingCredential ==> r@ == "OPEN_API_KEY is not set"@,
            *self == ConfigError::UnsupportedEngine ==> r@ == "Unsupported engine"@,
    {
        match self {
            ConfigError::MissingCredential => "OPEN_API_KEY is not set".to_owned(),
            ConfigError::UnsupportedEngine => "Unsupported engine".to_owned(),
        }
    }
}

/// The backend a run talks to: the cloud-hosted model with its credential,
/// or the locally hosted model under a model name.
#[derive(Debug, Clone)]
pub enum EngineChoice {
    OpenAi { api_key: String },
    Ollama { model: String },
}

/// Decides the backend from configuration values.  The engine name defaults
/// to `openai`; the cloud engine demands its credential; the local engine's
/// model name defaults to `gemma2`; any other engine name is fatal.
pub fn resolve_engine(
    engine: Option<String>,
    api_key: Option<String>,
    ollama_model: Option<String>,
) -> (r: Result<EngineChoice, ConfigError>)
    ensures
        ({
            let name = match engine {
                Some(e) => e@,
                None => "openai"@,
            };
            if name == "openai"@ {
                match api_key {
                    Some(k) => r == Ok::<EngineChoice, ConfigError>(
                        (EngineChoice::OpenAi { api_key: k }),
                    ),
                    None => r == Err::<EngineChoice, ConfigError>(ConfigError::MissingCredential),
                }
            } else if name == "ollama"@ {
                match ollama_model {
                    Some(m) => r == Ok::<EngineChoice, ConfigError>(
                        (EngineChoice::Ollama { model: m }),
                    ),
                    None => r matches Ok(EngineChoice::Ollama { model }) && model@ == "gemma2"@,
                }
            } else {
                r == Err::<EngineChoice, ConfigError>(ConfigError::UnsupportedEngine)
            }
        }),
{
    let name: String = match engine {
        Some(e) => e,
        None => "openai".to_owned(),
    };
    if str_eq(name.as_str(), "openai") {
        match api_key {
            Some(k) => Ok(EngineChoice::OpenAi { api_key: k }),
            None => Err(ConfigError::MissingCredential),
        }
    } else if str_eq(name.as_str(), "ollama") {
        let model: String = match ollama_model {
            Some(m) => m,
            None => "gemma2".to_owned(),
        };
        Ok(EngineChoice::Ollama { model })
    } else {
        Err(ConfigError::UnsupportedEngine)
    }
}

/// How a generation run fails, wrapping the cause's message.
#[derive(Debug, Clone, PartialEq)]
pub enum GenerationError {
    GenerationFailed(String),
}

impl GenerationError {
    /// The failure, in words: the cause it wraps.
    pub fn message(&self) -> (r: String)
        ensures
            match self {
                GenerationError::GenerationFailed(m) => r == m,
            },
    {
        match self {
            GenerationError::GenerationFailed(m) => m.clone(),
        }
    }
}

/// The outcome of one generation run, decided on what the backend call came
/// to.  A backend failure, and a reply no deck can be recovered from, each
/// fail the run wrapping their cause; a recovered deck is whole — the run
/// never hands back a partial deck.
pub fn generation_outcome(backend: Result<String, String>) -> (r: Result<
    FlashcardResponse,
    GenerationError,
>)
    ensures
        match backend {
            Err(cause) => r == Err::<FlashcardResponse, GenerationError>(
                (GenerationError::GenerationFailed(cause)),
            ),
            Ok(text) => match r {
                Ok(d) => has_json_span(text@) && (json_doc_of(
                    json_span_of(text@),
                ) matches Some(doc) && deck_of_doc(doc) == Some(d@)),
                Err(GenerationError::GenerationFailed(m)) => (!has_json_span(text@) && m@
                    == "No JSON found in assistant's reply"@) || (has_json_span(text@) && m@
                    == "Reply's JSON is not a flashcard deck"@ && (json_doc_of(
                    json_span_of(text@),
                ) is None || deck_of_doc(json_doc_of(json_span_of(text@)).unwrap()) is None)),
            },
        },
{
    match backend {
        Err(cause) => Err(GenerationError::GenerationFailed(cause)),
        Ok(text) => match deck_from_reply(text.as_str()) {
            Ok(d) => Ok(d),
            Err(e) => Err(GenerationError::GenerationFailed(e.message())),
        },
    }
}

/// A text holding two disjoint objects extracts to the single span from the
/// first object's opening brace through the second object's closing brace,
/// with everything between kept.
pub proof fn lemma_extract_spans_two_objects(
    pre: Seq<char>,
    obj1: Seq<char>,
    mid: Seq<char>,
    obj2: Seq<char>,
    post: Seq<char>,
)
    requires
        forall|k: int| 0 <= k < pre.len() ==> pre[k] != '{',
        forall|k: int| 0 <= k < post.len() ==> post[k] != '}',
        obj1.len() >= 2,
        obj1[0] == '{',
        obj2.len() >= 2,
        obj2[obj2.len() - 1] == '}',
    ensures
        has_json_span(pre + obj1 + mid + obj2 + post),
        json_span_of(pre + obj1 + mid + obj2 + post) == obj1 + mid + obj2,
{
    let s = pre + obj1 + mid + obj2 + post;
    let a = pre.len() as int;
    let b = pre.len() + obj1.len() + mid.len() + obj2.len() - 1;
    lemma_first_open_at(s, 0, a);
    lemma_last_close_at(s, s.len() - 1, b);
    assert(json_span_of(s) =~= obj1 + mid + obj2);
}

} // verus!
