use vstd::prelude::*;

use crate::json::{entries_rep, rep_field, rep_of, str_eq, JsonNode, JsonRep};

verus! {

broadcast use vstd::string::group_string_axioms;

/// The card-store automation endpoint used when no override is supplied.
pub fn default_endpoint_url() -> (r: String)
    ensures
        r@ == "http://localhost:8765"@,
{
    "http://localhost:8765".to_owned()
}

/// The endpoint the adapter talks to: the override where one is supplied,
/// the default otherwise.
pub fn resolve_endpoint_url(override_url: Option<String>) -> (r: String)
    ensures
        match override_url {
            Some(u) => r == u,
            None => r@ == "http://localhost:8765"@,
        },
{
    match override_url {
        Some(u) => u,
        None => default_endpoint_url(),
    }
}

/// A request to the card-store automation endpoint: an action name, the
/// protocol version 6, and parameters where the action takes any.
pub open spec fn request_doc(action: Seq<char>, params: Option<JsonRep>) -> JsonRep {
    match params {
        Some(p) => JsonRep::Obj(
            seq![
                ("action"@, JsonRep::Str(action)),
                ("version"@, JsonRep::Num("6"@)),
                ("params"@, p),
            ],
        ),
        None => JsonRep::Obj(
            seq![("action"@, JsonRep::Str(action)), ("version"@, JsonRep::Num("6"@))],
        ),
    }
}

/// Builds a request that takes no parameters.
fn request_bare(action: &str) -> (r: JsonNode)
    ensures
        r@ == request_doc(action@, None),
{
    let mut entries: Vec<(String, JsonNode)> = Vec::new();
    entries.push(("action".to_owned(), JsonNode::Str(action.to_owned())));
    entries.push(("version".to_owned(), JsonNode::Num("6".to_owned())));
    let r = JsonNode::Obj(entries);
    proof {
        assert(entries_rep(entries@) =~= (request_doc(action@, None))->Obj_0);
    }
    r
}

/// Builds a request with parameters.
fn request_with_params(action: &str, params: JsonNode) -> (r: JsonNode)
    ensures
        r@ == request_doc(action@, Some(params@)),
{
    let ghost p = params@;
    let mut entries: Vec<(String, JsonNode)> = Vec::new();
    entries.push(("action".to_owned(), JsonNode::Str(action.to_owned())));
    entries.push(("version".to_owned(), JsonNode::Num("6".to_owned())));
    entries.push(("params".to_owned(), params));
    let r = JsonNode::Obj(entries);
    proof {
        assert(entries_rep(entries@) =~= (request_doc(action@, Some(p)))->Obj_0);
    }
    r
}

/// The health-check request.
pub open spec fn version_request_doc() -> JsonRep {
    request_doc("version"@, None)
}

/// Builds the health-check request.
pub fn version_request() -> (r: JsonNode)
    ensures
        r@ == version_request_doc(),
{
    request_bare("version")
}

/// The request for the names of the note types the store knows.
pub open spec fn model_names_request_doc() -> JsonRep {
    request_doc("modelNames"@, None)
}

/// Builds the note-type-names request.
pub fn model_names_request() -> (r: JsonNode)
    ensures
        r@ == model_names_request_doc(),
{
    request_bare("modelNames")
}

/// The deck-creation request for a deck name.
pub open spec fn create_deck_request_doc(deck: Seq<char>) -> JsonRep {
    request_doc("createDeck"@, Some(JsonRep::Obj(seq![("deck"@, JsonRep::Str(deck))])))
}

/// Builds the deck-creation request.
pub fn create_deck_request(deck_name: &str) -> (r: JsonNode)
    ensures
        r@ == create_deck_request_doc(deck_name@),
{
    let mut params: Vec<(String, JsonNode)> = Vec::new();
    params.push(("deck".to_owned(), JsonNode::Str(deck_name.to_owned())));
    let p = JsonNode::Obj(params);
    proof {
        assert(entries_rep(params@) =~= seq![("deck"@, JsonRep::Str(deck_name@))]);
    }
    request_with_params("createDeck", p)
}

/// The name of the note type every card is inserted under.
pub const WORDCRAFT_MODEL_NAME: &'static str = "Wordcraft";

/// The styling shared by all cards of the note type.
pub const WORDCRAFT_CSS: &'static str = ".card {\n                        font-family: arial;\n                        font-size: 20px;\n                        text-align: center;\n                        color: black;\n                        background-color: white;\n                    }\n                    .front {\n                        font-weight: bold;\n                    }\n                    .example {\n                        font-style: italic;\n                        color: #AAA;\n                    }";

/// The front template of the note type's one card.
pub const WORDCRAFT_FRONT_TEMPLATE: &'static str =
    "<div class='front'>{{Front}}</div><br><div class='example'>{{Example}}</div>";

/// The back template of the note type's one card.
pub const WORDCRAFT_BACK_TEMPLATE: &'static str =
    "<div class='front'>{{Front}}</div><hr id=answer><div>{{Back}}</div><br><div class='example'>{{Example}}</div><br><div>{{ExampleTranslation}}</div>";

/// The note type's field names, in order: the order fixes the positional
/// mapping the card templates rely on.
pub open spec fn field_names_doc() -> Seq<JsonRep> {
    seq![
        JsonRep::Str("Front"@),
        JsonRep::Str("Back"@),
        JsonRep::Str("Example"@),
        JsonRep::Str("ExampleTranslation"@),
    ]
}

/// The note type's one card template.
pub open spec fn card_template_doc() -> JsonRep {
    JsonRep::Obj(
        seq![
            ("Name"@, JsonRep::Str("Card 1"@)),
            ("Front"@, JsonRep::Str(WORDCRAFT_FRONT_TEMPLATE@)),
            ("Back"@, JsonRep::Str(WORDCRAFT_BACK_TEMPLATE@)),
        ],
    )
}

/// The request that creates the note type, carrying its full description.
pub open spec fn create_model_request_doc() -> JsonRep {
    request_doc(
        "createModel"@,
        Some(
            JsonRep::Obj(
                seq![
                    ("modelName"@, JsonRep::Str(WORDCRAFT_MODEL_NAME@)),
                    ("inOrderFields"@, JsonRep::Arr(field_names_doc())),
                    ("css"@, JsonRep::Str(WORDCRAFT_CSS@)),
                    ("cardTemplates"@, JsonRep::Arr(seq![card_template_doc()])),
                ],
            ),
        ),
    )
}

/// Builds the note-type-creation request.
pub fn create_model_request() -> (r: JsonNode)
    ensures
        r@ == create_model_request_doc(),
{
    let mut fields: Vec<JsonNode> = Vec::new();
    fields.push(JsonNode::Str("Front".to_owned()));
    fields.push(JsonNode::Str("Back".to_owned()));
    fields.push(JsonNode::Str("Example".to_owned()));
    fields.push(JsonNode::Str("ExampleTranslation".to_owned()));
    proof {
        assert(crate::json::arr_rep(fields@) =~= field_names_doc());
    }
    let mut template: Vec<(String, JsonNode)> = Vec::new();
    template.push(("Name".to_owned(), JsonNode::Str("Card 1".to_owned())));
    template.push(("Front".to_owned(), JsonNode::Str(WORDCRAFT_FRONT_TEMPLATE.to_owned())));
    template.push(("Back".to_owned(), JsonNode::Str(WORDCRAFT_BACK_TEMPLATE.to_owned())));
    proof {
        assert(entries_rep(template@) =~= (card_template_doc())->Obj_0);
    }
    let mut templates: Vec<JsonNode> = Vec::new();
    templates.push(JsonNode::Obj(template));
    proof {
        assert(crate::json::arr_rep(templates@) =~= seq![card_template_doc()]);
    }
    let mut params: Vec<(String, JsonNode)> = Vec::new();
    params.push(("modelName".to_owned(), JsonNode::Str(WORDCRAFT_MODEL_NAME.to_owned())));
    params.push(("inOrderFields".to_owned(), JsonNode::Arr(fields)));
    params.push(("css".to_owned(), JsonNode::Str(WORDCRAFT_CSS.to_owned())));
    params.push(("cardTemplates".to_owned(), JsonNode::Arr(templates)));
    let p = JsonNode::Obj(params);
    proof {
        assert(entries_rep(params@) =~= (create_model_request_doc())->Obj_0[2].1->Obj_0);
    }
    request_with_params("createModel", p)
}

/// The fields of one note, keyed as the note type names them.
pub open spec fn note_fields_doc(c: crate::langchain::CardRep) -> JsonRep {
    JsonRep::Obj(
        seq![
            ("Front"@, JsonRep::Str(c.front)),
            ("Back"@, JsonRep::Str(c.back)),
            ("Example"@, JsonRep::Str(c.example)),
            ("ExampleTranslation"@, JsonRep::Str(c.example_translate)),
        ],
    )
}

/// One note: its deck, the note type's name, the card's fields, the refusal
/// of silent duplicates, and the fixed labels.
pub open spec fn note_doc(deck: Seq<char>, c: crate::langchain::CardRep) -> JsonRep {
    JsonRep::Obj(
        seq![
            ("deckName"@, JsonRep::Str(deck)),
            ("modelName"@, JsonRep::Str(WORDCRAFT_MODEL_NAME@)),
            ("fields"@, note_fields_doc(c)),
            ("options"@, JsonRep::Obj(seq![("allowDuplicate"@, JsonRep::Bool(false))])),
            (
                "tags"@,
                JsonRep::Arr(
                    seq![JsonRep::Str("wordcraft"@), JsonRep::Str("language_learning"@)],
                ),
            ),
        ],
    )
}

/// The card-insertion request for one card.
pub open spec fn add_note_request_doc(deck: Seq<char>, c: crate::langchain::CardRep) -> JsonRep {
    request_doc("addNote"@, Some(JsonRep::Obj(seq![("note"@, note_doc(deck, c))])))
}

/// Builds the card-insertion request for one card's fields.
pub fn add_note_request(
    deck_name: &str,
    front: &str,
    back: &str,
    example: &str,
    example_translate: &str,
) -> (r: JsonNode)
    ensures
        r@ == add_note_request_doc(
            deck_name@,
            (crate::langchain::CardRep {
                front: front@,
                back: back@,
                example: example@,
                example_translate: example_translate@,
            }),
        ),
{
    let ghost c = crate::langchain::CardRep {
        front: front@,
        back: back@,
        example: example@,
        example_translate: example_translate@,
    };
    let mut fields: Vec<(String, JsonNode)> = Vec::new();
    fields.push(("Front".to_owned(), JsonNode::Str(front.to_owned())));
    fields.push(("Back".to_owned(), JsonNode::Str(back.to_owned())));
    fields.push(("Example".to_owned(), JsonNode::Str(example.to_owned())));
    fields.push(("ExampleTranslation".to_owned(), JsonNode::Str(example_translate.to_owned())));
    proof {
        assert(entries_rep(fields@) =~= (note_fields_doc(c))->Obj_0);
    }
    let mut options: Vec<(String, JsonNode)> = Vec::new();
    options.push(("allowDuplicate".to_owned(), JsonNode::Bool(false)));
    let mut tags: Vec<JsonNode> = Vec::new();
    tags.push(JsonNode::Str("wordcraft".to_owned()));
    tags.push(JsonNode::Str("language_learning".to_owned()));
    proof {
        assert(entries_rep(options@) =~= seq![("allowDuplicate"@, JsonRep::Bool(false))]);
        assert(crate::json::arr_rep(tags@) =~= seq![
            JsonRep::Str("wordcraft"@),
            JsonRep::Str("language_learning"@),
        ]);
    }
    let mut note: Vec<(String, JsonNode)> = Vec::new();
    note.push(("deckName".to_owned(), JsonNode::Str(deck_name.to_owned())));
    note.push(("modelName".to_owned(), JsonNode::Str(WORDCRAFT_MODEL_NAME.to_owned())));
    note.push(("fields".to_owned(), JsonNode::Obj(fields)));
    note.push(("options".to_owned(), JsonNode::Obj(options)));
    note.push(("tags".to_owned(), JsonNode::Arr(tags)));
    proof {
        assert(entries_rep(note@) =~= (note_doc(deck_name@, c))->Obj_0);
    }
    let mut params: Vec<(String, JsonNode)> = Vec::new();
    params.push(("note".to_owned(), JsonNode::Obj(note)));
    let p = JsonNode::Obj(params);
    proof {
        assert(entries_rep(params@) =~= seq![("note"@, note_doc(deck_name@, c))]);
    }
    request_with_params("addNote", p)
}

/// How a store operation fails.  Each variant carries its message, with the
/// remote's error text kept verbatim inside it.
#[derive(Debug, Clone, PartialEq)]
pub enum StoreError {
    StoreUnreachable(String),
    ModelCreationFailed(String),
    CardInsertionFailed(String),
    MissingModelNames,
}

impl StoreError {
    /// The failure, in words.
    pub fn message(&self) -> (r: String)
        ensures
            match self {
                StoreError::StoreUnreachable(m) => r == m,
                StoreError::ModelCreationFailed(m) => r == m,
                StoreError::CardInsertionFailed(m) => r == m,
                StoreError::MissingModelNames => r@ == "Failed to get model names"@,
            },
    {
        match self {
            StoreError::StoreUnreachable(m) => m.clone(),
            StoreError::ModelCreationFailed(m) => m.clone(),
            StoreError::CardInsertionFailed(m) => m.clone(),
            StoreError::MissingModelNames => "Failed to get model names".to_owned(),
        }
    }
}

/// What one exchange with the store came to: a reply, a transport failure
/// with its message, or the caller's timeout running out first.
pub enum StoreEvent {
    Reply(JsonNode),
    TransportFailure(String),
    TimedOut,
}

/// The error a reply reports: `None` where the error field is missing or
/// null, which the protocol reads as success.
pub open spec fn reply_error_doc(reply: JsonRep) -> Option<JsonRep> {
    match rep_field(reply, "error"@) {
        Some(JsonRep::Null) => None,
        Some(e) => Some(e),
        None => None,
    }
}

/// Reads the error a reply reports, rendered as JSON text; `None` where the
/// reply reports none.
fn reply_error(reply: &JsonNode) -> (r: Option<String>)
    ensures
        match r {
            Some(m) => reply_error_doc(reply@) matches Some(e) && m@ == crate::json::text_of_doc(
                crate::json::built_doc_of(e),
            ),
            None => reply_error_doc(reply@) is None,
        },
{
    match crate::json::node_field(reply, "error") {
        Some(err) => match err {
            JsonNode::Null => None,
            _ => Some(crate::json::node_to_json(err)),
        },
        None => None,
    }
}

/// The verdict of the health check on what the exchange came to: reachable
/// exactly where a reply arrived reporting no error; a reported error, a
/// transport failure and a timeout all read as the store being unreachable.
pub fn check_connection_outcome(event: &StoreEvent) -> (r: Result<(), StoreError>)
    ensures
        match event {
            StoreEvent::Reply(n) => match reply_error_doc(rep_of(*n)) {
                None => r == Ok::<(), StoreError>(()),
                Some(e) => r matches Err(StoreError::StoreUnreachable(m)) && m@
                    == "AnkiConnect error: "@ + crate::json::text_of_doc(
                    crate::json::built_doc_of(e),
                ),
            },
            StoreEvent::TransportFailure(msg) => (r matches Err(
                StoreError::StoreUnreachable(m),
            ) && m == msg),
            StoreEvent::TimedOut => (r matches Err(StoreError::StoreUnreachable(m)) && m@
                == "Timeout while connecting to Anki"@),
        },
{
    match event {
        StoreEvent::Reply(n) => match reply_error(n) {
            None => Ok(()),
            Some(text) => {
                let mut m = "AnkiConnect error: ".to_owned();
                m.append(text.as_str());
                Err(StoreError::StoreUnreachable(m))
            },
        },
        StoreEvent::TransportFailure(msg) => Err(StoreError::StoreUnreachable(msg.clone())),
        StoreEvent::TimedOut => Err(
            StoreError::StoreUnreachable("Timeout while connecting to Anki".to_owned()),
        ),
    }
}

/// The deck-creation policy: the call succeeds whatever the reply says.  A
/// reported error (a deck that already exists among them) is handed back as
/// text only to be observed, never propagated — failing here would be worse
/// than proceeding.
pub fn create_deck_outcome(reply: &JsonNode) -> (observed: Option<String>)
    ensures
        match reply_error_doc(reply@) {
            Some(e) => observed matches Some(m) && m@ == "Error creating deck: "@
                + crate::json::text_of_doc(crate::json::built_doc_of(e)),
            None => observed is None,
        },
{
    match reply_error(reply) {
        Some(text) => {
            let mut m = "Error creating deck: ".to_owned();
            m.append(text.as_str());
            Some(m)
        },
        None => None,
    }
}

/// The card-insertion policy, the opposite of the deck policy: any reported
/// error, a duplicate note among them, fails the call, carrying the remote's
/// error text.
pub fn add_card_outcome(reply: &JsonNode) -> (r: Result<(), StoreError>)
    ensures
        match reply_error_doc(reply@) {
            None => r == Ok::<(), StoreError>(()),
            Some(e) => r matches Err(StoreError::CardInsertionFailed(m)) && m@
                == "Error adding card: "@ + crate::json::text_of_doc(
                crate::json::built_doc_of(e),
            ),
        },
{
    match reply_error(reply) {
        None => Ok(()),
        Some(text) => {
            let mut m = "Error adding card: ".to_owned();
            m.append(text.as_str());
            Err(StoreError::CardInsertionFailed(m))
        },
    }
}

/// The outcome of the note-type-creation request: an error fails the call,
/// carrying the remote's error text.
pub fn create_model_outcome(reply: &JsonNode) -> (r: Result<(), StoreError>)
    ensures
        match reply_error_doc(reply@) {
            None => r == Ok::<(), StoreError>(()),
            Some(e) => r matches Err(StoreError::ModelCreationFailed(m)) && m@
                == "Error creating Wordcraft model: "@ + crate::json::text_of_doc(
                crate::json::built_doc_of(e),
            ),
        },
{
    match reply_error(reply) {
        None => Ok(()),
        Some(text) => {
            let mut m = "Error creating Wordcraft model: ".to_owned();
            m.append(text.as_str());
            Err(StoreError::ModelCreationFailed(m))
        },
    }
}

/// Whether a list of documents holds the given string.
pub open spec fn doc_names_contain(items: Seq<JsonRep>, name: Seq<char>) -> bool {
    exists|k: int| 0 <= k < items.len() && items[k] == JsonRep::Str(name)
}

/// The check-then-act step of the note-type protocol, decided on the reply to
/// the note-type-names request: where the reply's result is no list of names
/// the protocol fails; where the list already holds the note type's name
/// nothing is to be done; otherwise the one creation request to issue comes
/// back.  The check and the act are two separate exchanges, so concurrent
/// callers must serialize their runs to avoid racing on the creation.
#[verifier::loop_isolation(false)]
pub fn model_setup_decision(reply: &JsonNode) -> (r: Result<Option<JsonNode>, StoreError>)
    ensures
        match rep_field(reply@, "result"@) {
            Some(JsonRep::Arr(items)) => if doc_names_contain(items, "Wordcraft"@) {
                r == Ok::<Option<JsonNode>, StoreError>(None)
            } else {
                r matches Ok(Some(req)) && req@ == create_model_request_doc()
            },
            _ => r == Err::<Option<JsonNode>, StoreError>(StoreError::MissingModelNames),
        },
{
    let items = match crate::json::node_field(reply, "result") {
        Some(JsonNode::Arr(v)) => v,
        _ => {
            return Err(StoreError::MissingModelNames);
        },
    };
    let n = items.len();
    let mut k: usize = 0;
    while k < n
        invariant
            k <= n,
            forall|j: int|
                0 <= j < k ==> crate::json::arr_rep(items@)[j] != JsonRep::Str("Wordcraft"@),
        decreases n - k,
    {
        match &items[k] {
            JsonNode::Str(s) => {
                if str_eq(s.as_str(), WORDCRAFT_MODEL_NAME) {
                    return Ok(None);
                }
                assert(crate::json::arr_rep(items@)[k as int] != JsonRep::Str("Wordcraft"@));
            },
            _ => {
                assert(crate::json::arr_rep(items@)[k as int] != JsonRep::Str("Wordcraft"@));
            },
        }
        k = k + 1;
    }
    Ok(Some(create_model_request()))
}

/// The card-insertion requests for a whole deck: one request per card, in the
/// deck's order, with nothing reordered and nothing dropped; a deck with no
/// cards asks for nothing.
#[verifier::loop_isolation(false)]
pub fn insertion_requests(deck_name: &str, cards: &Vec<crate::langchain::Flashcard>) -> (r: Vec<
    JsonNode,
>)
    ensures
        r@.len() == cards@.len(),
        forall|i: int|
            0 <= i < cards@.len() ==> rep_of(r@[i]) == add_note_request_doc(
                deck_name@,
                cards@[i]@,
            ),
{
    let n = cards.len();
    let mut out: Vec<JsonNode> = Vec::new();
    let mut k: usize = 0;
    while k < n
        invariant
            k <= n,
            out@.len() == k,
            forall|i: int|
                0 <= i < k ==> rep_of(out@[i]) == add_note_request_doc(deck_name@, cards@[i]@),
        decreases n - k,
    {
        let card = &cards[k];
        let req = add_note_request(
            deck_name,
            card.front.as_str(),
            card.back.as_str(),
            card.example.as_str(),
            card.example_translate.as_str(),
        );
        out.push(req);
        k = k + 1;
    }
    out
}

} // verus!
