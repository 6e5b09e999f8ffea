//! The textual encoding of tag lists, which `serde_json` reads and writes.

use vstd::prelude::*;
use vstd::std_specs::convert::FromSpecImpl;
use crate::error::CommandError;

verus! {

#[verifier::external_type_specification]
#[verifier::external_body]
pub struct ExJsonError(serde_json::Error);

/// What `serde_json` reads from `text` as a list of strings; `None` where it
/// rejects the text.
pub uninterp spec fn json_string_list(text: Seq<char>) -> Option<Seq<Seq<char>>>;

/// The JSON text that `serde_json` writes for an optional list of strings.
pub uninterp spec fn json_of_string_list(list: Option<Seq<Seq<char>>>) -> Seq<char>;

/// Trusted: `serde_json::from_str` at type `Vec<String>`.  Its result is a
/// function of the text alone, which `json_string_list` names.
#[verifier::external_body]
fn parse_string_list(text: &str) -> (r: Result<Vec<String>, serde_json::Error>)
    ensures
        match r {
            Ok(list) => json_string_list(text@) == Some(list.deep_view()),
            Err(_) => json_string_list(text@) is None,
        },
{
    serde_json::from_str::<Vec<String>>(text)
}

/// Trusted: `serde_json::to_string` at type `Option<Vec<String>>`.  What it
/// writes is a function of the list alone, which `json_of_string_list` names.
/// It succeeds: `serde_json` documents two causes of failure, a `Serialize`
/// impl that decides to fail and a map whose keys are no strings, and an
/// optional list of strings has neither.  The impls of `Option`, `Vec` and
/// `String` only hand on what the serializer reports, and the serializer
/// writes to a byte vector, which takes every write.
#[verifier::external_body]
fn write_string_list(list: &Option<Vec<String>>) -> (r: Result<String, serde_json::Error>)
    ensures
        r is Ok,
        r matches Ok(text) ==> text@ == json_of_string_list(list.deep_view()),
{
    serde_json::to_string(list)
}

/// The diagnostic text of a `serde_json` error: what its `Display` writes.
pub uninterp spec fn json_text(error: serde_json::Error) -> Seq<char>;

/// Whether a failure is the JSON reader's: its message is the diagnostic text
/// of some `serde_json` error.
pub open spec fn from_json(e: CommandError) -> bool {
    exists|cause: serde_json::Error| e.message@ == #[trigger] json_text(cause)
}

/// Trusted: `serde_json::Error`'s `Display` text, which is a function of the
/// error alone and which `json_text` names.
#[verifier::external_body]
fn json_error_text(error: &serde_json::Error) -> (text: String)
    ensures
        text@ == json_text(*error),
{
    error.to_string()
}

#[verifier::external_type_specification]
#[verifier::external_body]
pub struct ExJsonValue(serde_json::Value);

/// A JSON document as the library reads it.  A number is recognised, but its
/// value is not carried: nothing here reads one.  The members of an object
/// stand in the order in which the parser yields them, each name once.
#[derive(Debug)]
pub enum Json {
    Null,
    Bool(bool),
    Number,
    Text(String),
    List(Vec<Json>),
    Object(Vec<(String, Json)>),
}

/// What a [`Json`] holds, as a mathematical value.
pub enum JsonView {
    Null,
    Bool(bool),
    Number,
    Text(Seq<char>),
    List(Seq<JsonView>),
    Object(Seq<(Seq<char>, JsonView)>),
}

impl View for Json {
    type V = JsonView;

    open spec fn view(&self) -> JsonView
        decreases self,
    {
        match self {
            Json::Null => JsonView::Null,
            Json::Bool(b) => JsonView::Bool(*b),
            Json::Number => JsonView::Number,
            Json::Text(t) => JsonView::Text(t@),
            Json::List(items) => JsonView::List(
                Seq::new(
                    items@.len(),
                    |i: int|
                        if 0 <= i < items@.len() {
                            items@[i].view()
                        } else {
                            JsonView::Null
                        },
                ),
            ),
            Json::Object(members) => JsonView::Object(
                Seq::new(
                    members@.len(),
                    |i: int|
                        if 0 <= i < members@.len() {
                            (members@[i].0@, members@[i].1.view())
                        } else {
                            (Seq::empty(), JsonView::Null)
                        },
                ),
            ),
        }
    }
}

/// The document that `serde_json` reads from `text`; `None` where it rejects
/// the text.
pub uninterp spec fn json_document(text: Seq<char>) -> Option<JsonView>;

/// Trusted: the library's form of a `serde_json::Value`, variant for variant.
/// A number keeps no value; an object gives its members in the order of its
/// map, which holds each name once.
#[verifier::external_body]
fn json_from(value: &serde_json::Value) -> (doc: Json) {
    match value {
        serde_json::Value::Null => Json::Null,
        serde_json::Value::Bool(b) => Json::Bool(*b),
        serde_json::Value::Number(_) => Json::Number,
        serde_json::Value::String(t) => Json::Text(t.clone()),
        serde_json::Value::Array(items) => Json::List(items.iter().map(json_from).collect()),
        serde_json::Value::Object(map) => Json::Object(
            map.iter().map(|(name, member)| (name.clone(), json_from(member))).collect(),
        ),
    }
}

/// Trusted: `serde_json::from_str` at type `serde_json::Value`, which reads
/// any JSON document, handed on in the library's form.  The document is a
/// function of the text alone, which `json_document` names.
#[verifier::external_body]
pub(crate) fn parse_document(text: &str) -> (r: Result<Json, serde_json::Error>)
    ensures
        match r {
            Ok(doc) => json_document(text@) == Some(doc@),
            Err(_) => json_document(text@) is None,
        },
{
    serde_json::from_str::<serde_json::Value>(text).map(|value| json_from(&value))
}

/// The value of the first of `members` that bears the name `name`.
pub open spec fn first_named(members: Seq<(Seq<char>, JsonView)>, name: Seq<char>) -> Option<
    JsonView,
>
    decreases members.len(),
{
    if members.len() == 0 {
        None
    } else if members[0].0 == name {
        Some(members[0].1)
    } else {
        first_named(members.drop_first(), name)
    }
}

/// The member `name` of a document: present where the document is an object
/// that has a member of that name.
pub open spec fn member_of(doc: JsonView, name: Seq<char>) -> Option<JsonView> {
    match doc {
        JsonView::Object(members) => first_named(members, name),
        _ => None,
    }
}

/// The element at `index` of a document: present where the document is a
/// list that is long enough.
pub open spec fn element_of(doc: JsonView, index: int) -> Option<JsonView> {
    match doc {
        JsonView::List(items) => if 0 <= index < items.len() {
            Some(items[index])
        } else {
            None
        },
        _ => None,
    }
}

/// The text of a document: present where the document is a string.
pub open spec fn text_of(doc: JsonView) -> Option<Seq<char>> {
    match doc {
        JsonView::Text(t) => Some(t),
        _ => None,
    }
}

/// Looks up the member `name` of a document.
pub fn member<'a>(doc: &'a Json, name: &str) -> (found: Option<&'a Json>)
    ensures
        match found {
            Some(value) => member_of(doc@, name@) == Some(value@),
            None => member_of(doc@, name@) is None,
        },
{
    match doc {
        Json::Object(members) => {
            let wanted = name.to_string();
            let ghost all = Seq::new(
                members@.len(),
                |k: int|
                    if 0 <= k < members@.len() {
                        (members@[k].0@, members@[k].1@)
                    } else {
                        (Seq::empty(), JsonView::Null)
                    },
            );
            let mut i: usize = 0;
            assert(doc@ == JsonView::Object(all)) by {
                let got = doc@->Object_0;
                assert forall|k: int| 0 <= k < got.len() implies got[k] == all[k] by {
                    assert(got[k].1 == members@[k].1@);
                }
                assert(got =~= all);
            }
            assert(all.skip(0) =~= all);
            while i < members.len()
                invariant
                    i <= members.len(),
                    wanted@ == name@,
                    doc@ == JsonView::Object(all),
                    all.len() == members@.len(),
                    forall|k: int|
                        0 <= k < all.len() ==> all[k] == (members@[k].0@, members@[k].1@),
                    first_named(all, name@) == first_named(all.skip(i as int), name@),
                decreases members.len() - i,
            {
                proof {
                    let rest = all.skip(i as int);
                    assert(rest[0] == all[i as int]);
                    assert(rest.drop_first() =~= all.skip(i + 1));
                }
                if members[i].0 == wanted {
                    return Some(&members[i].1);
                }
                i += 1;
            }
            None
        },
        _ => None,
    }
}

/// Looks up the element at `index` of a document.
pub fn element<'a>(doc: &'a Json, index: usize) -> (found: Option<&'a Json>)
    ensures
        match found {
            Some(value) => element_of(doc@, index as int) == Some(value@),
            None => element_of(doc@, index as int) is None,
        },
{
    match doc {
        Json::List(items) => {
            if index < items.len() {
                Some(&items[index])
            } else {
                None
            }
        },
        _ => None,
    }
}

/// Reads the text of a document that is a string.
pub fn string_of<'a>(doc: &'a Json) -> (text: Option<&'a str>)
    ensures
        match text {
            Some(t) => text_of(doc@) == Some(t@),
            None => text_of(doc@) is None,
        },
{
    match doc {
        Json::Text(t) => Some(t.as_str()),
        _ => None,
    }
}

/// The library's failure for a `serde_json` error: its diagnostic text,
/// unaltered.
pub(crate) fn json_failure(error: serde_json::Error) -> (e: CommandError)
    ensures
        e.message@ == json_text(error),
        from_json(e),
{
    CommandError { message: json_error_text(&error) }
}

impl From<serde_json::Error> for CommandError {
    fn from(error: serde_json::Error) -> (e: CommandError)
        ensures
            e.message@ == json_text(error),
    {
        json_failure(error)
    }
}

impl FromSpecImpl<serde_json::Error> for CommandError {
    open spec fn obeys_from_spec() -> bool {
        false
    }

    open spec fn from_spec(error: serde_json::Error) -> CommandError {
        arbitrary()
    }
}

/// The tags that a stored text stands for: what it parses to as a list of
/// strings, and no tags where there is no text, the text is empty, or it is
/// no such list.
pub open spec fn stored_tags(stored: Option<Seq<char>>) -> Seq<Seq<char>> {
    match stored {
        Some(text) => if text.len() == 0 {
            Seq::empty()
        } else {
            tags_or_none(json_string_list(text))
        },
        None => Seq::empty(),
    }
}

/// The tags that a parse yielded, and no tags where it failed.
pub open spec fn tags_or_none(parsed: Option<Seq<Seq<char>>>) -> Seq<Seq<char>> {
    match parsed {
        Some(list) => list,
        None => Seq::empty(),
    }
}

/// The tags of a parse of the stored text: the list where the parse
/// succeeded, no tags where it failed.  A corrupt tag list must never make a
/// task unreadable.
pub fn tags_from_parse(parsed: Option<Vec<String>>) -> (tags: Vec<String>)
    ensures
        tags.deep_view() == tags_or_none(parsed.deep_view()),
{
    match parsed {
        Some(list) => list,
        None => {
            let tags: Vec<String> = Vec::new();
            assert(tags.deep_view() =~= Seq::<Seq<char>>::empty());
            tags
        },
    }
}

/// Decodes the stored text of a tag list.  Never fails.
pub fn decode_tags(stored: Option<&str>) -> (tags: Vec<String>)
    ensures
        tags.deep_view() == stored_tags(
            match stored {
                Some(text) => Some(text@),
                None => None,
            },
        ),
{
    match stored {
        Some(text) => {
            if text.is_empty() {
                let tags: Vec<String> = Vec::new();
                assert(tags.deep_view() =~= Seq::<Seq<char>>::empty());
                tags
            } else {
                match parse_string_list(text) {
                    Ok(list) => tags_from_parse(Some(list)),
                    Err(_) => tags_from_parse(None),
                }
            }
        },
        None => {
            let tags: Vec<String> = Vec::new();
            assert(tags.deep_view() =~= Seq::<Seq<char>>::empty());
            tags
        },
    }
}

/// Encodes a tag list as the text to store.  Every tag list has an encoding,
/// so this succeeds on every input.
pub fn encode_tags(tags: &Option<Vec<String>>) -> (r: Result<String, CommandError>)
    ensures
        r is Ok,
        r matches Ok(text) ==> text@ == json_of_string_list(tags.deep_view()),
{
    match write_string_list(tags) {
        Ok(text) => Ok(text),
        Err(e) => Err(json_failure(e)),
    }
}

} // verus!
