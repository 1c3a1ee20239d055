use vstd::prelude::*;

verus! {

/// `serde_json::Value`: a JSON value, carried as it is.
#[verifier::external_type_specification]
#[verifier::external_body]
pub struct ExValue(serde_json::Value);

/// The boolean members of a JSON value: where the value is an object, its members
/// whose value is `true` or `false`; none where it is anything else.
pub uninterp spec fn boolean_members(value: serde_json::Value) -> Map<Seq<char>, bool>;

/// The string members of a JSON value: where the value is an object, its members whose
/// value is a string; none where it is anything else.
pub uninterp spec fn string_members(value: serde_json::Value) -> Map<Seq<char>, Seq<char>>;

/// What a text holds when it is read as JSON: the boolean members and the string
/// members of the value, or the reason why the text is not JSON.
pub uninterp spec fn parsed(text: Seq<char>) -> Result<
    (Map<Seq<char>, bool>, Map<Seq<char>, Seq<char>>),
    Seq<char>,
>;

/// `serde_json::from_str` for a `Value`: a text is read in one way only. Its error is
/// handed on as the text that it displays.
#[verifier::external_body]
fn read(text: &str) -> (value: Result<serde_json::Value, String>)
    ensures
        match value {
            Ok(v) => parsed(text@) == Ok::<_, Seq<char>>(
                (boolean_members(v), string_members(v)),
            ),
            Err(reason) => parsed(text@) == Err::<
                (Map<Seq<char>, bool>, Map<Seq<char>, Seq<char>>),
                _,
            >(reason@),
        },
{
    serde_json::from_str::<serde_json::Value>(text).map_err(|e| e.to_string())
}

/// `Value::get` with a name, then `Value::as_bool`: the member of that name where it is
/// a boolean.
#[verifier::external_body]
fn boolean_member(value: &serde_json::Value, name: &str) -> (member: Option<bool>)
    ensures
        member == boolean_members(*value).get(name@),
{
    match value.get(name) {
        Some(member) => member.as_bool(),
        None => None,
    }
}

/// `Value::get` with a name, then `Value::as_str`: the member of that name where it is
/// a string.
#[verifier::external_body]
fn string_member(value: &serde_json::Value, name: &str) -> (member: Option<String>)
    ensures
        member.is_some() == string_members(*value).contains_key(name@),
        member matches Some(text) ==> text@ == string_members(*value)[name@],
{
    match value.get(name) {
        Some(member) => member.as_str().map(|text| text.to_owned()),
        None => None,
    }
}

/// A reply of the portal, read as JSON.
#[derive(Debug)]
pub struct Document {
    value: serde_json::Value,
}

/// The mathematical value of a [`Document`]: its members as far as the client reads
/// them.
pub struct DocumentView {
    pub booleans: Map<Seq<char>, bool>,
    pub strings: Map<Seq<char>, Seq<char>>,
}

impl View for Document {
    type V = DocumentView;

    closed spec fn view(&self) -> DocumentView {
        DocumentView {
            booleans: boolean_members(self.value),
            strings: string_members(self.value),
        }
    }
}

/// The document that a text holds, or the reason why it holds none.
pub open spec fn document_of(text: Seq<char>) -> Result<DocumentView, Seq<char>> {
    match parsed(text) {
        Ok((booleans, strings)) => Ok(DocumentView { booleans, strings }),
        Err(reason) => Err(reason),
    }
}

impl Document {
    /// Reads a text as JSON.
    pub fn parse(text: &str) -> (document: Result<Document, String>)
        ensures
            match document {
                Ok(d) => document_of(text@) == Ok::<_, Seq<char>>(d@),
                Err(reason) => document_of(text@) == Err::<DocumentView, _>(reason@),
            },
    {
        match read(text) {
            Ok(value) => Ok(Document { value }),
            Err(reason) => Err(reason),
        }
    }

    /// The boolean member of this name, if there is one.
    pub fn boolean(&self, name: &str) -> (member: Option<bool>)
        ensures
            member == self@.booleans.get(name@),
    {
        boolean_member(&self.value, name)
    }

    /// The string member of this name, if there is one.
    pub fn string(&self, name: &str) -> (member: Option<String>)
        ensures
            member.is_some() == self@.strings.contains_key(name@),
            member matches Some(text) ==> text@ == self@.strings[name@],
    {
        string_member(&self.value, name)
    }
}

} // verus!
