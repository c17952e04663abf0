//! Filling a model-description template with the values of an instance.
//!
//! The template carries a placeholder `{{name}}` for each start value.  The
//! values come as text, keyed by variable name; `handlebars` does the
//! substitution over a `serde_json` object.  What the substitution yields is
//! not spelled out here: it is named `resolved`, and the contracts speak of
//! that name.
//!
//! Only plain templates are handed to `handlebars`: templates none of whose
//! tags calls a partial or a decorator.  Such a call can make a template
//! include itself without end.
use vstd::prelude::*;
use vstd::string::*;
use vstd::slice::*;
use vstd::utf8::*;
use crate::runtime::FMIErrors;

verus! {

/// `serde_json::Map`, whose inside is not looked at.
#[verifier::external_type_specification]
#[verifier::external_body]
#[verifier::reject_recursive_types(K)]
#[verifier::reject_recursive_types(V)]
pub struct ExJsonObject<K, V>(serde_json::Map<K, V>);

/// `serde_json::Value`, whose inside is not looked at.
#[verifier::external_type_specification]
#[verifier::external_body]
pub struct ExJsonValue(serde_json::Value);

/// A JSON object.
pub type JsonObject = serde_json::Map<String, serde_json::Value>;

/// The entries of a JSON object whose values are strings: the text under
/// each key.
pub uninterp spec fn json_entries(data: JsonObject) -> Map<Seq<char>, Seq<char>>;

/// What `handlebars` renders a template to, given string data by key;
/// `None` when it reports an error.
pub uninterp spec fn resolved(template: Seq<char>, data: Map<Seq<char>, Seq<char>>) -> Option<
    Seq<char>,
>;

/// No entries at all.
pub open spec fn no_entries() -> Map<Seq<char>, Seq<char>> {
    Map::empty()
}

/// `serde_json::Map::new`: an object without entries.
#[verifier::external_body]
fn data_new() -> (data: JsonObject)
    ensures
        json_entries(data) == no_entries(),
{
    serde_json::Map::new()
}

/// `serde_json::Map::insert` with a string value: the key holds the text
/// afterwards, whatever it held before; other keys are untouched.
#[verifier::external_body]
fn data_insert(data: &mut JsonObject, key: &str, text: &str)
    ensures
        json_entries(*final(data)) == json_entries(*old(data)).insert(key@, text@),
{
    data.insert(key.to_owned(), serde_json::Value::String(text.to_owned()));
}

/// Whether a byte may stand between the braces that open a tag and the
/// sign that tells what the tag is: white space, `~`, `#` or a further `{`.
pub open spec fn is_filler(byte: u8) -> bool {
    byte == 0x20 || byte == 0x09 || byte == 0x0a || byte == 0x0d || byte == 0x7e || byte == 0x23
        || byte == 0x7b
}

/// Whether a byte is the sign of a call: `>` for a partial, `*` for a
/// decorator.
pub open spec fn is_call_sign(byte: u8) -> bool {
    byte == 0x3e || byte == 0x2a
}

/// Whether two opening braces stand at a position of a text.
pub open spec fn opens_tag(text: Seq<u8>, at: int) -> bool {
    0 <= at && at + 1 < text.len() && text[at] == 0x7b && text[at + 1] == 0x7b
}

/// Whether nothing but filler stands between a position of a text and a
/// call sign.
pub open spec fn leads_to_call(text: Seq<u8>, from: int) -> bool
    decreases text.len() - from,
{
    if from < 0 || from >= text.len() {
        false
    } else if is_call_sign(text[from]) {
        true
    } else if is_filler(text[from]) {
        leads_to_call(text, from + 1)
    } else {
        false
    }
}

/// Whether a template, given by its bytes, is plain: no tag of it calls a
/// partial or a decorator.
pub open spec fn is_plain(text: Seq<u8>) -> bool {
    forall|at: int| #[trigger] opens_tag(text, at) ==> !leads_to_call(text, at + 2)
}

/// Whether a template is plain.
pub open spec fn plain_text(template: Seq<char>) -> bool {
    is_plain(encode_utf8(template))
}

/// `Handlebars::render_template` on a fresh registry, for a plain
/// template: the rendering that `resolved` names, or `None` when
/// `handlebars` reports an error.
#[verifier::external_body]
fn resolve(template: &str, data: &JsonObject) -> (text: Option<String>)
    requires
        plain_text(template@),
    ensures
        match text {
            Some(text) => resolved(template@, json_entries(*data)) == Some(text@),
            None => resolved(template@, json_entries(*data)) is None,
        },
{
    handlebars::Handlebars::new().render_template(template, data).ok()
}

/// Decides whether a template is plain.
pub fn is_plain_template(template: &str) -> (plain: bool)
    ensures
        plain == plain_text(template@),
{
    let bytes = template.as_bytes();
    let mut i: usize = 0;
    while bytes.len() - i > 1
        invariant
            i <= bytes.len(),
            bytes@ == template.spec_bytes(),
            forall|at: int|
                0 <= at < i && #[trigger] opens_tag(bytes@, at) ==> !leads_to_call(bytes@, at + 2),
        decreases bytes.len() - i,
    {
        if bytes[i] == 0x7b && bytes[i + 1] == 0x7b {
            let mut j: usize = i + 2;
            let mut scanning = true;
            while scanning && j < bytes.len()
                invariant
                    i + 2 <= j <= bytes.len(),
                    bytes@ == template.spec_bytes(),
                    opens_tag(bytes@, i as int),
                    scanning ==> leads_to_call(bytes@, i + 2) == leads_to_call(bytes@, j as int),
                    !scanning ==> !leads_to_call(bytes@, i + 2),
                decreases bytes.len() - j + if scanning { 1nat } else { 0nat },
            {
                let byte = bytes[j];
                if byte == 0x3e || byte == 0x2a {
                    return false;
                } else if byte == 0x20 || byte == 0x09 || byte == 0x0a || byte == 0x0d || byte
                    == 0x7e || byte == 0x23 || byte == 0x7b {
                    j += 1;
                } else {
                    scanning = false;
                }
            }
        }
        i += 1;
    }
    true
}

/// A value for a placeholder, as mathematical data.
pub struct Substitution {
    pub name: Seq<char>,
    pub text: Seq<char>,
}

/// The text that the placeholder of a variable is replaced with.
#[derive(Clone, Debug)]
pub struct StartValue {
    pub name: String,
    pub text: String,
}

impl View for StartValue {
    type V = Substitution;

    open spec fn view(&self) -> Substitution {
        Substitution { name: self.name@, text: self.text@ }
    }
}

impl DeepView for StartValue {
    type V = Substitution;

    open spec fn deep_view(&self) -> Substitution {
        self@
    }
}

/// The text under each name; of two values for one name the later counts.
pub open spec fn entries_of(values: Seq<Substitution>) -> Map<Seq<char>, Seq<char>>
    decreases values.len(),
{
    if values.len() == 0 {
        Map::empty()
    } else {
        entries_of(values.drop_last()).insert(values.last().name, values.last().text)
    }
}

/// Turns the outcome of a substitution into the description or an error.
pub fn accept_rendering(rendering: Option<String>) -> (result: Result<String, FMIErrors>)
    ensures
        match rendering {
            Some(text) => result == Ok::<String, FMIErrors>(text),
            None => result == Err::<String, FMIErrors>(FMIErrors::Error),
        },
{
    match rendering {
        Some(text) => Ok(text),
        None => Err(FMIErrors::Error),
    }
}

/// Fills the placeholders of a model-description template.
///
/// A template that is not plain is answered with an error; a plain one is
/// handed to `handlebars`.
pub fn to_model_description_xml(template: &str, values: &Vec<StartValue>) -> (result: Result<
    String,
    FMIErrors,
>)
    ensures
        !plain_text(template@) ==> result == Err::<String, FMIErrors>(FMIErrors::Error),
        plain_text(template@) ==> match resolved(
            template@,
            entries_of(values.deep_view()),
        ) {
            Some(text) => result matches Ok(description) && description@ == text,
            None => result == Err::<String, FMIErrors>(FMIErrors::Error),
        },
{
    if !is_plain_template(template) {
        return Err(FMIErrors::Error);
    }
    let mut data = data_new();
    let ghost all = values.deep_view();
    let mut i: usize = 0;
    proof {
        assert(all.take(0) =~= Seq::<Substitution>::empty());
    }
    while i < values.len()
        invariant
            i <= values.len(),
            all == values.deep_view(),
            json_entries(data) == entries_of(all.take(i as int)),
        decreases values.len() - i,
    {
        proof {
            assert(all.take(i + 1).drop_last() =~= all.take(i as int));
            assert(all.take(i + 1).last() == values[i as int]@);
        }
        data_insert(&mut data, values[i].name.as_str(), values[i].text.as_str());
        i += 1;
    }
    proof {
        assert(all.take(values.len() as int) =~= all);
    }
    accept_rendering(resolve(template, &data))
}

} // verus!
