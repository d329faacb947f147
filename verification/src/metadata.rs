//! Document metadata: the raw header map and its typed reading.

use vstd::prelude::*;

verus! {

/// `serde_json::Map`, the key-to-value collection in which a document header
/// arrives. It is opaque here; `fields_of` names what it holds.
#[verifier::external_type_specification]
#[verifier::external_body]
#[verifier::reject_recursive_types(K)]
#[verifier::reject_recursive_types(V)]
pub struct ExJsonMap<K, V>(serde_json::Map<K, V>);

/// `serde_json::Value`, one value of a header map. Opaque.
#[verifier::external_type_specification]
#[verifier::external_body]
pub struct ExJsonValue(serde_json::Value);

/// What the compiler reads of a header value.
pub enum FieldValue {
    /// A string, by its text.
    Text(String),
    /// A boolean, by its truth.
    Flag(bool),
    /// A number, by its text as `serde_json` prints it.
    Number(String),
    /// Null, a list or a map: a value without text.
    Other,
}

/// The mathematical reading of a `FieldValue`.
pub ghost enum Field {
    Text(Seq<char>),
    Flag(bool),
    Number(Seq<char>),
    Other,
}

impl View for FieldValue {
    type V = Field;

    open spec fn view(&self) -> Field {
        match self {
            FieldValue::Text(s) => Field::Text(s@),
            FieldValue::Flag(b) => Field::Flag(*b),
            FieldValue::Number(s) => Field::Number(s@),
            FieldValue::Other => Field::Other,
        }
    }
}

/// A header value as text: a string is its own text, a boolean is `true` or
/// `false`, a number is its printed form, and any other value has no text.
pub open spec fn flattened(field: Field) -> Seq<char> {
    match field {
        Field::Text(text) => text,
        Field::Flag(flag) => if flag {
            "true"@
        } else {
            "false"@
        },
        Field::Number(text) => text,
        Field::Other => Seq::empty(),
    }
}

/// The entries of a header map: each key with the reading of its value.
pub uninterp spec fn fields_of(map: serde_json::Map<String, serde_json::Value>) -> Map<
    Seq<char>,
    Field,
>;

/// The entries of a header that holds nothing.
pub open spec fn no_fields() -> Map<Seq<char>, Field> {
    Map::empty()
}

/// The reading of an optional field value.
pub open spec fn reading(value: Option<FieldValue>) -> Option<Field> {
    match value {
        Some(v) => Some(v@),
        None => None,
    }
}

/// `serde_json::Map::new`: a map without entries.
#[verifier::external_body]
pub(crate) fn empty_fields() -> (map: serde_json::Map<String, serde_json::Value>)
    ensures
        fields_of(map) == no_fields(),
{
    serde_json::Map::new()
}

/// `serde_json::Map::get`: the value stored under `key`, if there is one. A
/// string value is handed out as its text, a boolean as its truth, a number
/// as the text that `serde_json::Number`'s `Display` prints for it, and
/// null, a list or a map as `Other`.
#[verifier::external_body]
pub(crate) fn field(map: &serde_json::Map<String, serde_json::Value>, key: &str) -> (value: Option<
    FieldValue,
>)
    ensures
        reading(value) == fields_of(*map).get(key@),
{
    match map.get(key) {
        None => None,
        Some(serde_json::Value::String(s)) => Some(FieldValue::Text(s.clone())),
        Some(serde_json::Value::Bool(b)) => Some(FieldValue::Flag(*b)),
        Some(serde_json::Value::Number(n)) => Some(FieldValue::Number(n.to_string())),
        Some(_) => Some(FieldValue::Other),
    }
}

/// `serde_json::Map::insert` with a string value: afterwards `key` holds the
/// text `value`, whether or not it held anything before, and every other
/// entry is as it was.
#[verifier::external_body]
pub(crate) fn set_text(map: &mut serde_json::Map<String, serde_json::Value>, key: &str, value: &str)
    ensures
        fields_of(*final(map)) == fields_of(*old(map)).insert(key@, Field::Text(value@)),
{
    map.insert(key.to_string(), serde_json::Value::String(value.to_string()));
}

/// The typed reading of a document header.
pub struct Metadata {
    /// Page title.
    pub title: String,
    /// Page description.
    pub description: String,
    /// Whether the navigation fragment goes into the page.
    pub nav: bool,
    /// Whether the footer fragment goes into the page.
    pub footer: bool,
}

/// The mathematical reading of a `Metadata`.
pub ghost struct MetadataView {
    pub title: Seq<char>,
    pub description: Seq<char>,
    pub nav: bool,
    pub footer: bool,
}

impl View for Metadata {
    type V = MetadataView;

    open spec fn view(&self) -> MetadataView {
        MetadataView {
            title: self.title@,
            description: self.description@,
            nav: self.nav,
            footer: self.footer,
        }
    }
}

/// The text of a recognised key: `default` where the key is absent, else the
/// value held under it, as text.
pub open spec fn text_field(fields: Map<Seq<char>, Field>, key: Seq<char>, default: Seq<char>) -> Seq<
    char,
> {
    match fields.get(key) {
        None => default,
        Some(field) => flattened(field),
    }
}

/// The truth of a visibility key: false only where the key holds the boolean
/// `false`. An absent key, and a value of any other kind, count as true.
pub open spec fn flag_field(fields: Map<Seq<char>, Field>, key: Seq<char>) -> bool {
    fields.get(key) != Some(Field::Flag(false))
}

/// The metadata that a header with these fields stands for.
pub open spec fn decode(fields: Map<Seq<char>, Field>) -> MetadataView {
    MetadataView {
        title: text_field(fields, "title"@, "Title"@),
        description: text_field(fields, "description"@, "Description"@),
        nav: flag_field(fields, "nav"@),
        footer: flag_field(fields, "footer"@),
    }
}

/// The fields against which a head template is expanded: those of the
/// header, with `title` and `description` as decoded, and with `root_dir`
/// set to the configured prefix whatever the header says of it.
pub open spec fn head_context(fields: Map<Seq<char>, Field>, root_dir: Seq<char>) -> Map<
    Seq<char>,
    Field,
> {
    fields.insert("title"@, Field::Text(decode(fields).title)).insert(
        "description"@,
        Field::Text(decode(fields).description),
    ).insert("root_dir"@, Field::Text(root_dir))
}

/// A header value as text.
pub fn flatten(value: FieldValue) -> (text: String)
    ensures
        text@ == flattened(value@),
{
    match value {
        FieldValue::Text(text) => text,
        FieldValue::Flag(flag) => if flag {
            String::from_str("true")
        } else {
            String::from_str("false")
        },
        FieldValue::Number(text) => text,
        FieldValue::Other => String::new(),
    }
}

fn read_text(header: &serde_json::Map<String, serde_json::Value>, key: &str, default: &str) -> (text:
    String)
    ensures
        text@ == text_field(fields_of(*header), key@, default@),
{
    match field(header, key) {
        None => String::from_str(default),
        Some(value) => flatten(value),
    }
}

fn read_flag(header: &serde_json::Map<String, serde_json::Value>, key: &str) -> (flag: bool)
    ensures
        flag == flag_field(fields_of(*header), key@),
{
    match field(header, key) {
        Some(FieldValue::Flag(b)) => b,
        _ => true,
    }
}

/// Decodes a header. Every header decodes: a key that is absent takes its
/// default, and no value makes decoding fail.
pub fn decode_metadata(header: &serde_json::Map<String, serde_json::Value>) -> (meta: Metadata)
    ensures
        meta@ == decode(fields_of(*header)),
{
    Metadata {
        title: read_text(header, "title", "Title"),
        description: read_text(header, "description", "Description"),
        nav: read_flag(header, "nav"),
        footer: read_flag(header, "footer"),
    }
}

/// Turns a header into the arguments of its head template.
pub fn head_args(header: serde_json::Map<String, serde_json::Value>, root_dir: &str) -> (args:
    serde_json::Map<String, serde_json::Value>)
    ensures
        fields_of(args) == head_context(fields_of(header), root_dir@),
{
    let meta = decode_metadata(&header);
    let mut args = header;
    set_text(&mut args, "title", meta.title.as_str());
    set_text(&mut args, "description", meta.description.as_str());
    set_text(&mut args, "root_dir", root_dir);
    args
}

} // verus!
