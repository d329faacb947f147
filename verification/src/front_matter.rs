//! Splitting a document into its header and its body.

use crate::metadata::{empty_fields, fields_of, no_fields, Field};
use vstd::prelude::*;

verus! {

/// What the header parser found at the top of a document.
pub enum Header {
    /// No header.
    Absent,
    /// A header that reads as a map from keys to values.
    Fields(serde_json::Map<String, serde_json::Value>),
    /// A header that does not read as such a map.
    Malformed,
}

/// The mathematical reading of a `Header`.
pub ghost enum HeaderView {
    Absent,
    Fields(Map<Seq<char>, Field>),
    Malformed,
}

impl View for Header {
    type V = HeaderView;

    open spec fn view(&self) -> HeaderView {
        match self {
            Header::Absent => HeaderView::Absent,
            Header::Fields(map) => HeaderView::Fields(fields_of(*map)),
            Header::Malformed => HeaderView::Malformed,
        }
    }
}

/// `gray_matter::Pod`, the data that the header parser found between the
/// delimiters. It is opaque here; `pod_header` names what it holds.
#[verifier::external_type_specification]
#[verifier::external_body]
pub struct ExPod(gray_matter::Pod);

/// What a `Pod` holds, read as a header: `Fields` with its entries where it
/// is a map from keys to values, `Malformed` where it is anything else.
pub uninterp spec fn pod_header(pod: gray_matter::Pod) -> HeaderView;

/// What the header parser makes of `text`: the header it finds, and the text
/// that it leaves as the document's content.
pub uninterp spec fn front_matter(text: Seq<char>) -> (HeaderView, Seq<char>);

/// The header that the parser's data stands for: `Absent` where it reports
/// none.
pub open spec fn found(data: Option<gray_matter::Pod>) -> HeaderView {
    match data {
        Some(pod) => pod_header(pod),
        None => HeaderView::Absent,
    }
}

/// `gray_matter::Matter::<YAML>::parse` with the default `---` delimiter.
/// Handed out are the parser's `data` and its `content`. Both depend on
/// `text` alone.
#[verifier::external_body]
pub(crate) fn parse_front_matter(text: &str) -> (parsed: (Option<gray_matter::Pod>, String))
    ensures
        (found(parsed.0), parsed.1@) == front_matter(text@),
{
    let entity = gray_matter::Matter::<gray_matter::engine::YAML>::new().parse(text);
    (entity.data, entity.content)
}

/// `gray_matter::Pod::deserialize` into a map from keys to values: `Fields`
/// with the map where that succeeds, `Malformed` where it fails. The result
/// depends on what the `Pod` holds alone.
#[verifier::external_body]
pub(crate) fn read_pod(pod: &gray_matter::Pod) -> (header: Header)
    ensures
        header@ == pod_header(*pod),
{
    match pod.deserialize() {
        Ok(map) => Header::Fields(map),
        Err(_) => Header::Malformed,
    }
}

/// A document after splitting: the fields of its header and its body text.
pub struct Document {
    /// The header's fields; none where the header is absent or malformed.
    pub fields: serde_json::Map<String, serde_json::Value>,
    /// The markup that remains to be rendered.
    pub body: String,
}

/// The mathematical reading of a `Document`.
pub ghost struct DocumentView {
    pub fields: Map<Seq<char>, Field>,
    pub body: Seq<char>,
}

impl View for Document {
    type V = DocumentView;

    open spec fn view(&self) -> DocumentView {
        DocumentView { fields: fields_of(self.fields), body: self.body@ }
    }
}

/// The document that a parse outcome stands for. A header that was found
/// gives its fields, and the parser's content is the body. An absent header
/// gives no fields and the same body. A malformed header counts as absent,
/// and the whole raw text is then the body.
pub open spec fn document_of(header: HeaderView, content: Seq<char>, raw: Seq<char>) -> DocumentView {
    match header {
        HeaderView::Fields(fields) => DocumentView { fields, body: content },
        HeaderView::Absent => DocumentView { fields: no_fields(), body: content },
        HeaderView::Malformed => DocumentView { fields: no_fields(), body: raw },
    }
}

/// The document that the raw text `raw` stands for.
pub open spec fn split(raw: Seq<char>) -> DocumentView {
    document_of(front_matter(raw).0, front_matter(raw).1, raw)
}

/// Decides header and body from what the header parser returned for `raw`.
pub fn resolve_header(header: Header, content: String, raw: &str) -> (doc: Document)
    ensures
        doc@ == document_of(header@, content@, raw@),
{
    match header {
        Header::Fields(fields) => Document { fields, body: content },
        Header::Absent => Document { fields: empty_fields(), body: content },
        Header::Malformed => Document { fields: empty_fields(), body: String::from_str(raw) },
    }
}

/// Splits the raw text of a document into header fields and body. This
/// never fails: a header that cannot be read leaves the document without
/// fields.
pub fn split_document(raw: &str) -> (doc: Document)
    ensures
        doc@ == split(raw@),
{
    let (data, content) = parse_front_matter(raw);
    let header = match data {
        Some(pod) => read_pod(&pod),
        None => Header::Absent,
    };
    resolve_header(header, content, raw)
}

} // verus!
