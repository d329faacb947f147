//! The markup renderer, taken as given.

use vstd::prelude::*;

verus! {

/// The renderer switches that this crate sets. Every other switch of the
/// renderer stays at its default.
pub struct RenderOptions {
    /// `~~text~~` is struck through.
    pub strikethrough: bool,
    /// Pipe tables are rendered as tables.
    pub table: bool,
    /// Bare URLs become links.
    pub autolink: bool,
    /// `- [ ]` items become checkboxes.
    pub tasklist: bool,
    /// `^text^` is raised.
    pub superscript: bool,
    /// Literal HTML in the markup is passed through as it is.
    pub raw_html: bool,
}

/// The HTML that the renderer produces for `markdown` under `options`.
pub uninterp spec fn rendered_html(markdown: Seq<char>, options: RenderOptions) -> Seq<char>;

/// The switches for a document body: strikethrough, tables, autolinks and
/// task lists on, superscript off, literal HTML passed through.
pub open spec fn document_options() -> RenderOptions {
    RenderOptions {
        strikethrough: true,
        table: true,
        autolink: true,
        tasklist: true,
        superscript: false,
        raw_html: true,
    }
}

/// The switches for a shared fragment: no extension, literal HTML passed
/// through.
pub open spec fn fragment_options() -> RenderOptions {
    RenderOptions {
        strikethrough: false,
        table: false,
        autolink: false,
        tasklist: false,
        superscript: false,
        raw_html: true,
    }
}

/// `comrak::markdown_to_html`, with the six switches of `options` set and
/// all others at their defaults. The renderer maps equal input to equal
/// output; what that output is, is not stated here.
#[verifier::external_body]
pub(crate) fn render(markdown: &str, options: &RenderOptions) -> (html: String)
    ensures
        html@ == rendered_html(markdown@, *options),
{
    let mut o = comrak::ComrakOptions::default();
    o.extension.strikethrough = options.strikethrough;
    o.extension.table = options.table;
    o.extension.autolink = options.autolink;
    o.extension.tasklist = options.tasklist;
    o.extension.superscript = options.superscript;
    o.render.unsafe_ = options.raw_html;
    comrak::markdown_to_html(markdown, &o)
}

/// Renders a document body.
pub fn render_document(markdown: &str) -> (html: String)
    ensures
        html@ == rendered_html(markdown@, document_options()),
{
    let options = RenderOptions {
        strikethrough: true,
        table: true,
        autolink: true,
        tasklist: true,
        superscript: false,
        raw_html: true,
    };
    render(markdown, &options)
}

/// Renders the markup of a shared fragment.
pub fn render_fragment(markdown: &str) -> (html: String)
    ensures
        html@ == rendered_html(markdown@, fragment_options()),
{
    let options = RenderOptions {
        strikethrough: false,
        table: false,
        autolink: false,
        tasklist: false,
        superscript: false,
        raw_html: true,
    };
    render(markdown, &options)
}

} // verus!
