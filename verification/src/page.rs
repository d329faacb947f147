//! Compiling one document into one page.

use crate::discovery::{MarkdownFile, MarkdownFileView};
use crate::front_matter::{split, split_document, Document, DocumentView};
use crate::markdown::{document_options, render_document, rendered_html};
use crate::metadata::{decode, decode_metadata, head_args, head_context, Field};
use crate::paths::{page_output_path, page_path};
use crate::template::{expand, generate_head_html};
use vstd::prelude::*;

verus! {

/// The head template that is used where the site brings none.
pub const DEFAULT_HEAD: &'static str =
    "<head><meta charset=\"utf-8\"><meta name=\"viewport\" content=\"width=device-width, initial-scale=1\"><link rel=\"icon\" href=\"%root_dir%/favicon.png\"><link rel=\"stylesheet\" href=\"%root_dir%/style.css\"><title>%title%</title><meta name=\"description\" content=\"%description%\"></head>";

/// A compiled page and the place where it is to be written.
pub struct Page {
    /// The output path.
    pub path: String,
    /// The page's HTML.
    pub html: String,
}

/// The mathematical reading of a `Page`.
pub ghost struct PageView {
    pub path: Seq<char>,
    pub html: Seq<char>,
}

impl View for Page {
    type V = PageView;

    open spec fn view(&self) -> PageView {
        PageView { path: self.path@, html: self.html@ }
    }
}

/// The head template in force: the site's own where it has one, the built-in
/// one where the site's is empty.
pub open spec fn effective_head(head: Seq<char>) -> Seq<char> {
    if head.len() == 0 {
        DEFAULT_HEAD@
    } else {
        head
    }
}

/// What a fragment adds to a page: itself where the document wants it,
/// nothing where the document's header switches it off.
pub open spec fn included(fragment: Seq<char>, wanted: bool) -> Seq<char> {
    if wanted {
        fragment
    } else {
        Seq::empty()
    }
}

/// A page, put together from its parts.
pub open spec fn assembled(
    head_html: Seq<char>,
    nav: Seq<char>,
    body_html: Seq<char>,
    footer: Seq<char>,
) -> Seq<char> {
    "<html>"@ + head_html + "<body><main>"@ + nav + body_html + "</main>"@ + footer
        + "</body></html>"@
}

/// The HTML of the page for a split document.
pub open spec fn page_html(
    doc: DocumentView,
    root_dir: Seq<char>,
    head: Seq<char>,
    nav: Seq<char>,
    footer: Seq<char>,
) -> Seq<char> {
    assembled(
        expand(effective_head(head), head_context(doc.fields, root_dir)),
        included(nav, decode(doc.fields).nav),
        rendered_html(doc.body, document_options()),
        included(footer, decode(doc.fields).footer),
    )
}

/// The page for a document as it was read.
pub open spec fn page_of(
    file: MarkdownFileView,
    build_dir: Seq<char>,
    source_dir: Seq<char>,
    root_dir: Seq<char>,
    head: Seq<char>,
    nav: Seq<char>,
    footer: Seq<char>,
) -> PageView {
    PageView {
        path: page_path(build_dir, source_dir, file.path),
        html: page_html(split(file.body), root_dir, head, nav, footer),
    }
}

/// Puts a page together: the expanded head, then inside `<body><main>` the
/// navigation and the rendered body, and after `</main>` the footer.
pub fn assemble_page(head_html: &str, nav: &str, body_html: &str, footer: &str) -> (html: String)
    ensures
        html@ == assembled(head_html@, nav@, body_html@, footer@),
{
    let mut html = String::from_str("<html>");
    html.append(head_html);
    html.append("<body><main>");
    html.append(nav);
    html.append(body_html);
    html.append("</main>");
    html.append(footer);
    html.append("</body></html>");
    html
}

/// Renders a split document to the HTML of its page.
///
/// The head template is `head`, or the built-in one where `head` is empty,
/// expanded against the header's fields with `root_dir` set. The navigation
/// and the footer go in unless the header sets `nav` or `footer` to `false`.
pub fn render_page(doc: Document, root_dir: &str, head: &str, nav: &str, footer: &str) -> (html:
    String)
    ensures
        html@ == page_html(doc@, root_dir@, head@, nav@, footer@),
{
    let meta = decode_metadata(&doc.fields);
    let body_html = render_document(doc.body.as_str());
    let args = head_args(doc.fields, root_dir);
    let head_html = if head.is_empty() {
        generate_head_html(DEFAULT_HEAD, args)
    } else {
        generate_head_html(head, args)
    };
    let nav_part = if meta.nav {
        nav
    } else {
        ""
    };
    let footer_part = if meta.footer {
        footer
    } else {
        ""
    };
    proof {
        reveal_strlit("");
        assert(nav_part@ =~= included(nav@, meta.nav));
        assert(footer_part@ =~= included(footer@, meta.footer));
    }
    assemble_page(head_html.as_str(), nav_part, body_html.as_str(), footer_part)
}

/// Compiles one document: splits header from body, renders the page, and
/// maps the document's path to the page's place below `build_dir`.
pub fn compile_page(
    file: &MarkdownFile,
    build_dir: &str,
    source_dir: &str,
    root_dir: &str,
    head: &str,
    nav: &str,
    footer: &str,
) -> (page: Page)
    ensures
        page@ == page_of(file@, build_dir@, source_dir@, root_dir@, head@, nav@, footer@),
{
    let doc = split_document(file.body.as_str());
    let html = render_page(doc, root_dir, head, nav, footer);
    let path = page_output_path(build_dir, source_dir, file.path.as_str());
    Page { path, html }
}

/// Compiles every document, in order. The pages are returned, not written:
/// page `i` belongs to document `i`.
pub fn generate_markdown_files(
    markdown_files: &Vec<MarkdownFile>,
    build_dir: &str,
    source_dir: &str,
    root_dir: &str,
    head: &str,
    nav: &str,
    footer: &str,
) -> (pages: Vec<Page>)
    ensures
        pages.len() == markdown_files.len(),
        forall|i: int|
            0 <= i < pages.len() ==> (#[trigger] pages[i])@ == page_of(
                markdown_files[i]@,
                build_dir@,
                source_dir@,
                root_dir@,
                head@,
                nav@,
                footer@,
            ),
{
    let mut pages: Vec<Page> = Vec::new();
    let mut i: usize = 0;
    while i < markdown_files.len()
        invariant
            i <= markdown_files.len(),
            pages.len() == i,
            forall|k: int|
                0 <= k < i ==> (#[trigger] pages[k])@ == page_of(
                    markdown_files[k]@,
                    build_dir@,
                    source_dir@,
                    root_dir@,
                    head@,
                    nav@,
                    footer@,
                ),
        decreases markdown_files.len() - i,
    {
        let page = compile_page(
            &markdown_files[i],
            build_dir,
            source_dir,
            root_dir,
            head,
            nav,
            footer,
        );
        pages.push(page);
        i += 1;
    }
    pages
}

/// A document whose header sets `nav` to `false` gets the page that it would
/// get if the site had no navigation fragment at all.
pub proof fn lemma_nav_switched_off(
    doc: DocumentView,
    root_dir: Seq<char>,
    head: Seq<char>,
    nav: Seq<char>,
    footer: Seq<char>,
)
    requires
        doc.fields.get("nav"@) == Some(Field::Flag(false)),
    ensures
        page_html(doc, root_dir, head, nav, footer) == page_html(
            doc,
            root_dir,
            head,
            Seq::empty(),
            footer,
        ),
{
}

/// A document whose header has no `nav` key gets the navigation fragment,
/// whole and right after `<body><main>`.
pub proof fn lemma_nav_on_by_default(
    doc: DocumentView,
    root_dir: Seq<char>,
    head: Seq<char>,
    nav: Seq<char>,
    footer: Seq<char>,
)
    requires
        !doc.fields.contains_key("nav"@),
    ensures
        page_html(doc, root_dir, head, nav, footer) == assembled(
            expand(effective_head(head), head_context(doc.fields, root_dir)),
            nav,
            rendered_html(doc.body, document_options()),
            included(footer, decode(doc.fields).footer),
        ),
{
}

/// A document whose header sets `footer` to `false` gets the page that it
/// would get if the site had no footer fragment at all.
pub proof fn lemma_footer_switched_off(
    doc: DocumentView,
    root_dir: Seq<char>,
    head: Seq<char>,
    nav: Seq<char>,
    footer: Seq<char>,
)
    requires
        doc.fields.get("footer"@) == Some(Field::Flag(false)),
    ensures
        page_html(doc, root_dir, head, nav, footer) == page_html(
            doc,
            root_dir,
            head,
            nav,
            Seq::empty(),
        ),
{
}

/// A document whose header has no `footer` key gets the footer fragment,
/// whole and right after `</main>`.
pub proof fn lemma_footer_on_by_default(
    doc: DocumentView,
    root_dir: Seq<char>,
    head: Seq<char>,
    nav: Seq<char>,
    footer: Seq<char>,
)
    requires
        !doc.fields.contains_key("footer"@),
    ensures
        page_html(doc, root_dir, head, nav, footer) == assembled(
            expand(effective_head(head), head_context(doc.fields, root_dir)),
            included(nav, decode(doc.fields).nav),
            rendered_html(doc.body, document_options()),
            footer,
        ),
{
}

} // verus!
