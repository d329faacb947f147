//! The shared page fragments: head, navigation and footer.
//!
//! A fragment comes from at most one file. A file of ready HTML is used as it
//! is and goes before a file of markup, which is rendered and put inside the
//! fragment's tag. The head has no markup form.

use crate::markdown::{fragment_options, render_fragment, rendered_html};
use vstd::prelude::*;

verus! {

/// File name of the head template.
pub const HEAD_HTML: &'static str = "_head.html";

/// File name of the navigation fragment as HTML.
pub const NAV_HTML: &'static str = "_nav.html";

/// File name of the navigation fragment as markup.
pub const NAV_MARKUP: &'static str = "_nav.md";

/// File name of the footer fragment as HTML.
pub const FOOTER_HTML: &'static str = "_footer.html";

/// File name of the footer fragment as markup.
pub const FOOTER_MARKUP: &'static str = "_footer.md";

/// The three fragments.
pub enum FragmentKind {
    Head,
    Nav,
    Footer,
}

/// Where a fragment's HTML came from.
pub enum Fragment {
    /// Taken as it is from the fragment's HTML file.
    Custom(String),
    /// Rendered from the fragment's markup file.
    Derived(String),
    /// No file gave it.
    Absent,
}

/// The mathematical reading of a `Fragment`.
pub ghost enum FragmentView {
    Custom(Seq<char>),
    Derived(Seq<char>),
    Absent,
}

impl View for Fragment {
    type V = FragmentView;

    open spec fn view(&self) -> FragmentView {
        match self {
            Fragment::Custom(html) => FragmentView::Custom(html@),
            Fragment::Derived(html) => FragmentView::Derived(html@),
            Fragment::Absent => FragmentView::Absent,
        }
    }
}

/// The reading of an optional text.
pub open spec fn text_of(text: Option<String>) -> Option<Seq<char>> {
    match text {
        Some(t) => Some(t@),
        None => None,
    }
}

/// Rendered markup inside the tag of its fragment. The head has no tag.
pub open spec fn wrapped(kind: FragmentKind, inner: Seq<char>) -> Seq<char> {
    match kind {
        FragmentKind::Head => inner,
        FragmentKind::Nav => "<nav>"@ + inner + "</nav>"@,
        FragmentKind::Footer => "<footer>"@ + inner + "</footer>"@,
    }
}

/// The fragment that the two files give: the HTML file wins where it is
/// there; else the markup file is rendered and wrapped, unless the fragment
/// is the head, which takes no markup; else there is no fragment.
pub open spec fn resolved(kind: FragmentKind, html: Option<Seq<char>>, markup: Option<Seq<char>>) -> FragmentView {
    match (html, markup, kind) {
        (Some(h), _, _) => FragmentView::Custom(h),
        (None, _, FragmentKind::Head) => FragmentView::Absent,
        (None, Some(m), _) => FragmentView::Derived(
            wrapped(kind, rendered_html(m, fragment_options())),
        ),
        (None, None, _) => FragmentView::Absent,
    }
}

/// The HTML that a fragment puts into a page; nothing for an absent one.
pub open spec fn fragment_html(fragment: FragmentView) -> Seq<char> {
    match fragment {
        FragmentView::Custom(html) => html,
        FragmentView::Derived(html) => html,
        FragmentView::Absent => Seq::empty(),
    }
}

/// Puts rendered markup inside the tag of its fragment.
pub fn wrap_fragment(kind: &FragmentKind, inner: &str) -> (html: String)
    ensures
        html@ == wrapped(*kind, inner@),
{
    match kind {
        FragmentKind::Head => String::from_str(inner),
        FragmentKind::Nav => {
            let mut html = String::from_str("<nav>");
            html.append(inner);
            html.append("</nav>");
            html
        },
        FragmentKind::Footer => {
            let mut html = String::from_str("<footer>");
            html.append(inner);
            html.append("</footer>");
            html
        },
    }
}

/// Resolves a fragment from the contents of its HTML file and of its markup
/// file, each `None` where the file does not exist.
pub fn load_fragment(kind: FragmentKind, html: Option<String>, markup: Option<String>) -> (fragment:
    Fragment)
    ensures
        fragment@ == resolved(kind, text_of(html), text_of(markup)),
{
    match html {
        Some(h) => Fragment::Custom(h),
        None => match kind {
            FragmentKind::Head => Fragment::Absent,
            _ => match markup {
                Some(m) => {
                    let inner = render_fragment(m.as_str());
                    Fragment::Derived(wrap_fragment(&kind, inner.as_str()))
                },
                None => Fragment::Absent,
            },
        },
    }
}

impl Fragment {
    /// The HTML that the fragment puts into a page.
    pub fn into_html(self) -> (html: String)
        ensures
            html@ == fragment_html(self@),
    {
        match self {
            Fragment::Custom(html) => html,
            Fragment::Derived(html) => html,
            Fragment::Absent => String::new(),
        }
    }
}

/// The navigation fragment: the contents of `_nav.html` as they are; else
/// the rendering of `_nav.md` inside `<nav>`; else the empty string.
pub fn generate_nav(html: Option<String>, markup: Option<String>) -> (nav: String)
    ensures
        nav@ == fragment_html(resolved(FragmentKind::Nav, text_of(html), text_of(markup))),
{
    load_fragment(FragmentKind::Nav, html, markup).into_html()
}

/// The footer fragment: the contents of `_footer.html` as they are; else the
/// rendering of `_footer.md` inside `<footer>`; else the empty string.
pub fn generate_footer(html: Option<String>, markup: Option<String>) -> (footer: String)
    ensures
        footer@ == fragment_html(resolved(FragmentKind::Footer, text_of(html), text_of(markup))),
{
    load_fragment(FragmentKind::Footer, html, markup).into_html()
}

/// The head template: the contents of `_head.html` as they are; else the
/// empty string, which stands for the built-in template.
pub fn generate_head(html: Option<String>) -> (head: String)
    ensures
        head@ == fragment_html(resolved(FragmentKind::Head, text_of(html), None)),
{
    load_fragment(FragmentKind::Head, html, None).into_html()
}

} // verus!
