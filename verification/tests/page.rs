use site_compiler::{
    assemble_page, compile_page, generate_markdown_files, generate_nav, render_page,
    split_document, trim_root_dir, MarkdownFile,
};

fn file(path: &str, body: &str) -> MarkdownFile {
    MarkdownFile { path: path.to_string(), body: body.to_string() }
}

#[test]
fn assemble_page_puts_the_parts_in_order() {
    assert_eq!(
        assemble_page("<head></head>", "<nav></nav>", "<p>b</p>", "<footer></footer>"),
        "<html><head></head><body><main><nav></nav><p>b</p></main><footer></footer></body></html>"
    );
    assert_eq!(assemble_page("", "", "", ""), "<html><body><main></main></body></html>");
}

#[test]
fn page_with_custom_head_nav_and_footer() {
    let doc = split_document("---\ntitle: Home\n---\n# Hi");
    let html = render_page(doc, "/site", "<head><title>%title%</title></head>", "<nav>n</nav>", "<footer>f</footer>");
    assert_eq!(
        html,
        "<html><head><title>Home</title></head><body><main><nav>n</nav><h1>Hi</h1>\n</main><footer>f</footer></body></html>"
    );
}

#[test]
fn page_without_head_template_uses_the_built_in_one() {
    let doc = split_document("---\ntitle: Home\ndescription: Start\n---\ntext");
    let html = render_page(doc, "/site", "", "", "");
    assert_eq!(
        html,
        "<html><head><meta charset=\"utf-8\"><meta name=\"viewport\" content=\"width=device-width, initial-scale=1\"><link rel=\"icon\" href=\"/site/favicon.png\"><link rel=\"stylesheet\" href=\"/site/style.css\"><title>Home</title><meta name=\"description\" content=\"Start\"></head><body><main><p>text</p>\n</main></body></html>"
    );
}

#[test]
fn page_without_header_gets_the_default_title_and_description() {
    let doc = split_document("plain text");
    let html = render_page(doc, "", "%title%|%description%|%root_dir%|%other%", "", "");
    assert_eq!(
        html,
        "<html>Title|Description||<body><main><p>plain text</p>\n</main></body></html>"
    );
}

#[test]
fn nav_false_keeps_the_nav_out() {
    let doc = split_document("---\nnav: false\n---\nbody");
    let html = render_page(doc, "", "<head></head>", "<nav>links</nav>", "<footer>f</footer>");
    assert_eq!(
        html,
        "<html><head></head><body><main><p>body</p>\n</main><footer>f</footer></body></html>"
    );
    assert!(!html.contains("<nav>"));
}

#[test]
fn missing_nav_key_lets_the_nav_in() {
    let doc = split_document("---\ntitle: T\n---\nbody");
    let html = render_page(doc, "", "<head></head>", "<nav>links</nav>", "");
    assert_eq!(
        html,
        "<html><head></head><body><main><nav>links</nav><p>body</p>\n</main></body></html>"
    );
}

#[test]
fn footer_false_keeps_the_footer_out() {
    let doc = split_document("---\nfooter: false\n---\nbody");
    let html = render_page(doc, "", "<head></head>", "<nav>links</nav>", "<footer>f</footer>");
    assert_eq!(
        html,
        "<html><head></head><body><main><nav>links</nav><p>body</p>\n</main></body></html>"
    );
}

#[test]
fn nav_that_is_not_the_boolean_false_lets_the_nav_in() {
    let doc = split_document("---\nnav: \"false\"\nfooter: 0\n---\nbody");
    let html = render_page(doc, "", "<head></head>", "<nav>n</nav>", "<footer>f</footer>");
    assert_eq!(
        html,
        "<html><head></head><body><main><nav>n</nav><p>body</p>\n</main><footer>f</footer></body></html>"
    );
}

#[test]
fn header_cannot_set_the_root() {
    let doc = split_document("---\nroot_dir: /elsewhere\n---\nbody");
    let html = render_page(doc, "/site", "<base href=\"%root_dir%/\">", "", "");
    assert_eq!(html, "<html><base href=\"/site/\"><body><main><p>body</p>\n</main></body></html>");
}

#[test]
fn extra_header_keys_reach_a_custom_head() {
    let doc = split_document("---\nauthor: Ada\nyear: 1843\n---\nbody");
    let html = render_page(doc, "", "<meta name=\"author\" content=\"%author%\">%year%", "", "");
    assert_eq!(
        html,
        "<html><meta name=\"author\" content=\"Ada\">1843<body><main><p>body</p>\n</main></body></html>"
    );
}

#[test]
fn title_that_is_a_number_reaches_the_page() {
    let doc = split_document("---\ntitle: 2024\ndraft: true\nratio: 0.25\n---\nbody");
    let html = render_page(doc, "", "<title>%title%</title>%draft%,%ratio%", "", "");
    assert_eq!(
        html,
        "<html><title>2024</title>true,0.25<body><main><p>body</p>\n</main></body></html>"
    );
}

#[test]
fn body_is_rendered_with_the_document_extensions() {
    let doc = split_document("~~old~~ 2^10^\n\n- [x] done\n\n| a |\n|---|\n| b |\n\nwww.example.com\n\n<span class=\"x\">raw</span>");
    let html = render_page(doc, "", "<head></head>", "", "");
    assert!(html.contains("<del>old</del> 2^10^"));
    assert!(html.contains("<input type=\"checkbox\" disabled=\"\" checked=\"\" /> done"));
    assert!(html.contains("<table>"));
    assert!(html.contains("<a href=\"http://www.example.com\">www.example.com</a>"));
    assert!(html.contains("<span class=\"x\">raw</span>"));
    assert!(!html.contains("<sup>"));
}

#[test]
fn malformed_header_is_rendered_as_part_of_the_body() {
    let doc = split_document("---\n- a\n---\nbody");
    let html = render_page(doc, "", "%title%", "", "");
    assert!(html.starts_with("<html>Title<body><main>"));
    assert!(html.contains("<li>a</li>"));
    assert!(html.contains("body"));
}

#[test]
fn index_page_end_to_end() {
    let nav = generate_nav(None, Some("- [Home](/)".to_string()));
    let root_dir = trim_root_dir("/site");
    let index = file("site/index.md", "---\ntitle: Home\n---\n# Hi");
    let page = compile_page(&index, "build", "site", &root_dir, "", &nav, "");
    assert_eq!(page.path, "build/index.html");
    assert!(page.html.contains("<title>Home</title>"));
    assert!(page.html.contains("<link rel=\"stylesheet\" href=\"/site/style.css\">"));
    assert!(page.html.contains("<nav><ul>\n<li><a href=\"/\">Home</a></li>\n</ul>\n</nav>"));
    assert!(page.html.contains("<main><nav>"));
    let main_start = page.html.find("<main>").unwrap();
    let main_end = page.html.find("</main>").unwrap();
    let heading = page.html.find("<h1>Hi</h1>").unwrap();
    assert!(main_start < heading && heading < main_end);
    assert_eq!(
        page.html,
        "<html><head><meta charset=\"utf-8\"><meta name=\"viewport\" content=\"width=device-width, initial-scale=1\"><link rel=\"icon\" href=\"/site/favicon.png\"><link rel=\"stylesheet\" href=\"/site/style.css\"><title>Home</title><meta name=\"description\" content=\"Description\"></head><body><main><nav><ul>\n<li><a href=\"/\">Home</a></li>\n</ul>\n</nav><h1>Hi</h1>\n</main></body></html>"
    );
}

#[test]
fn pages_come_in_the_order_of_the_documents() {
    let files = vec![
        file("site/b.md", "---\ntitle: B\n---\nsecond"),
        file("site/sub/a.md", "first"),
    ];
    let pages = generate_markdown_files(&files, "out", "site", "", "<title>%title%</title>", "", "");
    assert_eq!(pages.len(), 2);
    assert_eq!(pages[0].path, "out/b.html");
    assert_eq!(
        pages[0].html,
        "<html><title>B</title><body><main><p>second</p>\n</main></body></html>"
    );
    assert_eq!(pages[1].path, "out/sub/a.html");
    assert_eq!(
        pages[1].html,
        "<html><title>Title</title><body><main><p>first</p>\n</main></body></html>"
    );
}

#[test]
fn no_documents_give_no_pages() {
    assert!(generate_markdown_files(&Vec::new(), "out", "site", "", "", "", "").is_empty());
}

#[test]
fn compiling_twice_gives_the_same_pages() {
    let files = vec![
        file("site/index.md", "---\ntitle: Home\ntags:\n  - a\n  - b\n---\n# Hi\n\n*text*"),
        file("site/about.md", "About"),
    ];
    let first = generate_markdown_files(&files, "build", "site", "/r", "", "<nav>n</nav>", "<footer>f</footer>");
    let second = generate_markdown_files(&files, "build", "site", "/r", "", "<nav>n</nav>", "<footer>f</footer>");
    assert_eq!(first.len(), second.len());
    for (x, y) in first.iter().zip(second.iter()) {
        assert_eq!(x.path, y.path);
        assert_eq!(x.html, y.html);
    }
}
