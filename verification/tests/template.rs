use serde_json::Value;
use site_compiler::{generate_head_html, head_args, DEFAULT_HEAD};

fn text(s: &str) -> Value {
    Value::String(s.to_string())
}

#[test]
fn test_generate_head_html() {
    let mut metadata = serde_json::Map::new();
    metadata.insert("title".to_string(), Value::String("Test".to_string()));
    metadata.insert("description".to_string(), Value::String("Test description".to_string()));
    metadata.insert("root_dir".to_string(), Value::String("/".to_string()));

    let head = generate_head_html(DEFAULT_HEAD, metadata);

    assert!(head.contains("<title>Test</title>"));
    assert!(head.contains("<meta name=\"description\" content=\"Test description\">"));
    assert!(head.contains("<link rel=\"stylesheet\" href=\"//style.css\">"));

    let mut metadata = serde_json::Map::new();
    metadata.insert("title".to_string(), Value::String("Test".to_string()));
    metadata.insert("description".to_string(), Value::String("Test description".to_string()));
    metadata.insert("root_dir".to_string(), Value::String("/test/".to_string()));

    let custom_head = "<title>%title%</title><meta name=\"description\" content=\"%description%\"><link rel=\"stylesheet\" href=\"%root_dir%style.css\">";
    let head = generate_head_html(custom_head, metadata);

    assert!(head.contains("<title>Test</title>"));
    assert!(head.contains("<meta name=\"description\" content=\"Test description\">"));
    assert!(head.contains("<link rel=\"stylesheet\" href=\"/test/style.css\">"));
}

#[test]
fn default_head_in_full() {
    let mut metadata = serde_json::Map::new();
    metadata.insert("title".to_string(), text("Test"));
    metadata.insert("description".to_string(), text("Test description"));
    metadata.insert("root_dir".to_string(), text("/"));

    let head = generate_head_html(DEFAULT_HEAD, metadata);

    assert_eq!(
        head,
        "<head><meta charset=\"utf-8\"><meta name=\"viewport\" content=\"width=device-width, initial-scale=1\"><link rel=\"icon\" href=\"//favicon.png\"><link rel=\"stylesheet\" href=\"//style.css\"><title>Test</title><meta name=\"description\" content=\"Test description\"></head>"
    );
}

#[test]
fn default_head_with_empty_root_links_from_the_top() {
    let mut metadata = serde_json::Map::new();
    metadata.insert("title".to_string(), text("Test"));
    metadata.insert("description".to_string(), text("Test description"));
    metadata.insert("root_dir".to_string(), text(""));

    let head = generate_head_html(DEFAULT_HEAD, metadata);

    assert!(head.contains("<link rel=\"stylesheet\" href=\"/style.css\">"));
    assert!(head.contains("<link rel=\"icon\" href=\"/favicon.png\">"));
}

#[test]
fn custom_head_in_full() {
    let mut metadata = serde_json::Map::new();
    metadata.insert("title".to_string(), text("Test"));
    metadata.insert("description".to_string(), text("Test description"));
    metadata.insert("root_dir".to_string(), text("/test/"));

    let custom_head = "<title>%title%</title><meta name=\"description\" content=\"%description%\"><link rel=\"stylesheet\" href=\"%root_dir%style.css\">";
    let head = generate_head_html(custom_head, metadata);

    assert_eq!(
        head,
        "<title>Test</title><meta name=\"description\" content=\"Test description\"><link rel=\"stylesheet\" href=\"/test/style.css\">"
    );
}

#[test]
fn missing_key_expands_to_nothing() {
    assert_eq!(generate_head_html("%missing%", serde_json::Map::new()), "");
}

#[test]
fn missing_key_inside_text_leaves_the_text() {
    assert_eq!(generate_head_html("a%missing%b", serde_json::Map::new()), "ab");
}

#[test]
fn template_without_placeholder_is_unchanged() {
    let mut fields = serde_json::Map::new();
    fields.insert("title".to_string(), text("T"));
    assert_eq!(generate_head_html("<head>plain</head>", fields), "<head>plain</head>");
    assert_eq!(generate_head_html("", serde_json::Map::new()), "");
}

#[test]
fn unclosed_delimiter_stays_with_what_follows() {
    let mut fields = serde_json::Map::new();
    fields.insert("a".to_string(), text("X"));
    assert_eq!(generate_head_html("50% off", fields.clone()), "50% off");
    assert_eq!(generate_head_html("%a%%a", fields.clone()), "X%a");
    assert_eq!(generate_head_html("%", fields), "%");
}

#[test]
fn keys_match_exactly_and_by_case() {
    let mut fields = serde_json::Map::new();
    fields.insert("title".to_string(), text("lower"));
    fields.insert("Title".to_string(), text("upper"));
    assert_eq!(generate_head_html("%title%|%Title%|%TITLE%|% title%", fields), "lower|upper||");
}

#[test]
fn inserted_text_is_not_expanded_again() {
    let mut fields = serde_json::Map::new();
    fields.insert("a".to_string(), text("%b%"));
    fields.insert("b".to_string(), text("deep"));
    assert_eq!(generate_head_html("[%a%][%b%]", fields), "[%b%][deep]");
}

#[test]
fn number_expands_to_its_text() {
    let mut fields = serde_json::Map::new();
    fields.insert("year".to_string(), Value::from(2024));
    assert_eq!(generate_head_html("%year%", fields), "2024");

    let mut fields = serde_json::Map::new();
    fields.insert("below".to_string(), Value::from(-12));
    fields.insert("half".to_string(), Value::from(1.5));
    fields.insert("whole".to_string(), Value::from(2.0));
    fields.insert("big".to_string(), Value::from(18446744073709551615u64));
    assert_eq!(
        generate_head_html("%below% %half% %whole% %big%", fields),
        "-12 1.5 2.0 18446744073709551615"
    );
}

#[test]
fn boolean_expands_to_true_or_false() {
    let mut fields = serde_json::Map::new();
    fields.insert("yes".to_string(), Value::Bool(true));
    fields.insert("no".to_string(), Value::Bool(false));
    assert_eq!(generate_head_html("%yes%/%no%", fields), "true/false");
}

#[test]
fn value_without_text_expands_to_nothing() {
    let mut fields = serde_json::Map::new();
    fields.insert("z".to_string(), Value::Null);
    fields.insert("l".to_string(), Value::Array(vec![text("x")]));
    fields.insert("m".to_string(), Value::Object(serde_json::Map::new()));
    assert_eq!(generate_head_html("<%z%%l%%m%>", fields), "<>");
}

#[test]
fn empty_key_is_a_key_like_any_other() {
    let mut fields = serde_json::Map::new();
    assert_eq!(generate_head_html("a%%b", fields.clone()), "ab");
    fields.insert("".to_string(), text("-"));
    assert_eq!(generate_head_html("a%%b", fields), "a-b");
}

#[test]
fn placeholders_work_on_text_beyond_ascii() {
    let mut fields = serde_json::Map::new();
    fields.insert("clé".to_string(), text("värde ✓"));
    assert_eq!(generate_head_html("«%clé%» – %clé%", fields), "«värde ✓» – värde ✓");
}

#[test]
fn head_args_apply_defaults_and_set_root() {
    let args = head_args(serde_json::Map::new(), "/site");
    assert_eq!(args.get("title"), Some(&text("Title")));
    assert_eq!(args.get("description"), Some(&text("Description")));
    assert_eq!(args.get("root_dir"), Some(&text("/site")));
    assert_eq!(args.len(), 3);
}

#[test]
fn head_args_keep_header_values_but_not_its_root() {
    let mut header = serde_json::Map::new();
    header.insert("title".to_string(), text("Home"));
    header.insert("author".to_string(), text("Ada"));
    header.insert("root_dir".to_string(), text("/evil"));
    header.insert("description".to_string(), Value::from(3));
    let args = head_args(header, "/site");
    assert_eq!(args.get("title"), Some(&text("Home")));
    assert_eq!(args.get("author"), Some(&text("Ada")));
    assert_eq!(args.get("root_dir"), Some(&text("/site")));
    assert_eq!(args.get("description"), Some(&text("3")));
    assert_eq!(
        generate_head_html("%root_dir%|%title%|%author%|%description%", args),
        "/site|Home|Ada|3"
    );
}
