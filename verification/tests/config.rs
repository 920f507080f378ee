use inker_config::config::{ConfigError, InkerConfig};
use inker_config::scalar::{parse_bool, parse_i32, parse_u16};

fn templates() -> Vec<String> {
    vec!["bs-darkly".to_string(), "plain".to_string()]
}

#[test]
fn defaults_when_no_config_file() {
    let text = InkerConfig::default_config_text();
    let c = InkerConfig::from_text(text, &templates()).unwrap();
    assert_eq!(c.base_url, "");
    assert_eq!(c.port, 8080);
    assert_eq!(c.website_name, "inker website");
    assert_eq!(c.template_name, "bs-darkly");
    assert_eq!(c.posts_per_page, 4);
    assert_eq!(c.pagination, false);
    assert_eq!(c.generate_nav, false);
    assert_eq!(c.icon_path, "none");
    assert!(c.extra_contents.is_empty());
    assert!(c.headers.is_empty());
}

#[test]
fn empty_document_also_yields_defaults() {
    let c = InkerConfig::from_text("unrelated: value\n", &templates()).unwrap();
    assert_eq!(c.base_url, "");
    assert_eq!(c.port, 8080);
    assert_eq!(c.website_name, "inker website");
    assert_eq!(c.template_name, "bs-darkly");
    assert_eq!(c.posts_per_page, 4);
}

#[test]
fn one_trailing_slash_is_stripped() {
    let c = InkerConfig::from_text("base_url: \"http://x/\"\n", &templates()).unwrap();
    assert_eq!(c.base_url, "http://x");
}

#[test]
fn url_without_trailing_slash_is_unchanged() {
    let c = InkerConfig::from_text("base_url: \"http://x\"\n", &templates()).unwrap();
    assert_eq!(c.base_url, "http://x");
}

#[test]
fn only_one_of_two_trailing_slashes_is_stripped() {
    assert_eq!(
        inker_config::config::strip_trailing_slash("http://x//".to_string()),
        "http://x/"
    );
    assert_eq!(
        inker_config::config::strip_trailing_slash("".to_string()),
        ""
    );
    assert_eq!(
        inker_config::config::strip_trailing_slash("/".to_string()),
        ""
    );
}

#[test]
fn unknown_template_is_the_recoverable_error() {
    let r = InkerConfig::from_text("template_name: \"missing\"\n", &templates());
    match r {
        Err(ConfigError::TemplateNotFound(name)) => assert_eq!(name, "missing"),
        _ => panic!("expected TemplateNotFound"),
    }
}

#[test]
fn known_template_is_accepted() {
    let c = InkerConfig::from_text("template_name: \"plain\"\n", &templates()).unwrap();
    assert_eq!(c.template_name, "plain");
}

#[test]
fn absent_extra_section_gives_empty_list() {
    let c = InkerConfig::from_text("webserver_port: \"8081\"\n", &templates()).unwrap();
    assert!(c.extra_contents.is_empty());
}

#[test]
fn extra_entries_preserve_file_order() {
    let text = "extra:\n  - about.md: about_tpl\n    title: \"About\"\n  - contact.md: contact_tpl\n    title: \"Contact\"\n";
    let c = InkerConfig::from_text(text, &templates()).unwrap();
    assert_eq!(c.extra_contents.len(), 2);
    assert_eq!(c.extra_contents[0].content_src, "about.md");
    assert_eq!(c.extra_contents[0].template_src, "about_tpl");
    assert_eq!(c.extra_contents[0].title, "About");
    assert_eq!(c.extra_contents[1].content_src, "contact.md");
    assert_eq!(c.extra_contents[1].template_src, "contact_tpl");
    assert_eq!(c.extra_contents[1].title, "Contact");
}

#[test]
fn single_pair_extra_entry_uses_its_value_as_title() {
    let text = "extra:\n  - about.md: about_tpl\n";
    let c = InkerConfig::from_text(text, &templates()).unwrap();
    assert_eq!(c.extra_contents.len(), 1);
    assert_eq!(c.extra_contents[0].content_src, "about.md");
    assert_eq!(c.extra_contents[0].template_src, "about_tpl");
    assert_eq!(c.extra_contents[0].title, "about_tpl");
}

#[test]
fn scalar_extra_section_is_fatal() {
    let r = InkerConfig::from_text("extra: \"oops\"\n", &templates());
    assert!(matches!(r, Err(ConfigError::BadExtra)));
}

#[test]
fn extra_item_without_mapping_is_fatal() {
    let r = InkerConfig::from_text("extra:\n  - just_a_string\n", &templates());
    assert!(matches!(r, Err(ConfigError::BadExtra)));
}

#[test]
fn absent_headers_section_gives_empty_list() {
    let c = InkerConfig::from_text("webserver_port: \"8081\"\n", &templates()).unwrap();
    assert!(c.headers.is_empty());
}

#[test]
fn headers_preserve_file_order_verbatim() {
    let text = "headers:\n  - \"<meta charset=utf-8>\"\n  - \"<script src=a.js></script>\"\n";
    let c = InkerConfig::from_text(text, &templates()).unwrap();
    assert_eq!(
        c.headers,
        vec![
            "<meta charset=utf-8>".to_string(),
            "<script src=a.js></script>".to_string()
        ]
    );
}

#[test]
fn header_item_that_is_a_mapping_is_fatal() {
    let r = InkerConfig::from_text("headers:\n  - a: b\n", &templates());
    assert!(matches!(r, Err(ConfigError::BadHeaders)));
}

#[test]
fn non_numeric_port_is_fatal() {
    let r = InkerConfig::from_text("webserver_port: \"not-a-number\"\n", &templates());
    assert!(matches!(r, Err(ConfigError::BadPort)));
}

#[test]
fn quoted_port_is_used() {
    let c = InkerConfig::from_text("webserver_port: \"8081\"\n", &templates()).unwrap();
    assert_eq!(c.port, 8081);
}

#[test]
fn unquoted_port_falls_back_to_default() {
    // An unquoted number is not a string scalar, so the loader treats the
    // key as absent and uses the default.
    let c = InkerConfig::from_text("webserver_port: 9000\n", &templates()).unwrap();
    assert_eq!(c.port, 8080);
}

#[test]
fn non_numeric_posts_per_page_is_fatal() {
    let r = InkerConfig::from_text("posts_per_page: \"many\"\n", &templates());
    assert!(matches!(r, Err(ConfigError::BadPostsPerPage)));
}

#[test]
fn non_boolean_pagination_is_fatal() {
    let r = InkerConfig::from_text("pagination: \"True\"\n", &templates());
    assert!(matches!(r, Err(ConfigError::BadPagination)));
}

#[test]
fn non_boolean_generate_nav_is_fatal() {
    let r = InkerConfig::from_text("generate_nav: \"yes\"\n", &templates());
    assert!(matches!(r, Err(ConfigError::BadGenerateNav)));
}

#[test]
fn boolean_fields_parse() {
    let text = "pagination: \"true\"\ngenerate_nav: \"false\"\n";
    let c = InkerConfig::from_text(text, &templates()).unwrap();
    assert_eq!(c.pagination, true);
    assert_eq!(c.generate_nav, false);
}

#[test]
fn unparseable_text_is_fatal() {
    let r = InkerConfig::from_text("]\n", &templates());
    assert!(matches!(r, Err(ConfigError::Malformed)));
}

#[test]
fn empty_text_is_fatal() {
    let r = InkerConfig::from_text("", &templates());
    assert!(matches!(r, Err(ConfigError::Malformed)));
}

#[test]
fn webserver_usage_empties_the_base_url_only() {
    let text = "base_url: \"http://x/blog/\"\nwebserver_port: \"8081\"\n";
    let mut c = InkerConfig::from_text(text, &templates()).unwrap();
    assert_eq!(c.base_url, "http://x/blog");
    c.webserver_usage();
    assert_eq!(c.base_url, "");
    assert_eq!(c.port, 8081);
    assert_eq!(c.template_name, "bs-darkly");
}

#[test]
fn fixed_folder_names() {
    assert_eq!(InkerConfig::publish_folder(), "publish");
    assert_eq!(InkerConfig::build_folder(), "build");
    assert_eq!(InkerConfig::content_folder(), "content");
    assert_eq!(InkerConfig::posts_folder(), "posts");
}

#[test]
fn template_folder_joins_root_and_name() {
    let c = InkerConfig::from_text("template_name: \"plain\"\n", &templates()).unwrap();
    assert_eq!(c.template_folder(), "templates/plain");
}

#[test]
fn post_template_wraps_model_with_date_and_placeholder() {
    let out = InkerConfig::post_template("title: hello\n", "2024-01-02T03:04:05+00:00");
    assert_eq!(
        out,
        "---\ntitle: hello\n\ndate: 2024-01-02T03:04:05+00:00 # this field is mandatory to have \n---\nenter your content here"
    );
    assert!(out.contains("\ndate: 2024-01-02T03:04:05+00:00"));
    assert!(out.ends_with("enter your content here"));
}

#[test]
fn current_time_is_rfc3339() {
    let now = InkerConfig::current_time();
    assert!(chrono::DateTime::parse_from_rfc3339(&now).is_ok());
    let out = InkerConfig::post_template("body: x\n", &now);
    let date_line = out
        .lines()
        .find(|l| l.starts_with("date: "))
        .expect("a date: line");
    let stamp = date_line
        .trim_start_matches("date: ")
        .split(" #")
        .next()
        .unwrap();
    assert!(chrono::DateTime::parse_from_rfc3339(stamp).is_ok());
    assert!(out.ends_with("enter your content here"));
}

#[test]
fn parse_u16_accepts_exactly_std_syntax() {
    assert_eq!(parse_u16("0"), Some(0));
    assert_eq!(parse_u16("65535"), Some(65535));
    assert_eq!(parse_u16("65536"), None);
    assert_eq!(parse_u16("+123"), Some(123));
    assert_eq!(parse_u16("-1"), None);
    assert_eq!(parse_u16(""), None);
    assert_eq!(parse_u16("+"), None);
    assert_eq!(parse_u16("12a"), None);
    assert_eq!(parse_u16("0008080"), Some(8080));
}

#[test]
fn parse_i32_accepts_exactly_std_syntax() {
    assert_eq!(parse_i32("4"), Some(4));
    assert_eq!(parse_i32("-4"), Some(-4));
    assert_eq!(parse_i32("+4"), Some(4));
    assert_eq!(parse_i32("2147483647"), Some(2147483647));
    assert_eq!(parse_i32("2147483648"), None);
    assert_eq!(parse_i32("-2147483648"), Some(i32::MIN));
    assert_eq!(parse_i32("-2147483649"), None);
    assert_eq!(parse_i32(""), None);
    assert_eq!(parse_i32("-"), None);
    assert_eq!(parse_i32("1 2"), None);
}

#[test]
fn parse_bool_accepts_exactly_std_syntax() {
    assert_eq!(parse_bool("true"), Some(true));
    assert_eq!(parse_bool("false"), Some(false));
    assert_eq!(parse_bool("True"), None);
    assert_eq!(parse_bool("1"), None);
    assert_eq!(parse_bool(""), None);
}

#[test]
fn content_info_new_packs_fields() {
    let ci = inker_config::config::ContentInfo::new(
        "a.md".to_string(),
        "tpl".to_string(),
        "A".to_string(),
    );
    assert_eq!(ci.content_src, "a.md");
    assert_eq!(ci.template_src, "tpl");
    assert_eq!(ci.title, "A");
}

#[test]
fn non_mapping_document_yields_defaults() {
    let c = InkerConfig::from_text("- a\n- b\n", &templates()).unwrap();
    assert_eq!(c.port, 8080);
    assert_eq!(c.template_name, "bs-darkly");
    assert!(c.extra_contents.is_empty());
}

#[test]
fn repeated_key_keeps_the_last_value() {
    let text = "webserver_port: \"8081\"\nwebserver_port: \"8082\"\n";
    let c = InkerConfig::from_text(text, &templates()).unwrap();
    assert_eq!(c.port, 8082);
}
