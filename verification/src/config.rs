//! The configuration snapshot and its loader.
//!
//! `InkerConfig::from_text` turns raw YAML text into a validated snapshot:
//! every scalar field falls back to its documented default when absent,
//! malformed numeric or boolean fields are distinct fatal errors, a template
//! name that names no directory of the templates root is the one recoverable
//! error, and the optional `extra` and `headers` sections become
//! order-preserving lists.

use vstd::prelude::*;
use crate::scalar::{
    parse_bool,
    parse_i32,
    parse_u16,
    spec_parse_bool,
    spec_parse_i32,
    spec_parse_u16,
};
use crate::tree::{
    field_or,
    lookup,
    parse_document,
    parsed_doc,
    spec_field_or,
    spec_lookup,
    Doc,
    Item,
    Value,
};

verus! {

/// One auxiliary, non-blog page: a content source file rendered through a
/// template under a display title.
#[derive(Debug)]
pub struct ContentInfo {
    pub content_src: String,
    pub template_src: String,
    pub title: String,
}

impl ContentInfo {
    /// Packs the three fields of an auxiliary page entry.
    pub fn new(content_src: String, template_src: String, title: String) -> (r: ContentInfo)
        ensures
            r.content_src == content_src,
            r.template_src == template_src,
            r.title == title,
    {
        ContentInfo { content_src, template_src, title }
    }
}

/// Why loading a configuration failed.  Only `TemplateNotFound` is meant to
/// be handled by the caller; every other variant marks an unusable build
/// environment on which startup must stop.
#[derive(Debug)]
pub enum ConfigError {
    /// The text is not valid YAML, or holds no document.
    Malformed,
    /// `webserver_port` is present but not an unsigned 16-bit integer.
    BadPort,
    /// `posts_per_page` is present but not a signed 32-bit integer.
    BadPostsPerPage,
    /// `pagination` is present but neither `true` nor `false`.
    BadPagination,
    /// `generate_nav` is present but neither `true` nor `false`.
    BadGenerateNav,
    /// The `extra` section is present but not a list of usable mappings.
    BadExtra,
    /// The `headers` section is present but not a list of strings.
    BadHeaders,
    /// `template_name` names no directory of the templates root; carries the
    /// offending name.
    TemplateNotFound(String),
}

/// The validated, read-only configuration snapshot.
#[derive(Debug)]
pub struct InkerConfig {
    pub base_url: String,
    pub port: u16,
    pub website_name: String,
    pub template_name: String,
    pub posts_per_page: i32,
    pub generate_nav: bool,
    pub pagination: bool,
    pub icon_path: String,
    pub extra_contents: Vec<ContentInfo>,
    pub headers: Vec<String>,
}

/// `s` with exactly one trailing slash removed, when it has one.
pub open spec fn spec_strip_slash(s: Seq<char>) -> Seq<char> {
    if s.len() > 0 && s.last() == '/' {
        s.drop_last()
    } else {
        s
    }
}

/// The template set `ts` includes `name`.
pub open spec fn spec_has_template(ts: Seq<String>, name: Seq<char>) -> bool {
    exists|i: int| 0 <= i < ts.len() && ts[i]@ == name
}

/// The base URL of `d`: the configured one (default `/`) less one trailing
/// slash.
pub open spec fn spec_base_url(d: Doc) -> Seq<char> {
    spec_strip_slash(spec_field_or(d, "base_url"@, "/"@))
}

/// The listen port of `d`, if its text parses.
pub open spec fn spec_port(d: Doc) -> Option<u16> {
    spec_parse_u16(spec_field_or(d, "webserver_port"@, "8080"@))
}

/// The site name of `d`.
pub open spec fn spec_website_name(d: Doc) -> Seq<char> {
    spec_field_or(d, "website_name"@, "inker website"@)
}

/// The template set name of `d`.
pub open spec fn spec_template_name(d: Doc) -> Seq<char> {
    spec_field_or(d, "template_name"@, "bs-darkly"@)
}

/// The posts-per-page count of `d`, if its text parses.
pub open spec fn spec_posts_per_page(d: Doc) -> Option<i32> {
    spec_parse_i32(spec_field_or(d, "posts_per_page"@, "4"@))
}

/// The pagination flag of `d`, if its text parses.
pub open spec fn spec_pagination(d: Doc) -> Option<bool> {
    spec_parse_bool(spec_field_or(d, "pagination"@, "false"@))
}

/// The navigation-generation flag of `d`, if its text parses.
pub open spec fn spec_generate_nav(d: Doc) -> Option<bool> {
    spec_parse_bool(spec_field_or(d, "generate_nav"@, "false"@))
}

/// The icon path of `d` (`none` meaning no icon).
pub open spec fn spec_icon_path(d: Doc) -> Seq<char> {
    spec_field_or(d, "icon_path"@, "none"@)
}

/// Every scalar field of `d` parses.
pub open spec fn spec_scalars_ok(d: Doc) -> bool {
    &&& spec_port(d) is Some
    &&& spec_posts_per_page(d) is Some
    &&& spec_pagination(d) is Some
    &&& spec_generate_nav(d) is Some
}

/// The three strings of one auxiliary page entry: the first pair of the
/// mapping gives source and template, the last pair gives the title.
pub open spec fn spec_item_fields(it: Item) -> Option<(Seq<char>, Seq<char>, Seq<char>)> {
    match it {
        Item::Mapping(pairs) => if pairs@.len() > 0 {
            match (pairs@.first().0, pairs@.first().1, pairs@.last().1) {
                (Option::Some(a), Option::Some(b), Option::Some(t)) => Option::Some(
                    (a@, b@, t@),
                ),
                _ => Option::None,
            }
        } else {
            Option::None
        },
        Item::Single(_) => Option::None,
    }
}

/// The string of one header entry.
pub open spec fn spec_header_field(it: Item) -> Option<Seq<char>> {
    match it {
        Item::Single(Option::Some(s)) => Option::Some(s@),
        _ => Option::None,
    }
}

/// `ci` holds exactly the three strings of `it`.
pub open spec fn spec_content_matches(ci: ContentInfo, it: Item) -> bool {
    match spec_item_fields(it) {
        Option::Some(f) => ci.content_src@ == f.0 && ci.template_src@ == f.1 && ci.title@ == f.2,
        Option::None => false,
    }
}

/// The `extra` section of `d` is usable: absent, or a list whose every item
/// yields its three strings.
pub open spec fn spec_extra_ok(d: Doc) -> bool {
    match spec_lookup(d.entries@, "extra"@) {
        Option::None => true,
        Option::Some(Value::List(items)) => forall|i: int|
            0 <= i < items@.len() ==> spec_item_fields(items@[i]) is Some,
        Option::Some(_) => false,
    }
}

/// The `headers` section of `d` is usable: absent, or a list of strings.
pub open spec fn spec_headers_ok(d: Doc) -> bool {
    match spec_lookup(d.entries@, "headers"@) {
        Option::None => true,
        Option::Some(Value::List(items)) => forall|i: int|
            0 <= i < items@.len() ==> spec_header_field(items@[i]) is Some,
        Option::Some(_) => false,
    }
}

/// `ex` is the extra list of `d`: empty when the section is absent, and
/// otherwise one entry per item, in file order.
pub open spec fn spec_extras_match(ex: Seq<ContentInfo>, d: Doc) -> bool {
    match spec_lookup(d.entries@, "extra"@) {
        Option::None => ex.len() == 0,
        Option::Some(Value::List(items)) => ex.len() == items@.len() && forall|i: int|
            0 <= i < items@.len() ==> spec_content_matches(ex[i], items@[i]),
        Option::Some(_) => false,
    }
}

/// `hs` is the header list of `d`: empty when the section is absent, and
/// otherwise the items' strings, verbatim and in file order.
pub open spec fn spec_headers_match(hs: Seq<String>, d: Doc) -> bool {
    match spec_lookup(d.entries@, "headers"@) {
        Option::None => hs.len() == 0,
        Option::Some(Value::List(items)) => hs.len() == items@.len() && forall|i: int|
            0 <= i < items@.len() ==> spec_header_field(items@[i]) == Option::Some(hs[i]@),
        Option::Some(_) => false,
    }
}

/// Loading `d` against template set `ts` fails.
pub open spec fn spec_load_fails(d: Doc, ts: Seq<String>) -> bool {
    ||| !spec_scalars_ok(d)
    ||| !spec_has_template(ts, spec_template_name(d))
    ||| !spec_extra_ok(d)
    ||| !spec_headers_ok(d)
}

/// `e` is the error of the first failing loading step: the scalar fields in
/// their order, then template validation, then the `extra` section, then the
/// `headers` section.
pub open spec fn spec_error_matches(e: ConfigError, d: Doc, ts: Seq<String>) -> bool {
    match e {
        ConfigError::Malformed => false,
        ConfigError::BadPort => spec_port(d) is None,
        ConfigError::BadPostsPerPage => spec_port(d) is Some && spec_posts_per_page(d) is None,
        ConfigError::BadPagination => spec_port(d) is Some && spec_posts_per_page(d) is Some
            && spec_pagination(d) is None,
        ConfigError::BadGenerateNav => spec_port(d) is Some && spec_posts_per_page(d) is Some
            && spec_pagination(d) is Some && spec_generate_nav(d) is None,
        ConfigError::TemplateNotFound(name) => spec_scalars_ok(d) && name@ == spec_template_name(
            d,
        ) && !spec_has_template(ts, spec_template_name(d)),
        ConfigError::BadExtra => spec_scalars_ok(d) && spec_has_template(
            ts,
            spec_template_name(d),
        ) && !spec_extra_ok(d),
        ConfigError::BadHeaders => spec_scalars_ok(d) && spec_has_template(
            ts,
            spec_template_name(d),
        ) && spec_extra_ok(d) && !spec_headers_ok(d),
    }
}

/// Every field of `c` is what document `d` and the defaults dictate, and the
/// template set `ts` includes its template.
pub open spec fn spec_config_matches(c: InkerConfig, d: Doc, ts: Seq<String>) -> bool {
    &&& c.base_url@ == spec_base_url(d)
    &&& spec_port(d) == Option::Some(c.port)
    &&& c.website_name@ == spec_website_name(d)
    &&& c.template_name@ == spec_template_name(d)
    &&& spec_has_template(ts, c.template_name@)
    &&& spec_posts_per_page(d) == Option::Some(c.posts_per_page)
    &&& spec_pagination(d) == Option::Some(c.pagination)
    &&& spec_generate_nav(d) == Option::Some(c.generate_nav)
    &&& c.icon_path@ == spec_icon_path(d)
    &&& spec_extras_match(c.extra_contents@, d)
    &&& spec_headers_match(c.headers@, d)
}

/// The default post text around `model`: front-matter delimiters, a
/// mandatory `date:` line holding `timestamp`, and a placeholder body.
pub open spec fn spec_post_template(model: Seq<char>, timestamp: Seq<char>) -> Seq<char> {
    "---\n"@ + model + "\ndate: "@ + timestamp
        + " # this field is mandatory to have \n---\nenter your content here"@
}

/// Strips exactly one trailing slash from `s`, if it has one.
pub fn strip_trailing_slash(s: String) -> (r: String)
    ensures
        r@ == spec_strip_slash(s@),
{
    let a = s.as_str();
    let n = a.unicode_len();
    if n > 0 && a.get_char(n - 1) == '/' {
        let stripped = a.substring_char(0, n - 1).to_owned();
        proof {
            assert(s@.subrange(0, n - 1) =~= s@.drop_last());
        }
        stripped
    } else {
        s
    }
}

/// Tells whether the template set `ts` includes `name`.
fn has_template(ts: &Vec<String>, name: &String) -> (b: bool)
    ensures
        b == spec_has_template(ts@, name@),
{
    let n = ts.len();
    let mut i: usize = 0;
    while i < n
        invariant
            0 <= i <= n,
            n == ts@.len(),
            forall|k: int| 0 <= k < i ==> ts@[k]@ != name@,
        decreases n - i,
    {
        if ts[i] == *name {
            return true;
        }
        i = i + 1;
    }
    false
}

/// Reads the three strings of one auxiliary page entry, if the item yields
/// them.
fn item_content(it: &Item) -> (r: Option<ContentInfo>)
    ensures
        match r {
            Option::Some(ci) => spec_content_matches(ci, *it),
            Option::None => spec_item_fields(*it) is None,
        },
{
    match it {
        Item::Mapping(pairs) => {
            let n = pairs.len();
            if n == 0 {
                return Option::None;
            }
            let front = &pairs[0];
            let back = &pairs[n - 1];
            match (&front.0, &front.1, &back.1) {
                (Option::Some(a), Option::Some(b), Option::Some(t)) => Option::Some(
                    ContentInfo::new(a.clone(), b.clone(), t.clone()),
                ),
                _ => Option::None,
            }
        },
        Item::Single(_) => Option::None,
    }
}

/// Builds the extra-content list of `doc`: empty when the section is absent,
/// one entry per item otherwise.
fn extract_extras(doc: &Doc) -> (r: Result<Vec<ContentInfo>, ConfigError>)
    ensures
        match r {
            Result::Ok(v) => spec_extra_ok(*doc) && spec_extras_match(v@, *doc),
            Result::Err(e) => e == ConfigError::BadExtra && !spec_extra_ok(*doc),
        },
{
    match lookup(doc, "extra") {
        Option::None => Result::Ok(Vec::new()),
        Option::Some(v) => match v {
            Value::List(items) => {
                let mut out: Vec<ContentInfo> = Vec::new();
                let n = items.len();
                let mut i: usize = 0;
                while i < n
                    invariant
                        0 <= i <= n,
                        n == items@.len(),
                        spec_lookup(doc.entries@, "extra"@) == Option::Some(
                            Value::List(*items),
                        ),
                        out@.len() == i,
                        forall|k: int|
                            0 <= k < i ==> spec_content_matches(out@[k], items@[k]),
                    decreases n - i,
                {
                    match item_content(&items[i]) {
                        Option::Some(ci) => out.push(ci),
                        Option::None => {
                            return Result::Err(ConfigError::BadExtra);
                        },
                    }
                    i = i + 1;
                }
                Result::Ok(out)
            },
            _ => Result::Err(ConfigError::BadExtra),
        },
    }
}

/// Builds the header list of `doc`: empty when the section is absent, the
/// items' strings otherwise.
fn extract_headers(doc: &Doc) -> (r: Result<Vec<String>, ConfigError>)
    ensures
        match r {
            Result::Ok(v) => spec_headers_ok(*doc) && spec_headers_match(v@, *doc),
            Result::Err(e) => e == ConfigError::BadHeaders && !spec_headers_ok(*doc),
        },
{
    match lookup(doc, "headers") {
        Option::None => Result::Ok(Vec::new()),
        Option::Some(v) => match v {
            Value::List(items) => {
                let mut out: Vec<String> = Vec::new();
                let n = items.len();
                let mut i: usize = 0;
                while i < n
                    invariant
                        0 <= i <= n,
                        n == items@.len(),
                        spec_lookup(doc.entries@, "headers"@) == Option::Some(
                            Value::List(*items),
                        ),
                        out@.len() == i,
                        forall|k: int|
                            0 <= k < i ==> spec_header_field(items@[k]) == Option::Some(
                                out@[k]@,
                            ),
                    decreases n - i,
                {
                    match &items[i] {
                        Item::Single(Option::Some(s)) => out.push(s.clone()),
                        _ => {
                            return Result::Err(ConfigError::BadHeaders);
                        },
                    }
                    i = i + 1;
                }
                Result::Ok(out)
            },
            _ => Result::Err(ConfigError::BadHeaders),
        },
    }
}

impl InkerConfig {
    /// Builds the configuration from a parsed document and the names of the
    /// directories under the templates root, in loading order: scalar fields
    /// with their defaults, template validation, then the `extra` and
    /// `headers` sections.
    pub fn from_doc(doc: &Doc, templates: &Vec<String>) -> (r: Result<
        InkerConfig,
        ConfigError,
    >)
        ensures
            r is Ok <==> !spec_load_fails(*doc, templates@),
            (match r {
                Result::Ok(c) => spec_config_matches(c, *doc, templates@),
                Result::Err(e) => spec_error_matches(e, *doc, templates@),
            }),
    {
        let base_url = strip_trailing_slash(field_or(doc, "base_url", "/"));
        let port = match parse_u16(field_or(doc, "webserver_port", "8080").as_str()) {
            Option::Some(p) => p,
            Option::None => {
                return Result::Err(ConfigError::BadPort);
            },
        };
        let website_name = field_or(doc, "website_name", "inker website");
        let template_name = field_or(doc, "template_name", "bs-darkly");
        let posts_per_page = match parse_i32(field_or(doc, "posts_per_page", "4").as_str()) {
            Option::Some(p) => p,
            Option::None => {
                return Result::Err(ConfigError::BadPostsPerPage);
            },
        };
        let pagination = match parse_bool(field_or(doc, "pagination", "false").as_str()) {
            Option::Some(b) => b,
            Option::None => {
                return Result::Err(ConfigError::BadPagination);
            },
        };
        let generate_nav = match parse_bool(field_or(doc, "generate_nav", "false").as_str()) {
            Option::Some(b) => b,
            Option::None => {
                return Result::Err(ConfigError::BadGenerateNav);
            },
        };
        let icon_path = field_or(doc, "icon_path", "none");
        if !has_template(templates, &template_name) {
            return Result::Err(ConfigError::TemplateNotFound(template_name));
        }
        let extra_contents = match extract_extras(doc) {
            Result::Ok(v) => v,
            Result::Err(e) => {
                return Result::Err(e);
            },
        };
        let headers = match extract_headers(doc) {
            Result::Ok(v) => v,
            Result::Err(e) => {
                return Result::Err(e);
            },
        };
        Result::Ok(
            InkerConfig {
                base_url,
                port,
                website_name,
                template_name,
                posts_per_page,
                generate_nav,
                pagination,
                icon_path,
                extra_contents,
                headers,
            },
        )
    }

    /// Loads the configuration from raw YAML text and the names of the
    /// directories under the templates root.
    pub fn from_text(text: &str, templates: &Vec<String>) -> (r: Result<
        InkerConfig,
        ConfigError,
    >)
        ensures
            (match parsed_doc(text@) {
                Option::None => r matches Result::Err(ConfigError::Malformed),
                Option::Some(d) => match r {
                    Result::Ok(c) => !spec_load_fails(d, templates@) && spec_config_matches(
                        c,
                        d,
                        templates@,
                    ),
                    Result::Err(e) => spec_load_fails(d, templates@) && spec_error_matches(
                        e,
                        d,
                        templates@,
                    ),
                },
            }),
    {
        match parse_document(text) {
            Option::None => Result::Err(ConfigError::Malformed),
            Option::Some(doc) => InkerConfig::from_doc(&doc, templates),
        }
    }

    /// Resets the base URL to the empty string, disregarding any configured
    /// path prefix when the site is served locally.  Every other field is
    /// kept.
    pub fn webserver_usage(&mut self)
        ensures
            final(self).base_url@ == Seq::<char>::empty(),
            final(self).port == old(self).port,
            final(self).website_name == old(self).website_name,
            final(self).template_name == old(self).template_name,
            final(self).posts_per_page == old(self).posts_per_page,
            final(self).generate_nav == old(self).generate_nav,
            final(self).pagination == old(self).pagination,
            final(self).icon_path == old(self).icon_path,
            final(self).extra_contents == old(self).extra_contents,
            final(self).headers == old(self).headers,
    {
        self.base_url = String::new();
    }

    /// The fixed publish directory name.
    pub fn publish_folder() -> (r: &'static str)
        ensures
            r@ == "publish"@,
    {
        "publish"
    }

    /// The fixed build directory name.
    pub fn build_folder() -> (r: &'static str)
        ensures
            r@ == "build"@,
    {
        "build"
    }

    /// The fixed content directory name.
    pub fn content_folder() -> (r: &'static str)
        ensures
            r@ == "content"@,
    {
        "content"
    }

    /// The fixed posts subdirectory name.
    pub fn posts_folder() -> (r: &'static str)
        ensures
            r@ == "posts"@,
    {
        "posts"
    }

    /// The templates root joined with this configuration's template name.
    pub fn template_folder(&self) -> (r: String)
        ensures
            r@ == "templates/"@ + self.template_name@,
    {
        let mut r = String::from_str("templates/");
        r.append(self.template_name.as_str());
        r
    }

    /// The default post text: front-matter delimiters around `model`, a
    /// mandatory `date:` line holding `timestamp`, and a placeholder body.
    pub fn post_template(model: &str, timestamp: &str) -> (r: String)
        ensures
            r@ == spec_post_template(model@, timestamp@),
    {
        let mut r = String::from_str("---\n");
        r.append(model);
        r.append("\ndate: ");
        r.append(timestamp);
        r.append(" # this field is mandatory to have \n---\nenter your content here");
        r
    }

    /// Relies on chrono's Utc::now and DateTime::to_rfc3339: the present
    /// wall-clock moment formatted as RFC 3339 / ISO 8601 text.  The result
    /// depends on the clock, so nothing is promised of it.
    #[verifier::external_body]
    pub fn current_time() -> String {
        chrono::Utc::now().to_rfc3339()
    }

    /// The built-in default document, used by callers when no configuration
    /// file can be read.
    pub fn default_config_text() -> (r: &'static str)
        ensures
            r@
                == "webserver_port: 8080\nwebsite_name: \"inker website\"\nposts_per_page: \"4\"\npagination: \"false\"\nicon_path: \"none\"\ngenerate_nav: \"false\"\n"@,
    {
        "webserver_port: 8080\nwebsite_name: \"inker website\"\nposts_per_page: \"4\"\npagination: \"false\"\nicon_path: \"none\"\ngenerate_nav: \"false\"\n"
    }
}

/// A base URL ending in a slash loses exactly that one final slash; any
/// other string is kept unchanged.
pub proof fn lemma_strip_one_trailing_slash(s: Seq<char>)
    ensures
        s.len() > 0 && s.last() == '/' ==> spec_strip_slash(s) == s.drop_last(),
        !(s.len() > 0 && s.last() == '/') ==> spec_strip_slash(s) == s,
{
}

/// A document that sets no keys yields the documented default for every
/// field: an empty base URL (the default `/` loses its slash), port 8080,
/// the `inker website` name, the `bs-darkly` template, four posts per page,
/// no pagination, no navigation, no icon, and usable, empty `extra` and
/// `headers` sections.
pub proof fn lemma_defaults(d: Doc)
    requires
        d.entries@.len() == 0,
    ensures
        spec_base_url(d) == Seq::<char>::empty(),
        spec_port(d) == Option::Some(8080u16),
        spec_website_name(d) == "inker website"@,
        spec_template_name(d) == "bs-darkly"@,
        spec_posts_per_page(d) == Option::Some(4i32),
        spec_pagination(d) == Option::Some(false),
        spec_generate_nav(d) == Option::Some(false),
        spec_icon_path(d) == "none"@,
        spec_extra_ok(d),
        spec_headers_ok(d),
{
    reveal_strlit("/");
    reveal_strlit("8080");
    reveal_strlit("4");
    reveal_strlit("true");
    reveal_strlit("false");
    let slash = "/"@;
    assert(spec_strip_slash(slash) =~= Seq::<char>::empty());
    lemma_parse_u16_8080();
    lemma_parse_i32_4();
    assert("false"@.len() == 5);
    assert("true"@.len() == 4);
    assert("false"@ != "true"@);
    assert(spec_parse_bool("false"@) == Option::Some(false));
}

/// The text `8080` reads as the port number 8080.
proof fn lemma_parse_u16_8080()
    ensures
        spec_parse_u16("8080"@) == Option::Some(8080u16),
{
    reveal_strlit("8080");
    let s = "8080"@;
    let s1 = s.subrange(0, 1);
    let s2 = s.subrange(0, 2);
    let s3 = s.subrange(0, 3);
    assert(s1.drop_last() =~= s.subrange(0, 0));
    assert(s2.drop_last() =~= s1);
    assert(s3.drop_last() =~= s2);
    assert(s.drop_last() =~= s3);
    assert(crate::scalar::digits_val(s.subrange(0, 0)) == 0);
    assert(crate::scalar::digits_val(s1) == 8);
    assert(crate::scalar::digits_val(s2) == 80);
    assert(crate::scalar::digits_val(s3) == 808);
    assert(crate::scalar::digits_val(s) == 8080);
    assert(crate::scalar::all_digits(s));
}

/// The text `4` reads as the count 4.
proof fn lemma_parse_i32_4()
    ensures
        spec_parse_i32("4"@) == Option::Some(4i32),
{
    reveal_strlit("4");
    let s = "4"@;
    assert(s.drop_last() =~= s.subrange(0, 0));
    assert(crate::scalar::digits_val(s.subrange(0, 0)) == 0);
    assert(crate::scalar::digits_val(s) == 4);
    assert(crate::scalar::all_digits(s));
}

/// When the `extra` section is absent, the extra-content list is empty.
pub proof fn lemma_absent_extra_empty(ex: Seq<ContentInfo>, d: Doc)
    requires
        spec_lookup(d.entries@, "extra"@) is None,
        spec_extras_match(ex, d),
    ensures
        ex.len() == 0,
{
}

/// When the `headers` section is absent, the header list is empty.
pub proof fn lemma_absent_headers_empty(hs: Seq<String>, d: Doc)
    requires
        spec_lookup(d.entries@, "headers"@) is None,
        spec_headers_match(hs, d),
    ensures
        hs.len() == 0,
{
}

/// When every scalar field parses but the configured template is not among
/// the template set, the loading error is exactly `TemplateNotFound`, and it
/// carries the offending template name.
pub proof fn lemma_missing_template_is_reported(e: ConfigError, d: Doc, ts: Seq<String>)
    requires
        spec_scalars_ok(d),
        !spec_has_template(ts, spec_template_name(d)),
        spec_error_matches(e, d, ts),
    ensures
        e matches ConfigError::TemplateNotFound(name) && name@ == spec_template_name(d),
{
}

/// Whatever the model and timestamp, the default post text carries a
/// `date:` line holding the timestamp, and ends with the placeholder asking
/// the author for content.
pub proof fn lemma_post_template_shape(model: Seq<char>, timestamp: Seq<char>)
    ensures
        ({
            let out = spec_post_template(model, timestamp);
            let date_at = "---\n"@.len() + model.len();
            out.subrange(
                date_at as int,
                date_at as int + "\ndate: "@.len() + timestamp.len(),
            ) == "\ndate: "@ + timestamp
        }),
        ({
            let out = spec_post_template(model, timestamp);
            let tail = "enter your content here"@;
            out.len() >= tail.len() && out.subrange(
                out.len() as int - tail.len(),
                out.len() as int,
            ) == tail
        }),
{
    let out = spec_post_template(model, timestamp);
    let date_at = "---\n"@.len() + model.len();
    assert(out.subrange(
        date_at as int,
        date_at as int + "\ndate: "@.len() + timestamp.len(),
    ) =~= "\ndate: "@ + timestamp);
    reveal_strlit(" # this field is mandatory to have \n---\nenter your content here");
    reveal_strlit("enter your content here");
    let last = " # this field is mandatory to have \n---\nenter your content here"@;
    let tail = "enter your content here"@;
    assert(out.subrange(out.len() as int - tail.len(), out.len() as int) =~= tail);
}

} // verus!
