use piping_server::dynamic_resources::{escape_html_attribute, help, index, no_script_html};
use piping_server::query::{
    get_n_receivers_result, parse_u32, query_param_to_hash_map, InvalidNumber, QueryParams,
};

fn params(pairs: &[(&str, &str)]) -> QueryParams {
    QueryParams {
        pairs: pairs.iter().map(|(k, v)| (k.to_string(), v.to_string())).collect(),
    }
}

#[test]
fn escapes_attribute_characters() {
    assert_eq!(
        escape_html_attribute("a&b'c\"d<e>f"),
        "a&amp;b&apos;c&quot;d&lt;e&gt;f"
    );
    assert_eq!(escape_html_attribute(""), "");
    assert_eq!(escape_html_attribute("plain/path"), "plain/path");
    assert_eq!(escape_html_attribute("ü<"), "ü&lt;");
}

#[test]
fn index_page_links_the_form_without_script() {
    let page = index();
    assert!(page.starts_with("<!DOCTYPE html>"));
    assert!(page.contains("<a href=\"noscript\">Transfer without JavaScript</a>"));
    assert!(page.contains("<span>(Rust) 0.1.0</span>"));
    assert!(page.contains("function toggle() {"));
    assert!(!page.contains("{{"));
}

#[test]
fn help_text_uses_the_url() {
    let text = help("http://example.com/mypath");
    assert!(text.starts_with("Help for Piping Server (Rust) 0.1.0\n"));
    assert!(text.contains("curl http://example.com/mypath\n"));
    assert!(text.contains("echo 'hello!' | curl -T - http://example.com/mypath\n"));
    assert!(text.ends_with("curl http://example.com/mypath | openssl aes-256-cbc -d\n"));
    assert_eq!(text.matches("http://example.com/mypath").count(), 7);
}

#[test]
fn no_script_page_without_path_disables_sending() {
    let page = no_script_html(&params(&[]), "abc");
    assert!(page.contains("<style nonce=\"abc\">"));
    assert!(page.contains("<input name=\"path\" value=\"\" size=\"30\""));
    assert!(page.contains("value=\"file\" checked>File"));
    assert!(page.contains("value=\"text\" >Text"));
    assert!(page.contains("<form method=\"POST\"  enctype=\"multipart/form-data\">"));
    assert!(page.contains("<input type=\"file\" name=\"input_file\" disabled>"));
    assert!(page.contains("<input type=\"submit\" value=\"Send\" disabled>"));
}

#[test]
fn no_script_page_with_path_in_text_mode() {
    let page = no_script_html(&params(&[("path", "my\"path"), ("mode", "text")]), "n");
    assert!(page.contains("value=\"my&quot;path\""));
    assert!(page.contains("action=\"my&quot;path\""));
    assert!(page.contains("value=\"text\" checked>Text"));
    assert!(page.contains("value=\"file\" >File"));
    assert!(page.contains("<textarea name=\"input_text\" cols=\"30\" rows='10' placeholder=\"\"></textarea>"));
    assert!(page.contains("<input type=\"submit\" value=\"Send\" >"));
}

#[test]
fn no_script_page_text_mode_without_path() {
    let page = no_script_html(&params(&[("mode", "text")]), "n");
    assert!(page.contains(
        "<textarea name=\"input_text\" cols=\"30\" disabled placeholder=\"Fill in the path above first\"></textarea>"
    ));
}

#[test]
fn query_decoding() {
    let q = query_param_to_hash_map(Some("path=a%20b&mode=text&x=1&x=2"));
    assert_eq!(q.get("path"), Some("a b".to_string()));
    assert_eq!(q.get("mode"), Some("text".to_string()));
    assert_eq!(q.get("x"), Some("2".to_string()));
    assert_eq!(q.get("y"), None);
    assert!(query_param_to_hash_map(None).pairs.is_empty());
    let q = query_param_to_hash_map(Some("a+b=c+d"));
    assert_eq!(q.get("a b"), Some("c d".to_string()));
}

#[test]
fn decimal_numbers() {
    assert_eq!(parse_u32("0"), Some(0));
    assert_eq!(parse_u32("1"), Some(1));
    assert_eq!(parse_u32("+7"), Some(7));
    assert_eq!(parse_u32("007"), Some(7));
    assert_eq!(parse_u32("4294967295"), Some(4294967295));
    assert_eq!(parse_u32("4294967296"), None);
    assert_eq!(parse_u32("99999999999999999999"), None);
    assert_eq!(parse_u32(""), None);
    assert_eq!(parse_u32("+"), None);
    assert_eq!(parse_u32("-1"), None);
    assert_eq!(parse_u32("1a"), None);
    assert_eq!(parse_u32(" 1"), None);
    for s in ["0", "12", "+3", "", "+", "x", "4294967295", "4294967296", "١"] {
        assert_eq!(parse_u32(s), s.parse::<u32>().ok(), "{s:?}");
    }
}

#[test]
fn n_parameter() {
    assert_eq!(get_n_receivers_result(&params(&[])), Ok(1));
    assert_eq!(get_n_receivers_result(&params(&[("n", "3")])), Ok(3));
    assert_eq!(get_n_receivers_result(&params(&[("n", "abc")])), Err(InvalidNumber));
    assert_eq!(get_n_receivers_result(&params(&[("n", "1"), ("n", "0")])), Ok(0));
}
