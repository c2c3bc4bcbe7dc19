use linkup_cli::domains::{format_state_domains, managed_domains, top_level_domains, Domain};
use linkup_cli::text::{join, str_lt, trim};

fn d(name: &str) -> Domain {
    Domain { domain: name.to_string(), default_service: "web".to_string(), routes: None }
}

#[test]
fn top_level_only() {
    let domains = vec!["example.com".to_string(), "api.example.com".to_string(), "other.io".to_string()];
    assert_eq!(top_level_domains(&domains), vec!["example.com".to_string(), "other.io".to_string()]);
    let top = top_level_domains(&domains);
    assert_eq!(top_level_domains(&top), top);
}

#[test]
fn state_domains_as_urls() {
    let r = format_state_domains("happy-cat", &[d("example.com"), d("api.example.com"), d("other.io")]);
    assert_eq!(r, vec!["https://happy-cat.example.com".to_string(), "https://happy-cat.other.io".to_string()]);
}

#[test]
fn managed_domains_union() {
    let r = managed_domains(
        Some(vec!["a.com".to_string(), "b.com".to_string()]),
        Some(vec!["b.com".to_string(), "c.com".to_string()]),
    );
    let mut sorted = r.clone();
    sorted.sort();
    assert_eq!(sorted, vec!["a.com".to_string(), "b.com".to_string(), "c.com".to_string()]);
    assert!(managed_domains(None, None).is_empty());
}

#[test]
fn text_helpers() {
    assert_eq!(trim("  a b \n\t"), "a b");
    assert_eq!(trim("\u{3000}x\u{a0}"), "x");
    assert_eq!(join(&["a".to_string(), "b".to_string()], ", "), "a, b");
    assert!(str_lt("a", "b"));
    assert!(str_lt("a", "ab"));
    assert!(!str_lt("b", "a"));
    assert!(!str_lt("a", "a"));
    assert!(str_lt("Z", "a"));
    assert!(str_lt("é", "ê"));
}

#[test]
fn a_shared_text_suffix_is_no_subdomain() {
    let domains = vec![d("example.com"), d("myexample.com"), d("api.myexample.com")];
    assert_eq!(
        format_state_domains("s", &domains),
        vec!["https://s.example.com".to_string(), "https://s.myexample.com".to_string()]
    );
    let names = vec!["example.com".to_string(), "myexample.com".to_string(), "api.example.com".to_string()];
    assert_eq!(top_level_domains(&names), vec!["example.com".to_string(), "myexample.com".to_string()]);
}
