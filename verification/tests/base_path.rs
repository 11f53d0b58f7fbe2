use selu::web::base_path::{
    external_origin, hex_value, normalize_base_path, prefixed, resolve_base_path, rewritten_uri,
    strip_base_path,
};

#[test]
fn validates_and_canonicalizes_base_paths() {
    assert_eq!(normalize_base_path(""), Some(String::new()));
    assert_eq!(normalize_base_path("/"), Some(String::new()));
    assert_eq!(normalize_base_path("/selu/"), Some("/selu".to_owned()));
    assert_eq!(
        normalize_base_path("/tenant/selu"),
        Some("/tenant/selu".to_owned())
    );
    assert_eq!(
        normalize_base_path("/tenant%20one/selu"),
        Some("/tenant%20one/selu".to_owned())
    );
}

#[test]
fn rejects_malicious_or_ambiguous_base_paths() {
    for prefix in [
        "selu",
        "/selu//nested",
        "/selu/../admin",
        "/selu/./app",
        "/selu?<script>",
        "/selu#fragment",
        "/selu\\app",
        "/selu/\"onload=alert(1)",
        "/selu/%xx",
        "/selu/%2e%2e/admin",
        "/selu/%2Fadmin",
        "/selu/%22onload",
    ] {
        assert_eq!(normalize_base_path(prefix), None, "{prefix}");
    }
}

#[test]
fn strips_prefixes_only_at_segment_boundaries() {
    assert_eq!(strip_base_path("/selu", "/selu"), Some("/"));
    assert_eq!(
        strip_base_path("/selu/app/login", "/selu"),
        Some("/app/login")
    );
    assert_eq!(strip_base_path("/selux/app/login", "/selu"), None);
    assert_eq!(strip_base_path("/sel", "/selu"), None);
    assert_eq!(strip_base_path("/app/login", "/selu"), None);
}

#[test]
fn normalizing_twice_changes_nothing() {
    for raw in ["", "/", "/selu/", "/tenant%20one/selu", "/a-b_c.d~e"] {
        let once = normalize_base_path(raw).unwrap();
        assert_eq!(normalize_base_path(&once), Some(once.clone()), "{raw}");
    }
}

#[test]
fn a_prefixed_path_is_stripped_back() {
    let path = prefixed("/selu", "/agents/default");
    assert_eq!(path, "/selu/agents/default");
    assert_eq!(strip_base_path(&path, "/selu"), Some("/agents/default"));
}

#[test]
fn hexadecimal_digits_have_their_values() {
    for (byte, value) in [(b'0', 0), (b'9', 9), (b'a', 10), (b'f', 15), (b'A', 10), (b'F', 15)] {
        assert_eq!(hex_value(byte), value);
    }
}

#[test]
fn a_good_forwarded_prefix_wins_over_the_configured_one() {
    assert_eq!(resolve_base_path("/selu", Some("/tenant/")).0, "/tenant");
    assert_eq!(resolve_base_path("/selu", Some("/../admin")).0, "/selu");
    assert_eq!(resolve_base_path("/selu/", None).0, "/selu");
}

#[test]
fn requests_behind_the_prefix_are_rewritten() {
    assert_eq!(
        rewritten_uri("/selu/chat", Some("a=1"), "/selu"),
        Some("/chat?a=1".to_string())
    );
    assert_eq!(rewritten_uri("/selu", None, "/selu"), Some("/".to_string()));
    assert_eq!(rewritten_uri("/chat", None, "/selu"), None);
}

#[test]
fn the_origin_is_taken_from_where_it_is_set() {
    let asked = |admin: Option<&str>, url: Option<&str>, proto: Option<&str>, host: Option<&str>| {
        external_origin(admin, url, proto, host, 3000, "/selu").0
    };
    assert_eq!(
        asked(Some("https://a.example"), Some("https://b.example"), None, None),
        "https://a.example/selu"
    );
    assert_eq!(
        asked(None, Some("https://b.example/"), None, None),
        "https://b.example/selu"
    );
    assert_eq!(
        asked(None, None, Some("https"), Some("c.example")),
        "https://c.example/selu"
    );
}
