use fxa_email_service::validate;

#[test]
fn surrounding_whitespace_is_rejected_everywhere() {
    let values = [
        "foo@example.com",
        "foo",
        "http://localhost/foo/",
        "mock",
        "Firefox Accounts",
        "us-east-1",
        "A0",
        "az",
        "1234567890ABCDEFGHIJKLMNOPQRSTUVWXYZabcdefghijklmnopqrstuvwxyz._1234567",
    ];
    for value in values {
        for padded in [
            format!(" {}", value),
            format!("{} ", value),
            format!("\t{}", value),
            format!("{}\n", value),
            format!("\u{a0}{}", value),
            format!("{}\u{3000}", value),
        ] {
            let p = padded.as_str();
            assert!(!validate::email_address(p), "{:?}", p);
            assert!(!validate::host(p), "{:?}", p);
            assert!(!validate::base_uri(p), "{:?}", p);
            assert!(!validate::provider(p), "{:?}", p);
            assert!(!validate::sender_name(p), "{:?}", p);
            assert!(!validate::aws_region(p), "{:?}", p);
            assert!(!validate::aws_access(p), "{:?}", p);
            assert!(!validate::aws_secret(p), "{:?}", p);
            assert!(!validate::sendgrid_api_key(p), "{:?}", p);
        }
    }
}

#[test]
fn region_allow_list() {
    for region in ["us-east-1", "us-east-2", "us-west-2", "eu-west-1", "eu-west-3", "ap-southeast-2", "us-gov-west-1"] {
        assert!(validate::aws_region(region), "{}", region);
    }
    for region in ["us-east-3", "us-east-1a", "eu-east-1", "US-EAST-1", "useast1", "", "us-east-"] {
        assert!(!validate::aws_region(region), "{}", region);
    }
}

#[test]
fn email_address_edges() {
    assert!(validate::email_address("a@b.c"));
    assert!(validate::email_address("first.last+tag@sub.example.org"));
    assert!(!validate::email_address("foo@localhost"));
    assert!(!validate::email_address("@example.com"));
    assert!(!validate::email_address("foo@@example.com"));
    assert!(!validate::email_address("foo@example..com"));
    assert!(!validate::email_address("foo@.example.com"));
    assert!(!validate::email_address("foo@example.com."));
    assert!(!validate::email_address(""));
}

#[test]
fn base_uri_edges() {
    assert!(validate::base_uri("https://example.com:443/a/b/"));
    assert!(!validate::base_uri("http://localhost:/"));
    assert!(!validate::base_uri("http://localhost//"));
    assert!(!validate::base_uri("http:///"));
    assert!(!validate::base_uri(""));
}

#[test]
fn empty_values_are_rejected() {
    assert!(!validate::host(""));
    assert!(!validate::provider(""));
    assert!(!validate::sender_name(""));
    assert!(!validate::aws_access(""));
    assert!(!validate::aws_secret(""));
    assert!(!validate::sendgrid_api_key(""));
}

#[test]
fn sender_name_allows_printable_text() {
    assert!(validate::sender_name("Zoë Müller"));
    assert!(validate::sender_name("Mozilla\u{a0}Accounts"));
    assert!(!validate::sender_name("\u{a0}Zoë"));
    assert!(!validate::sender_name("Zoë\u{3000}"));
    assert!(!validate::sender_name("tab\there"));
    assert!(!validate::sender_name("zoë@example.com"));
}
