use pygrab_ll::config::{check_headers, check_proxy, timeout_accepted, ClientConfig};
use pygrab_ll::error::ConfigurationError;
use pygrab_ll::method::Method;

fn pairs(list: &[(&str, &str)]) -> Vec<(String, String)> {
    list.iter().map(|(k, v)| (k.to_string(), v.to_string())).collect()
}

#[test]
fn timeouts_must_be_positive_and_fit_a_duration() {
    assert!(timeout_accepted(1.0f64.to_bits()));
    assert!(timeout_accepted(0.001f64.to_bits()));
    assert!(timeout_accepted(f64::MIN_POSITIVE.to_bits()));
    assert!(timeout_accepted(1));
    assert!(timeout_accepted(1.8446744073709550e19f64.to_bits()));
    assert!(!timeout_accepted(0.0f64.to_bits()));
    assert!(!timeout_accepted((-0.0f64).to_bits()));
    assert!(!timeout_accepted((-1.0f64).to_bits()));
    assert!(!timeout_accepted(f64::INFINITY.to_bits()));
    assert!(!timeout_accepted(f64::NAN.to_bits()));
    assert!(!timeout_accepted(18446744073709551616.0f64.to_bits()));
}

#[test]
fn accepted_timeouts_are_those_that_a_duration_takes() {
    for seconds in [1e-9, 0.5, 1.0, 30.0, 1e9, 1.8e19, 1.9e19, 1e300, 0.0, -3.0] {
        let takes = seconds > 0.0 && std::time::Duration::try_from_secs_f64(seconds).is_ok();
        assert_eq!(timeout_accepted(f64::to_bits(seconds)), takes);
    }
}

#[test]
fn valid_headers_pass() {
    assert_eq!(check_headers(&pairs(&[])), Ok(()));
    assert_eq!(
        check_headers(&pairs(&[
            ("Accept", "*/*"),
            ("x-custom_header.1", "a b\tc"),
            ("!#$%&'*+-.^_`|~09azAZ", "\u{e9}\u{4e16}"),
            ("empty", ""),
        ])),
        Ok(())
    );
}

#[test]
fn the_first_faulty_header_is_reported() {
    assert_eq!(
        check_headers(&pairs(&[("ok", "v"), ("bad name", "v"), ("", "v")])),
        Err(ConfigurationError::HeaderName("bad name".to_string()))
    );
    assert_eq!(
        check_headers(&pairs(&[("ok", "v\n"), ("bad name", "v")])),
        Err(ConfigurationError::HeaderValue("ok".to_string()))
    );
    assert_eq!(
        check_headers(&pairs(&[("bad:name", "v\n")])),
        Err(ConfigurationError::HeaderName("bad:name".to_string()))
    );
}

#[test]
fn header_names_are_tokens_of_limited_length() {
    for name in ["", " ", "a b", "a:b", "a\"b", "(a)", "a,b", "a/b", "a;b", "a<b", "a=b", "a>b", "a?b",
        "a@b", "a[b", "a\\b", "a]b", "a{b", "a}b", "caf\u{e9}", "a\u{7f}", "a\u{0}"]
    {
        assert_eq!(
            check_headers(&pairs(&[(name, "v")])),
            Err(ConfigurationError::HeaderName(name.to_string()))
        );
    }
    let longest = "a".repeat(65535);
    assert_eq!(check_headers(&pairs(&[(longest.as_str(), "v")])), Ok(()));
    let too_long = "a".repeat(65536);
    assert_eq!(
        check_headers(&pairs(&[(too_long.as_str(), "v")])),
        Err(ConfigurationError::HeaderName(too_long.clone()))
    );
    let long_with_fault = format!("{}{}", "a".repeat(100), "(");
    assert_eq!(
        check_headers(&pairs(&[(long_with_fault.as_str(), "v")])),
        Err(ConfigurationError::HeaderName(long_with_fault.clone()))
    );
}

#[test]
fn header_values_hold_no_control_character_but_the_tab() {
    for value in ["a\nb", "a\rb", "\u{0}", "\u{1f}", "\u{7f}", "a\u{b}"] {
        assert_eq!(
            check_headers(&pairs(&[("name", value)])),
            Err(ConfigurationError::HeaderValue("name".to_string()))
        );
    }
    for value in ["\t", " ", "~", "\u{80}", "\u{ff}", "\u{10ffff}"] {
        assert_eq!(check_headers(&pairs(&[("name", value)])), Ok(()));
    }
}

#[test]
fn proxy_addresses_are_checked() {
    assert_eq!(check_proxy(&None), Ok(()));
    assert_eq!(check_proxy(&Some("http://proxy.example:8080".to_string())), Ok(()));
    assert_eq!(check_proxy(&Some("socks5://127.0.0.1".to_string())), Ok(()));
    assert_eq!(check_proxy(&Some("proxy.example:3128".to_string())), Ok(()));
    assert_eq!(
        check_proxy(&Some("http://[broken".to_string())),
        Err(ConfigurationError::Proxy("http://[broken".to_string()))
    );
    assert_eq!(
        check_proxy(&Some("".to_string())),
        Err(ConfigurationError::Proxy("".to_string()))
    );
}

#[test]
fn a_configuration_holds_what_it_was_given() {
    let config = ClientConfig::new(
        2.5f64.to_bits(),
        &pairs(&[("Accept", "a"), ("ACCEPT", "b"), ("X-Y", "z")]),
        Some("http://proxy.example".to_string()),
    )
    .unwrap();
    assert_eq!(f64::from_bits(config.timeout()), 2.5);
    assert_eq!(config.headers().len(), 2);
    assert_eq!(config.headers().get("accept"), Some(&"b".to_string()));
    assert_eq!(config.headers().get("x-y"), Some(&"z".to_string()));
    assert_eq!(config.proxy(), &Some("http://proxy.example".to_string()));
    let copy = config.snapshot();
    assert_eq!(copy.timeout(), config.timeout());
    assert_eq!(copy.headers().as_entries(), config.headers().as_entries());
    assert_eq!(copy.proxy(), config.proxy());
}

#[test]
fn a_faulty_configuration_is_refused() {
    assert_eq!(
        ClientConfig::new(1.0f64.to_bits(), &pairs(&[("a b", "v")]), Some("::".to_string())).err(),
        Some(ConfigurationError::HeaderName("a b".to_string()))
    );
    assert_eq!(
        ClientConfig::new(1.0f64.to_bits(), &pairs(&[("ab", "v")]), Some("http://[x".to_string())).err(),
        Some(ConfigurationError::Proxy("http://[x".to_string()))
    );
}

#[test]
fn method_strings_are_read_in_any_case() {
    assert_eq!(Method::parse("POST"), Some(Method::Post));
    assert_eq!(Method::parse("post"), Some(Method::Post));
    assert_eq!(Method::parse("Put"), Some(Method::Put));
    assert_eq!(Method::parse("delete"), Some(Method::Delete));
    assert_eq!(Method::parse("hEaD"), Some(Method::Head));
    assert_eq!(Method::parse("options"), Some(Method::Options));
    assert_eq!(Method::parse("connect"), Some(Method::Connect));
    assert_eq!(Method::parse("trace"), Some(Method::Trace));
    assert_eq!(Method::parse("patch"), Some(Method::Patch));
    assert_eq!(Method::parse("po\u{17f}t"), Some(Method::Post));
}

#[test]
fn unsupported_method_strings_name_no_method() {
    for text in ["FOO", "", "GET", "get", " POST", "POST ", "POSTS", "P0ST"] {
        assert_eq!(Method::parse(text), None);
    }
    assert_eq!(Method::from_upper(&"post".to_string()), None);
    assert_eq!(Method::from_upper(&"POST".to_string()), Some(Method::Post));
}

#[test]
fn methods_have_names_and_bodies() {
    let all = [
        (Method::Get, "GET", false),
        (Method::Post, "POST", true),
        (Method::Put, "PUT", true),
        (Method::Delete, "DELETE", false),
        (Method::Head, "HEAD", false),
        (Method::Options, "OPTIONS", false),
        (Method::Connect, "CONNECT", false),
        (Method::Trace, "TRACE", false),
        (Method::Patch, "PATCH", true),
    ];
    for (method, name, body) in all {
        assert_eq!(method.as_string(), name);
        assert_eq!(method.has_body(), body);
    }
}

#[test]
fn single_character_names_and_values_follow_the_stated_sets() {
    let mut n: u32 = 0;
    while n <= 0x10FFFF {
        if let Some(c) = char::from_u32(n) {
            let token = c.is_ascii_alphanumeric() || "!#$%&'*+-.^_`|~".contains(c);
            let text = c.to_string();
            let name_ok = check_headers(&vec![(text.clone(), String::new())]).is_ok();
            assert_eq!(name_ok, token);
            let value_fine = (n >= 32 && n != 127) || n == 9;
            let value_ok = check_headers(&vec![("n".to_string(), text)]).is_ok();
            assert_eq!(value_ok, value_fine);
        }
        n += 1;
    }
}
