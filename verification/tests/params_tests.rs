use updown::check::{CheckParams, CheckParamsBuilder, OperationKind};
use updown::client::Client;
use updown::config::Config;
use updown::downtime::DowntimeParams;
use updown::metric::MetricsParams;
use updown::numbers::{parse_u16, parse_u32, parse_u64, u32_to_string, u64_to_string};
use updown::params::{ArgSource, ParamError, Parser};
use updown::text::{check_decimal_literal, parse_bool, str_eq};
use updown::validate::validate_period;

fn args_of(pairs: &[(&str, &str)]) -> ArgSource {
    let mut args = ArgSource::new();
    for (k, v) in pairs {
        args.push_arg(k.to_string(), v.to_string());
    }
    args
}

#[test]
fn parse_u32_accepts_numerals() {
    assert_eq!(parse_u32("60"), Some(60));
    assert_eq!(parse_u32("+7"), Some(7));
    assert_eq!(parse_u32("0"), Some(0));
    assert_eq!(parse_u32("007"), Some(7));
    assert_eq!(parse_u32("4294967295"), Some(u32::MAX));
}

#[test]
fn parse_u32_rejects_bad_text() {
    assert_eq!(parse_u32("abc"), None);
    assert_eq!(parse_u32(""), None);
    assert_eq!(parse_u32("+"), None);
    assert_eq!(parse_u32("-1"), None);
    assert_eq!(parse_u32("4294967296"), None);
    assert_eq!(parse_u32("12 "), None);
    assert_eq!(parse_u32("1.5"), None);
}

#[test]
fn parse_u64_and_u16_bounds() {
    assert_eq!(parse_u64("18446744073709551615"), Some(u64::MAX));
    assert_eq!(parse_u64("18446744073709551616"), None);
    assert_eq!(parse_u16("65535"), Some(u16::MAX));
    assert_eq!(parse_u16("65536"), None);
}

#[test]
fn numerals_round_trip() {
    assert_eq!(u32_to_string(0), "0");
    assert_eq!(u32_to_string(1234), "1234");
    assert_eq!(u64_to_string(u64::MAX), "18446744073709551615");
    assert_eq!(parse_u32(&u32_to_string(3600)), Some(3600));
}

#[test]
fn bool_and_decimal_texts() {
    assert_eq!(parse_bool("true"), Some(true));
    assert_eq!(parse_bool("false"), Some(false));
    assert_eq!(parse_bool("TRUE"), None);
    assert_eq!(parse_bool("1"), None);
    assert!(check_decimal_literal("0.5"));
    assert!(check_decimal_literal("1"));
    assert!(!check_decimal_literal(".5"));
    assert!(!check_decimal_literal("1."));
    assert!(!check_decimal_literal("1e5"));
    assert!(!check_decimal_literal(""));
    assert!(str_eq("abc", "abc"));
    assert!(!str_eq("abc", "abd"));
}

#[test]
fn period_values_follow_the_enumerated_set() {
    for p in [15, 30, 60, 120, 300, 600, 1800, 3600] {
        assert!(validate_period(p));
    }
    for p in [0, 7, 90, 3599] {
        assert!(!validate_period(p));
    }
}

#[test]
fn period_sixty_builds_and_validates() {
    let args = args_of(&[("token", "tok1"), ("period", "60")]);
    let params = CheckParams::parse_update("secret", &args).expect("should build");
    assert_eq!(params.period, Some(60));
    assert_eq!(params.token, "tok1");
    assert_eq!(params.api_key, "secret");
    assert!(params.validate().is_empty());
}

#[test]
fn period_ninety_parses_but_fails_validation() {
    let args = args_of(&[("token", "tok1"), ("period", "90")]);
    match CheckParams::parse_update("secret", &args) {
        Err(ParamError::Validation(vs)) => {
            assert_eq!(vs.len(), 1);
            assert_eq!(vs[0].field, "period");
        },
        _ => panic!("expected a validation failure"),
    }
}

#[test]
fn period_abc_is_a_parse_failure_naming_field_and_text() {
    let args = args_of(&[("token", "tok1"), ("period", "abc")]);
    match CheckParams::parse_update("secret", &args) {
        Err(ParamError::Parse(es)) => {
            assert_eq!(es.len(), 1);
            assert_eq!(es[0].field, "period");
            assert_eq!(es[0].raw, "abc");
        },
        _ => panic!("expected a parse failure"),
    }
}

#[test]
fn two_bad_fields_give_two_entries() {
    let args = args_of(&[("token", "tok1"), ("page", "abc"), ("results", "xyz")]);
    match DowntimeParams::parse("secret", &args) {
        Err(ParamError::Parse(es)) => {
            assert_eq!(es.len(), 2);
            assert_eq!(es[0].field, "page");
            assert_eq!(es[0].raw, "abc");
            assert_eq!(es[1].field, "results");
            assert_eq!(es[1].raw, "xyz");
        },
        _ => panic!("expected parse failures"),
    }
}

#[test]
fn error_message_names_each_field_and_raw_text() {
    let args = args_of(&[("page", "abc"), ("results", "xyz")]);
    let mut parser = Parser::new();
    let _ = parser.parse_u32_value(&args, "page");
    let _ = parser.parse_bool_value(&args, "results");
    assert_eq!(parser.error_message(), "page (abc given)\nresults (xyz given)");
    assert!(parser.successful_parse().is_err());
}

#[test]
fn bad_url_is_a_validation_failure() {
    let args = args_of(&[("token", "tok1"), ("url", "http")]);
    match CheckParams::parse_update("secret", &args) {
        Err(ParamError::Validation(vs)) => {
            assert_eq!(vs.len(), 1);
            assert_eq!(vs[0].field, "url");
        },
        _ => panic!("expected a validation failure"),
    }
}

#[test]
fn good_url_passes_validation() {
    let args = args_of(&[("token", "tok1"), ("url", "https://example.com")]);
    let params = CheckParams::parse_update("secret", &args).expect("should build");
    assert_eq!(params.url.as_deref(), Some("https://example.com"));
}

#[test]
fn validating_twice_gives_no_errors_both_times() {
    let args = args_of(&[("token", "tok1"), ("period", "60"), ("url", "https://example.com")]);
    let params = CheckParams::parse_update("secret", &args).expect("should build");
    assert!(params.validate().is_empty());
    assert!(params.validate().is_empty());
}

#[test]
fn missing_token_is_a_build_failure() {
    let args = args_of(&[("period", "60")]);
    match CheckParams::parse_update("secret", &args) {
        Err(ParamError::Build(f)) => assert_eq!(f, "token"),
        _ => panic!("expected a build failure"),
    }
    let args = args_of(&[("token", "")]);
    match DowntimeParams::parse("secret", &args) {
        Err(ParamError::Build(f)) => assert_eq!(f, "token"),
        _ => panic!("expected a build failure"),
    }
}

#[test]
fn builder_checks_required_fields_at_finish() {
    let b = CheckParamsBuilder::for_update();
    match b.build() {
        Err(f) => assert_eq!(f, "api_key"),
        Ok(_) => panic!("expected a missing credential"),
    }
    let mut b = CheckParamsBuilder::for_update();
    b.api_key("secret".to_string());
    match b.build() {
        Err(f) => assert_eq!(f, "token"),
        Ok(_) => panic!("expected a missing token"),
    }
    let mut b = CheckParamsBuilder::for_create("https://example.com".to_string());
    b.api_key("secret".to_string());
    let p = b.build().expect("create needs no token");
    assert_eq!(p.token, "");
    assert_eq!(p.url.as_deref(), Some("https://example.com"));
    assert!(matches!(OperationKind::Create, OperationKind::Create));
}

#[test]
fn unsupported_fields_are_refused() {
    let args = args_of(&[("token", "tok1"), ("disabled_locations", "fra")]);
    match CheckParams::parse_update("secret", &args) {
        Err(ParamError::Unsupported(f)) => assert_eq!(f, "disabled_locations"),
        _ => panic!("expected an unsupported-field failure"),
    }
}

#[test]
fn absent_fields_are_omitted_from_query_pairs() {
    let args = args_of(&[("token", "tok1")]);
    let p = DowntimeParams::parse("secret", &args).expect("should build");
    let pairs = p.to_query_pairs();
    assert_eq!(pairs, vec![("api-key".to_string(), "secret".to_string())]);

    let args = args_of(&[("token", "tok1"), ("page", "3"), ("results", "true")]);
    let p = DowntimeParams::parse("secret", &args).expect("should build");
    let pairs = p.to_query_pairs();
    assert_eq!(
        pairs,
        vec![
            ("api-key".to_string(), "secret".to_string()),
            ("page".to_string(), "3".to_string()),
            ("results".to_string(), "true".to_string()),
        ]
    );
}

#[test]
fn metrics_query_pairs_keep_order_and_omit_absent() {
    let args = args_of(&[("token", "tok1"), ("from", "2022-01-01"), ("group", "host")]);
    let p = MetricsParams::parse("secret", &args).expect("should build");
    assert_eq!(p.to, None);
    let pairs = p.to_query_pairs();
    assert_eq!(
        pairs,
        vec![
            ("api-key".to_string(), "secret".to_string()),
            ("from".to_string(), "2022-01-01".to_string()),
            ("group".to_string(), "host".to_string()),
        ]
    );
}

#[test]
fn client_defaults_empty_optional_keys() {
    let c = Client::new("secret", None, None);
    assert_eq!(c.api_key, "secret");
    assert_eq!(c.read_only_api_key, "");
    assert_eq!(c.user_agent, "");
    let cfg = Config {
        api_key: "secret".to_string(),
        private_api_key: Some("ro".to_string()),
        user_agent: None,
    };
    let c = cfg.client();
    assert_eq!(c.read_only_api_key, "ro");
}
