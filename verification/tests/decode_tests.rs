use updown::check::{decode_check_response, decode_checks, CheckParams, Checks};
use updown::client::{decode_delete, Client, Method};
use updown::downtime::{decode_downtimes, Downtimes};
use updown::json::{render_json, Json};
use updown::metric::{decode_metrics, Metrics};
use updown::params::ArgSource;

fn args_of(pairs: &[(&str, &str)]) -> ArgSource {
    let mut args = ArgSource::new();
    for (k, v) in pairs {
        args.push_arg(k.to_string(), v.to_string());
    }
    args
}

#[test]
fn error_body_decodes_to_failure_not_malformed() {
    match decode_downtimes("{\"error\": \"not found\"}") {
        Ok(Downtimes::Error { error }) => assert_eq!(error.as_deref(), Some("not found")),
        _ => panic!("expected the failure envelope"),
    }
    match decode_metrics("{\"error\": \"not found\"}") {
        Ok(Metrics::Error { error }) => assert_eq!(error.as_deref(), Some("not found")),
        _ => panic!("expected the failure envelope"),
    }
    match decode_checks("{\"error\": null}") {
        Ok(Checks::Error { error }) => assert_eq!(error, None),
        _ => panic!("expected the failure envelope"),
    }
}

#[test]
fn malformed_bodies_are_a_distinct_outcome() {
    assert!(decode_downtimes("not json at all").is_err());
    assert!(decode_downtimes("42").is_err());
    assert!(decode_downtimes("{\"status\": \"fine\"}").is_err());
    assert!(decode_metrics("[1, 2]").is_err());
    assert!(decode_delete("[]").is_err());
}

#[test]
fn full_downtimes_payload_decodes_with_every_field() {
    let body = "[{\"id\": \"dt1\", \"error\": \"timeout\", \"started_at\": \"2022-01-01\", \
                \"ended_at\": \"2022-01-02\", \"duration\": 86400}]";
    match decode_downtimes(body) {
        Ok(Downtimes::Downtimes(v)) => {
            assert_eq!(v.len(), 1);
            assert_eq!(v[0].id.as_deref(), Some("dt1"));
            assert_eq!(v[0].error.as_deref(), Some("timeout"));
            assert_eq!(v[0].started_at.as_deref(), Some("2022-01-01"));
            assert_eq!(v[0].ended_at.as_deref(), Some("2022-01-02"));
            assert_eq!(v[0].duration, Some(86400));
        },
        _ => panic!("expected the success envelope"),
    }
}

#[test]
fn full_metrics_payload_decodes_with_every_field() {
    let body = "{\"apdex\": 0.99, \
                 \"requests\": {\"samples\": 10, \"failures\": 1, \"satisfied\": 8, \
                                \"tolerated\": 1, \
                                \"by_response_time\": {\"under125\": 1, \"under250\": 2, \
                                    \"under500\": 3, \"under1000\": 4, \"under2000\": 5, \
                                    \"under4000\": 6}, \
                                \"timings\": {\"redirect\": 1, \"namelookup\": 2, \
                                    \"connection\": 3, \"handshake\": 4, \"response\": 5, \
                                    \"total\": 15}}, \
                 \"timings\": {\"redirect\": 0, \"namelookup\": 1, \"connection\": 2, \
                               \"handshake\": 3, \"response\": 4, \"total\": 10}}";
    match decode_metrics(body) {
        Ok(Metrics::Metrics(Some(m))) => {
            assert_eq!(m.apdex.as_deref(), Some("0.99"));
            let rq = m.requests.expect("requests present");
            assert_eq!(rq.samples, Some(10));
            assert_eq!(rq.failures, Some(1));
            assert_eq!(rq.satisfied, Some(8));
            assert_eq!(rq.tolerated, Some(1));
            let rt = rq.by_response_time.expect("by_response_time present");
            assert_eq!(rt.under125, Some(1));
            assert_eq!(rt.under4000, Some(6));
            let t = rq.timings.expect("inner timings present");
            assert_eq!(t.total, Some(15));
            let t = m.timings.expect("outer timings present");
            assert_eq!(t.redirect, Some(0));
            assert_eq!(t.total, Some(10));
        },
        _ => panic!("expected the success envelope"),
    }
}

#[test]
fn checks_array_decodes_check_by_check() {
    let body = "[{\"token\": \"tok1\", \"url\": \"https://example.com\", \"period\": 60, \
                  \"enabled\": true, \"last_status\": 200, \"uptime\": 99.98, \
                  \"down\": false, \"apdex_t\": 0.5, \
                  \"ssl\": {\"tested_at\": \"2022-01-01\", \"valid\": true}}]";
    match decode_checks(body) {
        Ok(Checks::Checks(v)) => {
            assert_eq!(v.len(), 1);
            assert_eq!(v[0].token.as_deref(), Some("tok1"));
            assert_eq!(v[0].url.as_deref(), Some("https://example.com"));
            assert_eq!(v[0].period, Some(60));
            assert_eq!(v[0].enabled, Some(true));
            assert_eq!(v[0].last_status, Some(200));
            assert_eq!(v[0].uptime.as_deref(), Some("99.98"));
            assert_eq!(v[0].down, Some(false));
            assert_eq!(v[0].apdex_t.as_deref(), Some("0.5"));
            let ssl = v[0].ssl.as_ref().expect("ssl present");
            assert_eq!(ssl.tested_at.as_deref(), Some("2022-01-01"));
            assert_eq!(ssl.valid, Some(true));
            assert_eq!(ssl.error, None);
        },
        _ => panic!("expected the success envelope"),
    }
}

#[test]
fn delete_response_decodes_to_pairs() {
    let pairs = decode_delete("{\"deleted\": \"true\"}").expect("flat object of strings");
    assert_eq!(pairs, vec![("deleted".to_string(), "true".to_string())]);
}

#[test]
fn encoded_body_omits_absent_fields_and_echoes_present_ones() {
    let args = args_of(&[
        ("token", "tok1"),
        ("url", "https://example.com"),
        ("period", "60"),
        ("apdex_t", "0.5"),
        ("enabled", "true"),
        ("alias", "my check"),
    ]);
    let params = CheckParams::parse_update("secret", &args).expect("should build");
    let body = params.body_string();
    assert!(!body.contains("\"published\""));
    assert!(!body.contains("\"mute_until\""));
    assert!(!body.contains("null"));
    assert!(body.contains("\"api-key\":\"secret\""));

    let check = decode_check_response(&body).expect("the body is a check-shaped object");
    assert_eq!(check.token.as_deref(), Some("tok1"));
    assert_eq!(check.url.as_deref(), Some("https://example.com"));
    assert_eq!(check.period, Some(60));
    assert_eq!(check.apdex_t.as_deref(), Some("0.5"));
    assert_eq!(check.enabled, Some(true));
    assert_eq!(check.alias.as_deref(), Some("my check"));
    assert_eq!(check.published, None);
    assert_eq!(check.mute_until, None);
}

#[test]
fn rendered_strings_escape_special_characters() {
    let j = Json::Str("a\"b\\c\nd".to_string());
    let text = render_json(&j);
    assert_eq!(text, "\"a\\\"b\\\\c\\nd\"");
    let back = updown::json::parse_json(&text).expect("valid JSON text");
    match back {
        Json::Str(s) => assert_eq!(s, "a\"b\\c\nd"),
        _ => panic!("expected a string"),
    }
}

#[test]
fn requests_carry_method_path_query_and_body() {
    let c = Client::new("secret", None, None);
    let r = c.all_request();
    assert!(matches!(r.method, Method::Get));
    assert_eq!(r.path, "checks");
    assert_eq!(r.query, vec![("api-key".to_string(), "secret".to_string())]);
    assert!(r.body.is_none());

    let r = c.check_request("tok1", true);
    assert_eq!(r.path, "checks/tok1");
    assert_eq!(
        r.query,
        vec![
            ("api-key".to_string(), "secret".to_string()),
            ("metrics".to_string(), "true".to_string()),
        ]
    );

    let args = args_of(&[("token", "tok1"), ("period", "60")]);
    let params = CheckParams::parse_update("secret", &args).expect("should build");
    let r = c.update_request(&params);
    assert!(matches!(r.method, Method::Put));
    assert_eq!(r.path, "checks/tok1");
    assert!(r.query.is_empty());
    let body = r.body.expect("update carries a body");
    assert_eq!(body, "{\"api-key\":\"secret\",\"token\":\"tok1\",\"period\":60}");

    let r = c.delete_request("tok1");
    assert!(matches!(r.method, Method::Delete));
    assert_eq!(r.path, "checks/tok1");
}
