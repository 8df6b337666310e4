use urlprobe::probe::{
    classify, process_url, Emission, HttpCode, ProbeOutcome, ProbeStatus, Response,
};

fn status(code: u16) -> Response {
    Response::Status(HttpCode::new(code).unwrap())
}

#[test]
fn http_code_accepts_three_digits_only() {
    assert!(HttpCode::new(0).is_none());
    assert!(HttpCode::new(99).is_none());
    assert_eq!(HttpCode::new(100).unwrap().get(), 100);
    assert_eq!(HttpCode::new(200).unwrap().get(), 200);
    assert_eq!(HttpCode::new(999).unwrap().get(), 999);
    assert!(HttpCode::new(1000).is_none());
    assert!(HttpCode::new(u16::MAX).is_none());
}

#[test]
fn http_code_text_is_its_three_digits() {
    assert_eq!(HttpCode::new(100).unwrap().text(), "100");
    assert_eq!(HttpCode::new(200).unwrap().text(), "200");
    assert_eq!(HttpCode::new(404).unwrap().text(), "404");
    assert_eq!(HttpCode::new(999).unwrap().text(), "999");
}

#[test]
fn http_code_text_matches_decimal_for_every_code() {
    for code in 100u16..=999 {
        assert_eq!(HttpCode::new(code).unwrap().text(), format!("{}", code));
    }
}

#[test]
fn classify_only_200_is_success() {
    assert_eq!(classify(&status(200)), ProbeStatus::Success);
    assert_eq!(
        classify(&status(201)),
        ProbeStatus::HttpError(HttpCode::new(201).unwrap())
    );
    assert_eq!(
        classify(&status(404)),
        ProbeStatus::HttpError(HttpCode::new(404).unwrap())
    );
    assert_eq!(
        classify(&status(500)),
        ProbeStatus::HttpError(HttpCode::new(500).unwrap())
    );
    assert_eq!(
        classify(&Response::Failure(String::from("connection refused"))),
        ProbeStatus::TransportError(String::from("connection refused"))
    );
}

#[test]
fn observe_keeps_the_url() {
    let outcome = ProbeOutcome::observe("http://a.test", &status(200));
    assert_eq!(outcome.url, "http://a.test");
    assert_eq!(outcome.status, ProbeStatus::Success);
    assert!(outcome.is_success());

    let outcome = ProbeOutcome::observe("http://b.test", &status(301));
    assert_eq!(outcome.url, "http://b.test");
    assert!(!outcome.is_success());
}

#[test]
fn success_line_has_code_and_url() {
    let (emitted, ok) = process_url("http://a.test", &status(200), false);
    assert_eq!(emitted, Emission::Stdout(String::from("200 - http://a.test")));
    assert!(ok);
}

#[test]
fn quiet_silences_a_success() {
    let (emitted, ok) = process_url("http://a.test", &status(200), true);
    assert_eq!(emitted, Emission::Silent);
    assert!(ok);
}

#[test]
fn http_error_line_ignores_quiet() {
    for quiet in [false, true] {
        let (emitted, ok) = process_url("http://b.test", &status(404), quiet);
        assert_eq!(emitted, Emission::Stdout(String::from("404 - http://b.test")));
        assert!(!ok);
    }
}

#[test]
fn transport_error_line_ignores_quiet() {
    let failure = Response::Failure(String::from("dns error"));
    for quiet in [false, true] {
        let (emitted, ok) = process_url("http://nowhere.test", &failure, quiet);
        assert_eq!(
            emitted,
            Emission::Stderr(String::from("ERR - http://nowhere.test (dns error)"))
        );
        assert!(!ok);
    }
}

#[test]
fn quiet_changes_nothing_but_successes() {
    let responses = [
        status(100),
        status(199),
        status(200),
        status(204),
        status(302),
        status(404),
        status(503),
        Response::Failure(String::from("tls handshake failed")),
    ];
    for response in responses.iter() {
        let (loud, loud_ok) = process_url("http://x.test/p?q=1", response, false);
        let (quiet, quiet_ok) = process_url("http://x.test/p?q=1", response, true);
        assert_eq!(loud_ok, quiet_ok);
        assert_ne!(loud, Emission::Silent);
        if loud_ok {
            assert_eq!(quiet, Emission::Silent);
        } else {
            assert_eq!(quiet, loud);
        }
    }
}

#[test]
fn malformed_url_is_reported_as_given() {
    let failure = Response::Failure(String::from("builder error"));
    let (emitted, ok) = process_url("not a url", &failure, false);
    assert_eq!(emitted, Emission::Stderr(String::from("ERR - not a url (builder error)")));
    assert!(!ok);
}

#[test]
fn empty_url_and_detail_still_give_a_line() {
    let (emitted, ok) = process_url("", &Response::Failure(String::new()), true);
    assert_eq!(emitted, Emission::Stderr(String::from("ERR -  ()")));
    assert!(!ok);

    let (emitted, ok) = process_url("", &status(500), true);
    assert_eq!(emitted, Emission::Stdout(String::from("500 - ")));
    assert!(!ok);
}

#[test]
fn non_ascii_url_is_kept() {
    let (emitted, _) = process_url("http://ex\u{e4}mple.test/\u{fc}", &status(418), false);
    assert_eq!(emitted, Emission::Stdout(String::from("418 - http://ex\u{e4}mple.test/\u{fc}")));
}

#[test]
fn outcome_emission_agrees_with_process_url() {
    let response = status(404);
    let outcome = ProbeOutcome::observe("http://b.test", &response);
    let (emitted, ok) = process_url("http://b.test", &response, false);
    assert_eq!(outcome.emission(false), emitted);
    assert_eq!(outcome.is_success(), ok);
}

#[test]
fn a_timeout_goes_to_stderr() {
    let timed_out = Response::Failure(String::from("operation timed out"));
    let (emitted, ok) = process_url("http://slow.test", &timed_out, false);
    match emitted {
        Emission::Stderr(line) => {
            assert!(line.starts_with("ERR - http://slow.test ("));
            assert!(line.ends_with(')'));
            assert_eq!(line, "ERR - http://slow.test (operation timed out)");
        }
        other => panic!("expected a line on standard error, got {:?}", other),
    }
    assert!(!ok);
}
