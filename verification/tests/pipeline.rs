use urlprobe::pipeline::{replay, Exchange, ReplayError, Transcript};
use urlprobe::probe::{Emission, HttpCode, ProbeStatus, Response};
use urlprobe::settings::Settings;

fn answers(url: &str, code: u16) -> Exchange {
    Exchange { url: String::from(url), response: Response::Status(HttpCode::new(code).unwrap()) }
}

fn fails(url: &str, detail: &str) -> Exchange {
    Exchange { url: String::from(url), response: Response::Failure(String::from(detail)) }
}

fn configured(threads: usize, quiet: bool) -> Settings {
    Settings { quiet, threads, ..Settings::default() }
}

fn stdout_lines(transcript: &Transcript) -> Vec<String> {
    let mut lines = Vec::new();
    for emitted in transcript.emissions.iter() {
        if let Emission::Stdout(line) = emitted {
            lines.push(line.clone());
        }
    }
    lines
}

fn stderr_lines(transcript: &Transcript) -> Vec<String> {
    let mut lines = Vec::new();
    for emitted in transcript.emissions.iter() {
        if let Emission::Stderr(line) = emitted {
            lines.push(line.clone());
        }
    }
    lines
}

fn sorted(mut lines: Vec<String>) -> Vec<String> {
    lines.sort();
    lines
}

#[test]
fn mixed_answers_are_all_reported() {
    let script = vec![answers("http://a.test", 200), answers("http://b.test", 404)];
    let run = replay(&script, &configured(30, false), &vec![0, 1]).unwrap();
    let lines = stdout_lines(&run);
    assert!(lines.contains(&String::from("200 - http://a.test")));
    assert!(lines.contains(&String::from("404 - http://b.test")));
    assert_eq!(lines.len(), 2);
    assert!(stderr_lines(&run).is_empty());
    assert!(!run.success);
}

#[test]
fn quiet_run_reports_only_the_failure() {
    let script = vec![answers("http://a.test", 200), answers("http://b.test", 404)];
    let run = replay(&script, &configured(30, true), &vec![0, 1]).unwrap();
    assert_eq!(stdout_lines(&run), vec![String::from("404 - http://b.test")]);
    assert!(stderr_lines(&run).is_empty());
    assert!(!run.success);
}

#[test]
fn no_input_no_output() {
    let script: Vec<Exchange> = vec![];
    let run = replay(&script, &configured(30, false), &vec![]).unwrap();
    assert!(run.success);
    assert!(run.outcomes.is_empty());
    assert!(run.emissions.is_empty());
    assert_eq!(run.peak, 0);
}

#[test]
fn single_window_five_successes() {
    let script = vec![
        answers("http://one.test", 200),
        answers("http://two.test", 200),
        answers("http://three.test", 200),
        answers("http://four.test", 200),
        answers("http://five.test", 200),
    ];
    let run = replay(&script, &configured(1, false), &vec![0, 1, 2, 3, 4]).unwrap();
    assert_eq!(
        stdout_lines(&run),
        vec![
            String::from("200 - http://one.test"),
            String::from("200 - http://two.test"),
            String::from("200 - http://three.test"),
            String::from("200 - http://four.test"),
            String::from("200 - http://five.test"),
        ]
    );
    assert!(run.success);
    assert_eq!(run.peak, 1);
}

#[test]
fn a_timeout_fails_the_run() {
    let script = vec![fails("http://slow.test", "operation timed out")];
    let run = replay(&script, &configured(30, false), &vec![0]).unwrap();
    assert_eq!(
        stderr_lines(&run),
        vec![String::from("ERR - http://slow.test (operation timed out)")]
    );
    assert!(stdout_lines(&run).is_empty());
    assert!(!run.success);
}

#[test]
fn outcomes_follow_the_completion_order() {
    let script = vec![
        answers("http://a.test", 200),
        answers("http://b.test", 404),
        fails("http://c.test", "connection refused"),
    ];
    let run = replay(&script, &configured(3, false), &vec![2, 0, 1]).unwrap();
    assert_eq!(run.outcomes.len(), 3);
    assert_eq!(run.outcomes[0].url, "http://c.test");
    assert_eq!(
        run.outcomes[0].status,
        ProbeStatus::TransportError(String::from("connection refused"))
    );
    assert_eq!(run.outcomes[1].url, "http://a.test");
    assert_eq!(run.outcomes[1].status, ProbeStatus::Success);
    assert_eq!(run.outcomes[2].url, "http://b.test");
    assert_eq!(run.outcomes[2].status, ProbeStatus::HttpError(HttpCode::new(404).unwrap()));
    assert_eq!(
        run.emissions,
        vec![
            Emission::Stderr(String::from("ERR - http://c.test (connection refused)")),
            Emission::Stdout(String::from("200 - http://a.test")),
            Emission::Stdout(String::from("404 - http://b.test")),
        ]
    );
    assert!(!run.success);
    assert_eq!(run.peak, 3);
}

#[test]
fn one_outcome_for_each_url() {
    let mut script = Vec::new();
    for i in 0..40u16 {
        script.push(answers(&format!("http://host{}.test", i), 200 + (i % 3)));
    }
    let mut order: Vec<usize> = Vec::new();
    for k in 0..40usize {
        order.push(if k % 2 == 0 { k + 1 } else { k - 1 });
    }
    let run = replay(&script, &configured(4, false), &order).unwrap();
    assert_eq!(run.outcomes.len(), 40);
    assert_eq!(run.emissions.len(), 40);
    let mut urls: Vec<String> = run.outcomes.iter().map(|o| o.url.clone()).collect();
    urls.sort();
    urls.dedup();
    assert_eq!(urls.len(), 40);
    for exchange in script.iter() {
        assert!(urls.contains(&exchange.url));
    }
}

#[test]
fn same_lines_whatever_the_concurrency() {
    let script = vec![
        answers("http://a.test", 200),
        answers("http://b.test", 404),
        fails("http://c.test", "dns error"),
        answers("http://d.test", 200),
        answers("http://e.test", 500),
        answers("http://a.test", 200),
    ];
    for quiet in [false, true] {
        let serial = replay(&script, &configured(1, quiet), &vec![0, 1, 2, 3, 4, 5]).unwrap();
        let wide = replay(&script, &configured(6, quiet), &vec![5, 4, 3, 2, 1, 0]).unwrap();
        let narrow = replay(&script, &configured(2, quiet), &vec![1, 0, 3, 2, 5, 4]).unwrap();
        assert_eq!(sorted(stdout_lines(&serial)), sorted(stdout_lines(&wide)));
        assert_eq!(sorted(stdout_lines(&serial)), sorted(stdout_lines(&narrow)));
        assert_eq!(sorted(stderr_lines(&serial)), sorted(stderr_lines(&wide)));
        assert_eq!(sorted(stderr_lines(&serial)), sorted(stderr_lines(&narrow)));
        assert_eq!(serial.success, wide.success);
        assert_eq!(serial.success, narrow.success);
        assert_ne!(stdout_lines(&serial), stdout_lines(&wide));
    }
}

#[test]
fn peak_is_the_smaller_of_window_and_input() {
    let script = vec![
        answers("http://a.test", 200),
        answers("http://b.test", 200),
        answers("http://c.test", 200),
    ];
    let order = vec![0, 1, 2];
    assert_eq!(replay(&script, &configured(1, false), &order).unwrap().peak, 1);
    assert_eq!(replay(&script, &configured(2, false), &order).unwrap().peak, 2);
    assert_eq!(replay(&script, &configured(3, false), &order).unwrap().peak, 3);
    assert_eq!(replay(&script, &configured(30, false), &order).unwrap().peak, 3);
    assert_eq!(replay(&script, &configured(usize::MAX, false), &order).unwrap().peak, 3);
}

#[test]
fn replay_needs_a_window() {
    let script = vec![answers("http://a.test", 200)];
    assert_eq!(replay(&script, &configured(0, false), &vec![0]), Err(ReplayError::NoWindow));
    assert_eq!(replay(&vec![], &configured(0, false), &vec![]), Err(ReplayError::NoWindow));
}

#[test]
fn replay_needs_every_probe_once() {
    let script = vec![answers("http://a.test", 200), answers("http://b.test", 200)];
    let settings = configured(2, false);
    assert_eq!(replay(&script, &settings, &vec![]), Err(ReplayError::NotAPermutation));
    assert_eq!(replay(&script, &settings, &vec![0]), Err(ReplayError::NotAPermutation));
    assert_eq!(replay(&script, &settings, &vec![0, 0]), Err(ReplayError::NotAPermutation));
    assert_eq!(replay(&script, &settings, &vec![1, 1]), Err(ReplayError::NotAPermutation));
    assert_eq!(replay(&script, &settings, &vec![0, 2]), Err(ReplayError::NotAPermutation));
    assert_eq!(replay(&script, &settings, &vec![0, 1, 1]), Err(ReplayError::NotAPermutation));
    assert_eq!(
        replay(&script, &settings, &vec![usize::MAX, 0]),
        Err(ReplayError::NotAPermutation)
    );
    assert!(replay(&script, &settings, &vec![1, 0]).is_ok());
}

#[test]
fn replay_refuses_a_completion_outside_the_window() {
    let script = vec![
        answers("http://a.test", 200),
        answers("http://b.test", 200),
        answers("http://c.test", 200),
    ];
    assert_eq!(
        replay(&script, &configured(1, false), &vec![1, 0, 2]),
        Err(ReplayError::OutsideWindow)
    );
    assert_eq!(
        replay(&script, &configured(2, false), &vec![2, 0, 1]),
        Err(ReplayError::OutsideWindow)
    );
    assert!(replay(&script, &configured(2, false), &vec![1, 2, 0]).is_ok());
    assert!(replay(&script, &configured(3, false), &vec![2, 0, 1]).is_ok());
}

#[test]
fn a_late_failure_is_still_counted() {
    let script = vec![
        answers("http://a.test", 200),
        answers("http://b.test", 200),
        answers("http://c.test", 503),
    ];
    let run = replay(&script, &configured(2, true), &vec![0, 1, 2]).unwrap();
    assert!(!run.success);
    assert_eq!(
        run.emissions,
        vec![
            Emission::Silent,
            Emission::Silent,
            Emission::Stdout(String::from("503 - http://c.test")),
        ]
    );
}
