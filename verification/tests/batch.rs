use ens_name_search::batch::{BatchRun, Event, Failure, Request, Step};
use ens_name_search::source::{missing_path_message, select_source, SourceChoice};

/// What a run came to: the names written out, the names put to the oracle, and
/// the request on which the driver stopped.
struct Outcome {
    written: Vec<String>,
    asked: Vec<String>,
    end: Request,
}

/// Drives a run over `lines` as a program would: one line at a time, asking
/// `oracle` exactly when the run requests it. `None` from the oracle is a
/// failure.
fn drive(lines: &[&str], oracle: &mut dyn FnMut(&str) -> Option<bool>) -> Outcome {
    let mut written = Vec::new();
    let mut asked = Vec::new();
    let mut rest = lines.iter();
    let mut run = BatchRun::new();
    let mut request = run.request();
    loop {
        let event = match &request {
            Request::ReadLine => match rest.next() {
                Some(line) => Event::Line(line.to_string()),
                None => Event::EndOfInput,
            },
            Request::Ask(name) => {
                asked.push(name.clone());
                match oracle(name) {
                    Some(available) => Event::Answer(available),
                    None => Event::OracleFailed,
                }
            }
            Request::Finish | Request::Abort(_) => {
                return Outcome { written, asked, end: request };
            }
        };
        let step = run.step(event);
        if let Some(name) = step.output {
            written.push(name);
        }
        run = step.run;
        request = step.request;
    }
}

fn quiet(run: BatchRun, request: Request) -> Step {
    Step { run, output: None, request }
}

#[test]
fn a_fresh_run_wants_a_line() {
    assert_eq!(BatchRun::new(), BatchRun::Reading);
    assert_eq!(BatchRun::new().request(), Request::ReadLine);
}

#[test]
fn each_state_stands_by_its_request() {
    assert_eq!(BatchRun::Reading.request(), Request::ReadLine);
    assert_eq!(
        BatchRun::Asking(String::from("alice")).request(),
        Request::Ask(String::from("alice"))
    );
    assert_eq!(BatchRun::Finished.request(), Request::Finish);
    assert_eq!(
        BatchRun::Failed(Failure::Oracle).request(),
        Request::Abort(Failure::Oracle)
    );
    assert_eq!(
        BatchRun::Failed(Failure::Source).request(),
        Request::Abort(Failure::Source)
    );
}

#[test]
fn a_line_with_a_long_enough_name_is_put_to_the_oracle() {
    let step = BatchRun::new().step(Event::Line(String::from("  Alice! ")));
    assert_eq!(
        step,
        quiet(
            BatchRun::Asking(String::from("alice")),
            Request::Ask(String::from("alice"))
        )
    );
}

#[test]
fn a_line_with_a_short_name_is_passed_over() {
    for raw in ["", "a", "bo", "B O", "!!", "x-y", "   "] {
        let step = BatchRun::new().step(Event::Line(String::from(raw)));
        assert_eq!(step, quiet(BatchRun::Reading, Request::ReadLine), "{:?}", raw);
    }
}

#[test]
fn a_yes_writes_the_name_out_and_reads_on() {
    let step = BatchRun::Asking(String::from("alice")).step(Event::Answer(true));
    assert_eq!(
        step,
        Step {
            run: BatchRun::Reading,
            output: Some(String::from("alice")),
            request: Request::ReadLine,
        }
    );
}

#[test]
fn a_no_writes_nothing_and_reads_on() {
    let step = BatchRun::Asking(String::from("alice")).step(Event::Answer(false));
    assert_eq!(step, quiet(BatchRun::Reading, Request::ReadLine));
}

#[test]
fn the_end_of_the_input_ends_the_run() {
    let step = BatchRun::new().step(Event::EndOfInput);
    assert_eq!(step, quiet(BatchRun::Finished, Request::Finish));
}

#[test]
fn a_read_failure_fails_the_run() {
    let step = BatchRun::new().step(Event::ReadFailed);
    assert_eq!(
        step,
        quiet(BatchRun::Failed(Failure::Source), Request::Abort(Failure::Source))
    );
}

#[test]
fn an_oracle_failure_fails_the_run() {
    let step = BatchRun::Asking(String::from("alice")).step(Event::OracleFailed);
    assert_eq!(
        step,
        quiet(BatchRun::Failed(Failure::Oracle), Request::Abort(Failure::Oracle))
    );
}

#[test]
fn a_run_that_has_ended_stays_ended() {
    let events = [
        Event::Line(String::from("alice")),
        Event::EndOfInput,
        Event::ReadFailed,
        Event::Answer(true),
        Event::Answer(false),
        Event::OracleFailed,
    ];
    for event in events {
        let step = BatchRun::Finished.step(event);
        assert_eq!(step, quiet(BatchRun::Finished, Request::Finish));
    }
}

#[test]
fn a_run_that_has_failed_stays_failed() {
    let events = [
        Event::Line(String::from("alice")),
        Event::EndOfInput,
        Event::ReadFailed,
        Event::Answer(true),
        Event::Answer(false),
        Event::OracleFailed,
    ];
    for failure in [Failure::Source, Failure::Oracle] {
        for event in events.clone() {
            let step = BatchRun::Failed(failure).step(event);
            assert_eq!(step, quiet(BatchRun::Failed(failure), Request::Abort(failure)));
        }
    }
}

#[test]
fn an_answer_that_nobody_asked_for_changes_nothing() {
    for event in [Event::Answer(true), Event::Answer(false), Event::OracleFailed] {
        let step = BatchRun::Reading.step(event);
        assert_eq!(step, quiet(BatchRun::Reading, Request::ReadLine));
    }
}

#[test]
fn a_line_during_a_query_changes_nothing() {
    let events = [
        Event::Line(String::from("charlie")),
        Event::EndOfInput,
        Event::ReadFailed,
    ];
    for event in events {
        let step = BatchRun::Asking(String::from("alice")).step(event);
        assert_eq!(
            step,
            quiet(
                BatchRun::Asking(String::from("alice")),
                Request::Ask(String::from("alice"))
            )
        );
    }
}

#[test]
fn batch_of_three_lines_reports_the_one_available_name() {
    let mut calls = 0;
    let outcome = drive(&["Alice", "bo", "CHARLIE!!"], &mut |name| {
        calls += 1;
        match name {
            "alice" => Some(true),
            "charlie" => Some(false),
            other => panic!("the oracle was asked about {:?}", other),
        }
    });
    assert_eq!(outcome.written, vec!["alice"]);
    assert_eq!(outcome.asked, vec!["alice", "charlie"]);
    assert_eq!(outcome.end, Request::Finish);
    assert_eq!(calls, 2);
}

#[test]
fn batch_from_standard_input() {
    assert_eq!(select_source("-"), SourceChoice::StandardInput);
    let input = "zero\nONE\n";
    let lines: Vec<&str> = input.lines().collect();
    let outcome = drive(&lines, &mut |name| match name {
        "zero" => Some(false),
        "one" => Some(true),
        other => panic!("the oracle was asked about {:?}", other),
    });
    assert_eq!(outcome.written, vec!["one"]);
    assert_eq!(outcome.end, Request::Finish);
}

#[test]
fn batch_from_a_path_that_does_not_exist() {
    let path = "no/such/names.txt";
    assert_eq!(select_source(path), SourceChoice::File);
    let message = missing_path_message(path);
    assert!(message.contains(path));
    assert_eq!(message, "\"no/such/names.txt\" does not exist");
}

#[test]
fn oracle_failure_on_the_third_of_five_lines_halts_the_run() {
    let mut calls = 0;
    let outcome = drive(&["alpha", "bravo", "charlie", "delta", "echo"], &mut |name| {
        calls += 1;
        match name {
            "alpha" | "bravo" => Some(true),
            "charlie" => None,
            other => panic!("the oracle was asked about {:?}", other),
        }
    });
    assert_eq!(outcome.written, vec!["alpha", "bravo"]);
    assert_eq!(outcome.asked, vec!["alpha", "bravo", "charlie"]);
    assert_eq!(outcome.end, Request::Abort(Failure::Oracle));
    assert_eq!(calls, 3);
}

#[test]
fn short_names_never_reach_the_oracle() {
    let mut calls = 0;
    let outcome = drive(&["", "a", "bo", "B O", "!!", "x-y", "   ", "\u{e9}\u{e9}"], &mut |_| {
        calls += 1;
        Some(true)
    });
    assert_eq!(calls, 0);
    assert!(outcome.asked.is_empty());
    assert!(outcome.written.is_empty());
    assert_eq!(outcome.end, Request::Finish);
}

#[test]
fn a_failing_oracle_does_not_matter_for_short_names() {
    let outcome = drive(&["a", "bo", "!!"], &mut |_| None);
    assert!(outcome.asked.is_empty());
    assert!(outcome.written.is_empty());
    assert_eq!(outcome.end, Request::Finish);
}

#[test]
fn output_keeps_the_order_and_the_repeats_of_the_input() {
    let lines = ["delta", "Alpha", "bo", "delta", "charlie", "ALPHA!", "Delta"];
    let outcome = drive(&lines, &mut |name| Some(name != "charlie"));
    assert_eq!(outcome.written, vec!["delta", "alpha", "delta", "alpha", "delta"]);
    assert_eq!(
        outcome.asked,
        vec!["delta", "alpha", "delta", "charlie", "alpha", "delta"]
    );
    assert_eq!(outcome.end, Request::Finish);
}

#[test]
fn output_follows_each_reply_of_the_oracle() {
    let mut calls = 0;
    let outcome = drive(&["same", "same", "same", "same"], &mut |_| {
        calls += 1;
        Some(calls % 2 == 1)
    });
    assert_eq!(outcome.written, vec!["same", "same"]);
    assert_eq!(outcome.asked, vec!["same", "same", "same", "same"]);
}

#[test]
fn an_empty_batch_ends_at_once() {
    let outcome = drive(&[], &mut |_| Some(true));
    assert!(outcome.written.is_empty());
    assert!(outcome.asked.is_empty());
    assert_eq!(outcome.end, Request::Finish);
}

#[test]
fn a_batch_where_nothing_is_available_writes_nothing() {
    let outcome = drive(&["alpha", "bravo", "charlie"], &mut |_| Some(false));
    assert!(outcome.written.is_empty());
    assert_eq!(outcome.asked, vec!["alpha", "bravo", "charlie"]);
    assert_eq!(outcome.end, Request::Finish);
}

#[test]
fn oracle_failure_on_the_first_line_writes_nothing() {
    let outcome = drive(&["alpha", "bravo"], &mut |_| None);
    assert!(outcome.written.is_empty());
    assert_eq!(outcome.asked, vec!["alpha"]);
    assert_eq!(outcome.end, Request::Abort(Failure::Oracle));
}

#[test]
fn read_failure_after_two_lines_keeps_what_was_written() {
    let mut written = Vec::new();
    let mut run = BatchRun::new();
    for raw in ["alpha", "bravo"] {
        let read = run.step(Event::Line(String::from(raw)));
        assert_eq!(read.request, Request::Ask(String::from(raw)));
        let answered = read.run.step(Event::Answer(true));
        written.extend(answered.output);
        run = answered.run;
    }
    let failed = run.step(Event::ReadFailed);
    assert_eq!(failed.output, None);
    assert_eq!(failed.request, Request::Abort(Failure::Source));
    assert_eq!(failed.run, BatchRun::Failed(Failure::Source));
    assert_eq!(written, vec!["alpha", "bravo"]);
}
