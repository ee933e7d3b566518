use python_manager::cmd::drain::{Drain, DrainEvent, Emission, Stream};
use python_manager::cmd::error::VenvError;
use python_manager::cmd::utils::run_command;
use python_manager::notice::{Notice, Tone};

fn line(stream: Stream, text: &str) -> DrainEvent {
    DrainEvent::Line { stream, text: text.to_string() }
}

fn shown(emissions: &[Emission], wanted: Stream) -> Vec<String> {
    let mut lines: Vec<String> = Vec::new();
    for emission in emissions {
        if let Emission::Line { stream, text } = emission {
            if *stream == wanted {
                lines.push(text.clone());
            }
        }
    }
    lines
}

#[test]
fn draining_keeps_each_stream_in_order() {
    let events = vec![
        line(Stream::Stdout, "out 1"),
        line(Stream::Stderr, "err 1"),
        line(Stream::Stderr, "err 2"),
        line(Stream::Stdout, "out 2"),
        DrainEvent::Exited { success: true },
        line(Stream::Stdout, "out 3"),
        DrainEvent::Closed(Stream::Stderr),
        line(Stream::Stdout, "out 4"),
        DrainEvent::Closed(Stream::Stdout),
    ];
    let report = run_command(&events);
    assert_eq!(
        shown(&report.emissions, Stream::Stdout),
        vec!["out 1".to_string(), "out 2".to_string(), "out 3".to_string(), "out 4".to_string()]
    );
    assert_eq!(
        shown(&report.emissions, Stream::Stderr),
        vec!["err 1".to_string(), "err 2".to_string()]
    );
    assert_eq!(report.emissions.len(), 6);
    assert_eq!(report.outcome, Some(Ok(())));
}

#[test]
fn a_run_is_over_only_when_all_three_have_settled() {
    let mut drain = Drain::new();
    assert!(!drain.settled());
    assert_eq!(drain.outcome(), None);
    assert_eq!(drain.step(&DrainEvent::Exited { success: true }), None);
    assert!(!drain.settled());
    assert_eq!(drain.outcome(), None);
    assert_eq!(drain.step(&DrainEvent::Closed(Stream::Stdout)), None);
    assert!(!drain.settled());
    assert_eq!(drain.outcome(), None);
    assert_eq!(drain.step(&DrainEvent::Closed(Stream::Stderr)), None);
    assert!(drain.settled());
    assert_eq!(drain.outcome(), Some(Ok(())));
}

#[test]
fn a_failure_status_is_a_failed_command() {
    let events = vec![
        DrainEvent::Closed(Stream::Stdout),
        DrainEvent::Closed(Stream::Stderr),
        DrainEvent::Exited { success: false },
    ];
    let report = run_command(&events);
    assert!(report.emissions.is_empty());
    assert_eq!(report.outcome, Some(Err(VenvError::CommandFailed)));
}

#[test]
fn a_failed_read_is_reported_and_the_rest_goes_on() {
    let events = vec![
        line(Stream::Stdout, "before"),
        DrainEvent::ReadFailed { stream: Stream::Stdout, cause: "broken pipe".to_string() },
        line(Stream::Stderr, "still read"),
        DrainEvent::ReadFailed { stream: Stream::Stderr, cause: "reset".to_string() },
        DrainEvent::Exited { success: true },
    ];
    let report = run_command(&events);
    assert_eq!(
        report.emissions,
        vec![
            Emission::Line { stream: Stream::Stdout, text: "before".to_string() },
            Emission::Report(Notice {
                tone: Tone::Failure,
                text: "Error reading stdout: broken pipe".to_string(),
            }),
            Emission::Line { stream: Stream::Stderr, text: "still read".to_string() },
            Emission::Report(Notice {
                tone: Tone::Failure,
                text: "Error reading stderr: reset".to_string(),
            }),
        ]
    );
    assert_eq!(report.outcome, Some(Ok(())));
}

#[test]
fn a_failed_wait_is_an_io_error() {
    let events = vec![
        DrainEvent::WaitFailed("no child processes".to_string()),
        DrainEvent::Closed(Stream::Stdout),
        DrainEvent::Closed(Stream::Stderr),
    ];
    assert_eq!(
        run_command(&events).outcome,
        Some(Err(VenvError::Io("no child processes".to_string())))
    );
}

#[test]
fn the_first_end_of_the_process_counts() {
    let events = vec![
        DrainEvent::Exited { success: false },
        DrainEvent::Exited { success: true },
        DrainEvent::WaitFailed("late".to_string()),
        DrainEvent::Closed(Stream::Stdout),
        DrainEvent::Closed(Stream::Stderr),
    ];
    assert_eq!(run_command(&events).outcome, Some(Err(VenvError::CommandFailed)));
}

#[test]
fn events_that_stop_early_give_no_outcome() {
    let events = vec![line(Stream::Stdout, "only"), DrainEvent::Closed(Stream::Stdout)];
    let report = run_command(&events);
    assert_eq!(report.emissions.len(), 1);
    assert_eq!(report.outcome, None);
    let nothing = run_command(&Vec::new());
    assert!(nothing.emissions.is_empty());
    assert_eq!(nothing.outcome, None);
}

#[test]
fn a_step_shows_the_line_it_was_given() {
    let mut drain = Drain::new();
    assert_eq!(
        drain.step(&line(Stream::Stderr, "warning: x")),
        Some(Emission::Line { stream: Stream::Stderr, text: "warning: x".to_string() })
    );
    assert_eq!(
        drain.step(&line(Stream::Stdout, "")),
        Some(Emission::Line { stream: Stream::Stdout, text: String::new() })
    );
}
