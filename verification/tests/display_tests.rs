use lueur_cli::display::{AppliedFault, DisplayAction, DisplayEvent, LineDetail, ShownFault, Summary, TaskBoard};
use lueur_cli::event::FaultEventKind;
use lueur_cli::termui::{average_rate, Tone};
use lueur_cli::types::Direction;

fn started(board: &mut TaskBoard, id: usize, url: &str) {
    let a = board.step(DisplayEvent::Started { id, url: url.to_string() });
    match a {
        DisplayAction::Open { url: u } => assert_eq!(u, url),
        _ => panic!("a started task opens a line"),
    }
}

const MS: u128 = 1_000_000;

#[test]
fn started_task_is_on_screen_until_completed() {
    let mut board = TaskBoard::new();
    assert_eq!(board.len(), 0);
    started(&mut board, 1, "http://example.com");
    started(&mut board, 2, "http://other.com");
    assert_eq!(board.len(), 2);
    assert!(board.contains(1));
    match board.step(DisplayEvent::ResponseReceived { id: 1, status_code: 204 }) {
        DisplayAction::Update { url, fault, detail: LineDetail::Status { code } } => {
            assert_eq!(url, "http://example.com");
            assert_eq!(fault, None);
            assert_eq!(code, 204);
        }
        _ => panic!("a response redraws the line"),
    }
    match board.step(DisplayEvent::Completed { id: 1 }) {
        DisplayAction::Finish { url, detail: LineDetail::Completed { summary: Summary::Sparkline { bars }, code }, .. } => {
            assert_eq!(url, "http://example.com");
            assert!(bars.is_empty());
            assert_eq!(code, 204);
        }
        _ => panic!("completion finishes the line"),
    }
    assert!(!board.contains(1));
    assert!(board.contains(2));
    assert_eq!(board.len(), 1);
}

#[test]
fn events_for_unknown_tasks_draw_nothing() {
    let mut board = TaskBoard::new();
    assert!(matches!(board.step(DisplayEvent::IpResolved { id: 7 }), DisplayAction::Nothing));
    assert!(matches!(board.step(DisplayEvent::Completed { id: 7 }), DisplayAction::Nothing));
    assert!(matches!(board.step(DisplayEvent::Error { id: 7 }), DisplayAction::Nothing));
    assert!(matches!(
        board.step(DisplayEvent::ResponseReceived { id: 7, status_code: 200 }),
        DisplayAction::Nothing
    ));
    assert_eq!(board.len(), 0);
}

#[test]
fn latency_samples_build_a_sparkline_of_the_last_twenty() {
    let mut board = TaskBoard::new();
    started(&mut board, 3, "u");
    let fault = ShownFault { kind: FaultEventKind::Latency, dns_triggered: None };
    assert!(matches!(
        board.step(DisplayEvent::WithFault { id: 3, fault }),
        DisplayAction::Update { detail: LineDetail::Faulted, .. }
    ));
    // A latency without a delay is kept but draws nothing.
    assert!(matches!(
        board.step(DisplayEvent::FaultApplied {
            id: 3,
            fault: AppliedFault::Latency { delay_nanos: None },
            direction: Direction::Ingress,
        }),
        DisplayAction::Nothing
    ));
    let mut last = Vec::new();
    for i in 0..25u128 {
        let delay = if i < 5 { 900 * MS } else { 10 * MS };
        let a = board.step(DisplayEvent::FaultApplied {
            id: 3,
            fault: AppliedFault::Latency { delay_nanos: Some(delay) },
            direction: Direction::Ingress,
        });
        match a {
            DisplayAction::Update { detail: LineDetail::Sparkline { bars }, fault: f, .. } => {
                assert_eq!(f, Some(fault));
                last = bars;
            }
            _ => panic!("a latency with a delay redraws the sparkline"),
        }
    }
    assert_eq!(last.len(), 20);
    assert!(last.iter().all(|b| *b == ('\u{2581}', Tone::Green)));
    match board.step(DisplayEvent::Completed { id: 3 }) {
        DisplayAction::Finish { detail: LineDetail::Completed { summary: Summary::Sparkline { bars }, code }, .. } => {
            assert_eq!(bars, last);
            assert_eq!(code, 0);
        }
        _ => panic!("completion finishes with the sparkline"),
    }
}

#[test]
fn bandwidth_task_completes_with_the_mean_rate() {
    let mut board = TaskBoard::new();
    started(&mut board, 4, "u");
    let fault = ShownFault { kind: FaultEventKind::Bandwidth, dns_triggered: None };
    board.step(DisplayEvent::WithFault { id: 4, fault });
    match board.step(DisplayEvent::FaultApplied {
        id: 4,
        fault: AppliedFault::Bandwidth { bps: Some(1000) },
        direction: Direction::Egress,
    }) {
        DisplayAction::Update { detail: LineDetail::Rate { direction, bps }, .. } => {
            assert_eq!(direction, Direction::Egress);
            assert_eq!(bps, 1000);
        }
        _ => panic!("a rate redraws the line"),
    }
    board.step(DisplayEvent::FaultApplied {
        id: 4,
        fault: AppliedFault::Bandwidth { bps: Some(3000) },
        direction: Direction::Egress,
    });
    // A packet loss sample counts as a zero rate in the mean.
    assert!(matches!(
        board.step(DisplayEvent::FaultApplied { id: 4, fault: AppliedFault::PacketLoss, direction: Direction::Both }),
        DisplayAction::Update { detail: LineDetail::PacketLoss, .. }
    ));
    // Other faults are not kept.
    assert!(matches!(
        board.step(DisplayEvent::FaultApplied { id: 4, fault: AppliedFault::Other, direction: Direction::Both }),
        DisplayAction::Nothing
    ));
    board.step(DisplayEvent::ResponseReceived { id: 4, status_code: 503 });
    match board.step(DisplayEvent::Completed { id: 4 }) {
        DisplayAction::Finish { fault: f, detail: LineDetail::Completed { summary: Summary::AverageRate { bps }, code }, .. } => {
            assert_eq!(f, Some(fault));
            assert_eq!(bps, 4000 / 3);
            assert_eq!(code, 503);
        }
        _ => panic!("a bandwidth task finishes with its mean rate"),
    }
}

#[test]
fn failed_task_leaves_the_board() {
    let mut board = TaskBoard::new();
    started(&mut board, 5, "http://x");
    assert!(matches!(
        board.step(DisplayEvent::IpResolved { id: 5 }),
        DisplayAction::Update { detail: LineDetail::Resolved, .. }
    ));
    assert!(matches!(board.step(DisplayEvent::FirstByte { id: 5 }), DisplayAction::Nothing));
    match board.step(DisplayEvent::Error { id: 5 }) {
        DisplayAction::Finish { url, detail: LineDetail::Failed, .. } => assert_eq!(url, "http://x"),
        _ => panic!("an error finishes the line"),
    }
    assert_eq!(board.len(), 0);
}

#[test]
fn average_rate_does_not_overflow() {
    assert_eq!(average_rate(&vec![usize::MAX, usize::MAX]), Some(usize::MAX));
    assert_eq!(average_rate(&vec![usize::MAX, 1]), Some(usize::MAX / 2 + 1));
}
