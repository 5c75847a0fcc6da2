use rgb_stress_test::transfer::{
    find_status, get_consignment_path, next_reading, Action, Event, Party, Stage, Stopwatch, TransferError,
    TransferRecord, TransferRun, TransferStatus,
};

fn settled() -> Event {
    Event::StatusReported { status: Some(TransferStatus::Settled) }
}

/// Drives a run of `n` assets with the given clock readings for the seven
/// timed points (begin, send, four refreshes and the block in between).
fn run_transfer(n: usize, t: [u64; 7]) -> TransferRun {
    let mut run = TransferRun::start(n, t[0]).unwrap();
    for i in 0..n {
        assert_eq!(run.next_action(), Action::BlindReceive { asset: i });
        run.record(Event::ReceiveReady { recipient_id: format!("rid{i}") }, t[0]).unwrap();
    }
    assert_eq!(run.next_action(), Action::Send);
    run.record(Event::Sent { txid: "abc".to_string() }, t[1]).unwrap();
    assert_eq!(run.next_action(), Action::Refresh { party: Party::Receiver });
    run.record(Event::Refreshed, t[2]).unwrap();
    assert_eq!(run.next_action(), Action::Refresh { party: Party::Sender });
    run.record(Event::Refreshed, t[3]).unwrap();
    assert_eq!(run.next_action(), Action::Mine);
    run.record(Event::Mined, t[4]).unwrap();
    assert_eq!(run.next_action(), Action::Refresh { party: Party::Receiver });
    run.record(Event::Refreshed, t[5]).unwrap();
    assert_eq!(run.next_action(), Action::Refresh { party: Party::Sender });
    run.record(Event::Refreshed, t[6]).unwrap();
    for i in 0..n {
        assert_eq!(run.next_action(), Action::MeasureConsignment { asset: i });
        run.record(Event::ConsignmentMeasured { size: 100 + i as u64 }, t[6]).unwrap();
    }
    for i in 0..n {
        assert_eq!(run.next_action(), Action::CheckStatus { party: Party::Sender, asset: i });
        run.record(settled(), t[6]).unwrap();
    }
    for i in 0..n {
        assert_eq!(run.next_action(), Action::CheckStatus { party: Party::Receiver, asset: i });
        run.record(settled(), t[6]).unwrap();
    }
    run
}

#[test]
fn stage_times_follow_protocol_order() {
    let run = run_transfer(1, [0, 5, 9, 9, 20, 31, 40]);
    assert_eq!(run.next_action(), Action::Finish);
    let o = run.outcome().unwrap();
    let t = o.times;
    assert!(t.begin <= t.send);
    assert!(t.send <= t.recv_refresh_1);
    assert!(t.recv_refresh_1 <= t.send_refresh_1);
    assert!(t.send_refresh_1 <= t.mine);
    assert!(t.mine <= t.recv_refresh_2);
    assert!(t.recv_refresh_2 <= t.end);
    assert_eq!(t.durations(), [5, 4, 0, 11, 9, 40]);
    assert_eq!(o.txid, "abc");
    assert_eq!(o.consignment_sizes, vec![100]);
}

#[test]
fn settled_outcome_has_both_sides_settled() {
    let run = run_transfer(2, [1, 2, 3, 4, 5, 6, 7]);
    let o = run.outcome().unwrap();
    assert_eq!(o.sender_statuses, vec![TransferStatus::Settled; 2]);
    assert_eq!(o.receiver_statuses, vec![TransferStatus::Settled; 2]);
    assert_eq!(o.recipient_ids, vec!["rid0".to_string(), "rid1".to_string()]);
    assert_eq!(o.consignment_sizes, vec![100, 101]);
}

#[test]
fn unsettled_record_aborts() {
    let mut run = TransferRun::start(1, 0).unwrap();
    run.record(Event::ReceiveReady { recipient_id: "r".to_string() }, 0).unwrap();
    run.record(Event::Sent { txid: "t".to_string() }, 1).unwrap();
    for _ in 0..2 {
        run.record(Event::Refreshed, 2).unwrap();
    }
    run.record(Event::Mined, 3).unwrap();
    for _ in 0..2 {
        run.record(Event::Refreshed, 4).unwrap();
    }
    run.record(Event::ConsignmentMeasured { size: 7 }, 4).unwrap();
    run.record(settled(), 4).unwrap();
    let e = run
        .record(Event::StatusReported { status: Some(TransferStatus::WaitingConfirmations) }, 4)
        .unwrap_err();
    let expected = TransferError::NotSettled {
        party: Party::Receiver,
        asset: 0,
        status: TransferStatus::WaitingConfirmations,
    };
    assert_eq!(e, expected);
    assert_eq!(run.stage, Stage::Aborted);
    assert_eq!(run.next_action(), Action::Abort { reason: expected });
    assert!(run.outcome().is_none());
}

#[test]
fn missing_record_aborts() {
    let mut run = TransferRun::start(1, 0).unwrap();
    run.record(Event::ReceiveReady { recipient_id: "r".to_string() }, 0).unwrap();
    run.record(Event::Sent { txid: "t".to_string() }, 1).unwrap();
    for _ in 0..2 {
        run.record(Event::Refreshed, 2).unwrap();
    }
    run.record(Event::Mined, 3).unwrap();
    for _ in 0..2 {
        run.record(Event::Refreshed, 4).unwrap();
    }
    run.record(Event::ConsignmentMeasured { size: 7 }, 4).unwrap();
    let e = run.record(Event::StatusReported { status: None }, 4).unwrap_err();
    assert_eq!(e, TransferError::RecordMissing { party: Party::Sender, asset: 0 });
}

#[test]
fn empty_txid_aborts() {
    let mut run = TransferRun::start(1, 0).unwrap();
    run.record(Event::ReceiveReady { recipient_id: "r".to_string() }, 0).unwrap();
    let e = run.record(Event::Sent { txid: String::new() }, 1).unwrap_err();
    assert_eq!(e, TransferError::EmptyTxid);
    assert_eq!(run.stage, Stage::Aborted);
}

#[test]
fn clock_going_back_aborts() {
    let mut run = TransferRun::start(1, 10).unwrap();
    run.record(Event::ReceiveReady { recipient_id: "r".to_string() }, 10).unwrap();
    let e = run.record(Event::Sent { txid: "t".to_string() }, 9).unwrap_err();
    assert_eq!(e, TransferError::ClockWentBackwards);
}

#[test]
fn out_of_order_event_aborts() {
    let mut run = TransferRun::start(1, 0).unwrap();
    let e = run.record(Event::Mined, 1).unwrap_err();
    assert_eq!(e, TransferError::UnexpectedEvent);
    assert_eq!(run.stage, Stage::Aborted);
}

#[test]
fn transfer_without_assets_is_refused() {
    assert_eq!(TransferRun::start(0, 0).err(), Some(TransferError::NoAssets));
}

#[test]
fn consignment_path_layout() {
    assert_eq!(
        get_consignment_path("data", "fp01", "tx9", "rgb:asset"),
        "data/fp01/transfers/tx9/rgb:asset/consignment_out"
    );
    assert_eq!(
        get_consignment_path("data/", "fp01", "tx9", "a"),
        "data/fp01/transfers/tx9/a/consignment_out"
    );
}

#[test]
fn status_lookup_by_recipient_id() {
    let records = vec![
        TransferRecord { recipient_id: None, status: TransferStatus::Failed },
        TransferRecord {
            recipient_id: Some("x".to_string()),
            status: TransferStatus::WaitingCounterparty,
        },
        TransferRecord { recipient_id: Some("y".to_string()), status: TransferStatus::Settled },
    ];
    assert_eq!(find_status(&records, "y"), Some(TransferStatus::Settled));
    assert_eq!(find_status(&records, "x"), Some(TransferStatus::WaitingCounterparty));
    assert_eq!(find_status(&records, "z"), None);
}

#[test]
fn stopwatch_never_goes_back() {
    let mut w = Stopwatch::new();
    let a = w.now();
    let b = w.now();
    assert!(b >= a);
}

#[test]
fn readings_follow_the_time_source_but_never_go_back() {
    assert_eq!(next_reading(5, 9), 9);
    assert_eq!(next_reading(9, 5), 9);
    assert_eq!(next_reading(0, 0), 0);
}
