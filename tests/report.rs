use rgb_stress_test::report::{csv_field_string, csv_line_string, report_header, spaced_string, ReportRow};
use rgb_stress_test::transfer::{StageTimes, TransferOutcome, TransferStatus};

fn columns(line: &str) -> usize {
    let mut quoted = false;
    let mut n = 1;
    for c in line.chars() {
        if c == '"' {
            quoted = !quoted;
        } else if c == ',' && !quoted {
            n += 1;
        }
    }
    n
}

fn outcome() -> TransferOutcome {
    TransferOutcome {
        txid: "tx,1".to_string(),
        recipient_ids: vec!["utxob:a".to_string(), "utxob:\"b\"".to_string()],
        times: StageTimes {
            begin: 1000,
            send: 1200,
            recv_refresh_1: 1500,
            send_refresh_1: 1600,
            mine: 2000,
            recv_refresh_2: 2100,
            end: 2400,
        },
        consignment_sizes: vec![1234, 99],
        sender_statuses: vec![TransferStatus::Settled; 2],
        receiver_statuses: vec![TransferStatus::Settled; 2],
    }
}

#[test]
fn header_and_rows_have_the_same_columns() {
    let header = report_header();
    assert_eq!(
        header,
        "sender,receiver,send mode,send,recv refresh 1,send refresh 1,recv refresh 2,send refresh 2,total time,txid,ticker,consignment size,recipient id\n"
    );
    let row = ReportRow::from_transfer(
        "fp,1",
        "fp2",
        true,
        &vec!["T001001".to_string(), "T002001".to_string()],
        &outcome(),
    );
    let line = row.line();
    assert_eq!(columns(&header), 13);
    assert_eq!(columns(&line), columns(&header));
}

#[test]
fn row_renders_durations_and_lists() {
    let row = ReportRow::from_transfer("a", "b", false, &vec!["T001001".to_string()], &outcome());
    assert_eq!(row.durations, [200, 300, 100, 100, 300, 1400]);
    assert_eq!(
        row.line(),
        "a,b,blinded,200,300,100,100,300,1400,\"tx,1\",T001001,1234 99,\"utxob:a utxob:\"\"b\"\"\"\n"
    );
}

#[test]
fn fields_are_quoted_only_when_needed() {
    assert_eq!(csv_field_string("plain"), "plain");
    assert_eq!(csv_field_string("a,b"), "\"a,b\"");
    assert_eq!(csv_field_string("say \"hi\""), "\"say \"\"hi\"\"\"");
    assert_eq!(csv_field_string(""), "");
    assert_eq!(csv_line_string(&vec!["x".to_string(), "y,z".to_string()]), "x,\"y,z\"\n");
    assert_eq!(spaced_string(&vec!["1".to_string(), "2".to_string()]), "1 2");
    assert_eq!(spaced_string(&vec![]), "");
}
