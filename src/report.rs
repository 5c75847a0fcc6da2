//! Report rows: one CSV line per transfer under a fixed header.

use vstd::prelude::*;

use crate::text::{chars_of, decimal, decimal_string, string_of};
use crate::transfer::TransferOutcome;

verus! {

/// The number of columns of the report.
pub const REPORT_COLUMNS: usize = 13;

/// Whether the scan is inside a quoted field after reading `s`, having
/// started in state `q`.
pub open spec fn quoted_after(s: Seq<char>, q: bool) -> bool
    decreases s.len(),
{
    if s.len() == 0 {
        q
    } else {
        quoted_after(
            s.drop_first(),
            if s[0] == '"' {
                !q
            } else {
                q
            },
        )
    }
}

/// The commas of `s` that separate fields, that is that stand outside
/// quotes, the scan starting in state `q`.
pub open spec fn separators(s: Seq<char>, q: bool) -> nat
    decreases s.len(),
{
    if s.len() == 0 {
        0
    } else {
        let rest = separators(
            s.drop_first(),
            if s[0] == '"' {
                !q
            } else {
                q
            },
        );
        if s[0] == ',' && !q {
            rest + 1
        } else {
            rest
        }
    }
}

/// The number of columns of a CSV line.
pub open spec fn column_count(line: Seq<char>) -> nat {
    separators(line, false) + 1
}

/// A field needs quotes when it holds a separator, a quote or a line break.
pub open spec fn needs_quotes(s: Seq<char>) -> bool {
    exists|i: int| 0 <= i < s.len() && (s[i] == ',' || s[i] == '"' || s[i] == '\n' || s[i] == '\r')
}

/// `s` with each quote doubled.
pub open spec fn escaped(s: Seq<char>) -> Seq<char>
    decreases s.len(),
{
    if s.len() == 0 {
        seq![]
    } else {
        escaped(s.drop_last()) + if s.last() == '"' {
            seq!['"', '"']
        } else {
            seq![s.last()]
        }
    }
}

/// A field as it stands in a CSV line: quoted, with quotes doubled, where it
/// needs quotes, and as it is otherwise.
pub open spec fn csv_field(s: Seq<char>) -> Seq<char> {
    if needs_quotes(s) {
        seq!['"'] + escaped(s) + seq!['"']
    } else {
        s
    }
}

/// The rendered fields joined by commas.
pub open spec fn joined_fields(fields: Seq<Seq<char>>) -> Seq<char>
    decreases fields.len(),
{
    if fields.len() == 0 {
        seq![]
    } else if fields.len() == 1 {
        csv_field(fields[0])
    } else {
        joined_fields(fields.drop_last()) + seq![','] + csv_field(fields.last())
    }
}

/// The CSV line of `fields`, newline included.
pub open spec fn csv_line(fields: Seq<Seq<char>>) -> Seq<char> {
    joined_fields(fields) + seq!['\n']
}

proof fn lemma_scan_concat(a: Seq<char>, b: Seq<char>, q: bool)
    ensures
        separators(a + b, q) == separators(a, q) + separators(b, quoted_after(a, q)),
        quoted_after(a + b, q) == quoted_after(b, quoted_after(a, q)),
    decreases a.len(),
{
    if a.len() > 0 {
        let q2 = if a[0] == '"' {
            !q
        } else {
            q
        };
        assert((a + b).drop_first() == a.drop_first() + b);
        lemma_scan_concat(a.drop_first(), b, q2);
    }
}

proof fn lemma_plain_scan(s: Seq<char>)
    requires
        !needs_quotes(s),
    ensures
        separators(s, false) == 0,
        quoted_after(s, false) == false,
    decreases s.len(),
{
    if s.len() > 0 {
        assert(!needs_quotes(s.drop_first())) by {
            if needs_quotes(s.drop_first()) {
                let i = choose|i: int|
                    0 <= i < s.drop_first().len() && (s.drop_first()[i] == ','
                        || s.drop_first()[i] == '"' || s.drop_first()[i] == '\n'
                        || s.drop_first()[i] == '\r');
                assert(s[i + 1] == s.drop_first()[i]);
            }
        }
        assert(s[0] != ',' && s[0] != '"');
        lemma_plain_scan(s.drop_first());
    }
}

proof fn lemma_scan_single(c: char, q: bool)
    ensures
        separators(seq![c], q) == if c == ',' && !q {
            1nat
        } else {
            0nat
        },
        quoted_after(seq![c], q) == if c == '"' {
            !q
        } else {
            q
        },
{
    reveal_with_fuel(separators, 2);
    reveal_with_fuel(quoted_after, 2);
    let s = seq![c];
    assert(s.drop_first().len() == 0);
    assert(s[0] == c);
}

proof fn lemma_escaped_scan(s: Seq<char>)
    ensures
        separators(escaped(s), true) == 0,
        quoted_after(escaped(s), true) == true,
    decreases s.len(),
{
    if s.len() > 0 {
        lemma_escaped_scan(s.drop_last());
        let c = s.last();
        if c == '"' {
            lemma_scan_single('"', true);
            lemma_scan_single('"', false);
            assert(seq!['"', '"'] == seq!['"'] + seq!['"']);
            lemma_scan_concat(seq!['"'], seq!['"'], true);
            lemma_scan_concat(escaped(s.drop_last()), seq!['"', '"'], true);
        } else {
            lemma_scan_single(c, true);
            lemma_scan_concat(escaped(s.drop_last()), seq![c], true);
        }
    }
}

proof fn lemma_field_scan(s: Seq<char>)
    ensures
        separators(csv_field(s), false) == 0,
        quoted_after(csv_field(s), false) == false,
{
    if needs_quotes(s) {
        lemma_scan_single('"', false);
        lemma_scan_single('"', true);
        lemma_escaped_scan(s);
        lemma_scan_concat(seq!['"'], escaped(s), false);
        lemma_scan_concat(seq!['"'] + escaped(s), seq!['"'], false);
    } else {
        lemma_plain_scan(s);
    }
}

proof fn lemma_joined_scan(fields: Seq<Seq<char>>)
    requires
        fields.len() > 0,
    ensures
        separators(joined_fields(fields), false) == fields.len() - 1,
        quoted_after(joined_fields(fields), false) == false,
    decreases fields.len(),
{
    if fields.len() == 1 {
        lemma_field_scan(fields[0]);
    } else {
        let init = joined_fields(fields.drop_last());
        lemma_joined_scan(fields.drop_last());
        lemma_field_scan(fields.last());
        lemma_scan_single(',', false);
        lemma_scan_concat(init, seq![','], false);
        lemma_scan_concat(init + seq![','], csv_field(fields.last()), false);
    }
}

/// A CSV line has as many columns as it has fields, whatever the fields
/// hold.
pub proof fn lemma_csv_line_columns(fields: Seq<Seq<char>>)
    requires
        fields.len() > 0,
    ensures
        column_count(csv_line(fields)) == fields.len(),
{
    lemma_joined_scan(fields);
    lemma_scan_single('\n', false);
    lemma_scan_concat(joined_fields(fields), seq!['\n'], false);
}

/// Renders one field for a CSV line.
pub fn csv_field_string(s: &str) -> (r: String)
    ensures
        r@ == csv_field(s@),
{
    let chars = chars_of(s);
    let mut quote = false;
    let mut i: usize = 0;
    while i < chars.len()
        invariant
            chars@ == s@,
            i <= chars.len(),
            quote == exists|k: int|
                0 <= k < i && (s@[k] == ',' || s@[k] == '"' || s@[k] == '\n' || s@[k] == '\r'),
        decreases chars.len() - i,
    {
        let c = chars[i];
        if c == ',' || c == '"' || c == '\n' || c == '\r' {
            quote = true;
        }
        i = i + 1;
    }
    if !quote {
        return String::from_str(s);
    }
    let mut out: Vec<char> = Vec::new();
    out.push('"');
    let mut j: usize = 0;
    while j < chars.len()
        invariant
            chars@ == s@,
            j <= chars.len(),
            out@ == seq!['"'] + escaped(s@.take(j as int)),
        decreases chars.len() - j,
    {
        let c = chars[j];
        proof {
            assert(s@.take(j + 1).drop_last() == s@.take(j as int));
        }
        out.push(c);
        if c == '"' {
            out.push('"');
        }
        j = j + 1;
    }
    out.push('"');
    proof {
        assert(s@.take(chars.len() as int) == s@);
    }
    string_of(out.as_slice())
}

/// Renders `fields` as one CSV line, newline included.
pub fn csv_line_string(fields: &Vec<String>) -> (r: String)
    ensures
        r@ == csv_line(fields@.map_values(|f: String| f@)),
{
    let ghost views = fields@.map_values(|f: String| f@);
    let mut line = String::new();
    let mut i: usize = 0;
    proof {
        reveal_strlit(",");
        reveal_strlit("\n");
    }
    while i < fields.len()
        invariant
            i <= fields.len(),
            views == fields@.map_values(|f: String| f@),
            line@ == joined_fields(views.take(i as int)),
        decreases fields.len() - i,
    {
        let f = csv_field_string(fields[i].as_str());
        proof {
            assert(views.take(i + 1).drop_last() == views.take(i as int));
            assert(views.take(i + 1).last() == fields[i as int]@);
            if i == 0 {
                assert(views.take(i + 1) =~= seq![fields[0]@]);
                assert(line@ == Seq::<char>::empty());
            }
        }
        let ghost before = line@;
        proof {
            reveal_strlit(",");
        }
        if i > 0 {
            line.append(",");
            assert(line@ =~= before + seq![',']);
        }
        line.append(f.as_str());
        proof {
            if i > 0 {
                assert(line@ =~= before + seq![','] + csv_field(fields[i as int]@));
            } else {
                assert(line@ =~= csv_field(fields[i as int]@));
            }
        }
        i = i + 1;
    }
    proof {
        assert(views.take(fields.len() as int) == views);
    }
    line.append("\n");
    line
}

/// The column names of the report.
pub open spec fn header_names() -> Seq<Seq<char>> {
    seq![
        "sender"@,
        "receiver"@,
        "send mode"@,
        "send"@,
        "recv refresh 1"@,
        "send refresh 1"@,
        "recv refresh 2"@,
        "send refresh 2"@,
        "total time"@,
        "txid"@,
        "ticker"@,
        "consignment size"@,
        "recipient id"@,
    ]
}

/// The header line of the report.
pub fn report_header() -> (r: String)
    ensures
        r@ == csv_line(header_names()),
        column_count(r@) == REPORT_COLUMNS,
{
    let names: Vec<String> = vec![
        String::from_str("sender"),
        String::from_str("receiver"),
        String::from_str("send mode"),
        String::from_str("send"),
        String::from_str("recv refresh 1"),
        String::from_str("send refresh 1"),
        String::from_str("recv refresh 2"),
        String::from_str("send refresh 2"),
        String::from_str("total time"),
        String::from_str("txid"),
        String::from_str("ticker"),
        String::from_str("consignment size"),
        String::from_str("recipient id"),
    ];
    assert(names@.map_values(|f: String| f@) =~= header_names());
    proof {
        lemma_csv_line_columns(header_names());
    }
    csv_line_string(&names)
}

/// Items joined by single spaces.
pub open spec fn spaced(items: Seq<Seq<char>>) -> Seq<char>
    decreases items.len(),
{
    if items.len() == 0 {
        seq![]
    } else if items.len() == 1 {
        items[0]
    } else {
        spaced(items.drop_last()) + seq![' '] + items.last()
    }
}

/// Joins `items` with single spaces.
pub fn spaced_string(items: &Vec<String>) -> (r: String)
    ensures
        r@ == spaced(items@.map_values(|f: String| f@)),
{
    let ghost views = items@.map_values(|f: String| f@);
    let mut out = String::new();
    let mut i: usize = 0;
    while i < items.len()
        invariant
            i <= items.len(),
            views == items@.map_values(|f: String| f@),
            out@ == spaced(views.take(i as int)),
        decreases items.len() - i,
    {
        let ghost before = out@;
        proof {
            reveal_strlit(" ");
            assert(views.take(i + 1).drop_last() == views.take(i as int));
            assert(views.take(i + 1).last() == items[i as int]@);
            if i == 0 {
                assert(views.take(i + 1) =~= seq![items[0]@]);
            }
        }
        if i > 0 {
            out.append(" ");
            assert(out@ =~= before + seq![' ']);
        }
        out.append(items[i].as_str());
        proof {
            if i > 0 {
                assert(out@ =~= before + seq![' '] + items[i as int]@);
            } else {
                assert(out@ =~= items[i as int]@);
            }
        }
        i = i + 1;
    }
    proof {
        assert(views.take(items.len() as int) == views);
    }
    out
}

/// The decimal forms of `values`.
pub open spec fn decimals(values: Seq<u64>) -> Seq<Seq<char>> {
    values.map_values(|v: u64| decimal(v as nat))
}

fn decimal_strings(values: &Vec<u64>) -> (r: Vec<String>)
    ensures
        r@.map_values(|f: String| f@) == decimals(values@),
{
    let mut out: Vec<String> = Vec::new();
    let mut i: usize = 0;
    while i < values.len()
        invariant
            i <= values.len(),
            out@.map_values(|f: String| f@) == decimals(values@.take(i as int)),
            out.len() == i,
        decreases values.len() - i,
    {
        let ghost prev = out@;
        out.push(decimal_string(values[i]));
        proof {
            assert(values@.take(i + 1) == values@.take(i as int).push(values[i as int]));
            assert forall|k: int| 0 <= k < i implies out@[k]@ == decimal(values[k] as nat) by {
                assert(out@[k] == prev[k]);
                assert(prev.map_values(|f: String| f@)[k] == decimals(values@.take(i as int))[k]);
            }
            assert(out@.map_values(|f: String| f@) =~= decimals(values@.take(i + 1)));
        }
        i = i + 1;
    }
    proof {
        assert(values@.take(values.len() as int) == values@);
    }
    out
}

/// How the receiver took the transfer.
pub open spec fn send_mode_text(witness: bool) -> Seq<char> {
    if witness {
        "witness"@
    } else {
        "blinded"@
    }
}

/// One line of the report: the parties, how the receiver took the transfer,
/// the six stage durations in milliseconds, the transaction, and for each
/// asset its ticker, its consignment size and its recipient id.
#[derive(Clone, Debug)]
pub struct ReportRow {
    pub sender: String,
    pub receiver: String,
    pub witness: bool,
    /// send, receiver refresh, sender refresh, receiver refresh after the
    /// confirmation, sender refresh after the confirmation, total
    pub durations: [u64; 6],
    pub txid: String,
    pub tickers: Vec<String>,
    pub consignment_sizes: Vec<u64>,
    pub recipient_ids: Vec<String>,
}

impl ReportRow {
    /// The row's fields, in the order of the header.
    pub open spec fn fields(&self) -> Seq<Seq<char>> {
        seq![
            self.sender@,
            self.receiver@,
            send_mode_text(self.witness),
            decimal(self.durations[0] as nat),
            decimal(self.durations[1] as nat),
            decimal(self.durations[2] as nat),
            decimal(self.durations[3] as nat),
            decimal(self.durations[4] as nat),
            decimal(self.durations[5] as nat),
            self.txid@,
            spaced(self.tickers@.map_values(|f: String| f@)),
            spaced(decimals(self.consignment_sizes@)),
            spaced(self.recipient_ids@.map_values(|f: String| f@)),
        ]
    }

    /// The row for one completed transfer.
    pub fn from_transfer(
        sender: &str,
        receiver: &str,
        witness: bool,
        tickers: &Vec<String>,
        outcome: &TransferOutcome,
    ) -> (r: ReportRow)
        requires
            outcome.wf(),
        ensures
            r.sender@ == sender@,
            r.receiver@ == receiver@,
            r.witness == witness,
            r.durations[0] == outcome.times.send - outcome.times.begin,
            r.durations[1] == outcome.times.recv_refresh_1 - outcome.times.send,
            r.durations[2] == outcome.times.send_refresh_1 - outcome.times.recv_refresh_1,
            r.durations[3] == outcome.times.recv_refresh_2 - outcome.times.mine,
            r.durations[4] == outcome.times.end - outcome.times.recv_refresh_2,
            r.durations[5] == outcome.times.end - outcome.times.begin,
            r.txid@ == outcome.txid@,
            r.tickers@.map_values(|f: String| f@) == tickers@.map_values(|f: String| f@),
            r.consignment_sizes@ == outcome.consignment_sizes@,
            r.recipient_ids@.map_values(|f: String| f@) == outcome.recipient_ids@.map_values(
                |f: String| f@,
            ),
    {
        ReportRow {
            sender: String::from_str(sender),
            receiver: String::from_str(receiver),
            witness,
            durations: outcome.times.durations(),
            txid: outcome.txid.clone(),
            tickers: clone_strings(tickers),
            consignment_sizes: outcome.consignment_sizes.clone(),
            recipient_ids: clone_strings(&outcome.recipient_ids),
        }
    }

    /// The row as one CSV line, newline included.
    pub fn line(&self) -> (r: String)
        ensures
            r@ == csv_line(self.fields()),
            column_count(r@) == REPORT_COLUMNS,
    {
        proof {
            reveal_strlit("witness");
            reveal_strlit("blinded");
        }
        let mode = if self.witness {
            String::from_str("witness")
        } else {
            String::from_str("blinded")
        };
        let sizes = decimal_strings(&self.consignment_sizes);
        let fields: Vec<String> = vec![
            self.sender.clone(),
            self.receiver.clone(),
            mode,
            decimal_string(self.durations[0]),
            decimal_string(self.durations[1]),
            decimal_string(self.durations[2]),
            decimal_string(self.durations[3]),
            decimal_string(self.durations[4]),
            decimal_string(self.durations[5]),
            self.txid.clone(),
            spaced_string(&self.tickers),
            spaced_string(&sizes),
            spaced_string(&self.recipient_ids),
        ];
        assert(fields@.map_values(|f: String| f@) =~= self.fields());
        proof {
            lemma_csv_line_columns(self.fields());
        }
        csv_line_string(&fields)
    }
}

/// Copies a list of strings.
fn clone_strings(items: &Vec<String>) -> (r: Vec<String>)
    ensures
        r@.map_values(|f: String| f@) == items@.map_values(|f: String| f@),
{
    let mut out: Vec<String> = Vec::new();
    let mut i: usize = 0;
    while i < items.len()
        invariant
            i <= items.len(),
            out@.map_values(|f: String| f@) == items@.take(i as int).map_values(|f: String| f@),
            out.len() == i,
        decreases items.len() - i,
    {
        let ghost prev = out@;
        out.push(items[i].clone());
        proof {
            assert(items@.take(i + 1) == items@.take(i as int).push(items[i as int]));
            assert forall|k: int| 0 <= k < i implies out@[k]@ == items[k]@ by {
                assert(out@[k] == prev[k]);
                assert(prev.map_values(|f: String| f@)[k] == items@.take(i as int).map_values(
                    |f: String| f@,
                )[k]);
            }
            assert(out@.map_values(|f: String| f@) =~= items@.take(i + 1).map_values(
                |f: String| f@,
            ));
        }
        i = i + 1;
    }
    proof {
        assert(items@.take(items.len() as int) == items@);
    }
    out
}

/// Every data line of the report has as many columns as its header line,
/// whatever the row holds.
pub proof fn lemma_report_shape(row: ReportRow)
    ensures
        column_count(csv_line(row.fields())) == column_count(csv_line(header_names())),
        column_count(csv_line(row.fields())) == REPORT_COLUMNS,
{
    lemma_csv_line_columns(row.fields());
    lemma_csv_line_columns(header_names());
}

} // verus!
