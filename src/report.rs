//! The end-of-run report: a chart of the recorded latencies read back from
//! the sample file, and the HTML body of the mail.

use vstd::prelude::*;
use crate::persist::strings_view;
use crate::text::{decimal, join, parse_u64, parse_u64_spec, push_decimal, push_joined};

verus! {

/// The fields of each record that a CSV reader without a header row finds
/// in `data`; `None` where it reports an error (bytes that are not UTF-8,
/// or records of unequal length).
pub uninterp spec fn csv_rows_of(data: Seq<u8>) -> Option<Seq<Seq<Seq<char>>>>;

/// The text of each field of each row.
pub open spec fn rows_view(rows: Seq<Vec<String>>) -> Seq<Seq<Seq<char>>> {
    rows.map_values(|row: Vec<String>| strings_view(row@))
}

/// Relies on csv's `ReaderBuilder` (no header row), `Reader::records` and
/// `StringRecord::iter`: the fields of every record of `data`; `None` where
/// the reader reports an error.
#[verifier::external_body]
fn csv_rows(data: &Vec<u8>) -> (r: Option<Vec<Vec<String>>>)
    ensures
        csv_rows_of(data@) == match r {
            Some(rows) => Some(rows_view(rows@)),
            None => None,
        },
{
    let mut reader = csv::ReaderBuilder::new().has_headers(false).from_reader(data.as_slice());
    let records: Result<Vec<csv::StringRecord>, csv::Error> = reader.records().collect();
    match records {
        Ok(records) => Some(records.iter().map(|r| r.iter().map(String::from).collect()).collect()),
        Err(_) => None,
    }
}

/// The timestamps and latencies of the sample file's rows, if every row is
/// a timestamp and a decimal latency.
pub open spec fn series_spec(rows: Seq<Seq<Seq<char>>>) -> Option<(Seq<Seq<char>>, Seq<u64>)>
    decreases rows.len(),
{
    if rows.len() == 0 {
        Some((Seq::empty(), Seq::empty()))
    } else {
        let row = rows.last();
        match series_spec(rows.drop_last()) {
            Some((labels, values)) => if row.len() == 2 && parse_u64_spec(row[1]) is Some {
                Some((labels.push(row[0]), values.push(parse_u64_spec(row[1])->0)))
            } else {
                None
            },
            None => None,
        }
    }
}

pub open spec fn chart_head() -> Seq<char> {
    "https://chart.googleapis.com/chart?cht=lc&chd=t:"@
}

pub open spec fn chart_middle() -> Seq<char> {
    "&chs=400x200&chxt=y,x&chxr=0,0,1000&chds=0,1000&chxl=1:|"@
}

/// The line-chart URL of latencies over timestamps: the latencies joined by
/// `,` as the data series, the timestamps joined by `|` as x-axis labels.
pub open spec fn chart_url_spec(labels: Seq<Seq<char>>, values: Seq<u64>) -> Seq<char> {
    chart_head() + join(values.map_values(|v: u64| decimal(v as nat)), ","@) + chart_middle()
        + join(labels, "|"@)
}

/// The chart of a sample file's rows; a chart with no points where the file
/// could not be read or a row is not a timestamp and a latency.
pub open spec fn chart_for_rows(rows: Option<Seq<Seq<Seq<char>>>>) -> Seq<char> {
    match rows {
        Some(rows) => match series_spec(rows) {
            Some((labels, values)) => chart_url_spec(labels, values),
            None => chart_url_spec(Seq::empty(), Seq::empty()),
        },
        None => chart_url_spec(Seq::empty(), Seq::empty()),
    }
}

/// The timestamps and latencies of the sample file's rows, if every row is
/// a timestamp and a decimal latency.
pub fn chart_series(rows: &Vec<Vec<String>>) -> (r: Option<(Vec<String>, Vec<u64>)>)
    ensures
        match r {
            Some((labels, values)) => series_spec(rows_view(rows@)) == Some((strings_view(labels@), values@)),
            None => series_spec(rows_view(rows@)) is None,
        },
{
    let ghost all = rows_view(rows@);
    let mut labels: Vec<String> = Vec::new();
    let mut values: Vec<u64> = Vec::new();
    let mut i: usize = 0;
    while i < rows.len()
        invariant
            0 <= i <= rows.len(),
            all == rows_view(rows@),
            series_spec(all.subrange(0, i as int)) == Some((strings_view(labels@), values@)),
        decreases rows.len() - i,
    {
        let row = &rows[i];
        proof {
            let done = all.subrange(0, i as int + 1);
            assert(done.drop_last() =~= all.subrange(0, i as int));
            assert(done.last() == strings_view(row@));
        }
        if row.len() != 2 {
            proof { lemma_series_fails_after(all, i as int + 1); }
            return None;
        }
        match parse_u64(row[1].as_str()) {
            Some(v) => {
                labels.push(row[0].clone());
                values.push(v);
                assert(strings_view(labels@) =~= strings_view(labels@.drop_last()).push(row@[0]@));
            },
            None => {
                proof { lemma_series_fails_after(all, i as int + 1); }
                return None;
            },
        }
        i = i + 1;
    }
    assert(all.subrange(0, rows.len() as int) =~= all);
    Some((labels, values))
}

/// Once a prefix of the rows is not a series, no longer prefix is.
proof fn lemma_series_fails_after(rows: Seq<Seq<Seq<char>>>, k: int)
    requires
        0 <= k <= rows.len(),
        series_spec(rows.subrange(0, k)) is None,
    ensures
        series_spec(rows) is None,
    decreases rows.len() - k,
{
    if k < rows.len() {
        assert(rows.subrange(0, k + 1).drop_last() =~= rows.subrange(0, k));
        lemma_series_fails_after(rows, k + 1);
    } else {
        assert(rows.subrange(0, k) =~= rows);
    }
}

/// The line-chart URL of `latencies` over `labels`.
pub fn chart_url(labels: &Vec<String>, latencies: &Vec<u64>) -> (r: String)
    ensures
        r@ == chart_url_spec(strings_view(labels@), latencies@),
{
    let mut numbers: Vec<String> = Vec::new();
    let mut i: usize = 0;
    while i < latencies.len()
        invariant
            0 <= i <= latencies.len(),
            numbers@.len() == i,
            forall|k: int| 0 <= k < i ==> (#[trigger] numbers@[k])@ == decimal(latencies@[k] as nat),
        decreases latencies.len() - i,
    {
        let mut n = String::new();
        push_decimal(&mut n, latencies[i]);
        assert(n@ =~= decimal(latencies@[i as int] as nat));
        numbers.push(n);
        i = i + 1;
    }
    assert(strings_view(numbers@) =~= latencies@.map_values(|v: u64| decimal(v as nat)));
    let mut url = String::new();
    url.append("https://chart.googleapis.com/chart?cht=lc&chd=t:");
    push_joined(&mut url, &numbers, ",");
    url.append("&chs=400x200&chxt=y,x&chxr=0,0,1000&chds=0,1000&chxl=1:|");
    push_joined(&mut url, labels, "|");
    assert(url@ =~= chart_url_spec(strings_view(labels@), latencies@));
    url
}

/// The chart of the sample file's rows as the reader returned them (`None`:
/// the file could not be read); a chart with no points unless every row is a
/// timestamp and a latency.
pub fn chart_from_rows(rows: Option<Vec<Vec<String>>>) -> (r: String)
    ensures
        r@ == chart_for_rows(match rows { Some(rows) => Some(rows_view(rows@)), None => None }),
{
    let empty_labels: Vec<String> = Vec::new();
    let empty_values: Vec<u64> = Vec::new();
    assert(strings_view(empty_labels@) =~= Seq::<Seq<char>>::empty());
    match rows {
        Some(rows) => match chart_series(&rows) {
            Some((labels, values)) => chart_url(&labels, &values),
            None => chart_url(&empty_labels, &empty_values),
        },
        None => chart_url(&empty_labels, &empty_values),
    }
}

/// The chart URL of a sample file's contents. Where the file cannot be read
/// as samples the chart has no points.
pub fn read_csv(data: &Vec<u8>) -> (r: String)
    ensures
        r@ == chart_for_rows(csv_rows_of(data@)),
{
    chart_from_rows(csv_rows(data))
}

/// The body of the mail of a run, before the chart reference.
pub open spec fn success_head() -> Seq<char> {
    "<body>\n\n    <h1>Email Report</h1>\n\n    <img src=\""@
}

/// The body of the mail of a successful run, after the chart reference.
pub open spec fn success_tail() -> Seq<char> {
    "\">\n\n    <p>This is your performance(response time) report for the website</p>\n    <ul>\n        <li>Website response times have a good status!</li>\n    </ul>\n\n    <p>from <strong><i>notifychecker</i></strong>, made with \u{1F496} by <strong>@serayuta</strong></p>\n\n</body>"@
}

/// The body of the mail of a failed run.
pub open spec fn failure_html() -> Seq<char> {
    "<body>\n\n    <h1>Email Report</h1>\n\n    <p>This is your performance(response time) report for the website</p>\n\n    <ul>\n        <li>Website response have a bad status!</li>\n    </ul>\n\n    <p>from <strong><i>notifychecker</i></strong>, made with \u{1F496} by <strong>@serayuta</strong></p>\n\n</body>"@
}

/// The report of an ended run.
pub enum ReportPayload {
    /// The run reached its stop time; the chart shows its samples.
    Success { chart_url: String },
    /// A probe failed; there is nothing to chart.
    Failure,
}

impl ReportPayload {
    /// The HTML body of the report mail.
    pub fn render_html(&self) -> (r: String)
        ensures
            match self {
                ReportPayload::Success { chart_url } => r@ == success_head() + chart_url@ + success_tail(),
                ReportPayload::Failure => r@ == failure_html(),
            },
    {
        match self {
            ReportPayload::Success { chart_url } => {
                let mut body = String::from_str("<body>\n\n    <h1>Email Report</h1>\n\n    <img src=\"");
                body.append(chart_url.as_str());
                body.append("\">\n\n    <p>This is your performance(response time) report for the website</p>\n    <ul>\n        <li>Website response times have a good status!</li>\n    </ul>\n\n    <p>from <strong><i>notifychecker</i></strong>, made with \u{1F496} by <strong>@serayuta</strong></p>\n\n</body>");
                body
            },
            ReportPayload::Failure => {
                String::from_str("<body>\n\n    <h1>Email Report</h1>\n\n    <p>This is your performance(response time) report for the website</p>\n\n    <ul>\n        <li>Website response have a bad status!</li>\n    </ul>\n\n    <p>from <strong><i>notifychecker</i></strong>, made with \u{1F496} by <strong>@serayuta</strong></p>\n\n</body>")
            },
        }
    }
}

/// The report of a run: for a successful one, the chart of the sample file
/// (`persisted`; `None` where it could not be read back, which gives a chart
/// with no points); for a failed one, the failure report, which reads no file.
pub fn build_report(succeeded: bool, persisted: Option<Vec<u8>>) -> (r: ReportPayload)
    ensures
        !succeeded ==> r is Failure,
        succeeded ==> match r {
            ReportPayload::Success { chart_url } => chart_url@ == chart_for_rows(match persisted {
                Some(data) => csv_rows_of(data@),
                None => None,
            }),
            ReportPayload::Failure => false,
        },
{
    if !succeeded {
        return ReportPayload::Failure;
    }
    match persisted {
        Some(data) => ReportPayload::Success { chart_url: read_csv(&data) },
        None => ReportPayload::Success { chart_url: chart_from_rows(None) },
    }
}

/// The settings file read by the mailer: empty sender settings to be filled
/// in by hand, then the recipient's name and address.
pub open spec fn env_file_spec(recipient_name: Seq<char>, recipient_email: Seq<char>) -> Seq<char> {
    "SENDGRID_API_KEY=\"\"\nSENDER_NAME=\"\"\nSENDER_EMAIL=\"\"\nRECIPIENT_NAME=\""@ + recipient_name
        + "\"\nRECIPIENT_EMAIL=\""@ + recipient_email + "\"\n"@
}

/// The settings file read by the mailer, for one recipient.
pub fn env_file_contents(recipient_name: &str, recipient_email: &str) -> (r: String)
    ensures
        r@ == env_file_spec(recipient_name@, recipient_email@),
{
    let mut env = String::from_str("SENDGRID_API_KEY=\"\"\nSENDER_NAME=\"\"\nSENDER_EMAIL=\"\"\nRECIPIENT_NAME=\"");
    env.append(recipient_name);
    env.append("\"\nRECIPIENT_EMAIL=\"");
    env.append(recipient_email);
    env.append("\"\n");
    env
}

} // verus!
