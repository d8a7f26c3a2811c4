use notifychecker::clock::ClockTime;
use notifychecker::persist::write_csv;
use notifychecker::report::{
    build_report, chart_from_rows, chart_series, chart_url, env_file_contents, read_csv, ReportPayload,
};
use notifychecker::store::Time;
use notifychecker::text::{decimal_string, parse_u64};

const EMPTY_CHART: &str =
    "https://chart.googleapis.com/chart?cht=lc&chd=t:&chs=400x200&chxt=y,x&chxr=0,0,1000&chds=0,1000&chxl=1:|";

fn sample(hour: u8, minute: u8, ms: u64) -> Time {
    Time { real_time: ClockTime::new(hour, minute).unwrap(), response_time: ms }
}

fn strings(v: &[&str]) -> Vec<String> {
    v.iter().map(|s| s.to_string()).collect()
}

#[test]
fn sample_file_has_one_record_per_sample() {
    let bytes = write_csv(&vec![sample(10, 0, 123), sample(10, 5, 7)]).unwrap();
    assert_eq!(String::from_utf8(bytes).unwrap(), "10:00,123\n10:05,7\n");
}

#[test]
fn empty_sample_file_is_empty() {
    assert_eq!(write_csv(&Vec::new()).unwrap(), Vec::<u8>::new());
}

#[test]
fn chart_url_joins_latencies_and_labels() {
    let url = chart_url(&strings(&["10:00", "10:05"]), &vec![123, 7]);
    assert_eq!(
        url,
        "https://chart.googleapis.com/chart?cht=lc&chd=t:123,7&chs=400x200&chxt=y,x&chxr=0,0,1000&chds=0,1000&chxl=1:|10:00|10:05"
    );
    assert_eq!(chart_url(&Vec::new(), &Vec::new()), EMPTY_CHART);
}

#[test]
fn read_csv_charts_the_sample_file() {
    let bytes = write_csv(&vec![sample(10, 0, 123), sample(10, 5, 7), sample(10, 10, 0)]).unwrap();
    assert_eq!(
        read_csv(&bytes),
        "https://chart.googleapis.com/chart?cht=lc&chd=t:123,7,0&chs=400x200&chxt=y,x&chxr=0,0,1000&chds=0,1000&chxl=1:|10:00|10:05|10:10"
    );
}

#[test]
fn unreadable_sample_file_gives_empty_chart() {
    assert_eq!(read_csv(&b"10:00,abc\n".to_vec()), EMPTY_CHART);
    assert_eq!(read_csv(&b"10:00,1\n10:05\n".to_vec()), EMPTY_CHART);
    assert_eq!(chart_from_rows(None), EMPTY_CHART);
}

#[test]
fn chart_series_needs_two_fields_and_a_number() {
    let rows = vec![strings(&["10:00", "5"]), strings(&["10:05", "+6"])];
    assert_eq!(chart_series(&rows), Some((strings(&["10:00", "10:05"]), vec![5, 6])));
    assert_eq!(chart_series(&vec![strings(&["10:00"])]), None);
    assert_eq!(chart_series(&vec![strings(&["10:00", "1", "2"])]), None);
    assert_eq!(chart_series(&vec![strings(&["10:00", "-1"])]), None);
    assert_eq!(chart_series(&Vec::new()), Some((Vec::new(), Vec::new())));
}

#[test]
fn failed_run_report_has_no_chart() {
    let report = build_report(false, None);
    assert!(matches!(report, ReportPayload::Failure));
    let html = report.render_html();
    assert!(html.contains("bad status"));
    assert!(!html.contains("<img"));
}

#[test]
fn successful_run_report_embeds_chart() {
    let bytes = write_csv(&vec![sample(8, 15, 42)]).unwrap();
    let report = build_report(true, Some(bytes));
    let url = match &report {
        ReportPayload::Success { chart_url } => chart_url.clone(),
        ReportPayload::Failure => panic!("expected a success report"),
    };
    assert!(url.ends_with("chd=t:42&chs=400x200&chxt=y,x&chxr=0,0,1000&chds=0,1000&chxl=1:|08:15"));
    let html = report.render_html();
    assert!(html.contains(&format!("<img src=\"{}\">", url)));
    assert!(html.contains("good status"));
}

#[test]
fn missing_sample_file_gives_empty_chart_report() {
    match build_report(true, None) {
        ReportPayload::Success { chart_url } => assert_eq!(chart_url, EMPTY_CHART),
        ReportPayload::Failure => panic!("expected a success report"),
    }
}

#[test]
fn env_file_names_the_recipient() {
    assert_eq!(
        env_file_contents("Ann", "ann@example.com"),
        "SENDGRID_API_KEY=\"\"\nSENDER_NAME=\"\"\nSENDER_EMAIL=\"\"\nRECIPIENT_NAME=\"Ann\"\nRECIPIENT_EMAIL=\"ann@example.com\"\n"
    );
}

#[test]
fn decimal_and_parse_agree() {
    assert_eq!(decimal_string(0), "0");
    assert_eq!(decimal_string(1050), "1050");
    assert_eq!(decimal_string(u64::MAX), "18446744073709551615");
    assert_eq!(parse_u64("18446744073709551615"), Some(u64::MAX));
    assert_eq!(parse_u64("18446744073709551616"), None);
    assert_eq!(parse_u64("007"), Some(7));
    assert_eq!(parse_u64("+7"), Some(7));
    assert_eq!(parse_u64("+"), None);
    assert_eq!(parse_u64(""), None);
    assert_eq!(parse_u64("1 "), None);
}
