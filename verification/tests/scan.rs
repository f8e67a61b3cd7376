use stripe_fdw::error::FdwError;
use stripe_fdw::fdw::{FetchOutcome, StripeFdw};
use stripe_fdw::options::OptionMap;
use stripe_fdw::row::Cell;

fn construction_options() -> OptionMap {
    let mut opts = OptionMap::new();
    opts.set("api_key", "sk_test_key");
    opts
}

fn scan_options(object: &str) -> OptionMap {
    let mut opts = OptionMap::new();
    opts.set("object", object);
    opts
}

fn adapter() -> StripeFdw {
    StripeFdw::new(&construction_options()).expect("construction with an api_key succeeds")
}

#[test]
fn balance_one_row() {
    let mut fdw = adapter();
    let body = "{\"available\":[{\"amount\":1000,\"currency\":\"usd\"}]}";
    let r = fdw.begin_scan(
        &scan_options("balance"),
        FetchOutcome::Response(200, body.to_owned()),
    );
    assert_eq!(r, Ok(()));
    let row = fdw.iter_scan().expect("one row");
    assert_eq!(row.num_cols(), 2);
    assert_eq!(row.col_at(0).as_str(), "amount");
    assert_eq!(row.col_at(1).as_str(), "currency");
    assert_eq!(row.cell_at(0), &Some(Cell::I64(1000)));
    assert_eq!(row.cell_at(1), &Some(Cell::Text("usd".to_owned())));
    assert!(fdw.iter_scan().is_none());
}

#[test]
fn customers_two_rows_in_order() {
    let mut fdw = adapter();
    let body = "{\"data\":[{\"id\":\"cus_1\",\"email\":\"a@x.com\"},{\"id\":\"cus_2\",\"email\":\"b@x.com\"}]}";
    let r = fdw.begin_scan(
        &scan_options("customers"),
        FetchOutcome::Response(200, body.to_owned()),
    );
    assert_eq!(r, Ok(()));
    let first = fdw.iter_scan().expect("first row");
    assert_eq!(first.col_at(0).as_str(), "id");
    assert_eq!(first.col_at(1).as_str(), "email");
    assert_eq!(first.cell_at(0), &Some(Cell::Text("cus_1".to_owned())));
    assert_eq!(first.cell_at(1), &Some(Cell::Text("a@x.com".to_owned())));
    let second = fdw.iter_scan().expect("second row");
    assert_eq!(second.cell_at(0), &Some(Cell::Text("cus_2".to_owned())));
    assert_eq!(second.cell_at(1), &Some(Cell::Text("b@x.com".to_owned())));
    assert!(fdw.iter_scan().is_none());
}

#[test]
fn balance_empty_array_yields_no_rows() {
    let mut fdw = adapter();
    let body = "{\"available\":[]}";
    let r = fdw.begin_scan(
        &scan_options("balance"),
        FetchOutcome::Response(200, body.to_owned()),
    );
    assert_eq!(r, Ok(()));
    assert!(fdw.iter_scan().is_none());
    assert!(fdw.iter_scan().is_none());
}

#[test]
fn unsupported_object_is_fatal() {
    let mut fdw = adapter();
    let body = "{\"data\":[]}";
    let r = fdw.begin_scan(
        &scan_options("invoices"),
        FetchOutcome::Response(200, body.to_owned()),
    );
    assert_eq!(r, Err(FdwError::UnsupportedObject("invoices".to_owned())));
    assert!(fdw.iter_scan().is_none());
}

#[test]
fn missing_api_key_fails_construction() {
    let opts = OptionMap::new();
    assert_eq!(StripeFdw::new(&opts).err(), Some(FdwError::MissingCredential));
}

#[test]
fn empty_api_key_fails_construction() {
    let mut opts = OptionMap::new();
    opts.set("api_key", "");
    assert_eq!(StripeFdw::new(&opts).err(), Some(FdwError::MissingCredential));
}

#[test]
fn http_500_is_fatal_and_yields_no_rows() {
    let mut fdw = adapter();
    let r = fdw.begin_scan(
        &scan_options("balance"),
        FetchOutcome::Response(500, "oops".to_owned()),
    );
    assert_eq!(r, Err(FdwError::HttpStatusFailure(500)));
    assert!(fdw.iter_scan().is_none());
}

#[test]
fn http_404_is_fatal() {
    let mut fdw = adapter();
    let r = fdw.begin_scan(
        &scan_options("balance"),
        FetchOutcome::Response(404, "{}".to_owned()),
    );
    assert_eq!(r, Err(FdwError::HttpStatusFailure(404)));
    assert!(fdw.iter_scan().is_none());
}

#[test]
fn network_failure_is_fatal() {
    let mut fdw = adapter();
    let r = fdw.begin_scan(
        &scan_options("balance"),
        FetchOutcome::Network("connection refused".to_owned()),
    );
    assert_eq!(
        r,
        Err(FdwError::TransportFailure("connection refused".to_owned()))
    );
    assert!(fdw.iter_scan().is_none());
}

#[test]
fn missing_selector_is_fatal() {
    let mut fdw = adapter();
    let r = fdw.begin_scan(
        &OptionMap::new(),
        FetchOutcome::Response(200, "{}".to_owned()),
    );
    assert_eq!(r, Err(FdwError::MissingSelector));
}

#[test]
fn malformed_json_is_fatal() {
    let mut fdw = adapter();
    let r = fdw.begin_scan(
        &scan_options("balance"),
        FetchOutcome::Response(200, "{not json".to_owned()),
    );
    assert_eq!(r, Err(FdwError::MalformedResponse));
    assert!(fdw.iter_scan().is_none());
}

#[test]
fn missing_field_is_fatal() {
    let mut fdw = adapter();
    let body = "{\"available\":[{\"amount\":1000}]}";
    let r = fdw.begin_scan(
        &scan_options("balance"),
        FetchOutcome::Response(200, body.to_owned()),
    );
    assert_eq!(r, Err(FdwError::MalformedResponse));
}

#[test]
fn mistyped_field_is_fatal() {
    let mut fdw = adapter();
    let body = "{\"available\":[{\"amount\":\"1000\",\"currency\":\"usd\"}]}";
    let r = fdw.begin_scan(
        &scan_options("balance"),
        FetchOutcome::Response(200, body.to_owned()),
    );
    assert_eq!(r, Err(FdwError::MalformedResponse));
}

#[test]
fn amount_beyond_i64_is_fatal() {
    let mut fdw = adapter();
    let body = "{\"available\":[{\"amount\":18446744073709551615,\"currency\":\"usd\"}]}";
    let r = fdw.begin_scan(
        &scan_options("balance"),
        FetchOutcome::Response(200, body.to_owned()),
    );
    assert_eq!(r, Err(FdwError::MalformedResponse));
}

#[test]
fn missing_array_is_fatal() {
    let mut fdw = adapter();
    let r = fdw.begin_scan(
        &scan_options("balance"),
        FetchOutcome::Response(200, "{\"data\":[]}".to_owned()),
    );
    assert_eq!(r, Err(FdwError::MalformedResponse));
}

#[test]
fn iter_scan_before_any_scan_signals_end() {
    let mut fdw = adapter();
    assert!(fdw.iter_scan().is_none());
    assert!(fdw.iter_scan().is_none());
}

#[test]
fn end_scan_then_fresh_scan_matches_first_scan() {
    let body = "{\"available\":[{\"amount\":7,\"currency\":\"eur\"}]}";
    let mut fdw = adapter();
    let r1 = fdw.begin_scan(
        &scan_options("balance"),
        FetchOutcome::Response(200, body.to_owned()),
    );
    assert_eq!(r1, Ok(()));
    let first_run = fdw.iter_scan().expect("row of the first scan");
    fdw.end_scan();
    assert!(fdw.iter_scan().is_none());
    let r2 = fdw.begin_scan(
        &scan_options("balance"),
        FetchOutcome::Response(200, body.to_owned()),
    );
    assert_eq!(r2, Ok(()));
    let second_run = fdw.iter_scan().expect("row of the second scan");
    assert_eq!(first_run, second_run);
    assert!(fdw.iter_scan().is_none());
}

#[test]
fn end_scan_without_a_buffer_is_safe() {
    let mut fdw = adapter();
    fdw.end_scan();
    fdw.end_scan();
    assert!(fdw.iter_scan().is_none());
}

#[test]
fn build_url_joins_base_and_object() {
    let fdw = adapter();
    assert_eq!(
        fdw.build_url("balance").as_str(),
        "https://api.stripe.com/v1/balance"
    );
    assert_eq!(
        fdw.build_url("customers").as_str(),
        "https://api.stripe.com/v1/customers"
    );
}

#[test]
fn credential_holds_the_key() {
    let fdw = adapter();
    assert_eq!(fdw.credential().unmask().as_str(), "sk_test_key");
}

#[test]
fn latest_option_setting_wins() {
    let mut opts = OptionMap::new();
    opts.set("api_key", "first");
    opts.set("api_key", "second");
    let fdw = StripeFdw::new(&opts).expect("a usable key is present");
    assert_eq!(fdw.credential().unmask().as_str(), "second");
}
