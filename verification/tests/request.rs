use rusty_rails::constants::{ARR_BASE_URL, Config, DEP_BASE_URL};
use rusty_rails::request::{API_KEY_HEADER, DEFAULT_NUM_ROWS, NUM_ROWS_PARAM, build_request};
use rusty_rails::service::BoardKind;

fn config() -> Config {
    Config {
        dep_api_key: "dep-key".to_string(),
        arr_api_key: "arr-key".to_string(),
    }
}

#[test]
fn request_constants() {
    assert_eq!(API_KEY_HEADER, "x-apikey");
    assert_eq!(NUM_ROWS_PARAM, "numRows");
    assert_eq!(DEFAULT_NUM_ROWS, 10);
}

#[test]
fn build_request_uppercases_the_station_code() {
    let request = build_request(BoardKind::Departures, &config(), "lbg", None);
    assert_eq!(request.url, format!("{}/LBG", DEP_BASE_URL));
}

#[test]
fn build_request_for_departures_defaults_rows() {
    let request = build_request(BoardKind::Departures, &config(), "LBG", None);
    assert_eq!(request.url, format!("{}/LBG", DEP_BASE_URL));
    assert_eq!(request.api_key, "dep-key");
    assert_eq!(request.num_rows, 10);
}

#[test]
fn build_request_for_arrivals_takes_given_rows() {
    let request = build_request(BoardKind::Arrivals, &config(), "pad", Some(5));
    assert_eq!(request.url, format!("{}/PAD", ARR_BASE_URL));
    assert_eq!(request.api_key, "arr-key");
    assert_eq!(request.num_rows, 5);
}
