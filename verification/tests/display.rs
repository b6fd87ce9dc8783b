use rusty_rails::display::{
    board_heading, format_station, is_on_time, no_services_message, service_row, station_header,
};
use rusty_rails::service::{Board, BoardKind, Service, Station};

#[test]
fn test_format_station_no_via() {
    let station = Station {
        location_name: "London Victoria".to_string(),
        crs: "VIC".to_string(),
        via: None,
    };
    assert_eq!(format_station(&station), "London Victoria (VIC)");
}

#[test]
fn test_format_station_with_via() {
    let station = Station {
        location_name: "Gatwick Airport".to_string(),
        crs: "GTW".to_string(),
        via: Some("via Redhill".to_string()),
    };
    let expected = "Gatwick Airport (GTW)
via Redhill";
    assert_eq!(format_station(&station), expected);
}

#[test]
fn test_colourise_expected_on_time() {
    assert!(is_on_time("On time"));
}

#[test]
fn test_colourise_expected_delayed() {
    assert!(!is_on_time("Delayed"));
}

#[test]
fn test_colourise_expected_cancelled() {
    assert!(!is_on_time("Cancelled"));
}

#[test]
fn test_colourise_expected_numerical_time() {
    assert!(!is_on_time("10:15"));
}

#[test]
fn on_time_ignores_ascii_case_only() {
    assert!(is_on_time("ON TIME"));
    assert!(is_on_time("on time"));
    assert!(!is_on_time(""));
    assert!(!is_on_time("On time "));
    assert!(!is_on_time("late"));
}

#[test]
fn station_header_follows_board_kind() {
    assert_eq!(station_header(BoardKind::Departures), "Destination");
    assert_eq!(station_header(BoardKind::Arrivals), "Origin");
}

fn sample_service() -> Service {
    Service {
        destination: Station {
            location_name: "Brighton".to_string(),
            crs: "BTN".to_string(),
            via: None,
        },
        origin: Station {
            location_name: "Bedford".to_string(),
            crs: "BDM".to_string(),
            via: Some("via London".to_string()),
        },
        scheduled_arrival: Some("09:58".to_string()),
        estimated_arrival: None,
        scheduled_departure: Some("10:00".to_string()),
        estimated_departure: Some("On time".to_string()),
        operator: "Thameslink".to_string(),
        platform: None,
    }
}

#[test]
fn service_row_for_departures() {
    let row = service_row(&sample_service(), BoardKind::Departures);
    assert_eq!(row.station, "Brighton (BTN)");
    assert_eq!(row.platform, "--");
    assert_eq!(row.operator, "Thameslink");
    assert_eq!(row.scheduled, "10:00");
    assert_eq!(row.expected, "On time");
}

#[test]
fn service_row_for_arrivals() {
    let row = service_row(&sample_service(), BoardKind::Arrivals);
    assert_eq!(row.station, "Bedford (BDM)\nvia London");
    assert_eq!(row.platform, "--");
    assert_eq!(row.operator, "Thameslink");
    assert_eq!(row.scheduled, "09:58");
    assert_eq!(row.expected, "");
}

#[test]
fn board_heading_names_kind_and_station() {
    let board = Board {
        services: vec![],
        location_name: "London Bridge".to_string(),
        crs: "LBG".to_string(),
    };
    assert_eq!(
        board_heading(&board, BoardKind::Departures),
        "Departures for London Bridge (LBG)"
    );
    assert_eq!(
        board_heading(&board, BoardKind::Arrivals),
        "Arrivals for London Bridge (LBG)"
    );
}

#[test]
fn no_services_message_names_the_station() {
    assert_eq!(
        no_services_message("EMP"),
        "No services found for station code 'EMP'."
    );
}
