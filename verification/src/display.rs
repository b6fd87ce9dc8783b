//! The text a rendered board is made of: station labels, the heading, the
//! cell values of one service row, and the on-time decision behind the
//! status colouring. The host only puts these strings into a table.

use vstd::prelude::*;

use vstd::string::{StrSliceExecFns, StringExecFns};

use crate::service::{Board, BoardKind, Service, Station, spec_title};

verus! {

/// The station label: "Name (CRS)", with the routing text on a second line
/// when there is one.
pub open spec fn spec_format_station(station: Station) -> Seq<char> {
    station.location_name@ + " ("@ + station.crs@ + ")"@ + match station.via {
        Some(v) => "\n"@ + v@,
        None => Seq::<char>::empty(),
    }
}

/// Formats a station as it appears in a board cell: the name, the CRS code
/// in parentheses, and the optional routing text on its own line.
pub fn format_station(station: &Station) -> (r: String)
    ensures
        r@ == spec_format_station(*station),
{
    let mut text = String::from_str(station.location_name.as_str());
    text.append(" (");
    text.append(station.crs.as_str());
    text.append(")");
    match &station.via {
        Some(via) => {
            text.append("\n");
            text.append(via.as_str());
        },
        None => {},
    }
    proof {
        assert(text@ =~= spec_format_station(*station));
    }
    text
}

/// A code point folded to lower case as far as ASCII goes: letters `A`
/// through `Z` move down by 32, everything else stays.
pub open spec fn ascii_lower(c: int) -> int {
    if 65 <= c <= 90 {
        c + 32
    } else {
        c
    }
}

/// Character-wise equality up to ASCII case: same length, and each pair of
/// characters equal once ASCII letters are folded.
pub open spec fn chars_eq_ignore_ascii_case(a: Seq<char>, b: Seq<char>) -> bool {
    a.len() == b.len() && (forall|i: int|
        0 <= i < a.len() ==> ascii_lower(a[i] as int) == ascii_lower(#[trigger] b[i] as int))
}

/// Compares two strings ignoring ASCII case, character by character.
fn str_eq_ignore_ascii_case(a: &str, b: &str) -> (r: bool)
    ensures
        r == chars_eq_ignore_ascii_case(a@, b@),
{
    let len = a.unicode_len();
    if len != b.unicode_len() {
        return false;
    }
    let mut i: usize = 0;
    while i < len
        invariant
            i <= len,
            len == a@.len(),
            len == b@.len(),
            forall|j: int|
                0 <= j < i ==> ascii_lower(a@[j] as int) == ascii_lower(#[trigger] b@[j] as int),
        decreases len - i,
    {
        let ca = a.get_char(i) as u32;
        let cb = b.get_char(i) as u32;
        let la = if 65 <= ca && ca <= 90 {
            ca + 32
        } else {
            ca
        };
        let lb = if 65 <= cb && cb <= 90 {
            cb + 32
        } else {
            cb
        };
        if la != lb {
            assert(!chars_eq_ignore_ascii_case(a@, b@));
            return false;
        }
        i += 1;
    }
    true
}

/// Whether a status string counts as running on time, ignoring ASCII case.
pub open spec fn spec_on_time(s: Seq<char>) -> bool {
    chars_eq_ignore_ascii_case(s, "On time"@)
}

/// Whether an expected-time cell reads "On time", up to ASCII case. The
/// host colours such a cell green and every other status red.
pub fn is_on_time(expected: &str) -> (r: bool)
    ensures
        r == spec_on_time(expected@),
{
    str_eq_ignore_ascii_case(expected, "On time")
}

/// The text of an optional field: the value, or nothing.
pub open spec fn opt_text(o: Option<String>) -> Seq<char> {
    match o {
        Some(s) => s@,
        None => Seq::<char>::empty(),
    }
}

/// The text of an optional field as a cell value: its content, or empty.
fn opt_text_cell(o: &Option<String>) -> (r: String)
    ensures
        r@ == opt_text(*o),
{
    match o {
        Some(s) => s.clone(),
        None => String::new(),
    }
}

/// The station column's header: where the trains of this board go, or
/// where they come from.
pub open spec fn spec_station_header(kind: BoardKind) -> Seq<char> {
    match kind {
        BoardKind::Departures => "Destination"@,
        BoardKind::Arrivals => "Origin"@,
    }
}

/// The header of the station column: "Destination" on a departure board,
/// "Origin" on an arrival board.
pub fn station_header(kind: BoardKind) -> (r: &'static str)
    ensures
        r@ == spec_station_header(kind),
{
    match kind {
        BoardKind::Departures => "Destination",
        BoardKind::Arrivals => "Origin",
    }
}

/// The station a row shows: the destination on a departure board, the
/// origin on an arrival board.
pub open spec fn spec_row_station(service: Service, kind: BoardKind) -> Seq<char> {
    match kind {
        BoardKind::Departures => spec_format_station(service.destination),
        BoardKind::Arrivals => spec_format_station(service.origin),
    }
}

/// The scheduled time a row shows: departure or arrival, following the
/// board kind; empty when the record had none.
pub open spec fn spec_row_scheduled(service: Service, kind: BoardKind) -> Seq<char> {
    match kind {
        BoardKind::Departures => opt_text(service.scheduled_departure),
        BoardKind::Arrivals => opt_text(service.scheduled_arrival),
    }
}

/// The expected time or status a row shows: departure or arrival, following
/// the board kind; empty when the record had none.
pub open spec fn spec_row_expected(service: Service, kind: BoardKind) -> Seq<char> {
    match kind {
        BoardKind::Departures => opt_text(service.estimated_departure),
        BoardKind::Arrivals => opt_text(service.estimated_arrival),
    }
}

/// The platform a row shows: the value, or "--" when none is known.
pub open spec fn spec_row_platform(service: Service) -> Seq<char> {
    match service.platform {
        Some(p) => p@,
        None => "--"@,
    }
}

/// The five cell texts of one table row.
#[derive(Debug, PartialEq, Eq)]
pub struct ServiceRow {
    /// The station column: destination or origin, with routing text.
    pub station: String,
    /// The platform, or "--" when none is known.
    pub platform: String,
    /// The operating company.
    pub operator: String,
    /// The scheduled time, or empty.
    pub scheduled: String,
    /// The expected time or status, or empty.
    pub expected: String,
}

/// Computes the cell texts of one service's row: the side of the journey
/// shown follows the board kind, a missing platform reads "--", and missing
/// times read as empty cells.
pub fn service_row(service: &Service, kind: BoardKind) -> (r: ServiceRow)
    ensures
        r.station@ == spec_row_station(*service, kind),
        r.platform@ == spec_row_platform(*service),
        r.operator@ == service.operator@,
        r.scheduled@ == spec_row_scheduled(*service, kind),
        r.expected@ == spec_row_expected(*service, kind),
{
    let station = match kind {
        BoardKind::Departures => format_station(&service.destination),
        BoardKind::Arrivals => format_station(&service.origin),
    };
    let platform = match &service.platform {
        Some(p) => p.clone(),
        None => String::from_str("--"),
    };
    let (scheduled, expected) = match kind {
        BoardKind::Departures => (
            opt_text_cell(&service.scheduled_departure),
            opt_text_cell(&service.estimated_departure),
        ),
        BoardKind::Arrivals => (
            opt_text_cell(&service.scheduled_arrival),
            opt_text_cell(&service.estimated_arrival),
        ),
    };
    ServiceRow { station, platform, operator: service.operator.clone(), scheduled, expected }
}

/// The heading above a board: its kind's title, the station name and the
/// CRS code.
pub open spec fn spec_board_heading(board: Board, kind: BoardKind) -> Seq<char> {
    spec_title(kind) + " for "@ + board.location_name@ + " ("@ + board.crs@ + ")"@
}

/// Formats the heading printed above a board, such as
/// "Departures for London Bridge (LBG)".
pub fn board_heading(board: &Board, kind: BoardKind) -> (r: String)
    ensures
        r@ == spec_board_heading(*board, kind),
{
    let mut text = String::from_str(kind.title());
    text.append(" for ");
    text.append(board.location_name.as_str());
    text.append(" (");
    text.append(board.crs.as_str());
    text.append(")");
    proof {
        assert(text@ =~= spec_board_heading(*board, kind));
    }
    text
}

/// The notice shown instead of an empty board.
pub open spec fn spec_no_services_message(station_code: Seq<char>) -> Seq<char> {
    "No services found for station code '"@ + station_code + "'."@
}

/// Formats the notice shown when a board has no services.
pub fn no_services_message(station_code: &str) -> (r: String)
    ensures
        r@ == spec_no_services_message(station_code@),
{
    let mut text = String::from_str("No services found for station code '");
    text.append(station_code);
    text.append("'.");
    proof {
        assert(text@ =~= spec_no_services_message(station_code@));
    }
    text
}

} // verus!
