//! The domain model of a live service board and the normalization layer
//! that turns raw remote records into validated ones.
//!
//! The remote source represents a record's origin and destination as
//! zero-or-one-element lists. Normalization takes the first element and
//! fails on an empty list; when a whole response is turned into a board,
//! records that fail are dropped independently, so one malformed record
//! never costs the rest of the board.

use vstd::prelude::*;

use crate::constants::{ARR_API_KEY_VAR, ARR_BASE_URL, Config, DEP_API_KEY_VAR, DEP_BASE_URL};

verus! {

/// Why one raw record could not be normalized.
#[derive(Clone, Copy, Debug, PartialEq, Eq, Structural)]
pub enum ServiceConversionError {
    /// The raw record's destination list is empty.
    MissingDestination,
    /// The raw record's origin list is empty.
    MissingOrigin,
}

/// Which board to fetch and show.
#[derive(Clone, Copy, Debug, PartialEq, Eq, Structural)]
pub enum BoardKind {
    /// Trains leaving the station.
    Departures,
    /// Trains arriving at the station.
    Arrivals,
}

/// The title text of a board of this kind.
pub open spec fn spec_title(kind: BoardKind) -> Seq<char> {
    match kind {
        BoardKind::Departures => "Departures"@,
        BoardKind::Arrivals => "Arrivals"@,
    }
}

/// The endpoint a board of this kind is fetched from.
pub open spec fn spec_base_url(kind: BoardKind) -> Seq<char> {
    match kind {
        BoardKind::Departures => DEP_BASE_URL@,
        BoardKind::Arrivals => ARR_BASE_URL@,
    }
}

/// The environment variable that holds a board kind's credential.
pub open spec fn spec_credential_var(kind: BoardKind) -> Seq<char> {
    match kind {
        BoardKind::Departures => DEP_API_KEY_VAR@,
        BoardKind::Arrivals => ARR_API_KEY_VAR@,
    }
}

/// The credential that a board of this kind is fetched with.
pub open spec fn spec_api_key(kind: BoardKind, config: Config) -> Seq<char> {
    match kind {
        BoardKind::Departures => config.dep_api_key@,
        BoardKind::Arrivals => config.arr_api_key@,
    }
}

impl BoardKind {
    /// The display title for this board kind.
    pub fn title(&self) -> (r: &'static str)
        ensures
            r@ == spec_title(*self),
    {
        match self {
            BoardKind::Departures => "Departures",
            BoardKind::Arrivals => "Arrivals",
        }
    }

    /// The base URL of the remote endpoint for this board kind.
    pub fn base_url(&self) -> (r: &'static str)
        ensures
            r@ == spec_base_url(*self),
    {
        match self {
            BoardKind::Departures => DEP_BASE_URL,
            BoardKind::Arrivals => ARR_BASE_URL,
        }
    }

    /// The name of the environment variable this kind's credential is read
    /// from. Total: each kind maps to exactly one variable.
    pub fn credential_var(&self) -> (r: &'static str)
        ensures
            r@ == spec_credential_var(*self),
    {
        match self {
            BoardKind::Departures => DEP_API_KEY_VAR,
            BoardKind::Arrivals => ARR_API_KEY_VAR,
        }
    }

    /// The credential for this board kind, picked out of the configuration.
    pub fn api_key<'a>(&self, config: &'a Config) -> (r: &'a str)
        ensures
            r@ == spec_api_key(*self, *config),
    {
        match self {
            BoardKind::Departures => config.dep_api_key.as_str(),
            BoardKind::Arrivals => config.arr_api_key.as_str(),
        }
    }
}

/// A station as the remote source names it.
#[derive(Debug, PartialEq, Eq)]
pub struct Station {
    /// The full station name, such as "London Paddington".
    pub location_name: String,
    /// The three-letter CRS code, such as "PAD".
    pub crs: String,
    /// Optional routing text, such as "via Redhill".
    pub via: Option<String>,
}

impl Clone for Station {
    /// A clone carries the same name, code and routing text.
    fn clone(&self) -> (r: Self)
        ensures
            r == *self,
    {
        Station {
            location_name: self.location_name.clone(),
            crs: self.crs.clone(),
            via: clone_opt_string(&self.via),
        }
    }
}

/// Clones an optional string; the copy equals the original.
fn clone_opt_string(o: &Option<String>) -> (r: Option<String>)
    ensures
        r == *o,
{
    match o {
        Some(s) => Some(s.clone()),
        None => None,
    }
}

/// One train service exactly as the remote source sends it: origin and
/// destination are lists that hold at most one station in practice, and may
/// be empty.
#[derive(Debug, PartialEq, Eq)]
pub struct ApiService {
    /// The stations the service runs to; expected to hold one entry.
    pub destination: Vec<Station>,
    /// The stations the service runs from; expected to hold one entry.
    pub origin: Vec<Station>,
    /// Scheduled time of arrival.
    pub scheduled_arrival: Option<String>,
    /// Estimated time of arrival, often a status such as "On time".
    pub estimated_arrival: Option<String>,
    /// Scheduled time of departure.
    pub scheduled_departure: Option<String>,
    /// Estimated time of departure, often a status such as "Cancelled".
    pub estimated_departure: Option<String>,
    /// The operating company.
    pub operator: String,
    /// The platform, when known.
    pub platform: Option<String>,
}

/// A whole remote response: the station it describes and its raw records.
/// A response without a service list decodes to an empty list, not an error.
#[derive(Debug, PartialEq, Eq)]
pub struct ApiResponse {
    /// The raw service records, in the order the remote source returned them.
    pub train_services: Vec<ApiService>,
    /// The name of the station the board was requested for.
    pub location_name: String,
    /// The CRS code of that station.
    pub crs: String,
}

/// One validated train service: both endpoints resolved, everything else
/// passed through unchanged from the raw record.
#[derive(Debug, PartialEq, Eq)]
pub struct Service {
    /// The final destination.
    pub destination: Station,
    /// The starting origin.
    pub origin: Station,
    /// Scheduled time of arrival.
    pub scheduled_arrival: Option<String>,
    /// Estimated time of arrival, often a status such as "On time".
    pub estimated_arrival: Option<String>,
    /// Scheduled time of departure.
    pub scheduled_departure: Option<String>,
    /// Estimated time of departure, often a status such as "Cancelled".
    pub estimated_departure: Option<String>,
    /// The operating company.
    pub operator: String,
    /// The platform, when known.
    pub platform: Option<String>,
}

/// A complete board for one station: the validated services, in remote
/// order, and the station's identity. Built fresh on every fetch cycle.
#[derive(Debug, PartialEq, Eq)]
pub struct Board {
    /// The validated services, in the order the remote source returned them.
    pub services: Vec<Service>,
    /// The name of the station.
    pub location_name: String,
    /// The CRS code of the station.
    pub crs: String,
}

/// Whether a raw record can be normalized: both endpoint lists are
/// non-empty.
pub open spec fn service_ok(raw: ApiService) -> bool {
    raw.destination@.len() > 0 && raw.origin@.len() > 0
}

/// The validated service a raw record normalizes to: the first station of
/// each endpoint list, every other field passed through unchanged.
pub open spec fn normalized_service(raw: ApiService) -> Service {
    Service {
        destination: raw.destination@[0],
        origin: raw.origin@[0],
        scheduled_arrival: raw.scheduled_arrival,
        estimated_arrival: raw.estimated_arrival,
        scheduled_departure: raw.scheduled_departure,
        estimated_departure: raw.estimated_departure,
        operator: raw.operator,
        platform: raw.platform,
    }
}

/// What normalizing one raw record yields: an empty destination list fails
/// first, then an empty origin list, and otherwise the validated service.
pub open spec fn normalize_result(raw: ApiService) -> Result<Service, ServiceConversionError> {
    if raw.destination@.len() == 0 {
        Err(ServiceConversionError::MissingDestination)
    } else if raw.origin@.len() == 0 {
        Err(ServiceConversionError::MissingOrigin)
    } else {
        Ok(normalized_service(raw))
    }
}

impl Service {
    /// Normalizes one raw record independently of any other: succeeds with
    /// every pass-through field unchanged exactly when both endpoint lists
    /// are non-empty, and otherwise names the missing endpoint.
    pub fn try_from(raw: ApiService) -> (r: Result<Service, ServiceConversionError>)
        ensures
            r == normalize_result(raw),
    {
        let ApiService {
            destination,
            origin,
            scheduled_arrival,
            estimated_arrival,
            scheduled_departure,
            estimated_departure,
            operator,
            platform,
        } = raw;
        let mut destination = destination;
        let mut origin = origin;
        if destination.len() == 0 {
            return Err(ServiceConversionError::MissingDestination);
        }
        if origin.len() == 0 {
            return Err(ServiceConversionError::MissingOrigin);
        }
        let destination_station = destination.remove(0);
        let origin_station = origin.remove(0);
        Ok(
            Service {
                destination: destination_station,
                origin: origin_station,
                scheduled_arrival,
                estimated_arrival,
                scheduled_departure,
                estimated_departure,
                operator,
                platform,
            },
        )
    }
}

/// The validated services of a raw record sequence: each record normalized
/// independently, in order, with the records that fail left out.
pub open spec fn board_services(raws: Seq<ApiService>) -> Seq<Service>
    decreases raws.len(),
{
    if raws.len() == 0 {
        Seq::empty()
    } else {
        board_services(raws.drop_last()) + if service_ok(raws.last()) {
            seq![normalized_service(raws.last())]
        } else {
            Seq::empty()
        }
    }
}

/// Builds the board of a whole raw response: normalizes every record
/// independently, keeps the ones that succeed in remote order, and carries
/// the station's identity over unchanged.
pub fn build_board(response: ApiResponse) -> (board: Board)
    ensures
        board.services@ == board_services(response.train_services@),
        board.location_name == response.location_name,
        board.crs == response.crs,
{
    let ApiResponse { train_services, location_name, crs } = response;
    let mut services: Vec<Service> = Vec::new();
    let n = train_services.len();
    let mut i: usize = 0;
    while i < n
        invariant
            i <= n,
            n == train_services@.len(),
            services@ == board_services(train_services@.take(i as int)),
        decreases n - i,
    {
        let raw = &train_services[i];
        if raw.destination.len() > 0 && raw.origin.len() > 0 {
            let service = Service {
                destination: raw.destination[0].clone(),
                origin: raw.origin[0].clone(),
                scheduled_arrival: clone_opt_string(&raw.scheduled_arrival),
                estimated_arrival: clone_opt_string(&raw.estimated_arrival),
                scheduled_departure: clone_opt_string(&raw.scheduled_departure),
                estimated_departure: clone_opt_string(&raw.estimated_departure),
                operator: raw.operator.clone(),
                platform: clone_opt_string(&raw.platform),
            };
            assert(service == normalized_service(train_services@[i as int]));
            services.push(service);
        }
        proof {
            let taken = train_services@.take(i + 1);
            assert(taken.drop_last() =~= train_services@.take(i as int));
            assert(taken.last() == train_services@[i as int]);
            assert(services@ =~= board_services(taken));
        }
        i += 1;
    }
    proof {
        assert(train_services@.take(n as int) =~= train_services@);
    }
    Board { services, location_name, crs }
}

/// A board never holds more services than the response had raw records, and
/// holds exactly as many precisely when every raw record normalizes.
pub proof fn lemma_board_size(raws: Seq<ApiService>)
    ensures
        board_services(raws).len() <= raws.len(),
        board_services(raws).len() == raws.len() <==> (forall|i: int|
            0 <= i < raws.len() ==> service_ok(#[trigger] raws[i])),
    decreases raws.len(),
{
    if raws.len() > 0 {
        let rest = raws.drop_last();
        lemma_board_size(rest);
        if board_services(raws).len() == raws.len() {
            assert(board_services(rest).len() == rest.len());
            assert(service_ok(raws.last()));
            assert forall|i: int| 0 <= i < raws.len() implies service_ok(#[trigger] raws[i]) by {
                if i < raws.len() - 1 {
                    assert(service_ok(rest[i]));
                    assert(rest[i] == raws[i]);
                }
            }
        }
        if forall|i: int| 0 <= i < raws.len() ==> service_ok(#[trigger] raws[i]) {
            assert forall|i: int| 0 <= i < rest.len() implies service_ok(#[trigger] rest[i]) by {
                assert(rest[i] == raws[i]);
                assert(service_ok(raws[i]));
            }
            assert(board_services(rest).len() == rest.len());
            assert(service_ok(raws.last()));
        }
    }
}

/// A raw record that fails normalization is absent from the board: the
/// board of a response that holds it equals the board of the same response
/// with that record taken out.
pub proof fn lemma_failed_record_absent(raws: Seq<ApiService>, i: int)
    requires
        0 <= i < raws.len(),
        !service_ok(raws[i]),
    ensures
        board_services(raws) == board_services(raws.remove(i)),
    decreases raws.len(),
{
    if i == raws.len() - 1 {
        assert(raws.remove(i) =~= raws.drop_last());
    } else {
        let rest = raws.drop_last();
        assert(rest[i] == raws[i]);
        lemma_failed_record_absent(rest, i);
        assert(raws.remove(i).drop_last() =~= rest.remove(i));
        assert(raws.remove(i).last() == raws.last());
    }
}

/// Normalization is a pure function of the raw record: two raw records with
/// equal contents normalize to equal results, so normalizing the same
/// record twice yields the same outcome.
pub proof fn lemma_normalization_pure(a: ApiService, b: ApiService)
    requires
        a == b,
    ensures
        normalize_result(a) == normalize_result(b),
{
}

} // verus!
