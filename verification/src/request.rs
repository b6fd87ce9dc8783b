//! Construction of one remote fetch: the URL, the credential header value
//! and the row limit. The host performs the HTTP call; everything it sends
//! is assembled and pinned down here.

use vstd::prelude::*;

use vstd::string::StringExecFns;

use crate::constants::Config;
use crate::service::{BoardKind, spec_api_key, spec_base_url};

verus! {

/// The name of the request header that carries the credential.
pub const API_KEY_HEADER: &'static str = "x-apikey";

/// The name of the query parameter that carries the row limit.
pub const NUM_ROWS_PARAM: &'static str = "numRows";

/// The row limit used when the caller asks for none.
pub const DEFAULT_NUM_ROWS: u8 = 10;

/// What `str::to_uppercase` returns for a string with these characters.
pub uninterp spec fn upper_of(s: Seq<char>) -> Seq<char>;

/// Relies on `str::to_uppercase`: the uppercased string is a function of
/// the characters alone, and an empty string stays empty.
#[verifier::external_body]
fn to_upper(s: &str) -> (r: String)
    ensures
        r@ == upper_of(s@),
        s@.len() == 0 ==> r@.len() == 0,
{
    s.to_uppercase()
}

/// The URL one board fetch goes to: the kind's endpoint, a slash, and the
/// station code in upper case.
pub open spec fn spec_request_url(kind: BoardKind, station_code: Seq<char>) -> Seq<char> {
    spec_base_url(kind) + "/"@ + upper_of(station_code)
}

/// The row limit actually requested: the caller's, or the default of ten.
pub open spec fn spec_num_rows(num_rows: Option<u8>) -> u8 {
    match num_rows {
        Some(n) => n,
        None => DEFAULT_NUM_ROWS,
    }
}

/// Everything one board fetch sends: the URL, the credential that goes into
/// the `x-apikey` header, and the value of the `numRows` query parameter.
#[derive(Debug, PartialEq, Eq)]
pub struct FetchRequest {
    /// The full request URL.
    pub url: String,
    /// The credential sent in the `x-apikey` header.
    pub api_key: String,
    /// The row limit sent as the `numRows` query parameter.
    pub num_rows: u8,
}

/// Assembles the fetch for one board: endpoint and credential follow the
/// kind, the station code is upper-cased into the path, and a missing row
/// limit falls back to the default of ten.
pub fn build_request(
    kind: BoardKind,
    config: &Config,
    station_code: &str,
    num_rows: Option<u8>,
) -> (r: FetchRequest)
    ensures
        r.url@ == spec_request_url(kind, station_code@),
        r.api_key@ == spec_api_key(kind, *config),
        r.num_rows == spec_num_rows(num_rows),
{
    let upper = to_upper(station_code);
    let url = String::from_str(kind.base_url()).concat("/").concat(upper.as_str());
    proof {
        assert(url@ =~= spec_request_url(kind, station_code@));
    }
    let api_key = String::from_str(kind.api_key(config));
    let num_rows = match num_rows {
        Some(n) => n,
        None => DEFAULT_NUM_ROWS,
    };
    FetchRequest { url, api_key, num_rows }
}

} // verus!
