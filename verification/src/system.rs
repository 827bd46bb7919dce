//! What the monitoring endpoint answers.

use crate::text::{decimal, with_number};
use vstd::prelude::*;
use vstd::string::{StringExecFns, StringSliceAdditionalSpecFns};

verus! {

/// The status line and the start of the length header of every answer.
pub const RESPONSE_HEAD: &'static str = "HTTP/1.1 200 OK\r\nContent-Length: ";

/// What separates the headers from the body.
pub const RESPONSE_BREAK: &'static str = "\r\n\r\n";

/// The address that the endpoint listens at for a port: every interface.
pub fn monitoring_host(port: &str) -> (host: String)
    ensures
        host@ == "0.0.0.0:"@ + port@,
{
    "0.0.0.0:".to_owned().concat(port)
}

/// The answer to a request for metrics: a success status, the length of
/// the report in bytes, an empty line, and the report.
pub fn metrics_response(contents: &str) -> (response: String)
    ensures
        response@ == RESPONSE_HEAD@ + decimal(contents.spec_bytes().len()) + RESPONSE_BREAK@ + contents@,
{
    with_number(RESPONSE_HEAD, contents.as_bytes().len()).concat(RESPONSE_BREAK).concat(contents)
}

} // verus!
