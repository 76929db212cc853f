//! The compute side of connecting: compression selection and building (and
//! checking) the gateway URL. Opening the socket itself is the caller's job.

use vstd::prelude::*;
use vstd::string::StringExecFns;
use crate::constants::GATEWAY_VERSION;
use crate::digits::{dec_digits, u64_to_string};
use crate::error::GatewayError;

verus! {

/// The transport compression method to use.
#[derive(Clone, Copy, Debug, Eq, PartialEq, Structural)]
pub enum TransportCompression {
    /// No transport compression; payload compression is used instead.
    Plain,
    /// Use zlib-stream transport compression.
    Zlib,
    /// Use zstd-stream transport compression.
    Zstd,
}

impl TransportCompression {
    /// The query fragment this compression mode appends to the gateway URL.
    pub open spec fn query_param_spec(self) -> Seq<char> {
        match self {
            TransportCompression::Plain => Seq::<char>::empty(),
            TransportCompression::Zlib => "&compress=zlib-stream"@,
            TransportCompression::Zstd => "&compress=zstd-stream"@,
        }
    }

    /// The query fragment this compression mode appends to the gateway URL.
    pub fn query_param(self) -> (r: &'static str)
        ensures
            r@ == self.query_param_spec(),
    {
        match self {
            TransportCompression::Plain => {
                let r: &'static str = "";
                proof {
                    reveal_strlit("");
                    assert(r@ =~= Seq::<char>::empty());
                }
                r
            },
            TransportCompression::Zlib => "&compress=zlib-stream",
            TransportCompression::Zstd => "&compress=zstd-stream",
        }
    }
}

/// The full URL a shard connects to: the base, the protocol version, and the
/// compression query.
pub open spec fn gateway_url_spec(base: Seq<char>, compression: TransportCompression) -> Seq<char> {
    base + "?v="@ + dec_digits(GATEWAY_VERSION as int) + compression.query_param_spec()
}

/// Builds the URL a shard connects to from its base URL.
pub fn gateway_url(base: &str, compression: TransportCompression) -> (r: String)
    ensures
        r@ == gateway_url_spec(base@, compression),
{
    let mut r: String = base.to_owned();
    r.append("?v=");
    r.append(u64_to_string(GATEWAY_VERSION as u64).as_str());
    r.append(compression.query_param());
    proof {
        assert(r@ =~= gateway_url_spec(base@, compression));
    }
    r
}

/// Whether a string is a well-formed URL; what the URL grammar accepts is a
/// function of the string alone.
pub uninterp spec fn url_parse_ok(s: Seq<char>) -> bool;

/// Relies on `url::Url::parse`: whether parsing succeeds depends only on the
/// input string.
#[verifier::external_body]
fn parse_url_ok(s: &str) -> (r: bool)
    ensures
        r == url_parse_ok(s@),
{
    url::Url::parse(s).is_ok()
}

/// Builds and checks the URL used to open a gateway connection.
///
/// Returns the versioned URL with the compression query appended, or
/// `BuildingUrl` when that string is not a well-formed URL.
pub fn connect_url(base: &str, compression: TransportCompression) -> (r: Result<
    String,
    GatewayError,
>)
    ensures
        r matches Ok(u) ==> u@ == gateway_url_spec(base@, compression) && url_parse_ok(
            gateway_url_spec(base@, compression),
        ),
        r matches Err(e) ==> e == GatewayError::BuildingUrl && !url_parse_ok(
            gateway_url_spec(base@, compression),
        ),
{
    let url = gateway_url(base, compression);
    if parse_url_ok(url.as_str()) {
        Ok(url)
    } else {
        Err(GatewayError::BuildingUrl)
    }
}

} // verus!
