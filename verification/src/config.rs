//! What the two processes are configured with, once the values have been
//! read: which endpoints to use, and over which transport to listen.

use vstd::prelude::*;
use vstd::string::StringExecFns;
use crate::error::ConfigurationError;

verus! {

/// The context identifier of the host as every enclave sees it.
pub const HOST_CID: u32 = 3;

/// The port on which the host takes records for storage.
pub const HOST_STORE_PORT: u32 = 7001;

/// A place to connect to or to listen on.
#[derive(Debug, Clone, PartialEq, Eq)]
pub enum Endpoint {
    /// A TCP address, as host and port in one text.
    Tcp { address: String },
    /// A context identifier and a port on the isolated local transport.
    Vsock { cid: u32, port: u32 },
}

/// An endpoint as plain values.
pub enum EndpointView {
    Tcp { address: Seq<char> },
    Vsock { cid: u32, port: u32 },
}

impl View for Endpoint {
    type V = EndpointView;

    open spec fn view(&self) -> EndpointView {
        match *self {
            Endpoint::Tcp { address } => EndpointView::Tcp { address: address@ },
            Endpoint::Vsock { cid, port } => EndpointView::Vsock { cid, port },
        }
    }
}

/// How a listener gets its byte streams.
#[derive(Debug, Clone, Copy, PartialEq, Eq, Structural)]
pub enum Transport {
    /// Plain TCP.
    Tcp,
    /// TCP with TLS terminated by the listener.
    Tls,
    /// The isolated local transport.
    Vsock,
}

/// The view of an optional text.
pub open spec fn text_view(text: Option<String>) -> Option<Seq<char>> {
    match text {
        Some(t) => Some(t@),
        None => None,
    }
}

/// The endpoint that a peer's configuration selects. A context identifier
/// and a port together select the isolated transport; neither of them selects
/// TCP, at the configured address or else at `fallback`; one without the
/// other is a configuration error.
pub open spec fn selected_endpoint(
    cid: Option<u32>,
    port: Option<u32>,
    address: Option<Seq<char>>,
    fallback: Seq<char>,
) -> Result<EndpointView, ConfigurationError> {
    match (cid, port) {
        (Some(cid), Some(port)) => Ok(EndpointView::Vsock { cid, port }),
        (None, None) => Ok(
            EndpointView::Tcp {
                address: match address {
                    Some(a) => a,
                    None => fallback,
                },
            },
        ),
        _ => Err(ConfigurationError::EndpointIncomplete),
    }
}

/// Selects the endpoint of a peer from what was configured.
pub fn select_endpoint(
    cid: Option<u32>,
    port: Option<u32>,
    address: Option<String>,
    fallback: &str,
) -> (r: Result<Endpoint, ConfigurationError>)
    ensures
        match r {
            Ok(endpoint) => selected_endpoint(cid, port, text_view(address), fallback@) == Ok::<
                EndpointView,
                ConfigurationError,
            >(endpoint@),
            Err(e) => selected_endpoint(cid, port, text_view(address), fallback@) == Err::<
                EndpointView,
                ConfigurationError,
            >(e),
        },
{
    match (cid, port) {
        (Some(cid), Some(port)) => Ok(Endpoint::Vsock { cid, port }),
        (None, None) => match address {
            Some(address) => Ok(Endpoint::Tcp { address }),
            None => Ok(Endpoint::Tcp { address: String::from_str(fallback) }),
        },
        _ => Err(ConfigurationError::EndpointIncomplete),
    }
}

/// The endpoint on the host to which the enclave delivers records.
pub fn storage_endpoint() -> (endpoint: Endpoint)
    ensures
        endpoint@ == (EndpointView::Vsock { cid: HOST_CID, port: HOST_STORE_PORT }),
{
    Endpoint::Vsock { cid: HOST_CID, port: HOST_STORE_PORT }
}

/// The endpoint to which the enclave delivers records: the host's storage
/// port on the isolated transport where nothing is configured, and otherwise
/// what the configuration selects.
pub open spec fn selected_storage(
    cid: Option<u32>,
    port: Option<u32>,
    address: Option<Seq<char>>,
) -> Result<EndpointView, ConfigurationError> {
    if cid is None && port is None && address is None {
        Ok(EndpointView::Vsock { cid: HOST_CID, port: HOST_STORE_PORT })
    } else {
        selected_endpoint(cid, port, address, Seq::empty())
    }
}

/// Selects the endpoint to which the enclave delivers records.
pub fn select_storage_endpoint(cid: Option<u32>, port: Option<u32>, address: Option<String>) -> (r:
    Result<Endpoint, ConfigurationError>)
    ensures
        match r {
            Ok(endpoint) => selected_storage(cid, port, text_view(address)) == Ok::<
                EndpointView,
                ConfigurationError,
            >(endpoint@),
            Err(e) => selected_storage(cid, port, text_view(address)) == Err::<
                EndpointView,
                ConfigurationError,
            >(e),
        },
{
    if cid.is_none() && port.is_none() && address.is_none() {
        Ok(storage_endpoint())
    } else {
        proof {
            reveal_strlit("");
        }
        assert(""@ =~= Seq::<char>::empty());
        select_endpoint(cid, port, address, "")
    }
}

/// The transport that a listener's configuration selects: the isolated
/// transport where it is asked for, else TLS where termination is switched
/// on, else plain TCP.
pub open spec fn selected_transport(isolated: bool, tls: bool) -> Transport {
    if isolated {
        Transport::Vsock
    } else if tls {
        Transport::Tls
    } else {
        Transport::Tcp
    }
}

/// Selects the transport of a listener from what was configured.
pub fn select_transport(isolated: bool, tls: bool) -> (transport: Transport)
    ensures
        transport == selected_transport(isolated, tls),
{
    if isolated {
        Transport::Vsock
    } else if tls {
        Transport::Tls
    } else {
        Transport::Tcp
    }
}

} // verus!
