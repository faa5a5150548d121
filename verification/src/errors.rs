//! Errors of the proxy and the HTTP status and message each is answered
//! with.

use vstd::prelude::*;
use vstd::string::*;

verus! {

#[verifier::external_type_specification]
#[verifier::external_body]
pub struct ExReqwestError(reqwest::Error);

#[verifier::external_type_specification]
#[verifier::external_body]
pub struct ExHyperError(hyper::Error);

#[verifier::external_type_specification]
#[verifier::external_body]
pub struct ExIoError(std::io::Error);

#[verifier::external_type_specification]
#[verifier::external_body]
pub struct ExTonicStatus(tonic::Status);

/// Calls `Display::fmt` of `reqwest::Error` (through `to_string`); the text
/// it writes is left unstated.
#[verifier::external_body]
fn reqwest_error_text(e: &reqwest::Error) -> String {
    e.to_string()
}

/// Calls `Display::fmt` of `hyper::Error` (through `to_string`); the text it
/// writes is left unstated.
#[verifier::external_body]
fn hyper_error_text(e: &hyper::Error) -> String {
    e.to_string()
}

/// Calls `Display::fmt` of `std::io::Error` (through `to_string`); the text
/// it writes is left unstated.
#[verifier::external_body]
fn io_error_text(e: &std::io::Error) -> String {
    e.to_string()
}

/// Calls `Display::fmt` of `tonic::Status` (through `to_string`); the text it
/// writes is left unstated.
#[verifier::external_body]
fn tonic_status_text(e: &tonic::Status) -> String {
    e.to_string()
}

/// Errors raised while proxying a request.
pub enum ProxyError {
    InvalidConfiguration(String),
    NetworkError(reqwest::Error),
    HyperError(hyper::Error),
    IoError(std::io::Error),
    GrpcError(tonic::Status),
    /// Plugin, method and message of a failed RPC call.
    RpcCallError(String, String, String),
    /// Plugin and message of a failed RPC connection.
    RpcConnectionError(String, String),
    InvalidRequest(String),
    InvalidHeader(String),
    Other(String),
    Internal(String),
    /// A fault asked for this status code and body.
    FaultTriggeredError(u16, String),
}

impl ProxyError {
    /// HTTP status the error is answered with.
    pub open spec fn spec_status_code(&self) -> u16 {
        match self {
            ProxyError::InvalidConfiguration(_) => 400,
            ProxyError::NetworkError(_) => 502,
            ProxyError::HyperError(_) => 502,
            ProxyError::IoError(_) => 500,
            ProxyError::GrpcError(_) => 502,
            ProxyError::RpcCallError(..) => 400,
            ProxyError::RpcConnectionError(..) => 502,
            ProxyError::InvalidRequest(_) => 400,
            ProxyError::InvalidHeader(_) => 400,
            ProxyError::Other(_) => 500,
            ProxyError::Internal(_) => 500,
            ProxyError::FaultTriggeredError(status, _) => *status,
        }
    }

    /// Message of the error body, where it holds only the error's own
    /// strings.
    pub open spec fn spec_message(&self) -> Option<Seq<char>> {
        match self {
            ProxyError::InvalidConfiguration(m) => Some("Invalid Configuration: "@ + m@),
            ProxyError::RpcCallError(plugin, method, m) => Some(
                "RPC Call Error in plugin '"@ + plugin@ + "', method '"@ + method@ + "': "@ + m@,
            ),
            ProxyError::RpcConnectionError(plugin, m) => Some(
                "RPC Connection Error to plugin '"@ + plugin@ + "': "@ + m@,
            ),
            ProxyError::InvalidRequest(m) => Some("Invalid Request: "@ + m@),
            ProxyError::InvalidHeader(m) => Some("Invalid Header: "@ + m@),
            ProxyError::Other(m) => Some("Other Error: "@ + m@),
            ProxyError::Internal(m) => Some("Internal Server Error: "@ + m@),
            ProxyError::FaultTriggeredError(_, m) => Some(m@),
            _ => None,
        }
    }

    /// Prefix of the error body for errors that wrap an outside error, whose
    /// text follows it.
    pub open spec fn spec_message_prefix(&self) -> Seq<char> {
        match self {
            ProxyError::NetworkError(_) => "Network Error: "@,
            ProxyError::HyperError(_) => "Hyper Error: "@,
            ProxyError::IoError(_) => "IO Error: "@,
            ProxyError::GrpcError(_) => "gRPC Error: "@,
            _ => Seq::empty(),
        }
    }

    /// HTTP status code of the response answering this error.
    pub fn status_code(&self) -> (r: u16)
        ensures
            r == self.spec_status_code(),
    {
        match self {
            ProxyError::InvalidConfiguration(_) => 400,
            ProxyError::NetworkError(_) => 502,
            ProxyError::HyperError(_) => 502,
            ProxyError::IoError(_) => 500,
            ProxyError::GrpcError(_) => 502,
            ProxyError::RpcCallError(..) => 400,
            ProxyError::RpcConnectionError(..) => 502,
            ProxyError::InvalidRequest(_) => 400,
            ProxyError::InvalidHeader(_) => 400,
            ProxyError::Other(_) => 500,
            ProxyError::Internal(_) => 500,
            ProxyError::FaultTriggeredError(status, _) => *status,
        }
    }

    /// The `error` field of the JSON body answering this error.
    pub fn error_message(&self) -> (r: String)
        ensures
            match self.spec_message() {
                Some(m) => r@ == m,
                None => r@.len() >= self.spec_message_prefix().len()
                    && r@.take(self.spec_message_prefix().len() as int) == self.spec_message_prefix(),
            },
    {
        match self {
            ProxyError::InvalidConfiguration(m) => {
                let mut s = String::from_str("Invalid Configuration: ");
                s.append(m.as_str());
                s
            },
            ProxyError::NetworkError(e) => {
                let mut s = String::from_str("Network Error: ");
                let t = reqwest_error_text(e);
                s.append(t.as_str());
                s
            },
            ProxyError::HyperError(e) => {
                let mut s = String::from_str("Hyper Error: ");
                let t = hyper_error_text(e);
                s.append(t.as_str());
                s
            },
            ProxyError::IoError(e) => {
                let mut s = String::from_str("IO Error: ");
                let t = io_error_text(e);
                s.append(t.as_str());
                s
            },
            ProxyError::GrpcError(e) => {
                let mut s = String::from_str("gRPC Error: ");
                let t = tonic_status_text(e);
                s.append(t.as_str());
                s
            },
            ProxyError::RpcCallError(plugin, method, m) => {
                let mut s = String::from_str("RPC Call Error in plugin '");
                s.append(plugin.as_str());
                s.append("', method '");
                s.append(method.as_str());
                s.append("': ");
                s.append(m.as_str());
                s
            },
            ProxyError::RpcConnectionError(plugin, m) => {
                let mut s = String::from_str("RPC Connection Error to plugin '");
                s.append(plugin.as_str());
                s.append("': ");
                s.append(m.as_str());
                s
            },
            ProxyError::InvalidRequest(m) => {
                let mut s = String::from_str("Invalid Request: ");
                s.append(m.as_str());
                s
            },
            ProxyError::InvalidHeader(m) => {
                let mut s = String::from_str("Invalid Header: ");
                s.append(m.as_str());
                s
            },
            ProxyError::Other(m) => {
                let mut s = String::from_str("Other Error: ");
                s.append(m.as_str());
                s
            },
            ProxyError::Internal(m) => {
                let mut s = String::from_str("Internal Server Error: ");
                s.append(m.as_str());
                s
            },
            ProxyError::FaultTriggeredError(_, m) => String::from_str(m.as_str()),
        }
    }
}

/// Errors of the proxy's own making answer with a client or server error
/// status; only a fault chooses another status.
pub proof fn lemma_status_classes(e: ProxyError)
    ensures
        !(e is FaultTriggeredError) ==> (e.spec_status_code() == 400 || e.spec_status_code() == 500
            || e.spec_status_code() == 502),
{
}

} // verus!
