//! The one error type that configuration, client construction and export
//! report through.

use vstd::prelude::*;

verus! {

/// `std::io::Error`, carried through unread.
#[verifier::external_type_specification]
#[verifier::external_body]
pub struct ExIoError(std::io::Error);

/// `tonic::Status`, the status a gRPC call ended with, carried through unread.
#[verifier::external_type_specification]
#[verifier::external_body]
pub struct ExStatus(tonic::Status);

/// `reqwest::Error`, the failure of an HTTP call, carried through unread.
#[verifier::external_type_specification]
#[verifier::external_body]
pub struct ExReqwestError(reqwest::Error);

/// What can go wrong in this library.
#[derive(Debug)]
pub enum OtlpExporterError {
    /// The configuration cannot be used: an endpoint that is no URI, a header
    /// that cannot go on the wire, a client asked for a protocol or backend
    /// that the configuration did not resolve to.
    ConfigError(String),
    /// A file of TLS material could not be read.
    StdIoError(std::io::Error),
    /// A gRPC call ended with a status other than success, kept as it came.
    TonicError(tonic::Status),
    /// An HTTP call failed, kept as it came.
    ReqwestError(reqwest::Error),
    /// Something that should never happen did.
    UnknownError(String),
    /// The operation is deliberately not offered.
    Unsupported(String),
}

/// A result whose error is [`OtlpExporterError`].
pub type OtlpExporterResult<T> = Result<T, OtlpExporterError>;

/// The name under which this exporter reports its errors.
pub const EXPORTER_NAME: &'static str = "otlp-exporter";

impl OtlpExporterError {
    /// The name of the exporter that an error comes from.
    pub fn exporter_name(&self) -> (name: &'static str)
        ensures
            name@ == EXPORTER_NAME@,
    {
        EXPORTER_NAME
    }
}

} // verus!
