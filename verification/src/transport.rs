//! The contract the serialization, signing, transmission and
//! deserialization collaborators plug in with, and a simple in-memory
//! implementation of it.
//!
//! How these steps work is out of scope for the pipeline; the driver only
//! relies on the models stated here.
use vstd::prelude::*;

use crate::payload::OperationError;
use crate::payload::Payload;
use crate::payload::Response;

verus! {

/// Marker data word a failed transmit leaves in the transport response of
/// an [`EchoTransport`].
pub const FAILED_ATTEMPT_MARKER: u64 = 0xffff_ffff_ffff_ffff;

/// The serialization / signing / transmission / deserialization
/// collaborators of one execution. Each exec method is pinned to its pure
/// model; `transmit` takes the attempt number, so an implementation may
/// answer each attempt differently.
pub trait Transport: Sized {
    /// Model of serialization: the transport request marshalled from a
    /// modeled request.
    spec fn serialize_model(&self, req: Payload) -> Payload;

    /// Model of signing: the signed transport request.
    spec fn sign_model(&self, req: Payload) -> Payload;

    /// Model of one transmit: the transport response attempt `attempt`
    /// receives for `req`.
    spec fn transmit_model(&self, attempt: u64, req: Payload) -> Payload;

    /// Model of deserialization: the operation outcome unmarshalled from a
    /// transport response.
    spec fn deserialize_model(&self, res: Payload) -> Response;

    /// Marshals the modeled request into a transport request.
    fn serialize(&self, req: &Payload) -> (r: Payload)
        ensures
            r == self.serialize_model(*req),
    ;

    /// Signs the transport request.
    fn sign(&self, req: &Payload) -> (r: Payload)
        ensures
            r == self.sign_model(*req),
    ;

    /// Sends the transport request and receives a transport response.
    fn transmit(&self, attempt: u64, req: &Payload) -> (r: Payload)
        ensures
            r == self.transmit_model(attempt, *req),
    ;

    /// Unmarshals the transport response into the operation outcome.
    fn deserialize(&self, res: &Payload) -> (r: Response)
        ensures
            r == self.deserialize_model(*res),
    ;
}

/// An in-memory transport. Serialization carries the request's data word
/// over unchanged; signing leaves the request as it is; a transmit echoes
/// the request's data word back from attempt `succeed_from` on and leaves
/// [`FAILED_ATTEMPT_MARKER`] on the attempts before it; deserialization
/// turns the marker into an operation failure and anything else into an
/// output.
#[derive(Clone, Copy, PartialEq, Eq, Structural, Debug)]
pub struct EchoTransport {
    /// Type tag of the transport requests it builds.
    pub tx_tag: u64,
    /// Type tag of the transport responses it receives.
    pub response_tag: u64,
    /// Type tag of the operation outputs it unmarshals.
    pub output_tag: u64,
    /// Type tag of the error a failed attempt unmarshals to.
    pub error_tag: u64,
    /// First attempt number the service answers successfully.
    pub succeed_from: u64,
}

impl Transport for EchoTransport {
    open spec fn serialize_model(&self, req: Payload) -> Payload {
        Payload { tag: self.tx_tag, data: req.data }
    }

    open spec fn sign_model(&self, req: Payload) -> Payload {
        req
    }

    open spec fn transmit_model(&self, attempt: u64, req: Payload) -> Payload {
        Payload {
            tag: self.response_tag,
            data: if attempt >= self.succeed_from {
                req.data
            } else {
                FAILED_ATTEMPT_MARKER
            },
        }
    }

    open spec fn deserialize_model(&self, res: Payload) -> Response {
        if res.data == FAILED_ATTEMPT_MARKER {
            Response::Failure(
                OperationError::Operation { error: Payload { tag: self.error_tag, data: 0 } },
            )
        } else {
            Response::Output(Payload { tag: self.output_tag, data: res.data })
        }
    }

    fn serialize(&self, req: &Payload) -> (r: Payload) {
        Payload { tag: self.tx_tag, data: req.data }
    }

    fn sign(&self, req: &Payload) -> (r: Payload) {
        *req
    }

    fn transmit(&self, attempt: u64, req: &Payload) -> (r: Payload) {
        Payload {
            tag: self.response_tag,
            data: if attempt >= self.succeed_from {
                req.data
            } else {
                FAILED_ATTEMPT_MARKER
            },
        }
    }

    fn deserialize(&self, res: &Payload) -> (r: Response) {
        if res.data == FAILED_ATTEMPT_MARKER {
            Response::Failure(
                OperationError::Operation { error: Payload { tag: self.error_tag, data: 0 } },
            )
        } else {
            Response::Output(Payload { tag: self.output_tag, data: res.data })
        }
    }
}

} // verus!
