//! The request/reply discipline of one channel to the viewer.
//!
//! The channel itself is someone else's socket. What lives here is the
//! bookkeeping that keeps its exchanges in lock step: a command claims the
//! channel, and the channel stays claimed until the acknowledgement has been
//! consumed or it is known that no request went out. Nothing else is let
//! through in between.

use vstd::prelude::*;
use vstd::utf8::encode_utf8;
use crate::command::{DeleteData, PropertyType, SetObjectData, SetPropertyData, SetTransformData};
use crate::error::Error;
use crate::linear::Pose;
use crate::scene::LumpedObject;

verus! {

/// How an exchange ended.
#[derive(Clone, Debug)]
pub enum Outcome {
    /// The viewer answered with this text.
    Acknowledged(String),
    /// The payload could not be encoded; nothing was sent.
    EncodingFailed,
    /// The request could not be sent; nothing went out.
    SendFailed,
    /// The request went out and no acknowledgement could be received: it is
    /// still outstanding.
    ReceiveFailed,
    /// The viewer answered, but not with text. The acknowledgement is
    /// consumed all the same.
    Unreadable,
}

/// Frames a request: exactly three parts, in the order in which they are
/// sent. The first two are the UTF-8 bytes of the request's kind and of the
/// node's path, the third is the encoded payload as it is.
pub fn frame(request_type: &str, path: &str, payload: Vec<u8>) -> (parts: Vec<Vec<u8>>)
    ensures
        parts@.len() == 3,
        parts@[0]@ == encode_utf8(request_type@),
        parts@[1]@ == encode_utf8(path@),
        parts@[2]@ == payload@,
{
    let mut parts: Vec<Vec<u8>> = Vec::new();
    parts.push(request_type.as_bytes_vec());
    parts.push(path.as_bytes_vec());
    parts.push(payload);
    parts
}

/// One channel to a viewer at a fixed endpoint, and whether an exchange is
/// under way on it.
#[derive(Debug)]
pub struct Meshcat {
    endpoint: String,
    busy: bool,
}

impl Meshcat {
    /// The endpoint that the channel was made for.
    pub closed spec fn endpoint(&self) -> Seq<char> {
        self.endpoint@
    }

    /// Whether the channel is claimed: a command was let through, and
    /// neither has its acknowledgement been consumed nor is it known that no
    /// request went out.
    pub closed spec fn busy(&self) -> bool {
        self.busy
    }

    /// Whether a step from `self` to `next` is a command let through: the
    /// channel was free, is busy now, and is still the same channel.
    pub open spec fn claimed_by(self, next: Meshcat) -> bool {
        !self.busy() && next.busy() && next.endpoint() == self.endpoint()
    }

    /// Whether an outcome leaves an acknowledgement outstanding: the request
    /// went out and nothing came back for it. Every other outcome either
    /// consumed the acknowledgement or sent no request.
    pub open spec fn leaves_outstanding(outcome: Outcome) -> bool {
        outcome is ReceiveFailed
    }

    /// Whether a step from `self` to `next` is what `outcome` does to a
    /// claimed channel: it is still the same channel, and it is free again
    /// unless the outcome leaves an acknowledgement outstanding.
    pub open spec fn concluded_by(self, outcome: Outcome, next: Meshcat) -> bool {
        &&& self.busy()
        &&& next.endpoint() == self.endpoint()
        &&& next.busy() == Meshcat::leaves_outstanding(outcome)
    }

    /// What the caller gets for an outcome: the viewer's text, or the
    /// failure that goes with the step that failed.
    pub open spec fn verdict(outcome: Outcome) -> Result<String, Error> {
        match outcome {
            Outcome::Acknowledged(text) => Ok(text),
            Outcome::EncodingFailed => Err(Error::EncodingFailure),
            Outcome::SendFailed => Err(Error::TransportFailure),
            Outcome::ReceiveFailed => Err(Error::TransportFailure),
            Outcome::Unreadable => Err(Error::TransportFailure),
        }
    }

    /// A channel for `endpoint`, with no exchange under way.
    pub fn new(endpoint: &str) -> (channel: Meshcat)
        ensures
            channel.endpoint() == endpoint@,
            !channel.busy(),
    {
        Meshcat { endpoint: endpoint.to_owned(), busy: false }
    }

    /// The endpoint that the channel was made for.
    pub fn endpoint_text(&self) -> (text: &str)
        ensures
            text@ == self.endpoint(),
    {
        self.endpoint.as_str()
    }

    /// Whether the channel is claimed.
    pub fn is_busy(&self) -> (b: bool)
        ensures
            b == self.busy(),
    {
        self.busy
    }

    /// Claims the channel for one exchange. While an exchange is under way
    /// the claim is refused and the channel stays as it is.
    fn claim(&mut self) -> (r: Result<(), Error>)
        ensures
            old(self).busy() ==> r == Err::<(), Error>(Error::OutOfTurn) && *final(self) == *old(self),
            !old(self).busy() ==> r == Ok::<(), Error>(()) && old(self).claimed_by(*final(self)),
    {
        if self.busy {
            Err(Error::OutOfTurn)
        } else {
            self.busy = true;
            Ok(())
        }
    }

    /// Starts a "set object" exchange and gives the command to send. While
    /// an exchange is under way the command is refused and the channel stays
    /// as it is.
    pub fn set_object(&mut self, path: &str, object: LumpedObject) -> (r: Result<
        SetObjectData,
        Error,
    >)
        ensures
            old(self).busy() ==> r == Err::<SetObjectData, Error>(Error::OutOfTurn) && *final(self) == *old(self),
            !old(self).busy() ==> old(self).claimed_by(*final(self)) && (r matches Ok(data)
                && data.object == object && data.path@ == path@ && data.request_type@
                == "set_object"@),
    {
        match self.claim() {
            Err(e) => Err(e),
            Ok(_) => Ok(SetObjectData::new(object, path)),
        }
    }

    /// Starts a "set transform" exchange and gives the command to send.
    /// While an exchange is under way the command is refused and the channel
    /// stays as it is.
    pub fn set_transform(&mut self, path: &str, matrix: Pose) -> (r: Result<
        SetTransformData,
        Error,
    >)
        ensures
            old(self).busy() ==> r == Err::<SetTransformData, Error>(Error::OutOfTurn) && *final(self) == *old(self),
            !old(self).busy() ==> old(self).claimed_by(*final(self)) && (r matches Ok(data)
                && data.matrix == matrix && data.path@ == path@ && data.request_type@
                == "set_transform"@),
    {
        match self.claim() {
            Err(e) => Err(e),
            Ok(_) => Ok(SetTransformData::new(matrix, path)),
        }
    }

    /// Starts a "set property" exchange and gives the command to send.
    /// While an exchange is under way the command is refused and the channel
    /// stays as it is.
    pub fn set_property(&mut self, path: &str, property: PropertyType) -> (r: Result<
        SetPropertyData,
        Error,
    >)
        ensures
            old(self).busy() ==> r == Err::<SetPropertyData, Error>(Error::OutOfTurn) && *final(self) == *old(self),
            !old(self).busy() ==> old(self).claimed_by(*final(self)) && (r matches Ok(data)
                && data.path@ == path@ && data.request_type@ == "set_property"@ && data.property@
                == property.name() && data.value == property),
    {
        match self.claim() {
            Err(e) => Err(e),
            Ok(_) => Ok(SetPropertyData::new(path, property)),
        }
    }

    /// Starts a "delete" exchange and gives the command to send. While an
    /// exchange is under way the command is refused and the channel stays as
    /// it is.
    pub fn delete(&mut self, path: &str) -> (r: Result<DeleteData, Error>)
        ensures
            old(self).busy() ==> r == Err::<DeleteData, Error>(Error::OutOfTurn) && *final(self)
                == *old(self),
            !old(self).busy() ==> old(self).claimed_by(*final(self)) && (r matches Ok(data)
                && data.path@ == path@ && data.request_type@ == "delete"@),
    {
        match self.claim() {
            Err(e) => Err(e),
            Ok(_) => Ok(DeleteData::new(path)),
        }
    }

    /// Takes the outcome of the exchange under way and gives the caller the
    /// viewer's text or the failure. The channel is free again afterwards,
    /// with one exception: after a receive that failed the acknowledgement is
    /// still outstanding, so the channel stays claimed and every command is
    /// refused until a later outcome of the same exchange is taken. With no
    /// exchange under way there is nothing to conclude: the outcome is
    /// refused and the channel stays as it is.
    pub fn conclude(&mut self, outcome: Outcome) -> (r: Result<String, Error>)
        ensures
            !old(self).busy() ==> r == Err::<String, Error>(Error::OutOfTurn) && *final(self)
                == *old(self),
            old(self).busy() ==> r == Meshcat::verdict(outcome) && old(self).concluded_by(
                outcome,
                *final(self),
            ),
    {
        if !self.busy {
            return Err(Error::OutOfTurn);
        }
        match outcome {
            Outcome::Acknowledged(text) => {
                self.busy = false;
                Ok(text)
            },
            Outcome::EncodingFailed => {
                self.busy = false;
                Err(Error::EncodingFailure)
            },
            Outcome::SendFailed => {
                self.busy = false;
                Err(Error::TransportFailure)
            },
            Outcome::ReceiveFailed => Err(Error::TransportFailure),
            Outcome::Unreadable => {
                self.busy = false;
                Err(Error::TransportFailure)
            },
        }
    }

    /// Exchanges go in lock step. Once a command has been let through, no
    /// step from there is a second command let through. That still holds
    /// after a receive that failed: the acknowledgement was not consumed, so
    /// the channel is as claimed as before. After any other outcome the
    /// channel is free, and the next command is let through.
    pub proof fn lemma_lock_step(
        self,
        claimed: Meshcat,
        outcome: Outcome,
        concluded: Meshcat,
        next: Meshcat,
    )
        requires
            self.claimed_by(claimed),
            claimed.concluded_by(outcome, concluded),
        ensures
            !claimed.claimed_by(next),
            outcome is ReceiveFailed ==> concluded.busy() && !concluded.claimed_by(next),
            !(outcome is ReceiveFailed) ==> !concluded.busy(),
            concluded.endpoint() == self.endpoint(),
    {
    }
}

} // verus!
