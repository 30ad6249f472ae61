//! A connection's stream together with the bytes read from it, in plain or
//! secure mode.

use vstd::prelude::*;

use core::marker::PhantomData;

use crate::frame::{next_frame, skip_pokes, MessageReader};

verus! {

/// A stream with its buffered incoming bytes. `IN` and `OUT` are the message
/// types received and sent over it.
pub struct Transport<S, IN, OUT> {
    stream: S,
    reader: MessageReader,
    incoming: PhantomData<IN>,
    outgoing: PhantomData<OUT>,
}

impl<S, IN, OUT> Transport<S, IN, OUT> {
    /// The stream.
    pub closed spec fn stream(&self) -> S {
        self.stream
    }

    /// The bytes read from the stream and not yet taken as frames.
    pub closed spec fn pending(&self) -> Seq<u8> {
        self.reader@
    }

    /// A transport over `stream` with nothing buffered.
    pub fn new(stream: S) -> (r: Transport<S, IN, OUT>)
        ensures
            r.stream() == stream,
            r.pending() == Seq::<u8>::empty(),
    {
        Transport { stream, reader: MessageReader::new(), incoming: PhantomData, outgoing: PhantomData }
    }

    /// The stream, to read from or write to.
    pub fn stream_mut(&mut self) -> (r: &mut S)
        ensures
            *r == old(self).stream(),
            final(self).stream() == *final(r),
            final(self).pending() == old(self).pending(),
    {
        &mut self.stream
    }

    /// Number of bytes buffered.
    pub fn pending_len(&self) -> (r: usize)
        ensures
            r == self.pending().len(),
    {
        self.reader.len()
    }

    /// Buffers bytes that arrived from the stream.
    pub fn receive(&mut self, data: &[u8])
        requires
            old(self).pending().len() + data@.len() <= isize::MAX,
        ensures
            final(self).stream() == old(self).stream(),
            final(self).pending() == old(self).pending() + data@,
    {
        self.reader.receive(data);
    }

    /// Takes the payload of the next complete non-empty frame, if any.
    pub fn next_frame(&mut self) -> (r: Option<Vec<u8>>)
        ensures
            final(self).stream() == old(self).stream(),
            next_frame(old(self).pending()) is None ==> r is None && final(self).pending()
                == skip_pokes(old(self).pending()),
            next_frame(old(self).pending()) is Some ==> r is Some && r->Some_0@ == next_frame(
                old(self).pending(),
            )->Some_0.0 && final(self).pending() == next_frame(old(self).pending())->Some_0.1,
    {
        self.reader.next_frame()
    }
}

/// A transport operation was asked of the wrong mode.
#[derive(Clone, Copy, Debug, PartialEq, Eq, Structural)]
pub enum ModeError {
    /// The transport was expected to be plain text, but was secure.
    ExpectedPlain,
    /// The transport was expected to be secure, but was plain text.
    ExpectedSecure,
}

/// A connection in exactly one of two modes: plain text, or secured after an
/// upgrade. Upgrading consumes the plain transport.
pub enum Transporter<PS, SS, IN, OUT> {
    Plain(Transport<PS, IN, OUT>),
    Secure(Transport<SS, IN, OUT>),
}

/// The buffered bytes of a plain transport whose stream is being secured.
pub struct Upgrading<IN, OUT> {
    reader: MessageReader,
    incoming: PhantomData<IN>,
    outgoing: PhantomData<OUT>,
}

impl<IN, OUT> Upgrading<IN, OUT> {
    /// The bytes carried over from the plain transport.
    pub closed spec fn pending(&self) -> Seq<u8> {
        self.reader@
    }

    /// The secure transport over the upgraded stream, with the bytes carried
    /// over.
    pub fn finish<PS, SS>(self, stream: SS) -> (r: Transporter<PS, SS, IN, OUT>)
        ensures
            r is Secure,
            r->Secure_0.stream() == stream,
            r->Secure_0.pending() == self.pending(),
    {
        Transporter::Secure(
            Transport {
                stream,
                reader: self.reader,
                incoming: PhantomData,
                outgoing: PhantomData,
            },
        )
    }
}

impl<PS, SS, IN, OUT> Transporter<PS, SS, IN, OUT> {
    /// The bytes buffered in whichever mode is current.
    pub open spec fn pending(&self) -> Seq<u8> {
        match self {
            Transporter::Plain(t) => t.pending(),
            Transporter::Secure(t) => t.pending(),
        }
    }

    /// Whether the transport is still plain text.
    pub fn is_plain(&self) -> (r: bool)
        ensures
            r == (self is Plain),
    {
        match self {
            Transporter::Plain(_) => true,
            Transporter::Secure(_) => false,
        }
    }

    /// The plain transport, or an error once secured.
    pub fn plain(&mut self) -> (r: Result<&mut Transport<PS, IN, OUT>, ModeError>)
        ensures
            *old(self) is Plain <==> r is Ok,
            *old(self) is Plain ==> *r->Ok_0 == old(self)->Plain_0 && *final(self)
                == Transporter::<PS, SS, IN, OUT>::Plain(*final(r->Ok_0)),
            *old(self) is Secure ==> r == Err::<&mut Transport<PS, IN, OUT>, ModeError>(
                ModeError::ExpectedPlain,
            ) && *final(self) == *old(self),
    {
        match self {
            Transporter::Plain(t) => Ok(t),
            Transporter::Secure(_) => Err(ModeError::ExpectedPlain),
        }
    }

    /// The secure transport, or an error while still plain text.
    pub fn secure(&mut self) -> (r: Result<&mut Transport<SS, IN, OUT>, ModeError>)
        ensures
            *old(self) is Secure <==> r is Ok,
            *old(self) is Secure ==> *r->Ok_0 == old(self)->Secure_0 && *final(self)
                == Transporter::<PS, SS, IN, OUT>::Secure(*final(r->Ok_0)),
            *old(self) is Plain ==> r == Err::<&mut Transport<SS, IN, OUT>, ModeError>(
                ModeError::ExpectedSecure,
            ) && *final(self) == *old(self),
    {
        match self {
            Transporter::Secure(t) => Ok(t),
            Transporter::Plain(_) => Err(ModeError::ExpectedSecure),
        }
    }

    /// Starts an upgrade: hands out the plain stream, to be secured by the
    /// caller, and keeps its buffered bytes for the secure transport. A secure
    /// transport cannot be upgraded again.
    pub fn upgrade(self) -> (r: Result<(PS, Upgrading<IN, OUT>), ModeError>)
        ensures
            self is Plain <==> r is Ok,
            self is Plain ==> r->Ok_0.0 == self->Plain_0.stream() && r->Ok_0.1.pending()
                == self->Plain_0.pending(),
            self is Secure ==> r == Err::<(PS, Upgrading<IN, OUT>), ModeError>(
                ModeError::ExpectedPlain,
            ),
    {
        match self {
            Transporter::Plain(t) => {
                let Transport { stream, reader, incoming, outgoing } = t;
                Ok((stream, Upgrading { reader, incoming, outgoing }))
            },
            Transporter::Secure(_) => Err(ModeError::ExpectedPlain),
        }
    }

    /// Number of bytes buffered, in whichever mode is current.
    pub fn pending_len(&self) -> (r: usize)
        ensures
            r == self.pending().len(),
    {
        match self {
            Transporter::Plain(t) => t.pending_len(),
            Transporter::Secure(t) => t.pending_len(),
        }
    }

    /// Buffers bytes that arrived, in whichever mode is current.
    pub fn receive(&mut self, data: &[u8])
        requires
            old(self).pending().len() + data@.len() <= isize::MAX,
        ensures
            *final(self) is Plain == *old(self) is Plain,
            final(self).pending() == old(self).pending() + data@,
    {
        match self {
            Transporter::Plain(t) => t.receive(data),
            Transporter::Secure(t) => t.receive(data),
        }
    }

    /// Takes the payload of the next complete non-empty frame, in whichever
    /// mode is current.
    pub fn next_frame(&mut self) -> (r: Option<Vec<u8>>)
        ensures
            *final(self) is Plain == *old(self) is Plain,
            next_frame(old(self).pending()) is None ==> r is None && final(self).pending()
                == skip_pokes(old(self).pending()),
            next_frame(old(self).pending()) is Some ==> r is Some && r->Some_0@ == next_frame(
                old(self).pending(),
            )->Some_0.0 && final(self).pending() == next_frame(old(self).pending())->Some_0.1,
    {
        match self {
            Transporter::Plain(t) => t.next_frame(),
            Transporter::Secure(t) => t.next_frame(),
        }
    }
}

} // verus!
