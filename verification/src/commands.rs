//! Messages, extractors and the command invocation protocol.
//!
//! A handler is an ordinary function whose parameters each know how to build
//! themselves from the message at hand. Invoking it extracts the parameters
//! in declared order, stops at the first rejection, calls the handler, and
//! folds every failure into `Errors`.

pub mod declare;
pub mod extract;
pub mod handlers;
pub mod router;
pub(crate) mod sealed;
pub mod table;
pub mod value;

use crate::commands::extract::{Extensions, Tagged};
use crate::commands::sealed::HiddenTrait;
use crate::errors::{Errors, ExtensionRejection};
use std::convert::Infallible;
use vstd::prelude::*;

verus! {

/// Conversion of a failure into the invocation error type.
pub trait IntoError {
    /// The text of the error that this value converts to. An implementation
    /// states it here; the default leaves it open.
    open spec fn error_text(&self) -> Seq<char> {
        arbitrary()
    }

    /// Converts this value into the invocation error.
    fn into_error(self) -> (e: Errors)
        ensures
            e.text() == self.error_text(),
    ;
}

impl IntoError for String {
    open spec fn error_text(&self) -> Seq<char> {
        self@
    }

    fn into_error(self) -> (e: Errors) {
        Errors::CustomError(self)
    }
}

impl IntoError for Errors {
    open spec fn error_text(&self) -> Seq<char> {
        self.text()
    }

    fn into_error(self) -> (e: Errors) {
        self
    }
}

impl IntoError for ExtensionRejection {
    open spec fn error_text(&self) -> Seq<char> {
        self.text()
    }

    fn into_error(self) -> (e: Errors) {
        Errors::CustomError(self.message())
    }
}

impl IntoError for Infallible {
    open spec fn error_text(&self) -> Seq<char> {
        Seq::empty()
    }

    fn into_error(self) -> (e: Errors) {
        Errors::CustomError(String::new())
    }
}

/// The component parts of a message.
pub struct Parts<V> {
    /// The message's extensions.
    pub extensions: Extensions<V>,
}

impl<V: Tagged> Parts<V> {
    /// Creates parts with nothing stored.
    pub fn new() -> (parts: Parts<V>)
        ensures
            parts.extensions@ == Map::<u64, V>::empty(),
            parts.extensions.wf(),
    {
        Parts { extensions: Extensions::new() }
    }
}

/// The envelope that carries one incoming message to its handler.
pub struct Message<V> {
    parts: Parts<V>,
}

impl<V> View for Message<V> {
    type V = Map<u64, V>;

    closed spec fn view(&self) -> Map<u64, V> {
        self.parts.extensions@
    }
}

impl<V: Tagged> Message<V> {
    /// Creates a blank message.
    pub fn new() -> (msg: Message<V>)
        ensures
            msg@ == Map::<u64, V>::empty(),
    {
        Message { parts: Parts::new() }
    }

    /// Creates a message from its parts.
    pub fn from_parts(parts: Parts<V>) -> (msg: Message<V>)
        ensures
            msg@ == parts.extensions@,
    {
        Message { parts }
    }

    /// The extensions of this message.
    pub fn extensions(&self) -> (ext: &Extensions<V>)
        ensures
            ext@ == self@,
    {
        &self.parts.extensions
    }

    /// The extensions of this message, for writing. The message holds
    /// afterwards what the caller leaves behind the reference.
    pub fn extensions_mut(&mut self) -> (ext: &mut Extensions<V>)
        ensures
            ext@ == old(self)@,
            final(self)@ == final(ext)@,
    {
        &mut self.parts.extensions
    }

    /// Takes the message apart.
    pub fn into_parts(self) -> (parts: Parts<V>)
        ensures
            parts.extensions@ == self@,
    {
        self.parts
    }
}

impl<V: Tagged> Default for Message<V> {
    fn default() -> (msg: Message<V>)
        ensures
            msg@ == Map::<u64, V>::empty(),
    {
        Message::new()
    }
}

/// What the extractors of one invocation work on.
pub struct MessageParts<V> {
    extensions: Extensions<V>,
}

impl<V> View for MessageParts<V> {
    type V = Map<u64, V>;

    closed spec fn view(&self) -> Map<u64, V> {
        self.extensions@
    }
}

impl<V: Tagged> MessageParts<V> {
    /// Opens a message for extraction.
    pub fn new(msg: Message<V>) -> (parts: MessageParts<V>)
        ensures
            parts@ == msg@,
    {
        let Parts { extensions } = msg.into_parts();
        MessageParts { extensions }
    }

    /// The extensions that are still there to extract from.
    pub fn extensions(&self) -> (ext: &Extensions<V>)
        ensures
            ext@ == self@,
    {
        &self.extensions
    }

    /// The extensions, for writing.
    pub fn extensions_mut(&mut self) -> (ext: &mut Extensions<V>)
        ensures
            ext@ == old(self)@,
            final(self)@ == final(ext)@,
    {
        &mut self.extensions
    }
}

/// A value that can be built from a message.
///
/// Extraction may read the extensions and may take values out of them, so
/// that later extractors of the same invocation no longer see those; it never
/// adds or changes one.
pub trait FromMessage<V: Tagged>: Sized {
    /// What a failed extraction yields.
    type Rejection: IntoError;

    /// Relates the extensions before extraction to those left after it and
    /// to what was extracted. An implementation states the relation here; the
    /// default admits every outcome.
    open spec fn extracts(
        before: Map<u64, V>,
        after: Map<u64, V>,
        r: Result<Self, Self::Rejection>,
    ) -> bool {
        true
    }

    /// Performs the extraction.
    fn from_message(msg: &mut MessageParts<V>) -> (r: Result<Self, Self::Rejection>)
        ensures
            Self::extracts(old(msg)@, final(msg)@, r),
            final(msg)@.submap_of(old(msg)@),
    ;
}

impl<V: Tagged> FromMessage<V> for Parts<V> {
    type Rejection = Infallible;

    /// Takes every extension and leaves none behind.
    open spec fn extracts(
        before: Map<u64, V>,
        after: Map<u64, V>,
        r: Result<Self, Self::Rejection>,
    ) -> bool {
        &&& after == Map::<u64, V>::empty()
        &&& r matches Ok(parts)
        &&& parts.extensions@ == before
    }

    fn from_message(msg: &mut MessageParts<V>) -> (r: Result<Self, Self::Rejection>) {
        let mut extensions = Extensions::new();
        std::mem::swap(&mut extensions, msg.extensions_mut());
        let mut temp_message = Message::new();
        *temp_message.extensions_mut() = extensions;
        let parts = temp_message.into_parts();
        Ok(parts)
    }
}

/// How the outcome `res` of a handler shows in the outcome `r` of its
/// invocation: success stays success, a failure becomes the invocation error
/// with the same text.
pub open spec fn settled<Res: IntoError>(res: Result<(), Res>, r: Result<(), Errors>) -> bool {
    match res {
        Ok(_) => r is Ok,
        Err(failure) => r matches Err(e) && e.text() == failure.error_text(),
    }
}

/// How a rejection shows in the outcome `r` of the invocation: as the
/// invocation error with the same text.
pub open spec fn rejected<R: IntoError>(rejection: R, r: Result<(), Errors>) -> bool {
    r matches Err(e) && e.text() == rejection.error_text()
}

/// A handler that can be invoked on a message. `T` is the tuple of its
/// parameter types.
pub trait Command<V: Tagged, T>: Sized {
    /// Seals the trait: only this crate can name an implementor.
    type Sealed: HiddenTrait;

    /// The handler accepts whatever its extractors yield.
    spec fn ready(&self) -> bool;

    /// Relates the extensions of the message to a possible outcome of the
    /// invocation.
    spec fn outcome(&self, extensions: Map<u64, V>, r: Result<(), Errors>) -> bool;

    /// Calls the handler on the message.
    fn call(self, msg: Message<V>) -> (r: Result<(), Errors>)
        requires
            self.ready(),
        ensures
            self.outcome(msg@, r),
    ;
}

} // verus!
