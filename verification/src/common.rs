//! The publisher capability and the node that owns one.

use vstd::prelude::*;

verus! {

/// Placeholder for a connection socket; an empty marker with no behaviour.
pub struct Socket;

/// The capability an advertisement publisher offers: `start` and `stop`,
/// each reporting failure with the implementation's own error type.
///
/// The spec functions `starts` and `stops` count how many times each
/// operation has been invoked on the publisher, so that a caller's contract
/// can say how many calls it makes. Each call hands back the outcome of one
/// underlying operation; whether it succeeds is the implementation's affair.
pub trait Publisher: Sized {
    type Error;

    /// How many `start` calls have been made on this publisher.
    spec fn starts(&self) -> nat;

    /// How many `stop` calls have been made on this publisher.
    spec fn stops(&self) -> nat;

    /// What one `start` call promises of the publisher's new state and of
    /// its outcome, beyond the call counts.
    spec fn start_ensures(pre: Self, post: Self, r: Result<(), Self::Error>) -> bool;

    /// What one `stop` call promises, beyond the call counts.
    spec fn stop_ensures(pre: Self, post: Self, r: Result<(), Self::Error>) -> bool;

    fn start(&mut self) -> (r: Result<(), Self::Error>)
        ensures
            final(self).starts() == old(self).starts() + 1,
            final(self).stops() == old(self).stops(),
            Self::start_ensures(*old(self), *final(self), r),
    ;

    fn stop(&mut self) -> (r: Result<(), Self::Error>)
        ensures
            final(self).stops() == old(self).stops() + 1,
            final(self).starts() == old(self).starts(),
            Self::stop_ensures(*old(self), *final(self), r),
    ;
}

/// A node owns one publisher and, possibly, a socket.
pub struct Node<P: Publisher> {
    publisher: P,
    socket: Option<Socket>,
}

impl<P: Publisher> Node<P> {
    /// The publisher this node owns.
    pub closed spec fn publisher(&self) -> P {
        self.publisher
    }

    /// The socket this node owns, if any.
    pub closed spec fn socket(&self) -> Option<Socket> {
        self.socket
    }

    pub fn new(publisher: P, socket: Option<Socket>) -> (n: Node<P>)
        ensures
            n.publisher() == publisher,
            n.socket() == socket,
    {
        Node { publisher, socket }
    }

    /// Starts the node's publisher: exactly one `start` call is made on it,
    /// no `stop` call, its outcome is handed back unchanged, and the socket
    /// is left alone.
    #[inline(always)]
    pub fn start(&mut self) -> (r: Result<(), P::Error>)
        ensures
            final(self).publisher().starts() == old(self).publisher().starts() + 1,
            final(self).publisher().stops() == old(self).publisher().stops(),
            P::start_ensures(old(self).publisher(), final(self).publisher(), r),
            final(self).socket() == old(self).socket(),
    {
        self.publisher.start()
    }

    /// Borrows the node's publisher.
    pub fn publisher_ref(&self) -> (p: &P)
        ensures
            *p == self.publisher(),
    {
        &self.publisher
    }

    /// Borrows the node's socket, if any.
    pub fn socket_ref(&self) -> (s: &Option<Socket>)
        ensures
            *s == self.socket(),
    {
        &self.socket
    }
}

} // verus!
