//! A publisher that runs from a script instead of a radio.
//!
//! Platform publishers decide on their own whether a `start` or `stop`
//! succeeds, so nothing about their outcomes can be promised here. A
//! [`ScriptedPublisher`] is handed its outcomes up front: each call consumes
//! the next scripted native outcome and wraps it exactly as a platform
//! binding would, which makes the capability's pass-through behaviour
//! observable on any machine.

use vstd::prelude::*;

use crate::common::Publisher;
use crate::win::{wrap_outcome, wrapped, PublisherError, WinError};

verus! {

/// A publisher whose native outcomes are given in advance.
///
/// The next outcome of each operation is the last element of its script; a
/// call past the end of the script succeeds.
pub struct ScriptedPublisher {
    start_script: Vec<Result<(), PublisherError>>,
    stop_script: Vec<Result<(), PublisherError>>,
    starts: Ghost<nat>,
    stops: Ghost<nat>,
}

impl ScriptedPublisher {
    /// The native outcomes `start` has not yet handed out, next one last.
    pub closed spec fn start_outcomes(&self) -> Seq<Result<(), PublisherError>> {
        self.start_script@
    }

    /// The native outcomes `stop` has not yet handed out, next one last.
    pub closed spec fn stop_outcomes(&self) -> Seq<Result<(), PublisherError>> {
        self.stop_script@
    }

    pub fn new(
        start_script: Vec<Result<(), PublisherError>>,
        stop_script: Vec<Result<(), PublisherError>>,
    ) -> (p: ScriptedPublisher)
        ensures
            p.starts() == 0,
            p.stops() == 0,
            p.start_outcomes() == start_script@,
            p.stop_outcomes() == stop_script@,
    {
        ScriptedPublisher { start_script, stop_script, starts: Ghost(0nat), stops: Ghost(0nat) }
    }

    /// How many scripted `start` outcomes are still to be handed out.
    pub fn remaining_start_outcomes(&self) -> (n: usize)
        ensures
            n == self.start_outcomes().len(),
    {
        self.start_script.len()
    }

    /// How many scripted `stop` outcomes are still to be handed out.
    pub fn remaining_stop_outcomes(&self) -> (n: usize)
        ensures
            n == self.stop_outcomes().len(),
    {
        self.stop_script.len()
    }
}

impl Publisher for ScriptedPublisher {
    type Error = WinError;

    closed spec fn starts(&self) -> nat {
        self.starts@
    }

    closed spec fn stops(&self) -> nat {
        self.stops@
    }

    /// One `start` call consumes the next scripted outcome and passes it
    /// through: a native success returns success, a native error comes back
    /// wrapped and unchanged, and a call past the script succeeds.
    open spec fn start_ensures(pre: Self, post: Self, r: Result<(), WinError>) -> bool {
        &&& post.stop_outcomes() == pre.stop_outcomes()
        &&& pre.start_outcomes().len() == 0 ==> post.start_outcomes() == pre.start_outcomes()
            && r is Ok
        &&& pre.start_outcomes().len() > 0 ==> post.start_outcomes()
            == pre.start_outcomes().drop_last() && r == wrapped(pre.start_outcomes().last())
    }

    /// One `stop` call consumes the next scripted outcome and passes it
    /// through, the same way `start` does.
    open spec fn stop_ensures(pre: Self, post: Self, r: Result<(), WinError>) -> bool {
        &&& post.start_outcomes() == pre.start_outcomes()
        &&& pre.stop_outcomes().len() == 0 ==> post.stop_outcomes() == pre.stop_outcomes()
            && r is Ok
        &&& pre.stop_outcomes().len() > 0 ==> post.stop_outcomes()
            == pre.stop_outcomes().drop_last() && r == wrapped(pre.stop_outcomes().last())
    }

    fn start(&mut self) -> (r: Result<(), WinError>) {
        self.starts = Ghost(self.starts@ + 1);
        let native: Result<(), PublisherError> = match self.start_script.pop() {
            Some(outcome) => outcome,
            None => Ok(()),
        };
        wrap_outcome(native)
    }

    fn stop(&mut self) -> (r: Result<(), WinError>) {
        self.stops = Ghost(self.stops@ + 1);
        let native: Result<(), PublisherError> = match self.stop_script.pop() {
            Some(outcome) => outcome,
            None => Ok(()),
        };
        wrap_outcome(native)
    }
}

} // verus!
