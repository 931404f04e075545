//! The abstract capability (the "port") and the consumer that depends on it.

use vstd::prelude::*;

verus! {

/// The port: an abstract capability with a single operation.
///
/// An implementing adapter holds a single flag, reported by `done`. Invoking
/// the capability sets the flag and returns its new value, so a call always
/// succeeds and always returns `true`. The capability cannot fail by design.
/// `variant_message` is the fixed diagnostic line that identifies the variant;
/// it is the only observable difference between adapters.
pub trait Port: Sized {
    /// Whether this instance has performed its action.
    spec fn done(&self) -> bool;

    /// The diagnostic line identifying this variant.
    spec fn variant_message(&self) -> Seq<char>;

    /// Perform the action: set the flag and return its new value.
    fn do_something(&mut self) -> (r: bool)
        ensures
            final(self).done(),
            r == final(self).done(),
    ;

    /// The diagnostic line identifying this variant, for the log sink.
    fn message(&self) -> (r: &'static str)
        ensures
            r@ == self.variant_message(),
    ;
}

/// The consumer: generic logic that operates only through the capability.
///
/// It must not depend on which concrete variant it receives: for every
/// implementing adapter it invokes the capability once, leaves the instance
/// done, and returns `true`.
pub fn consume_the_port<P: Port>(p: &mut P) -> (r: bool)
    ensures
        final(p).done(),
        r == final(p).done(),
        r == true,
{
    p.do_something()
}

/// Idempotence: invoking the capability twice in succession on the same
/// instance yields `true` both times and leaves the instance done.
pub fn invoke_twice<P: Port>(p: &mut P) -> (r: (bool, bool))
    ensures
        r.0 == true,
        r.1 == true,
        final(p).done(),
{
    let first = p.do_something();
    let second = p.do_something();
    (first, second)
}

} // verus!
