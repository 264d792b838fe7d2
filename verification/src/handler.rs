//! Handlers: the user-supplied units of behaviour a dispatcher invokes.
//!
//! A handler declares a fixed parameter list and is invoked with exactly the
//! values extraction produced for it.  So that invocation has a footprint
//! contracts can speak about, a handler also keeps an account of the
//! argument lists it has received, oldest first; [`RecordingHandler`] is the
//! library's own such handler, which does nothing but keep that account.

use vstd::prelude::*;

use crate::value::ParamTy;
use crate::value::Value;
use crate::value::ValueView;
use crate::value::value_has_type;
use crate::value::value_views;

verus! {

/// Do the received arguments fit the declared parameter list, position by
/// position?
pub open spec fn args_match(sig: Seq<ParamTy>, args: Seq<ValueView>) -> bool {
    &&& args.len() == sig.len()
    &&& forall|i: int| 0 <= i < sig.len() ==> value_has_type(#[trigger] args[i], sig[i])
}

/// A unit of user-supplied behaviour with a declared, fixed parameter list.
/// Implementations answer for two things: the parameter types they declare
/// (`sig`), and a faithful account of the argument lists they have been
/// invoked with (`observed`).
pub trait Handler: Sized {
    /// The parameter types this handler declares; fixed for its lifetime.
    spec fn sig(&self) -> Seq<ParamTy>;

    /// The argument lists this handler has been invoked with, oldest first.
    spec fn observed(&self) -> Seq<Seq<ValueView>>;

    /// Hands out the declared parameter list, so a service unit knows what
    /// to extract.
    fn signature(&self) -> (r: Vec<ParamTy>)
        ensures
            r@ == self.sig(),
    ;

    /// Invokes the handler on one extracted argument list.  The arguments
    /// must fit the declared parameter list; the invocation is appended to
    /// the handler's account and leaves its declared parameters unchanged.
    fn call(&mut self, args: Vec<Value>)
        requires
            args_match(old(self).sig(), value_views(args@)),
        ensures
            final(self).sig() == old(self).sig(),
            final(self).observed() == old(self).observed().push(value_views(args@)),
    ;
}

/// A handler that does nothing but record the argument lists it receives.
/// It stands in for arbitrary user behaviour wherever a dispatch pass has to
/// be observed, the way a mock would in a hand-written test.
#[derive(Debug)]
pub struct RecordingHandler {
    sig: Vec<ParamTy>,
    log: Vec<Vec<Value>>,
}

impl RecordingHandler {
    /// A recording handler that declares the parameter list `sig` and has
    /// seen no invocation yet.
    pub fn new(sig: Vec<ParamTy>) -> (r: RecordingHandler)
        ensures
            r.sig() == sig@,
            r.observed() == Seq::<Seq<ValueView>>::empty(),
    {
        let r = RecordingHandler { sig, log: Vec::new() };
        proof {
            assert(r.observed() =~= Seq::<Seq<ValueView>>::empty());
        }
        r
    }

    /// How many times this handler has been invoked.
    pub fn call_count(&self) -> (n: usize)
        ensures
            n == self.observed().len(),
    {
        self.log.len()
    }

    /// The arguments of the `i`-th invocation, oldest first.
    pub fn call_at(&self, i: usize) -> (args: &Vec<Value>)
        requires
            i < self.observed().len(),
        ensures
            value_views(args@) == self.observed()[i as int],
    {
        &self.log[i]
    }
}

impl Handler for RecordingHandler {
    closed spec fn sig(&self) -> Seq<ParamTy> {
        self.sig@
    }

    closed spec fn observed(&self) -> Seq<Seq<ValueView>> {
        self.log@.map_values(|v: Vec<Value>| value_views(v@))
    }

    fn signature(&self) -> (r: Vec<ParamTy>) {
        let mut r: Vec<ParamTy> = Vec::new();
        let n = self.sig.len();
        let mut i: usize = 0;
        while i < n
            invariant
                i <= n,
                n == self.sig@.len(),
                r@.len() == i,
                forall|j: int| 0 <= j < i ==> r@[j] == self.sig@[j],
            decreases n - i,
        {
            r.push(self.sig[i]);
            i += 1;
        }
        proof {
            assert(r@ =~= self.sig@);
        }
        r
    }

    fn call(&mut self, args: Vec<Value>) {
        self.log.push(args);
        proof {
            assert(self.observed() =~= old(self).observed().push(value_views(args@)));
        }
    }
}

} // verus!
