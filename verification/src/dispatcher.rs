//! The service unit and the dispatcher that drives a dispatch pass.

use vstd::prelude::*;

use crate::extract::all_positions_ok;
use crate::extract::extract_params;
use crate::extract::extracted;
use crate::extract::lemma_extract_one_typed;
use crate::handler::Handler;
use crate::handler::args_match;
use crate::request::Request;
use crate::value::value_views;

verus! {

/// How one service unit's handler steps across a dispatch pass against the
/// payload `req`: its declared parameters stay what they were; if every
/// position of them extracts, the handler is invoked once with exactly the
/// extracted tuple, and otherwise it is left untouched.
pub open spec fn unit_effect<H: Handler>(pre: H, post: H, req: Seq<char>) -> bool {
    &&& post.sig() == pre.sig()
    &&& if all_positions_ok(pre.sig(), req) {
        post.observed() == pre.observed().push(extracted(pre.sig(), req))
    } else {
        post.observed() == pre.observed()
    }
}

/// A service unit: one handler, owned together with the knowledge of how to
/// extract its parameter tuple from a request.  Immutable after
/// construction but for the handler's own account of its invocations.
#[derive(Debug)]
pub struct ServiceWrapper<H: Handler> {
    f: H,
}

impl<H: Handler> ServiceWrapper<H> {
    /// The handler this unit owns.
    pub closed spec fn handler(&self) -> H {
        self.f
    }

    /// Wraps one handler into a service unit.
    pub fn new(f: H) -> (r: ServiceWrapper<H>)
        ensures
            r.handler() == f,
    {
        ServiceWrapper { f }
    }

    /// A borrow of the handler this unit owns.
    pub fn handler_ref(&self) -> (h: &H)
        ensures
            *h == self.handler(),
    {
        &self.f
    }

    /// Attempts this unit against a request: extracts the handler's
    /// parameter tuple and, only if every position succeeds, invokes the
    /// handler with it.  An extraction failure is absorbed here and never
    /// reaches the caller.
    pub fn handle_request(&mut self, req: &Request)
        ensures
            unit_effect(old(self).handler(), final(self).handler(), req@),
    {
        let sig = self.f.signature();
        match extract_params(&sig, req) {
            Ok(args) => {
                proof {
                    assert forall|i: int|
                        0 <= i < sig@.len() implies crate::value::value_has_type(
                        #[trigger] value_views(args@)[i],
                        sig@[i],
                    ) by {
                        lemma_extract_one_typed(sig@[i], req@);
                    }
                    assert(args_match(self.f.sig(), value_views(args@)));
                }
                self.f.call(args);
            },
            Err(_) => {
                // The unit silently becomes a no-op for this request.
            },
        }
    }
}

/// The dispatcher: an ordered, append-only collection of service units.
/// Registration order is dispatch order.
#[derive(Debug)]
pub struct App<H: Handler> {
    services: Vec<ServiceWrapper<H>>,
}

impl<H: Handler> App<H> {
    /// The handlers registered so far, in registration order.
    pub closed spec fn handlers(&self) -> Seq<H> {
        self.services@.map_values(|u: ServiceWrapper<H>| u.handler())
    }

    /// A dispatcher with no registered handler.
    pub fn new() -> (r: App<H>)
        ensures
            r.handlers() == Seq::<H>::empty(),
    {
        let r = App { services: Vec::new() };
        proof {
            assert(r.handlers() =~= Seq::<H>::empty());
        }
        r
    }

    /// Registers one handler: wraps it into a service unit and appends it.
    /// Builder-style, so registrations chain.
    pub fn handler(self, f: H) -> (r: App<H>)
        ensures
            r.handlers() == self.handlers().push(f),
    {
        let mut services = self.services;
        services.push(ServiceWrapper::new(f));
        let r = App { services };
        proof {
            assert(r.handlers() =~= self.handlers().push(f));
        }
        r
    }

    /// How many handlers are registered.
    pub fn len(&self) -> (n: usize)
        ensures
            n == self.handlers().len(),
    {
        self.services.len()
    }

    /// The `k`-th registered handler.
    pub fn get(&self, k: usize) -> (h: &H)
        requires
            k < self.handlers().len(),
        ensures
            *h == self.handlers()[k as int],
    {
        self.services[k].handler_ref()
    }

    /// One dispatch pass: every unit is attempted against the request, in
    /// registration order.  Each unit whose extraction succeeds is invoked
    /// with its own extracted tuple; each unit whose extraction fails is
    /// skipped, leaving every other unit untouched.  The pass always
    /// completes, and no unit's failure is reported to the caller.
    pub fn dispatch(&mut self, req: &Request)
        ensures
            final(self).handlers().len() == old(self).handlers().len(),
            forall|k: int|
                0 <= k < old(self).handlers().len() ==> unit_effect(
                    old(self).handlers()[k],
                    final(self).handlers()[k],
                    req@,
                ),
    {
        let n = self.services.len();
        let mut i: usize = 0;
        while i < n
            invariant
                i <= n,
                n == self.services@.len(),
                n == old(self).services@.len(),
                forall|k: int| i <= k < n ==> self.services@[k] == old(self).services@[k],
                forall|k: int|
                    0 <= k < i ==> unit_effect(
                        old(self).services@[k].handler(),
                        #[trigger] self.services@[k].handler(),
                        req@,
                    ),
            decreases n - i,
        {
            let unit = &mut self.services[i];
            unit.handle_request(req);
            i += 1;
        }
    }
}

} // verus!
