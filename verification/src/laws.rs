//! The library's general guarantees, written out as proved statements.

use vstd::prelude::*;

use crate::extract::all_positions_ok;
use crate::extract::extracted;
use crate::extract::fails_first_at;
use crate::extract::spec_extract_one;
use crate::dispatcher::unit_effect;
use crate::handler::Handler;
use crate::parse::ExtractError;
use crate::value::ParamTy;
use crate::value::ValueView;

verus! {

/// Extraction determinism: for a fixed request and a fixed extractor, any
/// two extraction outcomes agree, in success or failure and, on success, in
/// the value produced.
pub proof fn extraction_deterministic(
    t: ParamTy,
    req: Seq<char>,
    r1: Result<ValueView, ExtractError>,
    r2: Result<ValueView, ExtractError>,
)
    requires
        r1 == spec_extract_one(t, req),
        r2 == spec_extract_one(t, req),
    ensures
        r1 == r2,
{
}

/// There is at most one first failing position.
pub proof fn first_failure_unique(sig: Seq<ParamTy>, req: Seq<char>, k1: int, k2: int)
    requires
        fails_first_at(sig, req, k1),
        fails_first_at(sig, req, k2),
    ensures
        k1 == k2,
{
}

/// A first failure rules out a successful tuple extraction.
pub proof fn failure_excludes_success(sig: Seq<ParamTy>, req: Seq<char>, k: int)
    requires
        fails_first_at(sig, req, k),
    ensures
        !all_positions_ok(sig, req),
{
}

/// Short-circuit on tuple extraction: once position `k` is the first to
/// fail, the outcome — that position and its own error — is settled by the
/// positions up to `k` alone.  Any parameter list that agrees with `sig1`
/// there fails the same way; the extractors of the later positions are never
/// consulted.
pub proof fn tuple_short_circuit(sig1: Seq<ParamTy>, sig2: Seq<ParamTy>, req: Seq<char>, k: int)
    requires
        fails_first_at(sig1, req, k),
        sig2.len() >= k + 1,
        forall|j: int| 0 <= j <= k ==> sig1[j] == sig2[j],
    ensures
        fails_first_at(sig2, req, k),
        spec_extract_one(sig2[k], req) == spec_extract_one(sig1[k], req),
{
}

/// Zero-arity handlers: an empty parameter list extracts from every request,
/// with no extraction step to fail, and yields the empty argument tuple.
pub proof fn zero_arity_always_extracts(req: Seq<char>)
    ensures
        all_positions_ok(Seq::<ParamTy>::empty(), req),
        extracted(Seq::<ParamTy>::empty(), req) == Seq::<ValueView>::empty(),
{
    assert(extracted(Seq::<ParamTy>::empty(), req) =~= Seq::<ValueView>::empty());
}

/// Failure isolation: across one dispatch pass, the step of every unit is
/// fixed by its own declared parameters and the shared request alone.  In
/// particular a unit whose extraction fails is left untouched, while every
/// other unit still takes exactly its own step.
pub proof fn failure_isolation<H: Handler>(
    pre: Seq<H>,
    post: Seq<H>,
    req: Seq<char>,
    j: int,
    k: int,
)
    requires
        pre.len() == post.len(),
        forall|m: int| 0 <= m < pre.len() ==> unit_effect(pre[m], post[m], req),
        0 <= j < pre.len(),
        0 <= k < pre.len(),
        !all_positions_ok(pre[k].sig(), req),
    ensures
        post[k].observed() == pre[k].observed(),
        all_positions_ok(pre[j].sig(), req) ==> post[j].observed() == pre[j].observed().push(
            extracted(pre[j].sig(), req),
        ),
{
    assert(unit_effect(pre[k], post[k], req));
    assert(unit_effect(pre[j], post[j], req));
}

} // verus!
