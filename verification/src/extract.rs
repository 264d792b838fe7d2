//! Extraction: converting a raw request into typed parameter values.
//!
//! Every [`ParamTy`] has one extractor, a pure function of the request
//! payload ([`spec_extract_one`]).  Tuple extraction runs each position's
//! extractor against the same request in position order and short-circuits
//! at the first failure, so the reported error is always the error of the
//! lowest failing position.

use vstd::prelude::*;

use crate::parse::ExtractError;
use crate::parse::parse_u32;
use crate::parse::parse_u64;
use crate::parse::spec_parse_decimal;
use crate::request::Request;
use crate::value::ParamTy;
use crate::value::Value;
use crate::value::ValueView;
use crate::value::value_has_type;
use crate::value::value_views;

verus! {

/// What extracting one parameter of type `t` from the payload `req` yields.
/// Extraction is a pure function of the request: the unit and string
/// extractors always succeed, the numeric extractors parse the payload.
pub open spec fn spec_extract_one(t: ParamTy, req: Seq<char>) -> Result<ValueView, ExtractError> {
    match t {
        ParamTy::Unit => Ok(ValueView::Unit),
        ParamTy::Str => Ok(ValueView::Str(req)),
        ParamTy::U32 => match spec_parse_decimal(req, u32::MAX as int) {
            Ok(n) => Ok(ValueView::U32(n as u32)),
            Err(e) => Err(e),
        },
        ParamTy::U64 => match spec_parse_decimal(req, u64::MAX as int) {
            Ok(n) => Ok(ValueView::U64(n as u64)),
            Err(e) => Err(e),
        },
    }
}

/// Does every position of the parameter list `sig` extract successfully
/// from the payload `req`?
pub open spec fn all_positions_ok(sig: Seq<ParamTy>, req: Seq<char>) -> bool {
    forall|j: int| 0 <= j < sig.len() ==> spec_extract_one(sig[j], req) is Ok
}

/// Is `k` the first position of `sig` whose extraction from `req` fails?
pub open spec fn fails_first_at(sig: Seq<ParamTy>, req: Seq<char>, k: int) -> bool {
    &&& 0 <= k < sig.len()
    &&& spec_extract_one(sig[k], req) is Err
    &&& forall|j: int| 0 <= j < k ==> spec_extract_one(sig[j], req) is Ok
}

/// The tuple of values the parameter list `sig` extracts from `req`,
/// meaningful when every position succeeds.
pub open spec fn extracted(sig: Seq<ParamTy>, req: Seq<char>) -> Seq<ValueView> {
    Seq::new(sig.len(), |i: int| spec_extract_one(sig[i], req)->Ok_0)
}

/// A successful extraction yields a value of the declared type.
pub proof fn lemma_extract_one_typed(t: ParamTy, req: Seq<char>)
    requires
        spec_extract_one(t, req) is Ok,
    ensures
        value_has_type(spec_extract_one(t, req)->Ok_0, t),
{
}

/// The first error met when extracting a tuple: the position that failed,
/// in position order, and that position's own extraction error.
#[derive(Clone, Copy, Debug, PartialEq, Eq, Structural)]
pub struct ComposeError {
    /// The first position whose extraction failed.
    pub position: usize,
    /// The error that position's extractor reported.
    pub cause: ExtractError,
}

/// The result of extracting one parameter, seen at the specification level.
pub open spec fn extract_result_view(r: Result<Value, ExtractError>) -> Result<
    ValueView,
    ExtractError,
> {
    match r {
        Ok(v) => Ok(v@),
        Err(e) => Err(e),
    }
}

/// Extracts the no-value parameter; this always succeeds and reads nothing.
pub fn extract_unit(req: &Request) -> (v: Value)
    ensures
        v@ == ValueView::Unit,
{
    let _ = req;
    Value::Unit
}

/// Extracts a string parameter: a copy of the request payload.
pub fn extract_str(req: &Request) -> (v: Value)
    ensures
        v@ == ValueView::Str(req@),
{
    Value::Str(req.payload().to_owned())
}

/// Extracts a 32-bit numeric parameter by parsing the payload.
pub fn extract_u32(req: &Request) -> (r: Result<Value, ExtractError>)
    ensures
        extract_result_view(r) == spec_extract_one(ParamTy::U32, req@),
{
    match parse_u32(req.payload()) {
        Ok(n) => Ok(Value::U32(n)),
        Err(e) => Err(e),
    }
}

/// Extracts a 64-bit numeric parameter by parsing the payload.
pub fn extract_u64(req: &Request) -> (r: Result<Value, ExtractError>)
    ensures
        extract_result_view(r) == spec_extract_one(ParamTy::U64, req@),
{
    match parse_u64(req.payload()) {
        Ok(n) => Ok(Value::U64(n)),
        Err(e) => Err(e),
    }
}

/// Runs the extractor that belongs to the parameter type `t`.
pub fn extract(t: ParamTy, req: &Request) -> (r: Result<Value, ExtractError>)
    ensures
        extract_result_view(r) == spec_extract_one(t, req@),
{
    match t {
        ParamTy::Unit => Ok(extract_unit(req)),
        ParamTy::Str => Ok(extract_str(req)),
        ParamTy::U32 => extract_u32(req),
        ParamTy::U64 => extract_u64(req),
    }
}

/// Extracts the whole parameter tuple of `sig` from the shared request, in
/// position order.  All positions succeed, or the first failure wins: its
/// position and its error come back, and no later position is evaluated.
pub fn extract_params(sig: &Vec<ParamTy>, req: &Request) -> (r: Result<Vec<Value>, ComposeError>)
    ensures
        match r {
            Ok(args) => {
                &&& all_positions_ok(sig@, req@)
                &&& value_views(args@) == extracted(sig@, req@)
            },
            Err(ce) => {
                &&& fails_first_at(sig@, req@, ce.position as int)
                &&& spec_extract_one(sig@[ce.position as int], req@) == Err::<
                    ValueView,
                    ExtractError,
                >(ce.cause)
            },
        },
{
    let mut args: Vec<Value> = Vec::new();
    let n = sig.len();
    let mut i: usize = 0;
    while i < n
        invariant
            i <= n,
            n == sig@.len(),
            args@.len() == i,
            forall|j: int| 0 <= j < i ==> spec_extract_one(sig@[j], req@) is Ok,
            forall|j: int|
                0 <= j < i ==> #[trigger] args@[j]@ == spec_extract_one(sig@[j], req@)->Ok_0,
        decreases n - i,
    {
        match extract(sig[i], req) {
            Ok(v) => {
                args.push(v);
            },
            Err(e) => {
                return Err(ComposeError { position: i, cause: e });
            },
        }
        i += 1;
    }
    proof {
        assert(value_views(args@) =~= extracted(sig@, req@));
    }
    Ok(args)
}

} // verus!
