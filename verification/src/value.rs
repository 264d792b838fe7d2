//! The parameter types a handler may declare and the values extraction
//! produces for them.

use vstd::prelude::*;

verus! {

/// A parameter type a handler can declare.  Each type has exactly one
/// extractor; new types extend this enum without touching the dispatcher.
#[derive(Clone, Copy, Debug, PartialEq, Eq, Structural)]
pub enum ParamTy {
    /// The no-value type; its extractor always succeeds and produces nothing.
    Unit,
    /// A string; its extractor copies the request payload.
    Str,
    /// A 32-bit unsigned number; its extractor parses the payload.
    U32,
    /// A 64-bit unsigned number; its extractor parses the payload.
    U64,
}

/// A value extracted from a request, ready to be handed to a handler.
#[derive(Debug)]
pub enum Value {
    Unit,
    Str(String),
    U32(u32),
    U64(u64),
}

/// The mathematical shadow of a [`Value`]: the same variants with the string
/// seen as its character sequence.
pub enum ValueView {
    Unit,
    Str(Seq<char>),
    U32(u32),
    U64(u64),
}

impl View for Value {
    type V = ValueView;

    open spec fn view(&self) -> ValueView {
        match self {
            Value::Unit => ValueView::Unit,
            Value::Str(s) => ValueView::Str(s@),
            Value::U32(n) => ValueView::U32(*n),
            Value::U64(n) => ValueView::U64(*n),
        }
    }
}

impl PartialEq for Value {
    fn eq(&self, other: &Value) -> (r: bool) {
        match (self, other) {
            (Value::Unit, Value::Unit) => true,
            (Value::Str(a), Value::Str(b)) => *a == *b,
            (Value::U32(a), Value::U32(b)) => *a == *b,
            (Value::U64(a), Value::U64(b)) => *a == *b,
            _ => false,
        }
    }
}

impl vstd::std_specs::cmp::PartialEqSpecImpl for Value {
    open spec fn obeys_eq_spec() -> bool {
        true
    }

    open spec fn eq_spec(&self, other: &Value) -> bool {
        self@ == other@
    }
}

/// Does the value `v` inhabit the declared parameter type `t`?
pub open spec fn value_has_type(v: ValueView, t: ParamTy) -> bool {
    match t {
        ParamTy::Unit => v is Unit,
        ParamTy::Str => v is Str,
        ParamTy::U32 => v is U32,
        ParamTy::U64 => v is U64,
    }
}

/// The character sequences behind a list of extracted values.
pub open spec fn value_views(args: Seq<Value>) -> Seq<ValueView> {
    args.map_values(|a: Value| a@)
}

impl Value {
    /// The string inside, if this is a string value.
    pub fn as_str(&self) -> (r: Option<&String>)
        ensures
            match r {
                Some(s) => self@ is Str && self@->Str_0 == s@,
                None => !(self@ is Str),
            },
    {
        match self {
            Value::Str(s) => Some(s),
            _ => None,
        }
    }

    /// The number inside, if this is a 32-bit numeric value.
    pub fn as_u32(&self) -> (r: Option<u32>)
        ensures
            match r {
                Some(n) => self@ == ValueView::U32(n),
                None => !(self@ is U32),
            },
    {
        match self {
            Value::U32(n) => Some(*n),
            _ => None,
        }
    }

    /// The number inside, if this is a 64-bit numeric value.
    pub fn as_u64(&self) -> (r: Option<u64>)
        ensures
            match r {
                Some(n) => self@ == ValueView::U64(n),
                None => !(self@ is U64),
            },
    {
        match self {
            Value::U64(n) => Some(*n),
            _ => None,
        }
    }

    /// Is this the no-value value?
    pub fn is_unit(&self) -> (r: bool)
        ensures
            r == (self@ is Unit),
    {
        match self {
            Value::Unit => true,
            _ => false,
        }
    }
}

} // verus!
