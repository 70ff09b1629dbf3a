//! Fatal generation-time failures.
//!
//! A failure aborts the whole pass: no partial output is ever handed to the
//! caller. Each variant names the offending type or operation.

use vstd::prelude::*;
use vstd::string::StringExecFns;

verus! {

/// A generation failure.
#[derive(Debug)]
pub enum GenError {
    /// A mixin type cannot be represented in the target convention.
    UnsupportedMixin { name: String },
    /// A callback type cannot be represented in the target convention.
    UnsupportedCallback { name: String },
    /// A union type without a typed-array member has no target representation.
    UnionWithoutTypedArray,
    /// A name that the catalog does not resolve.
    Unresolved { name: String },
    /// A typedef chain longer than the catalog, that is, a cycle.
    TypedefCycle { name: String },
    /// An exposed name with several operations and no rule that leaves
    /// exactly one of them.
    AmbiguousOverload { name: String },
}

/// The mathematical image of a [`GenError`].
pub enum ErrView {
    UnsupportedMixin { name: Seq<char> },
    UnsupportedCallback { name: Seq<char> },
    UnionWithoutTypedArray,
    Unresolved { name: Seq<char> },
    TypedefCycle { name: Seq<char> },
    AmbiguousOverload { name: Seq<char> },
}

impl View for GenError {
    type V = ErrView;

    open spec fn view(&self) -> ErrView {
        match self {
            GenError::UnsupportedMixin { name } => ErrView::UnsupportedMixin { name: name@ },
            GenError::UnsupportedCallback { name } => ErrView::UnsupportedCallback {
                name: name@,
            },
            GenError::UnionWithoutTypedArray => ErrView::UnionWithoutTypedArray,
            GenError::Unresolved { name } => ErrView::Unresolved { name: name@ },
            GenError::TypedefCycle { name } => ErrView::TypedefCycle { name: name@ },
            GenError::AmbiguousOverload { name } => ErrView::AmbiguousOverload { name: name@ },
        }
    }
}

/// The descriptive message of `e`.
pub open spec fn spec_message(e: ErrView) -> Seq<char> {
    match e {
        ErrView::UnsupportedMixin { name } => "Unsupported type: Mixin: "@ + name,
        ErrView::UnsupportedCallback { name } => "Unsupported type: Callback: "@ + name,
        ErrView::UnionWithoutTypedArray => "Unsupported type: Union without TypedArray"@,
        ErrView::Unresolved { name } => "Cannot resolve type: "@ + name,
        ErrView::TypedefCycle { name } => "Cyclic typedef: "@ + name,
        ErrView::AmbiguousOverload { name } => "Ambiguous overloads for: "@ + name,
    }
}

impl GenError {
    /// The descriptive message that a run reports when it aborts.
    pub fn message(&self) -> (r: String)
        ensures
            r@ == spec_message(self@),
    {
        match self {
            GenError::UnsupportedMixin { name } => {
                let mut s = String::new();
                s.append("Unsupported type: Mixin: ");
                s.append(name.as_str());
                s
            },
            GenError::UnsupportedCallback { name } => {
                let mut s = String::new();
                s.append("Unsupported type: Callback: ");
                s.append(name.as_str());
                s
            },
            GenError::UnionWithoutTypedArray => {
                let mut s = String::new();
                s.append("Unsupported type: Union without TypedArray");
                s
            },
            GenError::Unresolved { name } => {
                let mut s = String::new();
                s.append("Cannot resolve type: ");
                s.append(name.as_str());
                s
            },
            GenError::TypedefCycle { name } => {
                let mut s = String::new();
                s.append("Cyclic typedef: ");
                s.append(name.as_str());
                s
            },
            GenError::AmbiguousOverload { name } => {
                let mut s = String::new();
                s.append("Ambiguous overloads for: ");
                s.append(name.as_str());
                s
            },
        }
    }
}

/// The mathematical image of a text-producing step's result.
pub open spec fn res_view(r: Result<String, GenError>) -> Result<Seq<char>, ErrView> {
    match r {
        Ok(s) => Ok(s@),
        Err(e) => Err(e@),
    }
}

} // verus!
