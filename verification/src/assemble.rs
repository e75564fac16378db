//! Assembly: the fallible finalization step of the generated builder.
//!
//! From an analyzed structure the assembler synthesizes the description of
//! the builder's `build` operation: one step per field, in declaration
//! order.  A required field's step extracts the stored value and fails with
//! [`AssemblyError::MissingField`] when it is absent; an optional field's
//! step passes the stored value through unchanged, absence included.  The
//! first missing required field, in declaration order, determines the
//! reported error.

use vstd::prelude::*;

use crate::shape::StructSpec;

verus! {

/// The failure raised by the generated finalization at its own call site:
/// the named required field was never set before `build` was invoked.
#[derive(Clone, Debug, PartialEq, Eq)]
pub enum AssemblyError {
    MissingField(String),
}

/// What one finalization step does with its field's stored value.
#[derive(Clone, Copy, Debug, PartialEq, Eq, Structural)]
pub enum FieldAction {
    /// Required field: extract the value or fail with `MissingField`.
    UnwrapRequired,
    /// Optional field: hand the stored value through unchanged.
    PassThrough,
}

/// One synthesized finalization step: the field it reads and what it does
/// with the stored value.
pub struct FinalizeStep {
    pub field: String,
    pub action: FieldAction,
}

/// The synthesized finalization operation: the target structure it
/// assembles and its per-field steps, in declaration order.
pub struct FinalizeSpec {
    pub target: String,
    pub steps: Vec<FinalizeStep>,
}

/// Synthesizes the finalization operation for an analyzed structure: one
/// step per field, extracting required fields and passing optional fields
/// through.
pub fn assemble(s: &StructSpec) -> (r: FinalizeSpec)
    ensures
        r.target@ == s.name@,
        r.steps@.len() == s.fields@.len(),
        forall|i: int| 0 <= i < s.fields@.len() ==> {
            &&& (#[trigger] r.steps@[i]).field@ == s.fields@[i].name@
            &&& (r.steps@[i].action == FieldAction::PassThrough <==> s.fields@[i].is_optional)
            &&& (r.steps@[i].action == FieldAction::UnwrapRequired <==> !s.fields@[i].is_optional)
        },
{
    let target = s.name.clone();
    let mut steps: Vec<FinalizeStep> = Vec::new();
    let mut i: usize = 0;
    while i < s.fields.len()
        invariant
            i <= s.fields@.len(),
            steps@.len() == i,
            forall|j: int| 0 <= j < i as int ==> {
                &&& (#[trigger] steps@[j]).field@ == s.fields@[j].name@
                &&& (steps@[j].action == FieldAction::PassThrough <==> s.fields@[j].is_optional)
                &&& (steps@[j].action == FieldAction::UnwrapRequired <==> !s.fields@[j].is_optional)
            },
        decreases s.fields@.len() - i,
    {
        let f = &s.fields[i];
        let action = if f.is_optional {
            FieldAction::PassThrough
        } else {
            FieldAction::UnwrapRequired
        };
        steps.push(FinalizeStep { field: f.name.clone(), action });
        i = i + 1;
    }
    FinalizeSpec { target, steps }
}

} // verus!
