//! The generator's single entry point: from one structure description to
//! the full set of builder declarations, or a generation-time error.
//!
//! Generation runs the three stages in order — shape analysis, builder
//! synthesis, assembly of the finalization operation — and either yields
//! every declaration or refuses the input entirely: there is no partial
//! output.

use vstd::prelude::*;

use crate::assemble::FieldAction;
use crate::assemble::FinalizeSpec;
use crate::assemble::assemble;
use crate::shape::AnalysisError;
use crate::shape::FieldSpec;
use crate::shape::RawField;
use crate::shape::StructDesc;
use crate::shape::analyze;
use crate::shape::analyzed_field;
use crate::shape::raw_fields;
use crate::shape::shape_supported;
use crate::shape::type_is_malformed;
use crate::synth::BuilderSpec;
use crate::synth::FactorySpec;
use crate::synth::SetterSpec;
use crate::synth::synthesize;
use crate::synth::unwrapped_of;

verus! {

/// Everything generation emits for one input structure: the builder
/// structure, its setters, the empty factory, and the finalization
/// operation.
pub struct GeneratedDecls {
    pub builder: BuilderSpec,
    pub setters: Vec<SetterSpec>,
    pub factory: FactorySpec,
    pub finalizer: FinalizeSpec,
}

/// The classified field sequence that analysis derives from a supported
/// input, in declaration order.
pub open spec fn analyzed_fields(desc: StructDesc) -> Seq<FieldSpec> {
    raw_fields(desc).map_values(|rf: RawField| analyzed_field(rf))
}

/// The generated declarations correspond exactly to a source structure
/// named `name` with the classified fields `fs`: the builder is named by
/// appending `Builder`, every list runs over the fields in declaration
/// order, builder storage and setter parameter use each field's unwrapped
/// semantic type, and the finalization step extracts exactly the required
/// fields.
pub open spec fn decls_match(g: GeneratedDecls, name: Seq<char>, fs: Seq<FieldSpec>) -> bool {
    &&& g.builder.name@ == name + "Builder"@
    &&& g.builder.fields@.len() == fs.len()
    &&& (forall|i: int| 0 <= i < fs.len() ==> {
        &&& (#[trigger] g.builder.fields@[i]).name@ == fs[i].name@
        &&& g.builder.fields@[i].unwrapped@ == unwrapped_of(fs[i])
    })
    &&& g.setters@.len() == fs.len()
    &&& (forall|i: int| 0 <= i < fs.len() ==> {
        &&& (#[trigger] g.setters@[i]).name@ == fs[i].name@
        &&& g.setters@[i].param_type@ == unwrapped_of(fs[i])
    })
    &&& g.factory.builder_name@ == name + "Builder"@
    &&& g.factory.field_names@.len() == fs.len()
    &&& (forall|i: int| 0 <= i < fs.len() ==> (#[trigger] g.factory.field_names@[i])@
        == fs[i].name@)
    &&& g.finalizer.target@ == name
    &&& g.finalizer.steps@.len() == fs.len()
    &&& (forall|i: int| 0 <= i < fs.len() ==> {
        &&& (#[trigger] g.finalizer.steps@[i]).field@ == fs[i].name@
        &&& (g.finalizer.steps@[i].action == FieldAction::PassThrough <==> fs[i].is_optional)
    })
}

/// Generates the builder declarations for one structure description, or
/// refuses it: `UnsupportedShape` exactly when the input is not a structure
/// with at least one named field, `MalformedOptionality` exactly when some
/// field applies the optionality wrapper to a number of arguments other
/// than one.  On success the declarations correspond exactly to the
/// analyzed fields, as [`decls_match`] states.
pub fn generate(desc: StructDesc) -> (r: Result<GeneratedDecls, AnalysisError>)
    ensures
        (r matches Err(e) && e == AnalysisError::UnsupportedShape) <==> !shape_supported(desc),
        shape_supported(desc) ==> ((r matches Err(e) && e == AnalysisError::MalformedOptionality)
            <==> exists|i: int|
                0 <= i < raw_fields(desc).len() && type_is_malformed(
                    #[trigger] raw_fields(desc)[i].ty,
                )),
        r is Ok <==> (shape_supported(desc) && forall|i: int|
            0 <= i < raw_fields(desc).len() ==> !type_is_malformed(
                #[trigger] raw_fields(desc)[i].ty,
            )),
        r matches Ok(g) ==> decls_match(g, desc.name@, analyzed_fields(desc)),
{
    match analyze(desc) {
        Err(e) => Err(e),
        Ok(s) => {
            let (builder, setters, factory) = synthesize(&s);
            let finalizer = assemble(&s);
            Ok(GeneratedDecls { builder, setters, factory, finalizer })
        },
    }
}

} // verus!
