//! Builder synthesis: from an analyzed structure to the declarations of its
//! companion builder.
//!
//! For a structure `S` the synthesizer produces the description of a
//! structure named `SBuilder` in which every field is stored behind the
//! optionality wrapper — around the inner type when the source field was
//! already optional (one level of wrapping, never two), around the declared
//! type otherwise — together with one setter per field, taking the bare
//! unwrapped type, and a zero-argument factory that starts with every field
//! unset.  Synthesis never fails on a well-formed [`StructSpec`].

use vstd::prelude::*;

use crate::shape::FieldSpec;
use crate::shape::StructSpec;
use crate::shape::TypeDesc;
use crate::shape::field_wf;
use crate::shape::render_spec;
use crate::shape::struct_spec_wf;
use crate::shape::type_is_optional;

verus! {

/// One field of the synthesized builder structure.  The stored type is the
/// optionality wrapper applied to `unwrapped`; only the inner text varies,
/// so only it is recorded.
pub struct BuilderFieldSpec {
    pub name: String,
    pub unwrapped: String,
}

/// The synthesized builder structure: its name and its fields, in the
/// source structure's declaration order.
pub struct BuilderSpec {
    pub name: String,
    pub fields: Vec<BuilderFieldSpec>,
}

/// One synthesized setter: named after its field, taking one parameter of
/// the field's unwrapped semantic type, and unconditionally overwriting the
/// stored value with a present one.
pub struct SetterSpec {
    pub name: String,
    pub param_type: String,
}

/// The synthesized zero-argument factory: it returns a builder value with
/// every listed field in the absent state.
pub struct FactorySpec {
    pub builder_name: String,
    pub field_names: Vec<String>,
}

/// The unwrapped semantic type of an analyzed field, as source text: the
/// inner type when the field is optional, the rendered declared type
/// otherwise.  This single text is both the builder field's stored inner
/// type and the setter's parameter type.
pub open spec fn unwrapped_of(f: FieldSpec) -> Seq<char> {
    if f.is_optional {
        match f.inner_type {
            Some(t) => t@,
            None => Seq::empty(),
        }
    } else {
        render_spec(f.declared_type)
    }
}

/// Synthesizes the builder declarations for an analyzed structure: the
/// builder structure (every field optionally stored), one setter per field
/// over the unwrapped type, and the empty factory.
pub fn synthesize(s: &StructSpec) -> (r: (BuilderSpec, Vec<SetterSpec>, FactorySpec))
    requires
        struct_spec_wf(*s),
    ensures
        r.0.name@ == s.name@ + "Builder"@,
        r.0.fields@.len() == s.fields@.len(),
        forall|i: int| 0 <= i < s.fields@.len() ==> {
            &&& (#[trigger] r.0.fields@[i]).name@ == s.fields@[i].name@
            &&& r.0.fields@[i].unwrapped@ == unwrapped_of(s.fields@[i])
        },
        r.1@.len() == s.fields@.len(),
        forall|i: int| 0 <= i < s.fields@.len() ==> {
            &&& (#[trigger] r.1@[i]).name@ == s.fields@[i].name@
            &&& r.1@[i].param_type@ == unwrapped_of(s.fields@[i])
        },
        r.2.builder_name@ == s.name@ + "Builder"@,
        r.2.field_names@.len() == s.fields@.len(),
        forall|i: int| 0 <= i < s.fields@.len() ==> (#[trigger] r.2.field_names@[i])@
            == s.fields@[i].name@,
{
    let mut builder_name = s.name.clone();
    builder_name.append("Builder");
    let factory_name = builder_name.clone();
    let mut bfields: Vec<BuilderFieldSpec> = Vec::new();
    let mut setters: Vec<SetterSpec> = Vec::new();
    let mut names: Vec<String> = Vec::new();
    let mut i: usize = 0;
    while i < s.fields.len()
        invariant
            i <= s.fields@.len(),
            struct_spec_wf(*s),
            bfields@.len() == i,
            setters@.len() == i,
            names@.len() == i,
            forall|j: int| 0 <= j < i as int ==> {
                &&& (#[trigger] bfields@[j]).name@ == s.fields@[j].name@
                &&& bfields@[j].unwrapped@ == unwrapped_of(s.fields@[j])
            },
            forall|j: int| 0 <= j < i as int ==> {
                &&& (#[trigger] setters@[j]).name@ == s.fields@[j].name@
                &&& setters@[j].param_type@ == unwrapped_of(s.fields@[j])
            },
            forall|j: int| 0 <= j < i as int ==> (#[trigger] names@[j])@ == s.fields@[j].name@,
        decreases s.fields@.len() - i,
    {
        let f = &s.fields[i];
        let unwrapped: String = if f.is_optional {
            match &f.inner_type {
                Some(t) => t.clone(),
                None => crate::shape::render_type(&f.declared_type),
            }
        } else {
            crate::shape::render_type(&f.declared_type)
        };
        bfields.push(BuilderFieldSpec { name: f.name.clone(), unwrapped: unwrapped.clone() });
        setters.push(SetterSpec { name: f.name.clone(), param_type: unwrapped });
        names.push(f.name.clone());
        i = i + 1;
    }
    (
        BuilderSpec { name: builder_name, fields: bfields },
        setters,
        FactorySpec { builder_name: factory_name, field_names: names },
    )
}

/// Double-wrap collapse: a source field already declared as the optionality
/// wrapper over an inner type contributes that bare inner type — not the
/// wrapped declared type — as its unwrapped semantic type, so the builder
/// stores exactly one level of optionality for it and its setter takes the
/// bare inner type.
pub proof fn lemma_double_wrap_collapse(f: FieldSpec)
    requires
        field_wf(f),
        f.is_optional,
    ensures
        f.declared_type matches TypeDesc::Path { head, params } && head@ == "Option"@
            && params.len() == 1 && unwrapped_of(f) == params[0]@,
        f.inner_type matches Some(t) && unwrapped_of(f) == t@,
{
}

} // verus!
