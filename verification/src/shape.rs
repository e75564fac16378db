//! Shape analysis: classifying the fields of a structure description.
//!
//! The input is a [`StructDesc`], the host environment's rendering of one
//! type definition: its name and, when it is a structure with named fields,
//! the ordered field list with each field's declared type.  Analysis
//! classifies every field as required or optional — optional meaning the
//! declared type is the optionality wrapper `Option` applied to exactly one
//! inner type — and yields a [`StructSpec`] that later stages consume.
//!
//! The optionality test is purely syntactic: it looks at the outer
//! identifier of the declared type.  A user-defined type that merely shares
//! the name `Option` is classified as optional; this is an accepted
//! limitation of name-based matching, not a defect to compensate for.

use vstd::prelude::*;

verus! {

/// A declared type, as the host environment renders it: either a plain path
/// application — an outer identifier with its generic arguments, each
/// argument given as source text — or any other syntactic form, kept only
/// as source text.
pub enum TypeDesc {
    Path { head: String, params: Vec<String> },
    Other { text: String },
}

/// One named field of the input structure: its name and declared type.
pub struct RawField {
    pub name: String,
    pub ty: TypeDesc,
}

/// The shape of the input type definition.  Only a structure with at least
/// one named field is supported by the generator.
pub enum StructShape {
    /// A structure with named fields, in declaration order.
    NamedFields { fields: Vec<RawField> },
    /// A structure with positional fields only.
    Positional,
    /// A structure with no fields at all.
    Unit,
    /// Not a structure: an enumeration or a union.
    NotAStruct,
}

/// The input to generation: one type definition as described by the host
/// environment's introspection.
pub struct StructDesc {
    pub name: String,
    pub shape: StructShape,
}

/// Why analysis refused an input.
#[derive(Clone, Copy, Debug, PartialEq, Eq, Structural)]
pub enum AnalysisError {
    /// The input is not a structure with at least one named field.
    UnsupportedShape,
    /// A field's declared type names the optionality wrapper but does not
    /// apply it to exactly one inner type.
    MalformedOptionality,
}

/// One analyzed field: its name, the type as declared, whether that type is
/// the optionality wrapper, and — exactly when it is — the inner type's
/// source text.
pub struct FieldSpec {
    pub name: String,
    pub declared_type: TypeDesc,
    pub is_optional: bool,
    pub inner_type: Option<String>,
}

/// The analyzed structure: its name and classified fields, in declaration
/// order.
pub struct StructSpec {
    pub name: String,
    pub fields: Vec<FieldSpec>,
}

/// The declared type is the optionality wrapper applied to exactly one
/// inner type.
pub open spec fn type_is_optional(t: TypeDesc) -> bool {
    match t {
        TypeDesc::Path { head, params } => head@ == "Option"@ && params.len() == 1,
        TypeDesc::Other { .. } => false,
    }
}

/// The declared type names the optionality wrapper but applies it to a
/// number of arguments other than one — a fatal malformation.
pub open spec fn type_is_malformed(t: TypeDesc) -> bool {
    match t {
        TypeDesc::Path { head, params } => head@ == "Option"@ && params.len() != 1,
        TypeDesc::Other { .. } => false,
    }
}

/// The inner type of an optional declared type, `None` otherwise.
pub open spec fn spec_inner(t: TypeDesc) -> Option<String> {
    match t {
        TypeDesc::Path { head, params } => if head@ == "Option"@ && params.len() == 1 {
            Some(params[0])
        } else {
            None
        },
        TypeDesc::Other { .. } => None,
    }
}

/// The classification analysis gives to one raw field.
pub open spec fn analyzed_field(rf: RawField) -> FieldSpec {
    FieldSpec {
        name: rf.name,
        declared_type: rf.ty,
        is_optional: type_is_optional(rf.ty),
        inner_type: spec_inner(rf.ty),
    }
}

/// Well-formedness of one analyzed field: the optionality flag matches the
/// declared type, the declared type is not malformed, and the inner type is
/// recorded exactly when the field is optional.
pub open spec fn field_wf(f: FieldSpec) -> bool {
    &&& f.is_optional == type_is_optional(f.declared_type)
    &&& !type_is_malformed(f.declared_type)
    &&& f.inner_type == spec_inner(f.declared_type)
}

/// Well-formedness of an analyzed structure: every field is well-formed.
pub open spec fn struct_spec_wf(s: StructSpec) -> bool {
    forall|i: int| 0 <= i < s.fields@.len() ==> field_wf(#[trigger] s.fields@[i])
}

/// The input has a supported shape: a structure with at least one named
/// field.
pub open spec fn shape_supported(d: StructDesc) -> bool {
    match d.shape {
        StructShape::NamedFields { fields } => fields.len() > 0,
        _ => false,
    }
}

/// The raw field list of a supported input, the empty sequence otherwise.
pub open spec fn raw_fields(d: StructDesc) -> Seq<RawField> {
    match d.shape {
        StructShape::NamedFields { fields } => fields@,
        _ => Seq::empty(),
    }
}

/// The rendered generic-argument list: arguments in order, separated by a
/// comma and a space.
pub open spec fn join_params(ps: Seq<String>) -> Seq<char>
    decreases ps.len(),
{
    if ps.len() == 0 {
        Seq::empty()
    } else {
        join_params(ps.drop_last()) + (if ps.len() == 1 {
            Seq::<char>::empty()
        } else {
            ", "@
        }) + ps.last()@
    }
}

/// A declared type rendered back to source text: `head` alone for a path
/// without arguments, the head followed by its angle-bracketed argument
/// list otherwise, and the recorded text for any other syntactic form.
pub open spec fn render_spec(t: TypeDesc) -> Seq<char> {
    match t {
        TypeDesc::Other { text } => text@,
        TypeDesc::Path { head, params } => if params.len() == 0 {
            head@
        } else {
            head@ + "<"@ + join_params(params@) + ">"@
        },
    }
}

/// Renders a declared type back to source text, as [`render_spec`]
/// describes.
pub fn render_type(t: &TypeDesc) -> (r: String)
    ensures
        r@ == render_spec(*t),
{
    match t {
        TypeDesc::Other { text } => text.clone(),
        TypeDesc::Path { head, params } => {
            let mut acc = head.clone();
            if params.len() == 0 {
                return acc;
            }
            acc.append("<");
            let mut i: usize = 0;
            while i < params.len()
                invariant
                    i <= params@.len(),
                    params@.len() > 0,
                    acc@ == head@ + "<"@ + join_params(params@.take(i as int)),
                decreases params@.len() - i,
            {
                if i > 0 {
                    acc.append(", ");
                }
                acc.append(params[i].as_str());
                proof {
                    assert(params@.take(i + 1).drop_last() =~= params@.take(i as int));
                }
                i = i + 1;
            }
            proof {
                assert(params@.take(params@.len() as int) =~= params@);
            }
            acc.append(">");
            acc
        },
    }
}

/// Tests whether a declared type is the optionality wrapper, returning the
/// inner type's source text when it is, and refusing a wrapper applied to a
/// number of arguments other than one.
pub fn get_option(t: &TypeDesc) -> (r: Result<Option<String>, AnalysisError>)
    ensures
        r is Err <==> type_is_malformed(*t),
        r matches Err(e) ==> e == AnalysisError::MalformedOptionality,
        r matches Ok(o) ==> o == spec_inner(*t),
        r matches Ok(o) ==> (o is Some <==> type_is_optional(*t)),
{
    match t {
        TypeDesc::Path { head, params } => {
            let wrapper: String = String::from_str("Option");
            if head.eq(&wrapper) {
                if params.len() == 1 {
                    Ok(Some(params[0].clone()))
                } else {
                    Err(AnalysisError::MalformedOptionality)
                }
            } else {
                Ok(None)
            }
        },
        TypeDesc::Other { .. } => Ok(None),
    }
}

/// Analyzes a structure description: refuses any input that is not a
/// structure with at least one named field, refuses a malformed optionality
/// wrapper, and otherwise classifies every field in declaration order.
#[verifier::loop_isolation(false)]
pub fn analyze(desc: StructDesc) -> (r: Result<StructSpec, AnalysisError>)
    ensures
        (r matches Err(e) && e == AnalysisError::UnsupportedShape) <==> !shape_supported(desc),
        shape_supported(desc) ==> ((r matches Err(e) && e == AnalysisError::MalformedOptionality)
            <==> exists|i: int|
                0 <= i < raw_fields(desc).len() && type_is_malformed(
                    #[trigger] raw_fields(desc)[i].ty,
                )),
        r is Ok <==> (shape_supported(desc) && forall|i: int|
            0 <= i < raw_fields(desc).len() ==> !type_is_malformed(
                #[trigger] raw_fields(desc)[i].ty,
            )),
        r matches Ok(s) ==> {
            &&& s.name == desc.name
            &&& s.fields@ == raw_fields(desc).map_values(|rf: RawField| analyzed_field(rf))
            &&& struct_spec_wf(s)
        },
{
    let ghost gdesc = desc;
    match desc.shape {
        StructShape::NamedFields { mut fields } => {
            if fields.len() == 0 {
                return Err(AnalysisError::UnsupportedShape);
            }
            let ghost orig = fields@;
            let mut out: Vec<FieldSpec> = Vec::new();
            while fields.len() > 0
                invariant
                    orig == raw_fields(gdesc),
                    out@.len() + fields@.len() == orig.len(),
                    fields@ == orig.skip(out@.len() as int),
                    out@ == orig.take(out@.len() as int).map_values(
                        |rf: RawField| analyzed_field(rf),
                    ),
                    forall|i: int| 0 <= i < out@.len() ==> !type_is_malformed(
                        #[trigger] orig[i].ty,
                    ),
                decreases fields@.len(),
            {
                let f = fields.remove(0);
                let inner = match get_option(&f.ty) {
                    Ok(o) => o,
                    Err(e) => {
                        proof {
                            let k = out@.len() as int;
                            assert(type_is_malformed(raw_fields(gdesc)[k].ty));
                        }
                        return Err(e);
                    },
                };
                let is_opt = inner.is_some();
                let ghost n = out@.len() as int;
                out.push(
                    FieldSpec {
                        name: f.name,
                        declared_type: f.ty,
                        is_optional: is_opt,
                        inner_type: inner,
                    },
                );
                proof {
                    assert(orig.take(n + 1).drop_last() =~= orig.take(n));
                    assert(orig.take(n + 1).map_values(|rf: RawField| analyzed_field(rf))
                        =~= orig.take(n).map_values(|rf: RawField| analyzed_field(rf)).push(
                        analyzed_field(orig[n]),
                    ));
                }
            }
            proof {
                assert(orig.take(orig.len() as int) =~= orig);
            }
            Ok(StructSpec { name: desc.name, fields: out })
        },
        _ => Err(AnalysisError::UnsupportedShape),
    }
}

} // verus!
