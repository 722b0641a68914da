//! The decisions of the companion derive: which type declarations it
//! accepts, and what companion type it emits.  The token-level work is done
//! by the compiler's macro machinery outside this library; the rules
//! themselves are here, over a plain description of the declaration.

use vstd::prelude::*;
use crate::strutil::seq_views;

verus! {

/// The type of one named field, as far as the derive cares.
#[derive(Debug, Clone, Copy, PartialEq, Eq)]
pub enum FieldKind {
    /// A `String` field, stored encrypted and rebuilt from `&str`.
    Text,
    /// A `u32` field, stored encrypted by way of its decimal rendering.
    Number,
    /// Anything else; the derive refuses it.
    Unsupported,
}

/// One named field of the annotated struct.
#[derive(Debug, PartialEq, Eq)]
pub struct FieldDesc {
    pub name: String,
    pub kind: FieldKind,
}

/// The shape of the annotated declaration.
#[derive(Debug, PartialEq, Eq)]
pub enum DataShape {
    /// A struct with named fields.
    NamedStruct { fields: Vec<FieldDesc> },
    /// A struct whose fields are not named (tuple or unit).
    UnnamedStruct,
    /// An enum or a union.
    NotAStruct,
}

/// The annotated declaration, as the derive sees it.
#[derive(Debug, PartialEq, Eq)]
pub struct DeriveInput {
    pub name: String,
    pub shape: DataShape,
}

/// Why the derive refuses a declaration.
#[derive(Debug, PartialEq, Eq)]
pub enum DeriveError {
    /// Only structs are accepted.
    NotAStruct,
    /// Only named fields are accepted.
    UnnamedFields,
    /// A field whose type is neither `String` nor `u32`.
    UnsupportedField { field: String },
}

/// The companion type the derive emits: a struct of the same fields, each
/// stored as ciphertext and nonce, with a constructor from clear values
/// and an accessor that decrypts them back.
#[derive(Debug, PartialEq, Eq)]
pub struct ObfuscatedPlan {
    /// The companion type's name.
    pub companion_name: String,
    /// The fields, in declaration order.
    pub fields: Vec<FieldDesc>,
}

/// The kinds of a field list.
pub open spec fn field_kinds(v: Seq<FieldDesc>) -> Seq<FieldKind> {
    v.map_values(|f: FieldDesc| f.kind)
}

/// The names of a field list.
pub open spec fn field_names(v: Seq<FieldDesc>) -> Seq<Seq<char>> {
    v.map_values(|f: FieldDesc| f.name@)
}

/// The first field, in declaration order, whose type the derive refuses.
pub open spec fn first_unsupported(v: Seq<FieldDesc>) -> Option<Seq<char>>
    decreases v,
{
    if v.len() == 0 {
        None
    } else if v[0].kind is Unsupported {
        Some(v[0].name@)
    } else {
        first_unsupported(v.subrange(1, v.len() as int))
    }
}

proof fn lemma_first_unsupported_none(v: Seq<FieldDesc>)
    requires
        forall|j: int| 0 <= j < v.len() ==> !((#[trigger] v[j]).kind is Unsupported),
    ensures
        first_unsupported(v) is None,
    decreases v,
{
    if v.len() > 0 {
        lemma_first_unsupported_none(v.subrange(1, v.len() as int));
    }
}

proof fn lemma_first_unsupported_at(v: Seq<FieldDesc>, i: int)
    requires
        0 <= i < v.len(),
        v[i].kind is Unsupported,
        forall|j: int| 0 <= j < i ==> !((#[trigger] v[j]).kind is Unsupported),
    ensures
        first_unsupported(v) == Some(v[i].name@),
    decreases v,
{
    if i > 0 {
        lemma_first_unsupported_at(v.subrange(1, v.len() as int), i - 1);
    }
}

/// Decides what the derive does with a declaration: refuses anything that
/// is not a struct of named `String`/`u32` fields — naming the first
/// offending field — and otherwise plans the companion type, named by
/// prefixing `Obfuscated`, with the same fields in the same order.
pub fn derive_obfuscate(input: DeriveInput) -> (r: Result<ObfuscatedPlan, DeriveError>)
    ensures
        input.shape is NotAStruct ==> r == Err::<ObfuscatedPlan, DeriveError>(
            DeriveError::NotAStruct,
        ),
        input.shape is UnnamedStruct ==> r == Err::<ObfuscatedPlan, DeriveError>(
            DeriveError::UnnamedFields,
        ),
        input.shape matches DataShape::NamedStruct { fields } ==> (match first_unsupported(
            fields@,
        ) {
            Some(bad) => r matches Err(e) && e matches DeriveError::UnsupportedField { field }
                && field@ == bad,
            None => r matches Ok(plan) && plan.companion_name@ == "Obfuscated"@ + input.name@
                && plan.fields@ == fields@,
        }),
{
    let DeriveInput { name, shape } = input;
    let fields = match shape {
        DataShape::NotAStruct => {
            return Err(DeriveError::NotAStruct);
        },
        DataShape::UnnamedStruct => {
            return Err(DeriveError::UnnamedFields);
        },
        DataShape::NamedStruct { fields } => fields,
    };
    let mut i: usize = 0;
    while i < fields.len()
        invariant
            0 <= i <= fields@.len(),
            input.shape == (DataShape::NamedStruct { fields }),
            forall|j: int| 0 <= j < i ==> !((#[trigger] fields@[j]).kind is Unsupported),
        decreases fields@.len() - i,
    {
        let unsupported = match fields[i].kind {
            FieldKind::Text => false,
            FieldKind::Number => false,
            FieldKind::Unsupported => true,
        };
        if unsupported {
            proof {
                lemma_first_unsupported_at(fields@, i as int);
            }
            return Err(DeriveError::UnsupportedField { field: fields[i].name.clone() });
        }
        i = i + 1;
    }
    proof {
        lemma_first_unsupported_none(fields@);
    }
    let companion_name = "Obfuscated".to_owned().concat(name.as_str());
    Ok(ObfuscatedPlan { companion_name, fields })
}

} // verus!
