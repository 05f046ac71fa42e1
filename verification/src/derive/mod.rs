//! Loading a whole structure from the description of its fields.
//!
//! A structure is described by its declaration: for each field the variable
//! it is read from and what is said about it, or the nested structure it
//! holds. [`derive`] checks a declaration and gives the [`Input`] that lists
//! the structure's inventory and loads it.

use vstd::prelude::*;

pub mod field;
pub mod laws;
pub mod names;
pub mod value;

use crate::derive::field::{field_wf, fields_wf, Field, Input, LeafType, Source};

verus! {

/// The type of a field as it is declared.
///
/// A box, a shared handle or another owning wrapper around a type is
/// declared as the type that it holds: it loads as that type does and adds
/// the same to the inventory.
#[derive(Debug)]
pub enum FieldType {
    /// A type that is read from one variable.
    Leaf(LeafType),
    /// An `Option` of such a type.
    OptionalLeaf(LeafType),
    /// A structure with a description of its own.
    Composite(Input),
    /// An `Option` of such a structure.
    OptionalComposite(Input),
    /// Any other type. A field of it can only be skipped.
    Other,
}

/// A field as it is declared: its name, its type, and what is noted on it.
#[derive(Debug)]
pub struct FieldDecl {
    /// The field's name; `None` for a field of a tuple structure.
    pub ident: Option<&'static str>,
    /// The field's type.
    pub ty: FieldType,
    /// The name of the variable that the field is read from.
    pub var: Option<&'static str>,
    /// What the variable configures.
    pub desc: Option<&'static str>,
    /// Whether the inventory marks the variable as optional.
    pub optional: bool,
    /// Whether the field is declared as one whose text always parses.
    pub infallible: bool,
    /// Whether the field is left out of the load and takes its default.
    pub skip: bool,
}

/// What is wrong with a declared field.
#[derive(Debug, Clone, Copy, PartialEq, Eq, Structural)]
pub enum FieldFault {
    /// The field names a variable and does not say what it is for.
    MissingDescription,
    /// The field names a variable and says nothing about it.
    EmptyDescription,
    /// The name of the field's variable is empty.
    EmptyVar,
    /// The field names a variable, and its type is a structure that is
    /// loaded from variables of its own.
    VarOnComposite,
    /// The field can be loaded neither from a variable nor as a structure:
    /// it names no variable and is no structure, or its type is read from
    /// nothing.
    NotLoadable,
    /// The field is declared infallible, and its text can fail to parse.
    NotInfallible,
}

/// Why a declaration gives no loader.
#[derive(Debug, Clone, Copy, PartialEq, Eq, Structural)]
pub enum DeriveError {
    /// What is declared is no structure.
    NotAStruct,
    /// The structure is declared without a list of fields.
    NoFields,
    /// A field is declared wrongly.
    Field {
        /// The position of the first such field.
        index: usize,
        /// What is wrong with it.
        fault: FieldFault,
    },
}

/// What a declared field is checked to, or the first thing wrong with it.
///
/// A field that names a variable must say what the variable is for, also
/// where it is skipped. A skipped field is loaded from nothing. Any other
/// field is read from its variable, which then has a name, a description,
/// and a type that one variable can hold; or it names no variable and holds
/// a structure. Only a field whose text always parses may be declared
/// infallible.
pub open spec fn check_field(decl: FieldDecl) -> Result<Field, FieldFault> {
    if decl.var is Some && decl.desc is None {
        Err(FieldFault::MissingDescription)
    } else if decl.skip {
        Ok(Field { field_name: decl.ident, source: Source::Default })
    } else {
        match decl.var {
            Some(env_var) => if env_var@.len() == 0 {
                Err(FieldFault::EmptyVar)
            } else if decl.desc->0@.len() == 0 {
                Err(FieldFault::EmptyDescription)
            } else {
                match decl.ty {
                    FieldType::Leaf(ty) => check_var(decl, env_var, ty, false),
                    FieldType::OptionalLeaf(ty) => check_var(decl, env_var, ty, true),
                    FieldType::Composite(_) | FieldType::OptionalComposite(_) => Err(
                        FieldFault::VarOnComposite,
                    ),
                    FieldType::Other => Err(FieldFault::NotLoadable),
                }
            },
            None => match decl.ty {
                FieldType::Composite(input) => check_nested(decl, input, false),
                FieldType::OptionalComposite(input) => check_nested(decl, input, true),
                _ => Err(FieldFault::NotLoadable),
            },
        }
    }
}

/// The check of a field that is read from a variable, once name and
/// description are known to be there.
pub open spec fn check_var(decl: FieldDecl, env_var: &'static str, ty: LeafType, wrapped: bool)
    -> Result<Field, FieldFault> {
    if decl.infallible && !ty.is_infallible() {
        Err(FieldFault::NotInfallible)
    } else {
        Ok(
            Field {
                field_name: decl.ident,
                source: Source::Var {
                    env_var,
                    desc: decl.desc->0,
                    optional: decl.optional,
                    infallible: decl.infallible,
                    ty,
                    wrapped,
                },
            },
        )
    }
}

/// The check of a field that holds a structure.
pub open spec fn check_nested(decl: FieldDecl, input: Input, wrapped: bool) -> Result<
    Field,
    FieldFault,
> {
    if decl.infallible {
        Err(FieldFault::NotInfallible)
    } else {
        Ok(Field { field_name: decl.ident, source: Source::Nested { input, wrapped } })
    }
}

impl Field {
    /// Checks a declared field.
    pub fn try_from(decl: FieldDecl) -> (r: Result<Field, FieldFault>)
        ensures
            r == check_field(decl),
    {
        let FieldDecl { ident, ty, var, desc, optional, infallible, skip } = decl;
        if var.is_some() && desc.is_none() {
            return Err(FieldFault::MissingDescription);
        }
        if skip {
            return Ok(Field { field_name: ident, source: Source::Default });
        }
        match var {
            Some(env_var) => {
                let desc = desc.unwrap();
                if env_var.is_empty() {
                    return Err(FieldFault::EmptyVar);
                }
                if desc.is_empty() {
                    return Err(FieldFault::EmptyDescription);
                }
                let (ty, wrapped) = match ty {
                    FieldType::Leaf(ty) => (ty, false),
                    FieldType::OptionalLeaf(ty) => (ty, true),
                    FieldType::Composite(_) | FieldType::OptionalComposite(_) => {
                        return Err(FieldFault::VarOnComposite);
                    },
                    FieldType::Other => {
                        return Err(FieldFault::NotLoadable);
                    },
                };
                let always_parses = match ty {
                    LeafType::Text | LeafType::List => true,
                    _ => false,
                };
                if infallible && !always_parses {
                    return Err(FieldFault::NotInfallible);
                }
                Ok(
                    Field {
                        field_name: ident,
                        source: Source::Var { env_var, desc, optional, infallible, ty, wrapped },
                    },
                )
            },
            None => {
                let (input, wrapped) = match ty {
                    FieldType::Composite(input) => (input, false),
                    FieldType::OptionalComposite(input) => (input, true),
                    _ => {
                        return Err(FieldFault::NotLoadable);
                    },
                };
                if infallible {
                    return Err(FieldFault::NotInfallible);
                }
                Ok(Field { field_name: ident, source: Source::Nested { input, wrapped } })
            },
        }
    }
}

/// What kind of item is declared.
#[derive(Debug, Clone, Copy, PartialEq, Eq, Structural)]
pub enum Shape {
    /// A structure with named fields.
    Named,
    /// A tuple structure.
    Unnamed,
    /// A structure without a list of fields.
    Unit,
    /// An enumeration.
    Enum,
    /// A union.
    Union,
}

/// A declaration to derive a loader from.
#[derive(Debug)]
pub struct DeriveInput {
    /// The name of the declared item.
    pub ident: &'static str,
    /// What kind of item it is.
    pub shape: Shape,
    /// The path of the crate that the written code refers to, where the
    /// declaration gives one.
    pub crate_name: Option<&'static str>,
    /// The declared fields, in order.
    pub fields: Vec<FieldDecl>,
}

/// The path of this crate, which the written code refers to where the
/// declaration names no other.
pub const DEFAULT_CRATE: &'static str = "::init4_bin_base";

/// The checked fields of a list of declared fields, or the position of the
/// first field that is declared wrongly, with what is wrong.
pub open spec fn check_fields(decls: Seq<FieldDecl>) -> Result<Seq<Field>, (int, FieldFault)>
    decreases decls.len(),
{
    if decls.len() == 0 {
        Ok(Seq::empty())
    } else {
        match check_fields(decls.drop_last()) {
            Err(first) => Err(first),
            Ok(fields) => match check_field(decls.last()) {
                Ok(field) => Ok(fields.push(field)),
                Err(fault) => Err((decls.len() - 1, fault)),
            },
        }
    }
}

/// Where a shorter list of declared fields has a wrong field, every list
/// that begins with it reports the same.
pub proof fn lemma_first_fault_stays(decls: Seq<FieldDecl>, n: int)
    requires
        0 <= n <= decls.len(),
        check_fields(decls.take(n)) is Err,
    ensures
        check_fields(decls) == check_fields(decls.take(n)),
    decreases decls.len() - n,
{
    if n == decls.len() {
        assert(decls.take(n) =~= decls);
    } else {
        assert(decls.take(n + 1).drop_last() =~= decls.take(n));
        lemma_first_fault_stays(decls, n + 1);
    }
}

/// Whether `r` is what deriving from `input` gives: a loader with the
/// checked fields, or why there is none.
pub open spec fn derives(input: DeriveInput, r: Result<Input, DeriveError>) -> bool {
    match input.shape {
        Shape::Enum | Shape::Union => r == Err::<Input, DeriveError>(DeriveError::NotAStruct),
        Shape::Unit => r == Err::<Input, DeriveError>(DeriveError::NoFields),
        Shape::Named | Shape::Unnamed => match check_fields(input.fields@) {
            Err((index, fault)) => r matches Err(DeriveError::Field { index: i, fault: f }) && i
                == index && f == fault,
            Ok(fields) => r matches Ok(derived) && derived.ident == input.ident
                && derived.fields@ == fields && derived.tuple_like == (input.shape
                == Shape::Unnamed) && derived.crate_name@ == match input.crate_name {
                Some(path) => path@,
                None => DEFAULT_CRATE@,
            },
        },
    }
}

/// Whether the structure that a declared field holds, if it holds one, is
/// declared so that it can be loaded.
pub open spec fn nested_wf(decl: FieldDecl) -> bool {
    match decl.ty {
        FieldType::Composite(input) | FieldType::OptionalComposite(input) => fields_wf(
            input.fields@,
        ),
        _ => true,
    }
}

/// The checked fields of declarations can be loaded where the structures
/// that the declarations hold can be.
pub proof fn lemma_checked_fields_wf(decls: Seq<FieldDecl>)
    requires
        check_fields(decls) is Ok,
        forall|i: int| 0 <= i < decls.len() ==> nested_wf(#[trigger] decls[i]),
    ensures
        fields_wf(check_fields(decls)->Ok_0),
    decreases decls.len(),
{
    if decls.len() > 0 {
        let head = decls.drop_last();
        assert forall|i: int| 0 <= i < head.len() implies nested_wf(#[trigger] head[i]) by {
            assert(head[i] == decls[i]);
        }
        lemma_checked_fields_wf(head);
        let decl = decls.last();
        assert(nested_wf(decl));
        let field = check_field(decl)->Ok_0;
        assert(field_wf(field)) by {
            match decl.ty {
                FieldType::Leaf(_) => {},
                FieldType::OptionalLeaf(_) => {},
                FieldType::Composite(_) => {},
                FieldType::OptionalComposite(_) => {},
                FieldType::Other => {},
            }
        }
        let fields = check_fields(decls)->Ok_0;
        assert(fields.drop_last() =~= check_fields(head)->Ok_0);
        assert(fields.last() == field);
    }
}

/// What is derived can be loaded: the fields of a derived structure have
/// variables with names and descriptions, and are declared infallible only
/// where their text always parses, provided that this holds of the
/// structures that the declaration holds.
pub proof fn lemma_derived_is_well_formed(input: DeriveInput, r: Result<Input, DeriveError>)
    requires
        derives(input, r),
        r is Ok,
        forall|i: int| 0 <= i < input.fields.len() ==> nested_wf(#[trigger] input.fields[i]),
    ensures
        fields_wf(r->Ok_0.fields@),
{
    lemma_checked_fields_wf(input.fields@);
}

/// Checks a declaration and gives the loader of the declared structure.
pub fn derive(input: DeriveInput) -> (r: Result<Input, DeriveError>)
    ensures
        derives(input, r),
{
    let DeriveInput { ident, shape, crate_name, fields: decls } = input;
    let tuple_like = match shape {
        Shape::Enum | Shape::Union => {
            return Err(DeriveError::NotAStruct);
        },
        Shape::Unit => {
            return Err(DeriveError::NoFields);
        },
        Shape::Named => false,
        Shape::Unnamed => true,
    };
    let ghost all = decls@;
    let mut fields: Vec<Field> = Vec::new();
    assert(all.take(0) =~= Seq::<FieldDecl>::empty());
    for decl in it: decls
        invariant
            it.seq() == all,
            all == input.fields@,
            input.shape == Shape::Named || input.shape == Shape::Unnamed,
            check_fields(all.take(it.index() as int)) == Ok::<Seq<Field>, (int, FieldFault)>(
                fields@,
            ),
            fields.len() == it.index(),
    {
        proof {
            let next = all.take(it.index() + 1);
            assert(next.drop_last() =~= all.take(it.index() as int));
            assert(next.last() == decl);
        }
        match Field::try_from(decl) {
            Ok(field) => {
                fields.push(field);
            },
            Err(fault) => {
                proof {
                    lemma_first_fault_stays(all, it.index() + 1);
                }
                return Err(DeriveError::Field { index: fields.len(), fault });
            },
        }
    }
    assert(all.take(all.len() as int) =~= all);
    let crate_name = match crate_name {
        Some(path) => path,
        None => DEFAULT_CRATE,
    };
    Ok(Input { ident, fields, crate_name, tuple_like })
}

} // verus!
