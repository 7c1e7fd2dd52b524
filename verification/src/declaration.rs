//! The declaration as it is given: the input of one expansion.
//!
//! Nothing here has been validated yet. A [`Case`] is deliberately permissive
//! (any shape of fields, with or without an initializer) so that every
//! malformed declaration can be written down and diagnosed.
//!
//! Two kinds of content are kept apart. What the rules look at is held as
//! plain values: the name and the arguments of a modifier, the shape of the
//! fields, whether an initializer is there. What is only carried through to
//! the artifact is held as it came, in a type that the caller chooses: `S` for
//! a piece of source (a name, a type, a visibility, a whole modifier) and `T`
//! for an initializer expression. The library never looks inside either.

use vstd::prelude::*;

verus! {

/// An attribute-like modifier attached to a declaration, a case or a field.
#[derive(Clone, Debug, PartialEq, Eq)]
pub struct Modifier<S> {
    /// The name the modifier goes by, such as `derive`, `repr` or `doc`.
    pub name: String,
    /// The items of its parenthesised argument list, in order of appearance;
    /// empty when the modifier has no such list.
    pub arguments: Vec<String>,
    /// The whole modifier as written.
    pub source: S,
}

/// One named field of a record shape.
#[derive(Clone, Debug, PartialEq, Eq)]
pub struct Field<S> {
    pub modifiers: Vec<Modifier<S>>,
    pub visibility: S,
    pub name: S,
    pub ty: S,
}

/// The fields a case was declared with.
#[derive(Clone, Debug, PartialEq, Eq)]
pub enum Fields<S> {
    /// No field list at all.
    Unit,
    /// A parenthesised list of types.
    Positional(Vec<S>),
    /// A braced list of named fields: a record shape.
    Named(Vec<Field<S>>),
}

impl<S> Fields<S> {
    /// Number of fields declared.
    pub open spec fn count(self) -> nat {
        match self {
            Fields::Unit => 0,
            Fields::Positional(types) => types@.len(),
            Fields::Named(fields) => fields@.len(),
        }
    }

    /// Whether no field is declared. An empty list of either kind counts as none.
    pub fn is_empty(&self) -> (empty: bool)
        ensures
            empty == (self.count() == 0),
    {
        match self {
            Fields::Unit => true,
            Fields::Positional(types) => types.len() == 0,
            Fields::Named(fields) => fields.len() == 0,
        }
    }

    /// Whether this is a record shape, which is what a layout case needs.
    pub fn is_named(&self) -> (named: bool)
        ensures
            named == (*self is Named),
    {
        match self {
            Fields::Named(_) => true,
            _ => false,
        }
    }
}

/// One named entry of the declaration, as written.
#[derive(Clone, Debug, PartialEq, Eq)]
pub struct Case<S, T> {
    pub modifiers: Vec<Modifier<S>>,
    pub name: S,
    pub fields: Fields<S>,
    /// The expression after `=`, where there is one.
    pub initializer: Option<T>,
}

/// An enumeration-shaped declaration, as written.
#[derive(Clone, Debug, PartialEq, Eq)]
pub struct EnumSpec<S, T> {
    pub modifiers: Vec<Modifier<S>>,
    pub visibility: S,
    pub name: S,
    /// The generic parameters as written. A table has none.
    pub generics: Vec<S>,
    /// The cases in declaration order: the layout case, then the data cases.
    pub cases: Vec<Case<S, T>>,
}

/// The item that an expansion is asked for.
#[derive(Clone, Debug, PartialEq, Eq)]
pub enum Item<S, T> {
    Enum(EnumSpec<S, T>),
    /// Any item that is not an enumeration.
    Other,
}

/// Whether `text` reads exactly as `word`.
pub fn reads_as(text: &String, word: &str) -> (same: bool)
    ensures
        same == (text@ == word@),
{
    let other = String::from_str(word);
    *text == other
}

} // verus!
