//! What an expansion reports: every problem found in one pass, in order.

use crate::capability::Capability;
use vstd::prelude::*;

verus! {

/// The class a diagnostic belongs to, which decides how the expansion goes on.
#[derive(Clone, Copy, Debug, PartialEq, Eq, Hash, Structural)]
pub enum Category {
    /// Nothing can be produced.
    FatalStructural,
    /// A stand-in is substituted and the expansion goes on.
    RecoverableStructural,
    /// A reserved capability was requested; the request is dropped.
    Conflict,
    /// The width asked for is not supported; the default is used.
    Representation,
}

/// The part of the declaration that a diagnostic points at.
#[derive(Clone, Copy, Debug, PartialEq, Eq, Hash, Structural)]
pub enum Location {
    /// The whole item.
    Item,
    /// The list of generic parameters.
    Generics,
    /// One argument of a modifier of the declaration.
    ModifierArgument { modifier: usize, argument: usize },
    /// The argument list of a modifier of the declaration.
    ModifierArguments { modifier: usize },
    /// The fields of a case.
    CaseFields { case: usize },
    /// A whole case.
    Case { case: usize },
    /// The braces that enclose the cases.
    Body,
}

/// One problem found in a declaration. Modifiers and cases are named by their
/// position in the declaration, counted from zero; the layout case is case 0.
#[derive(Clone, Copy, Debug, PartialEq, Eq, Hash, Structural)]
pub enum Diagnostic {
    /// The item is not an enumeration.
    UnsupportedItem,
    /// The declaration has generic parameters.
    GenericParameters,
    /// A derive request names a capability that the generator supplies itself.
    ReservedCapability { modifier: usize, argument: usize, capability: Capability },
    /// A width modifier asks for something other than one supported width.
    UnsupportedWidth { modifier: usize },
    /// A case after the first declares fields.
    UnexpectedFields { case: usize },
    /// A case after the first has no initializer.
    MissingInitializer { case: usize },
    /// There is no case after the first.
    MissingDataCases,
    /// The first case is not a record shape.
    MalformedLayout,
}

impl Diagnostic {
    pub open spec fn spec_category(self) -> Category {
        match self {
            Diagnostic::UnsupportedItem => Category::FatalStructural,
            Diagnostic::GenericParameters => Category::RecoverableStructural,
            Diagnostic::ReservedCapability { .. } => Category::Conflict,
            Diagnostic::UnsupportedWidth { .. } => Category::Representation,
            Diagnostic::UnexpectedFields { .. } => Category::RecoverableStructural,
            Diagnostic::MissingInitializer { .. } => Category::RecoverableStructural,
            Diagnostic::MissingDataCases => Category::FatalStructural,
            Diagnostic::MalformedLayout => Category::FatalStructural,
        }
    }

    pub fn category(&self) -> (category: Category)
        ensures
            category == self.spec_category(),
    {
        match self {
            Diagnostic::UnsupportedItem => Category::FatalStructural,
            Diagnostic::GenericParameters => Category::RecoverableStructural,
            Diagnostic::ReservedCapability { .. } => Category::Conflict,
            Diagnostic::UnsupportedWidth { .. } => Category::Representation,
            Diagnostic::UnexpectedFields { .. } => Category::RecoverableStructural,
            Diagnostic::MissingInitializer { .. } => Category::RecoverableStructural,
            Diagnostic::MissingDataCases => Category::FatalStructural,
            Diagnostic::MalformedLayout => Category::FatalStructural,
        }
    }

    /// Whether nothing can be produced once this has been reported.
    pub open spec fn spec_is_fatal(self) -> bool {
        self.spec_category() == Category::FatalStructural
    }

    pub fn is_fatal(&self) -> (fatal: bool)
        ensures
            fatal == self.spec_is_fatal(),
    {
        self.category() == Category::FatalStructural
    }

    pub open spec fn spec_location(self) -> Location {
        match self {
            Diagnostic::UnsupportedItem => Location::Item,
            Diagnostic::GenericParameters => Location::Generics,
            Diagnostic::ReservedCapability { modifier, argument, .. } => {
                Location::ModifierArgument { modifier, argument }
            },
            Diagnostic::UnsupportedWidth { modifier } => Location::ModifierArguments { modifier },
            Diagnostic::UnexpectedFields { case } => Location::CaseFields { case },
            Diagnostic::MissingInitializer { case } => Location::Case { case },
            Diagnostic::MissingDataCases => Location::Body,
            Diagnostic::MalformedLayout => Location::Case { case: 0 },
        }
    }

    /// Where in the declaration the problem lies.
    pub fn location(&self) -> (location: Location)
        ensures
            location == self.spec_location(),
    {
        match *self {
            Diagnostic::UnsupportedItem => Location::Item,
            Diagnostic::GenericParameters => Location::Generics,
            Diagnostic::ReservedCapability { modifier, argument, .. } => {
                Location::ModifierArgument { modifier, argument }
            },
            Diagnostic::UnsupportedWidth { modifier } => Location::ModifierArguments { modifier },
            Diagnostic::UnexpectedFields { case } => Location::CaseFields { case },
            Diagnostic::MissingInitializer { case } => Location::Case { case },
            Diagnostic::MissingDataCases => Location::Body,
            Diagnostic::MalformedLayout => Location::Case { case: 0 },
        }
    }

    /// The text shown to the user.
    pub open spec fn spec_message(self) -> Seq<char> {
        match self {
            Diagnostic::UnsupportedItem => "the const_table attribute may only be applied to enums"@,
            Diagnostic::GenericParameters => "a const_table enum cannot be generic"@,
            Diagnostic::ReservedCapability { capability, .. } => "the "@
                + capability.spec_trait_name()
                + " trait is already implemented by the const_table macro"@,
            Diagnostic::UnsupportedWidth { .. } =>
                "unsupported repr hint for a const_table enum: expected one of u8, u16, u32 or u64 (default is u32)"@,
            Diagnostic::UnexpectedFields { .. } =>
                "in a const_table enum, only the first variant should have fields"@,
            Diagnostic::MissingInitializer { .. } =>
                "in a const_table enum, all but the first variant should have a discriminant expression"@,
            Diagnostic::MissingDataCases =>
                "a const_table enum needs at least one variant with a discriminant expression"@,
            Diagnostic::MalformedLayout =>
                "the first variant of a const_table enum should have named fields to specify the table layout"@,
        }
    }

    pub fn message(&self) -> (message: String)
        ensures
            message@ == self.spec_message(),
    {
        match self {
            Diagnostic::UnsupportedItem => String::from_str(
                "the const_table attribute may only be applied to enums",
            ),
            Diagnostic::GenericParameters => String::from_str("a const_table enum cannot be generic"),
            Diagnostic::ReservedCapability { capability, .. } => {
                let name = capability.trait_name();
                String::from_str("the ").concat(name.as_str()).concat(
                    " trait is already implemented by the const_table macro",
                )
            },
            Diagnostic::UnsupportedWidth { .. } => String::from_str(
                "unsupported repr hint for a const_table enum: expected one of u8, u16, u32 or u64 (default is u32)",
            ),
            Diagnostic::UnexpectedFields { .. } => String::from_str(
                "in a const_table enum, only the first variant should have fields",
            ),
            Diagnostic::MissingInitializer { .. } => String::from_str(
                "in a const_table enum, all but the first variant should have a discriminant expression",
            ),
            Diagnostic::MissingDataCases => String::from_str(
                "a const_table enum needs at least one variant with a discriminant expression",
            ),
            Diagnostic::MalformedLayout => String::from_str(
                "the first variant of a const_table enum should have named fields to specify the table layout",
            ),
        }
    }
}

} // verus!
