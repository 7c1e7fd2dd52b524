//! The representation width: which unsigned integer backs the ordinals.

use crate::declaration::{reads_as, Modifier};
use crate::diagnostic::Diagnostic;
use vstd::prelude::*;

verus! {

/// Width of the unsigned integer that stores an ordinal and that a
/// reconstruction takes as its raw value.
#[derive(Clone, Copy, Debug, PartialEq, Eq, Hash, Structural)]
pub enum Width {
    W8,
    W16,
    W32,
    W64,
}

/// The width that `hint` names, if it names a supported one.
pub open spec fn width_named(hint: Seq<char>) -> Option<Width> {
    if hint == "u8"@ {
        Some(Width::W8)
    } else if hint == "u16"@ {
        Some(Width::W16)
    } else if hint == "u32"@ {
        Some(Width::W32)
    } else if hint == "u64"@ {
        Some(Width::W64)
    } else {
        None
    }
}

impl Width {
    /// The width used when the declaration asks for none, or for none that is
    /// supported.
    pub open spec fn spec_default() -> Width {
        Width::W32
    }

    pub open spec fn spec_bits(self) -> nat {
        match self {
            Width::W8 => 8,
            Width::W16 => 16,
            Width::W32 => 32,
            Width::W64 => 64,
        }
    }

    /// Number of bits of the backing integer.
    pub fn bits(self) -> (bits: u32)
        ensures
            bits == self.spec_bits(),
    {
        match self {
            Width::W8 => 8,
            Width::W16 => 16,
            Width::W32 => 32,
            Width::W64 => 64,
        }
    }

    /// The largest value of the backing integer, `2^bits - 1`.
    pub open spec fn spec_max_raw(self) -> nat {
        match self {
            Width::W8 => 0xff,
            Width::W16 => 0xffff,
            Width::W32 => 0xffff_ffff,
            Width::W64 => 0xffff_ffff_ffff_ffff,
        }
    }

    pub fn max_raw(self) -> (max: u64)
        ensures
            max == self.spec_max_raw(),
    {
        match self {
            Width::W8 => 0xff,
            Width::W16 => 0xffff,
            Width::W32 => 0xffff_ffff,
            Width::W64 => 0xffff_ffff_ffff_ffff,
        }
    }

    /// Whether `count` ordinals, numbered from zero, all fit in this width.
    pub open spec fn spec_holds(self, count: nat) -> bool {
        count <= self.spec_max_raw() + 1
    }

    /// The capacity check: whether a table of `count` cases can be numbered
    /// in this width. An expansion does not make this check by itself.
    pub fn holds(self, count: usize) -> (enough: bool)
        ensures
            enough == self.spec_holds(count as nat),
    {
        count == 0 || (count - 1) as u64 <= self.max_raw()
    }

    /// The name of the backing integer type.
    pub open spec fn spec_integer_name(self) -> Seq<char> {
        match self {
            Width::W8 => "u8"@,
            Width::W16 => "u16"@,
            Width::W32 => "u32"@,
            Width::W64 => "u64"@,
        }
    }

    pub fn integer_name(self) -> (name: String)
        ensures
            name@ == self.spec_integer_name(),
    {
        match self {
            Width::W8 => String::from_str("u8"),
            Width::W16 => String::from_str("u16"),
            Width::W32 => String::from_str("u32"),
            Width::W64 => String::from_str("u64"),
        }
    }

    /// Reads a width from the name of its integer type.
    pub fn from_hint(hint: &String) -> (width: Option<Width>)
        ensures
            width == width_named(hint@),
    {
        if reads_as(hint, "u8") {
            Some(Width::W8)
        } else if reads_as(hint, "u16") {
            Some(Width::W16)
        } else if reads_as(hint, "u32") {
            Some(Width::W32)
        } else if reads_as(hint, "u64") {
            Some(Width::W64)
        } else {
            None
        }
    }
}

impl Default for Width {
    fn default() -> (width: Width)
        ensures
            width == Width::spec_default(),
    {
        Width::W32
    }
}

/// Whether `modifier` is a width modifier.
pub open spec fn selects_width<S>(modifier: Modifier<S>) -> bool {
    modifier.name@ == "repr"@
}

/// The supported width that `modifier` asks for: it must be a width modifier
/// whose only argument names one.
pub open spec fn requested_width<S>(modifier: Modifier<S>) -> Option<Width> {
    if selects_width(modifier) && modifier.arguments@.len() == 1 {
        width_named(modifier.arguments@[0]@)
    } else {
        None
    }
}

/// Whether `modifier` is a width modifier that asks for anything but one
/// supported width.
pub open spec fn is_unsupported_width<S>(modifier: Modifier<S>) -> bool {
    selects_width(modifier) && requested_width(modifier) is None
}

/// The width that a declaration with these modifiers gets: the one that its
/// last supported width modifier asks for, and the default where there is none.
pub open spec fn selected_width<S>(modifiers: Seq<Modifier<S>>) -> Width
    decreases modifiers.len(),
{
    if modifiers.len() == 0 {
        Width::spec_default()
    } else {
        match requested_width(modifiers.last()) {
            Some(width) => width,
            None => selected_width(modifiers.drop_last()),
        }
    }
}

/// What the width selector reports of the modifier at `position`.
pub open spec fn width_diagnostics<S>(modifier: Modifier<S>, position: usize) -> Seq<Diagnostic> {
    if is_unsupported_width(modifier) {
        seq![Diagnostic::UnsupportedWidth { modifier: position }]
    } else {
        Seq::empty()
    }
}

/// Reads the width that `modifier` asks for. The outer `None` says that it is
/// no width modifier at all; `Some(None)` that it is one and asks for nothing
/// supported.
pub fn read_width<S>(modifier: &Modifier<S>) -> (read: Option<Option<Width>>)
    ensures
        read is Some <==> selects_width(*modifier),
        read matches Some(width) ==> width == requested_width(*modifier),
{
    if !reads_as(&modifier.name, "repr") {
        None
    } else if modifier.arguments.len() == 1 {
        Some(Width::from_hint(&modifier.arguments[0]))
    } else {
        Some(None)
    }
}

/// Selects the width of a declaration from its modifiers.
pub fn select_width<S>(modifiers: &Vec<Modifier<S>>) -> (width: Width)
    ensures
        width == selected_width(modifiers@),
{
    let mut width = Width::default();
    let count = modifiers.len();
    let mut i: usize = 0;
    while i < count
        invariant
            i <= count == modifiers@.len(),
            width == selected_width(modifiers@.take(i as int)),
        decreases count - i,
    {
        proof {
            assert(modifiers@.take(i + 1).drop_last() == modifiers@.take(i as int));
        }
        match read_width(&modifiers[i]) {
            Some(Some(requested)) => {
                width = requested;
            },
            _ => {},
        }
        i += 1;
    }
    proof {
        assert(modifiers@.take(count as int) == modifiers@);
    }
    width
}

} // verus!
