//! Interned names that the rule compares against.

use vstd::prelude::*;

verus! {

/// An interned identifier. The front end maps every name it hands over to one of these.
pub type Symbol = u32;

/// The method name `eq`.
pub const EQ: Symbol = 1;

/// The method name `ne`.
pub const NE: Symbol = 2;

/// The method name `to_string`.
pub const TO_STRING: Symbol = 3;

/// The keyword `default`, the name of `Default`'s method.
pub const DEFAULT_KW: Symbol = 4;

/// Path segment `core`.
pub const CORE: Symbol = 5;

/// Path segment `cmp`.
pub const CMP: Symbol = 6;

/// Path segment `PartialEq`.
pub const PARTIAL_EQ: Symbol = 7;

/// Path segment `alloc`.
pub const ALLOC: Symbol = 8;

/// Path segment `string`.
pub const STRING: Symbol = 9;

/// Path segment `ToString`.
pub const TO_STRING_TRAIT: Symbol = 10;

/// Path segment `default` (the module).
pub const DEFAULT_MOD: Symbol = 11;

/// Path segment `Default`.
pub const DEFAULT_TRAIT: Symbol = 12;

/// Smallest symbol that the front end may use for names of its own.
pub const FIRST_FREE: Symbol = 100;

} // verus!
