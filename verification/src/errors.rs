//! The fatal errors that abort processing of a module.

use vstd::prelude::*;

verus! {

/// Why processing of a module was aborted. Every error is fatal: no entry
/// generated for the module is emitted once one of these is raised.
#[derive(Clone, Copy, Debug, PartialEq, Eq, Structural)]
pub enum ErrorKind {
    /// A role annotation sits on the wrong kind of declaration.
    KindMismatch,
    /// A guard annotation follows a role annotation on the same item.
    GuardPlacement,
    /// An attribute-role annotation follows a non-attribute role item.
    CompositionOrder,
    /// A pending attribute-role prefix is followed by a role that cannot
    /// compose with it (only the class-like role can).
    UnsupportedComposition,
    /// A second composing role appears on an item whose composition closed.
    MultipleComposition,
    /// A class-like item has no attribute-role prefix and no opt-out marker.
    MissingExposure,
    /// An import alias under an attribute role is not a plain or renamed
    /// single-segment path.
    UnsupportedPath,
    /// Two entries of the module resolve to the same binding name.
    NameCollision,
    /// A bare attribute role carries no explicit binding name.
    MissingBindingName,
    /// The module's resolved name is empty or not identifier-safe.
    InvalidModuleName,
}

/// A fatal diagnostic: the error's kind together with the source location of
/// the offending annotation. Locations are opaque tokens handed in by the
/// parser; the location is `0` when no single annotation is at fault (as for
/// an invalid module name).
#[derive(Clone, Copy, Debug, PartialEq, Eq, Structural)]
pub struct ModuleError {
    pub kind: ErrorKind,
    pub loc: usize,
}

} // verus!
