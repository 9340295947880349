//! Identifier space of a trace: small integers with distinct types.
//!
//! Every handle is opaque outside the table that hands it out. A handle is
//! its own mathematical model: contracts speak of the wrapped integer.

use vstd::prelude::*;

verus! {

/// A mutable storage cell of the traced program: an address, an interpreter
/// slot, or whatever identifies one storage location for the recorder.
#[derive(Debug, Copy, Clone, PartialEq, Eq, PartialOrd, Ord, Hash, Structural)]
pub struct Place(pub i64);

/// Position of a call on the call stack; `-1` stands for "no call".
#[derive(Debug, Copy, Clone, PartialEq, Eq, Structural)]
pub struct CallKey(pub i64);

/// The sentinel call key: no call.
pub fn no_key() -> (r: CallKey)
    ensures
        r.0 == -1,
{
    CallKey(-1)
}

/// A source line.
#[derive(Debug, Copy, Clone, PartialEq, Eq, Structural)]
pub struct Line(pub i64);

/// Index into the path table.
#[derive(Debug, Copy, Clone, PartialEq, Eq, PartialOrd, Ord, Hash, Structural)]
pub struct PathId(pub usize);

/// Position of a step in the stream of steps.
#[derive(Debug, Copy, Clone, PartialEq, Eq, PartialOrd, Ord, Structural)]
pub struct StepId(pub i64);

/// Index into the table of variable names.
#[derive(Debug, Copy, Clone, PartialEq, Eq, PartialOrd, Ord, Hash, Structural)]
pub struct VariableId(pub usize);

/// Index into the function table.
#[derive(Debug, Copy, Clone, PartialEq, Eq, Structural)]
pub struct FunctionId(pub usize);

/// Index into the type table.
#[derive(Debug, Copy, Clone, PartialEq, Eq, Structural)]
pub struct TypeId(pub usize);

impl Default for Place {
    fn default() -> (r: Self)
        ensures
            r == Place(0),
    {
        Place(0)
    }
}

impl Default for CallKey {
    fn default() -> (r: Self)
        ensures
            r == CallKey(0),
    {
        CallKey(0)
    }
}

impl Default for Line {
    fn default() -> (r: Self)
        ensures
            r == Line(0),
    {
        Line(0)
    }
}

impl Default for PathId {
    fn default() -> (r: Self)
        ensures
            r == PathId(0),
    {
        PathId(0)
    }
}

impl Default for StepId {
    fn default() -> (r: Self)
        ensures
            r == StepId(0),
    {
        StepId(0)
    }
}

impl Default for VariableId {
    fn default() -> (r: Self)
        ensures
            r == VariableId(0),
    {
        VariableId(0)
    }
}

impl Default for TypeId {
    fn default() -> (r: Self)
        ensures
            r == TypeId(0),
    {
        TypeId(0)
    }
}

/// The key as an index: the wrapped integer, cut down to the width of `usize`.
impl Into<usize> for CallKey {
    fn into(self) -> usize {
        self.0 as usize
    }
}

impl vstd::std_specs::convert::IntoSpecImpl<usize> for CallKey {
    open spec fn obeys_into_spec() -> bool {
        true
    }

    open spec fn into_spec(self) -> usize {
        self.0 as usize
    }
}

/// The line as an index: the wrapped integer, cut down to the width of `usize`.
impl Into<usize> for Line {
    fn into(self) -> usize {
        self.0 as usize
    }
}

impl vstd::std_specs::convert::IntoSpecImpl<usize> for Line {
    open spec fn obeys_into_spec() -> bool {
        true
    }

    open spec fn into_spec(self) -> usize {
        self.0 as usize
    }
}

/// The line as a plain integer.
impl Into<i64> for Line {
    fn into(self) -> i64 {
        self.0
    }
}

impl vstd::std_specs::convert::IntoSpecImpl<i64> for Line {
    open spec fn obeys_into_spec() -> bool {
        true
    }

    open spec fn into_spec(self) -> i64 {
        self.0
    }
}

/// The index into the path table.
impl Into<usize> for PathId {
    fn into(self) -> usize {
        self.0
    }
}

impl vstd::std_specs::convert::IntoSpecImpl<usize> for PathId {
    open spec fn obeys_into_spec() -> bool {
        true
    }

    open spec fn into_spec(self) -> usize {
        self.0
    }
}

/// The step as an index: the wrapped integer, cut down to the width of `usize`.
impl Into<usize> for StepId {
    fn into(self) -> usize {
        self.0 as usize
    }
}

impl vstd::std_specs::convert::IntoSpecImpl<usize> for StepId {
    open spec fn obeys_into_spec() -> bool {
        true
    }

    open spec fn into_spec(self) -> usize {
        self.0 as usize
    }
}

/// The index into the table of variable names.
impl Into<usize> for VariableId {
    fn into(self) -> usize {
        self.0
    }
}

impl vstd::std_specs::convert::IntoSpecImpl<usize> for VariableId {
    open spec fn obeys_into_spec() -> bool {
        true
    }

    open spec fn into_spec(self) -> usize {
        self.0
    }
}

/// The index into the function table.
impl Into<usize> for FunctionId {
    fn into(self) -> usize {
        self.0
    }
}

impl vstd::std_specs::convert::IntoSpecImpl<usize> for FunctionId {
    open spec fn obeys_into_spec() -> bool {
        true
    }

    open spec fn into_spec(self) -> usize {
        self.0
    }
}

/// The index into the type table.
impl Into<usize> for TypeId {
    fn into(self) -> usize {
        self.0
    }
}

impl vstd::std_specs::convert::IntoSpecImpl<usize> for TypeId {
    open spec fn obeys_into_spec() -> bool {
        true
    }

    open spec fn into_spec(self) -> usize {
        self.0
    }
}

/// Moves a call key up by `arg` positions; the sum has to fit in an `i64`.
impl core::ops::Add<usize> for CallKey {
    type Output = CallKey;

    fn add(self, arg: usize) -> CallKey {
        CallKey(self.0 + arg as i64)
    }
}

impl vstd::std_specs::ops::AddSpecImpl<usize> for CallKey {
    open spec fn obeys_add_spec() -> bool {
        true
    }

    open spec fn add_req(self, arg: usize) -> bool {
        arg <= i64::MAX && self.0 + arg <= i64::MAX
    }

    open spec fn add_spec(self, arg: usize) -> CallKey {
        CallKey((self.0 + arg) as i64)
    }
}

/// Moves a step id forward by `arg` steps; the sum has to fit in an `i64`.
impl core::ops::Add<usize> for StepId {
    type Output = StepId;

    fn add(self, arg: usize) -> StepId {
        StepId(self.0 + arg as i64)
    }
}

impl vstd::std_specs::ops::AddSpecImpl<usize> for StepId {
    open spec fn obeys_add_spec() -> bool {
        true
    }

    open spec fn add_req(self, arg: usize) -> bool {
        arg <= i64::MAX && self.0 + arg <= i64::MAX
    }

    open spec fn add_spec(self, arg: usize) -> StepId {
        StepId((self.0 + arg) as i64)
    }
}

/// Moves a step id back by `arg` steps; the difference has to fit in an `i64`.
impl core::ops::Sub<usize> for StepId {
    type Output = StepId;

    fn sub(self, arg: usize) -> StepId {
        StepId(self.0 - arg as i64)
    }
}

impl vstd::std_specs::ops::SubSpecImpl<usize> for StepId {
    open spec fn obeys_sub_spec() -> bool {
        true
    }

    open spec fn sub_req(self, arg: usize) -> bool {
        arg <= i64::MAX && i64::MIN <= self.0 - arg
    }

    open spec fn sub_spec(self, arg: usize) -> StepId {
        StepId((self.0 - arg) as i64)
    }
}

/// Moves a call key up by `arg` positions, in place.
impl core::ops::AddAssign<usize> for CallKey {
    fn add_assign(&mut self, arg: usize)
        requires
            arg <= i64::MAX,
            old(self).0 + arg <= i64::MAX,
        ensures
            final(self).0 == old(self).0 + arg,
    {
        self.0 += arg as i64;
    }
}

} // verus!
