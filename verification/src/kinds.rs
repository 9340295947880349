//! The two enumerations of the trace format, with their stable numbering.

use vstd::prelude::*;

verus! {

/// Category of a recorded type, used for generic rendering.
///
/// The order of the variants is part of the wire format: a kind is written as
/// its position in this list. New kinds go to the end.
#[derive(Debug, Copy, Clone, PartialEq, Eq, Structural)]
pub enum TypeKind {
    SeqKind,
    SetKind,
    HashSet,
    OrderedSet,
    Array,
    Varargs,
    Struct,
    Int,
    Float,
    String,
    CString,
    Char,
    Bool,
    Literal,
    Ref,
    Recursion,
    Raw,
    Enum,
    Enum16,
    Enum32,
    C,
    TableKind,
    Union,
    Pointer,
    Error,
    FunctionKind,
    TypeValue,
    Tuple,
    Variant,
    Html,
    NoneKind,
    NonExpanded,
    Any,
    Slice,
}

impl Default for TypeKind {
    fn default() -> (r: Self)
        ensures
            r == TypeKind::SeqKind,
    {
        TypeKind::SeqKind
    }
}

impl TypeKind {
    /// Number of type kinds.
    pub open spec fn count() -> nat {
        34
    }

    /// The position of a kind in the declaration order, starting at 0.
    pub open spec fn ordinal(self) -> nat {
        match self {
            TypeKind::SeqKind => 0,
            TypeKind::SetKind => 1,
            TypeKind::HashSet => 2,
            TypeKind::OrderedSet => 3,
            TypeKind::Array => 4,
            TypeKind::Varargs => 5,
            TypeKind::Struct => 6,
            TypeKind::Int => 7,
            TypeKind::Float => 8,
            TypeKind::String => 9,
            TypeKind::CString => 10,
            TypeKind::Char => 11,
            TypeKind::Bool => 12,
            TypeKind::Literal => 13,
            TypeKind::Ref => 14,
            TypeKind::Recursion => 15,
            TypeKind::Raw => 16,
            TypeKind::Enum => 17,
            TypeKind::Enum16 => 18,
            TypeKind::Enum32 => 19,
            TypeKind::C => 20,
            TypeKind::TableKind => 21,
            TypeKind::Union => 22,
            TypeKind::Pointer => 23,
            TypeKind::Error => 24,
            TypeKind::FunctionKind => 25,
            TypeKind::TypeValue => 26,
            TypeKind::Tuple => 27,
            TypeKind::Variant => 28,
            TypeKind::Html => 29,
            TypeKind::NoneKind => 30,
            TypeKind::NonExpanded => 31,
            TypeKind::Any => 32,
            TypeKind::Slice => 33,
        }
    }

    /// The kind at a position, if there is one.
    pub open spec fn at(n: nat) -> Option<TypeKind> {
        if n == 0 {
            Some(TypeKind::SeqKind)
        } else if n == 1 {
            Some(TypeKind::SetKind)
        } else if n == 2 {
            Some(TypeKind::HashSet)
        } else if n == 3 {
            Some(TypeKind::OrderedSet)
        } else if n == 4 {
            Some(TypeKind::Array)
        } else if n == 5 {
            Some(TypeKind::Varargs)
        } else if n == 6 {
            Some(TypeKind::Struct)
        } else if n == 7 {
            Some(TypeKind::Int)
        } else if n == 8 {
            Some(TypeKind::Float)
        } else if n == 9 {
            Some(TypeKind::String)
        } else if n == 10 {
            Some(TypeKind::CString)
        } else if n == 11 {
            Some(TypeKind::Char)
        } else if n == 12 {
            Some(TypeKind::Bool)
        } else if n == 13 {
            Some(TypeKind::Literal)
        } else if n == 14 {
            Some(TypeKind::Ref)
        } else if n == 15 {
            Some(TypeKind::Recursion)
        } else if n == 16 {
            Some(TypeKind::Raw)
        } else if n == 17 {
            Some(TypeKind::Enum)
        } else if n == 18 {
            Some(TypeKind::Enum16)
        } else if n == 19 {
            Some(TypeKind::Enum32)
        } else if n == 20 {
            Some(TypeKind::C)
        } else if n == 21 {
            Some(TypeKind::TableKind)
        } else if n == 22 {
            Some(TypeKind::Union)
        } else if n == 23 {
            Some(TypeKind::Pointer)
        } else if n == 24 {
            Some(TypeKind::Error)
        } else if n == 25 {
            Some(TypeKind::FunctionKind)
        } else if n == 26 {
            Some(TypeKind::TypeValue)
        } else if n == 27 {
            Some(TypeKind::Tuple)
        } else if n == 28 {
            Some(TypeKind::Variant)
        } else if n == 29 {
            Some(TypeKind::Html)
        } else if n == 30 {
            Some(TypeKind::NoneKind)
        } else if n == 31 {
            Some(TypeKind::NonExpanded)
        } else if n == 32 {
            Some(TypeKind::Any)
        } else if n == 33 {
            Some(TypeKind::Slice)
        } else {
            None
        }
    }

    /// The number a kind is written as.
    pub fn to_u8(self) -> (n: u8)
        ensures
            n == self.ordinal(),
            n < Self::count(),
    {
        match self {
            TypeKind::SeqKind => 0,
            TypeKind::SetKind => 1,
            TypeKind::HashSet => 2,
            TypeKind::OrderedSet => 3,
            TypeKind::Array => 4,
            TypeKind::Varargs => 5,
            TypeKind::Struct => 6,
            TypeKind::Int => 7,
            TypeKind::Float => 8,
            TypeKind::String => 9,
            TypeKind::CString => 10,
            TypeKind::Char => 11,
            TypeKind::Bool => 12,
            TypeKind::Literal => 13,
            TypeKind::Ref => 14,
            TypeKind::Recursion => 15,
            TypeKind::Raw => 16,
            TypeKind::Enum => 17,
            TypeKind::Enum16 => 18,
            TypeKind::Enum32 => 19,
            TypeKind::C => 20,
            TypeKind::TableKind => 21,
            TypeKind::Union => 22,
            TypeKind::Pointer => 23,
            TypeKind::Error => 24,
            TypeKind::FunctionKind => 25,
            TypeKind::TypeValue => 26,
            TypeKind::Tuple => 27,
            TypeKind::Variant => 28,
            TypeKind::Html => 29,
            TypeKind::NoneKind => 30,
            TypeKind::NonExpanded => 31,
            TypeKind::Any => 32,
            TypeKind::Slice => 33,
        }
    }

    /// Reads a kind back from its number; `None` for a number that stands for
    /// no kind.
    pub fn from_u8(n: u8) -> (r: Option<TypeKind>)
        ensures
            r == Self::at(n as nat),
            r is Some <==> n < Self::count(),
    {
        match n {
            0 => Some(TypeKind::SeqKind),
            1 => Some(TypeKind::SetKind),
            2 => Some(TypeKind::HashSet),
            3 => Some(TypeKind::OrderedSet),
            4 => Some(TypeKind::Array),
            5 => Some(TypeKind::Varargs),
            6 => Some(TypeKind::Struct),
            7 => Some(TypeKind::Int),
            8 => Some(TypeKind::Float),
            9 => Some(TypeKind::String),
            10 => Some(TypeKind::CString),
            11 => Some(TypeKind::Char),
            12 => Some(TypeKind::Bool),
            13 => Some(TypeKind::Literal),
            14 => Some(TypeKind::Ref),
            15 => Some(TypeKind::Recursion),
            16 => Some(TypeKind::Raw),
            17 => Some(TypeKind::Enum),
            18 => Some(TypeKind::Enum16),
            19 => Some(TypeKind::Enum32),
            20 => Some(TypeKind::C),
            21 => Some(TypeKind::TableKind),
            22 => Some(TypeKind::Union),
            23 => Some(TypeKind::Pointer),
            24 => Some(TypeKind::Error),
            25 => Some(TypeKind::FunctionKind),
            26 => Some(TypeKind::TypeValue),
            27 => Some(TypeKind::Tuple),
            28 => Some(TypeKind::Variant),
            29 => Some(TypeKind::Html),
            30 => Some(TypeKind::NoneKind),
            31 => Some(TypeKind::NonExpanded),
            32 => Some(TypeKind::Any),
            33 => Some(TypeKind::Slice),
            _ => None,
        }
    }

    /// Writing a kind and reading the number back gives the kind again, and
    /// two kinds with one number are one kind.
    pub proof fn lemma_ordinal_round_trip(self)
        ensures
            self.ordinal() < Self::count(),
            Self::at(self.ordinal()) == Some(self),
    {
    }

    /// A number below the count stands for exactly one kind, and that kind is
    /// written as this number.
    pub proof fn lemma_at_round_trip(n: nat)
        ensures
            n < Self::count() <==> Self::at(n) is Some,
            Self::at(n) matches Some(k) ==> k.ordinal() == n,
    {
    }
}

/// Kind of an I/O or log event that a trace can mark.
///
/// The order of the variants is part of the wire format: a kind is written as
/// its position in this list. New kinds go to the end.
#[derive(Debug, Copy, Clone, PartialEq, Eq, Structural)]
pub enum EventLogKind {
    Write,
    WriteFile,
    WriteOther,
    Read,
    ReadFile,
    ReadOther,
    ReadDir,
    OpenDir,
    CloseDir,
    Socket,
    Open,
    Error,
    TraceLogEvent,
}

impl Default for EventLogKind {
    fn default() -> (r: Self)
        ensures
            r == EventLogKind::Write,
    {
        EventLogKind::Write
    }
}

impl EventLogKind {
    /// Number of event kinds.
    pub open spec fn count() -> nat {
        13
    }

    /// The position of a kind in the declaration order, starting at 0.
    pub open spec fn ordinal(self) -> nat {
        match self {
            EventLogKind::Write => 0,
            EventLogKind::WriteFile => 1,
            EventLogKind::WriteOther => 2,
            EventLogKind::Read => 3,
            EventLogKind::ReadFile => 4,
            EventLogKind::ReadOther => 5,
            EventLogKind::ReadDir => 6,
            EventLogKind::OpenDir => 7,
            EventLogKind::CloseDir => 8,
            EventLogKind::Socket => 9,
            EventLogKind::Open => 10,
            EventLogKind::Error => 11,
            EventLogKind::TraceLogEvent => 12,
        }
    }

    /// The kind at a position, if there is one.
    pub open spec fn at(n: nat) -> Option<EventLogKind> {
        if n == 0 {
            Some(EventLogKind::Write)
        } else if n == 1 {
            Some(EventLogKind::WriteFile)
        } else if n == 2 {
            Some(EventLogKind::WriteOther)
        } else if n == 3 {
            Some(EventLogKind::Read)
        } else if n == 4 {
            Some(EventLogKind::ReadFile)
        } else if n == 5 {
            Some(EventLogKind::ReadOther)
        } else if n == 6 {
            Some(EventLogKind::ReadDir)
        } else if n == 7 {
            Some(EventLogKind::OpenDir)
        } else if n == 8 {
            Some(EventLogKind::CloseDir)
        } else if n == 9 {
            Some(EventLogKind::Socket)
        } else if n == 10 {
            Some(EventLogKind::Open)
        } else if n == 11 {
            Some(EventLogKind::Error)
        } else if n == 12 {
            Some(EventLogKind::TraceLogEvent)
        } else {
            None
        }
    }

    /// The number a kind is written as.
    pub fn to_u8(self) -> (n: u8)
        ensures
            n == self.ordinal(),
            n < Self::count(),
    {
        match self {
            EventLogKind::Write => 0,
            EventLogKind::WriteFile => 1,
            EventLogKind::WriteOther => 2,
            EventLogKind::Read => 3,
            EventLogKind::ReadFile => 4,
            EventLogKind::ReadOther => 5,
            EventLogKind::ReadDir => 6,
            EventLogKind::OpenDir => 7,
            EventLogKind::CloseDir => 8,
            EventLogKind::Socket => 9,
            EventLogKind::Open => 10,
            EventLogKind::Error => 11,
            EventLogKind::TraceLogEvent => 12,
        }
    }

    /// Reads a kind back from its number; `None` for a number that stands for
    /// no kind.
    pub fn from_u8(n: u8) -> (r: Option<EventLogKind>)
        ensures
            r == Self::at(n as nat),
            r is Some <==> n < Self::count(),
    {
        match n {
            0 => Some(EventLogKind::Write),
            1 => Some(EventLogKind::WriteFile),
            2 => Some(EventLogKind::WriteOther),
            3 => Some(EventLogKind::Read),
            4 => Some(EventLogKind::ReadFile),
            5 => Some(EventLogKind::ReadOther),
            6 => Some(EventLogKind::ReadDir),
            7 => Some(EventLogKind::OpenDir),
            8 => Some(EventLogKind::CloseDir),
            9 => Some(EventLogKind::Socket),
            10 => Some(EventLogKind::Open),
            11 => Some(EventLogKind::Error),
            12 => Some(EventLogKind::TraceLogEvent),
            _ => None,
        }
    }

    /// Writing a kind and reading the number back gives the kind again, and
    /// two kinds with one number are one kind.
    pub proof fn lemma_ordinal_round_trip(self)
        ensures
            self.ordinal() < Self::count(),
            Self::at(self.ordinal()) == Some(self),
    {
    }

    /// A number below the count stands for exactly one kind, and that kind is
    /// written as this number.
    pub proof fn lemma_at_round_trip(n: nat)
        ensures
            n < Self::count() <==> Self::at(n) is Some,
            Self::at(n) matches Some(k) ==> k.ordinal() == n,
    {
    }
}

} // verus!
