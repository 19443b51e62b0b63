//! What the GPU side knows of the types that fields are declared with: the
//! shape in which a value of the type is bound, and the vertex formats that it
//! expands to as vertex input.

use crate::search::{first_match, lemma_first_match_absent, lemma_first_match_found};
use vstd::prelude::*;

verus! {

/// The shape that a value takes when it is bound to the GPU.
#[derive(Clone, Copy, Debug, PartialEq, Eq, Structural)]
pub enum FieldBindType {
    /// A plain uniform of `size` bytes.
    Uniform { size: usize },
    /// A raw buffer of `size` bytes.
    Buffer { size: usize },
    /// A texture with its sampler.
    Texture,
}

/// One component of vertex input: the table's tag for its format, and the
/// bytes that it takes in a vertex record.
#[derive(Clone, Copy, Debug, PartialEq, Eq, Structural)]
pub struct VertexFormat {
    pub tag: u32,
    pub size: u64,
}

/// What is known of one type.
#[derive(Clone, Debug, PartialEq, Eq)]
pub struct TypeEntry {
    /// The type's name, as fields are declared with it.
    pub ty: String,
    /// The shape in which the type binds by itself, if it binds at all.
    pub bind_type: Option<FieldBindType>,
    /// The components that the type expands to as vertex input, in order.
    pub formats: Vec<VertexFormat>,
}

pub struct TypeEntryView {
    pub ty: Seq<char>,
    pub bind_type: Option<FieldBindType>,
    pub formats: Seq<VertexFormat>,
}

impl View for TypeEntry {
    type V = TypeEntryView;

    open spec fn view(&self) -> TypeEntryView {
        TypeEntryView { ty: self.ty@, bind_type: self.bind_type, formats: self.formats@ }
    }
}

/// The table of types. Where a type is listed twice, its first entry counts.
#[derive(Clone, Debug, PartialEq, Eq)]
pub struct GpuFormatTable {
    pub entries: Vec<TypeEntry>,
}

impl View for GpuFormatTable {
    type V = Seq<TypeEntryView>;

    open spec fn view(&self) -> Seq<TypeEntryView> {
        self.entries@.map_values(|entry: TypeEntry| entry@)
    }
}

/// The entries that describe the type `ty`.
pub open spec fn describes(ty: Seq<char>) -> spec_fn(TypeEntryView) -> bool {
    |entry: TypeEntryView| entry.ty == ty
}

/// The entry that counts for the type `ty`.
pub open spec fn entry_of(table: Seq<TypeEntryView>, ty: Seq<char>) -> Option<TypeEntryView> {
    match first_match(table, describes(ty)) {
        Some(i) => Some(table[i]),
        None => None,
    }
}

/// The shape in which the type `ty` binds by itself: none where the table
/// does not list the type, or lists it without one.
pub open spec fn bind_type_of(table: Seq<TypeEntryView>, ty: Seq<char>) -> Option<FieldBindType> {
    match entry_of(table, ty) {
        Some(entry) => entry.bind_type,
        None => None,
    }
}

/// The vertex formats of the type `ty`, where the table lists the type.
pub open spec fn formats_of(table: Seq<TypeEntryView>, ty: Seq<char>) -> Option<Seq<VertexFormat>> {
    match entry_of(table, ty) {
        Some(entry) => Some(entry.formats),
        None => None,
    }
}

impl GpuFormatTable {
    /// The entry that counts for the type `ty`.
    pub fn entry(&self, ty: &str) -> (r: Option<&TypeEntry>)
        ensures
            match r {
                Some(entry) => entry_of(self@, ty@) == Some(entry@),
                None => entry_of(self@, ty@) is None,
            },
    {
        let wanted: String = ty.to_owned();
        let ghost table = self@;
        let mut i: usize = 0;
        while i < self.entries.len()
            invariant
                i <= self.entries.len(),
                table == self@,
                wanted@ == ty@,
                forall|j: int| 0 <= j < i ==> !describes(ty@)(#[trigger] table[j]),
            decreases self.entries.len() - i,
        {
            assert(table[i as int] == self.entries[i as int]@);
            if self.entries[i].ty == wanted {
                proof {
                    lemma_first_match_found(table, describes(ty@), i as int);
                }
                return Some(&self.entries[i]);
            }
            i += 1;
        }
        proof {
            lemma_first_match_absent(table, describes(ty@));
        }
        None
    }

    /// The shape in which the type `ty` binds by itself.
    pub fn bind_type(&self, ty: &str) -> (r: Option<FieldBindType>)
        ensures
            r == bind_type_of(self@, ty@),
    {
        match self.entry(ty) {
            Some(entry) => entry.bind_type,
            None => None,
        }
    }

    /// The vertex formats of the type `ty`, where the table lists the type.
    pub fn formats(&self, ty: &str) -> (r: Option<&Vec<VertexFormat>>)
        ensures
            match r {
                Some(formats) => formats_of(self@, ty@) == Some(formats@),
                None => formats_of(self@, ty@) is None,
            },
    {
        match self.entry(ty) {
            Some(entry) => Some(&entry.formats),
            None => None,
        }
    }
}

} // verus!
