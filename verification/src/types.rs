//! The language-neutral classification of source types and what each class
//! means on the target side.

use vstd::prelude::*;

verus! {

/// Language-neutral class of a source type.
#[derive(Clone, Copy, Debug, PartialEq, Eq, Structural)]
pub enum CanonicalType {
    Int8,
    Int16,
    Int32,
    Int64,
    UInt8,
    UInt16,
    UInt32,
    UInt64,
    Float32,
    Float64,
    Bool,
    Str,
    Opaque,
}

/// Value class under which an argument or result crosses a dynamic call.
#[derive(Clone, Copy, Debug, PartialEq, Eq, Structural)]
pub enum DynamicTag {
    Int32Class,
    Float32Class,
    Float64Class,
}

/// What a source type becomes on the target side.
#[derive(Clone, Debug, PartialEq, Eq)]
pub struct TypeMapping {
    pub canonical: CanonicalType,
    pub target_surface_type: String,
    pub dynamic_tag: DynamicTag,
    pub slot_width: usize,
}

/// Mathematical model of a [`TypeMapping`].
pub struct TypeMappingView {
    pub canonical: CanonicalType,
    pub target_surface_type: Seq<char>,
    pub dynamic_tag: DynamicTag,
    pub slot_width: nat,
}

/// Slots that a value of class `c` takes in a flattened argument list: a
/// string travels as two values, everything else as one.
pub open spec fn slot_width_of(c: CanonicalType) -> nat {
    if c == CanonicalType::Str {
        2
    } else {
        1
    }
}

/// The spelling of a dynamic tag.
pub open spec fn tag_name(tag: DynamicTag) -> Seq<char> {
    match tag {
        DynamicTag::Int32Class => "i32"@,
        DynamicTag::Float32Class => "f32"@,
        DynamicTag::Float64Class => "f64"@,
    }
}

/// The value class under which a class crosses a dynamic call: the two
/// floating-point classes keep their own, everything else travels as a
/// 32-bit integer.
pub open spec fn tag_of(c: CanonicalType) -> DynamicTag {
    match c {
        CanonicalType::Float32 => DynamicTag::Float32Class,
        CanonicalType::Float64 => DynamicTag::Float64Class,
        _ => DynamicTag::Int32Class,
    }
}

/// The mapping of a class under a spelling on the target side: the tag and
/// the slot width follow from the class.
pub open spec fn class_mapping(c: CanonicalType, surface: Seq<char>) -> TypeMappingView {
    TypeMappingView {
        canonical: c,
        target_surface_type: surface,
        dynamic_tag: tag_of(c),
        slot_width: slot_width_of(c),
    }
}

impl TypeMappingView {
    /// The slot width is the one that the canonical class prescribes.
    pub open spec fn wf(self) -> bool {
        self.slot_width == slot_width_of(self.canonical)
    }
}

impl View for TypeMapping {
    type V = TypeMappingView;

    open spec fn view(&self) -> TypeMappingView {
        TypeMappingView {
            canonical: self.canonical,
            target_surface_type: self.target_surface_type@,
            dynamic_tag: self.dynamic_tag,
            slot_width: self.slot_width as nat,
        }
    }
}

impl DeepView for TypeMapping {
    type V = TypeMappingView;

    open spec fn deep_view(&self) -> TypeMappingView {
        self.view()
    }
}

impl DynamicTag {
    /// The spelling of this tag.
    pub fn name(&self) -> (r: String)
        ensures
            r@ == tag_name(*self),
    {
        match self {
            DynamicTag::Int32Class => String::from_str("i32"),
            DynamicTag::Float32Class => String::from_str("f32"),
            DynamicTag::Float64Class => String::from_str("f64"),
        }
    }
}

impl TypeMapping {
    /// The mapping of a class under a spelling on the target side.
    pub fn of_class(c: CanonicalType, surface: &str) -> (m: TypeMapping)
        ensures
            m@ == class_mapping(c, surface@),
            m@.wf(),
    {
        let tag = match c {
            CanonicalType::Float32 => DynamicTag::Float32Class,
            CanonicalType::Float64 => DynamicTag::Float64Class,
            _ => DynamicTag::Int32Class,
        };
        let width: usize = match c {
            CanonicalType::Str => 2,
            _ => 1,
        };
        TypeMapping {
            canonical: c,
            target_surface_type: String::from_str(surface),
            dynamic_tag: tag,
            slot_width: width,
        }
    }
}

} // verus!
