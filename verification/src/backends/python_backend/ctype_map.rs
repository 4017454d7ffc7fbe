//! The ctypes spellings of primitive types, for Python output.
use vstd::prelude::*;

use crate::type_map::{PrimitiveType, TargetLanguage, TypeMap};

verus! {

/// The ctypes spelling of a primitive type, if ctypes has a native type for it (it has none for
/// `I128`, `U128` and `Void`).
pub open spec fn ctypes_spelling(p: PrimitiveType) -> Option<Seq<char>> {
    match p {
        PrimitiveType::Bool => Some("ctypes.c_bool"@),
        PrimitiveType::I8 => Some("ctypes.c_int8"@),
        PrimitiveType::U8 => Some("ctypes.c_uint8"@),
        PrimitiveType::I16 => Some("ctypes.c_int16"@),
        PrimitiveType::U16 => Some("ctypes.c_uint16"@),
        PrimitiveType::I32 => Some("ctypes.c_int32"@),
        PrimitiveType::U32 => Some("ctypes.c_uint32"@),
        PrimitiveType::I64 => Some("ctypes.c_int64"@),
        PrimitiveType::U64 => Some("ctypes.c_uint64"@),
        PrimitiveType::ISize => Some("ctypes.c_ssize_t"@),
        PrimitiveType::USize => Some("ctypes.c_size_t"@),
        PrimitiveType::F32 => Some("ctypes.c_float"@),
        PrimitiveType::F64 => Some("ctypes.c_double"@),
        PrimitiveType::Char => Some("ctypes.c_char"@),
        PrimitiveType::Str => Some("ctypes.c_char_p"@),
        _ => None,
    }
}

/// Build a [`TypeMap`] with ctypes spellings for Python output.
///
/// The built-in table covers what ctypes has native types for. [`PrimitiveType::I128`],
/// [`PrimitiveType::U128`] and [`PrimitiveType::Void`] are absent: ctypes has no native type for
/// them. Use this as the type map of a Python conversion.
pub fn ctypes_type_map() -> (r: TypeMap)
    ensures
        forall|p: PrimitiveType, l: TargetLanguage| #[trigger] r@.contains_key((p, l)) <==> (l == TargetLanguage::Python
            && ctypes_spelling(p) is Some),
        forall|p: PrimitiveType|
            #[trigger] ctypes_spelling(p) matches Some(s) ==> r@[(p, TargetLanguage::Python)] == s,
{
    let mut map = TypeMap::default();
    map.set_output(PrimitiveType::Bool, TargetLanguage::Python, "ctypes.c_bool");
    map.set_output(PrimitiveType::I8, TargetLanguage::Python, "ctypes.c_int8");
    map.set_output(PrimitiveType::U8, TargetLanguage::Python, "ctypes.c_uint8");
    map.set_output(PrimitiveType::I16, TargetLanguage::Python, "ctypes.c_int16");
    map.set_output(PrimitiveType::U16, TargetLanguage::Python, "ctypes.c_uint16");
    map.set_output(PrimitiveType::I32, TargetLanguage::Python, "ctypes.c_int32");
    map.set_output(PrimitiveType::U32, TargetLanguage::Python, "ctypes.c_uint32");
    map.set_output(PrimitiveType::I64, TargetLanguage::Python, "ctypes.c_int64");
    map.set_output(PrimitiveType::U64, TargetLanguage::Python, "ctypes.c_uint64");
    map.set_output(PrimitiveType::ISize, TargetLanguage::Python, "ctypes.c_ssize_t");
    map.set_output(PrimitiveType::USize, TargetLanguage::Python, "ctypes.c_size_t");
    map.set_output(PrimitiveType::F32, TargetLanguage::Python, "ctypes.c_float");
    map.set_output(PrimitiveType::F64, TargetLanguage::Python, "ctypes.c_double");
    map.set_output(PrimitiveType::Char, TargetLanguage::Python, "ctypes.c_char");
    map.set_output(PrimitiveType::Str, TargetLanguage::Python, "ctypes.c_char_p");
    map
}

} // verus!
