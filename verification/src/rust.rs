//! The names of types in the generated Rust code.

use crate::abi::{AbiType, AbiTypeView, NumType};
use vstd::prelude::*;
use vstd::string::StringExecFns;

verus! {

/// The name of a number type.
pub open spec fn spec_num_type(num: NumType) -> Seq<char> {
    match num {
        NumType::U8 => "u8"@,
        NumType::U16 => "u16"@,
        NumType::U32 => "u32"@,
        NumType::U64 => "u64"@,
        NumType::I8 => "i8"@,
        NumType::I16 => "i16"@,
        NumType::I32 => "i32"@,
        NumType::I64 => "i64"@,
        NumType::F32 => "f32"@,
        NumType::F64 => "f64"@,
    }
}

/// Returns the name of a number type.
pub fn num_type(num: NumType) -> (name: &'static str)
    ensures
        name@ == spec_num_type(num),
{
    match num {
        NumType::U8 => "u8",
        NumType::U16 => "u16",
        NumType::U32 => "u32",
        NumType::U64 => "u64",
        NumType::I8 => "i8",
        NumType::I16 => "i16",
        NumType::I32 => "i32",
        NumType::I64 => "i64",
        NumType::F32 => "f32",
        NumType::F64 => "f64",
    }
}

/// Whether the generated Rust code can name a type: handles, futures,
/// streams and tuples have no name of their own, nor has a type that
/// holds one of them.
pub open spec fn nameable(ty: AbiTypeView) -> bool
    decreases ty,
{
    match ty {
        AbiTypeView::Option(inner) => nameable(*inner),
        AbiTypeView::Result(inner) => nameable(*inner),
        AbiTypeView::RefObject(_) | AbiTypeView::Object(_) | AbiTypeView::RefFuture(_)
        | AbiTypeView::Future(_) | AbiTypeView::RefStream(_) | AbiTypeView::Stream(_)
        | AbiTypeView::Tuple(_) => false,
        _ => true,
    }
}

/// The name of a type.
pub open spec fn spec_ty(ty: AbiTypeView) -> Seq<char>
    decreases ty,
{
    match ty {
        AbiTypeView::Num(num) => spec_num_type(num),
        AbiTypeView::Isize => "isize"@,
        AbiTypeView::Usize => "usize"@,
        AbiTypeView::Bool => "bool"@,
        AbiTypeView::RefStr => "&str"@,
        AbiTypeView::String => "String"@,
        AbiTypeView::RefSlice(num) => "&["@ + spec_num_type(num) + "]"@,
        AbiTypeView::Vec(num) => "Vec<"@ + spec_num_type(num) + ">"@,
        AbiTypeView::Option(inner) => "Option<"@ + spec_ty(*inner) + ">"@,
        AbiTypeView::Result(inner) => "Result<"@ + spec_ty(*inner) + ">"@,
        _ => Seq::empty(),
    }
}

/// Tells whether the generated Rust code can name a type.
pub fn can_name(ty: &AbiType) -> (ok: bool)
    ensures
        ok == nameable(ty@),
    decreases ty,
{
    match ty {
        AbiType::Option(inner) => can_name(&**inner),
        AbiType::Result(inner) => can_name(&**inner),
        AbiType::RefObject(_) | AbiType::Object(_) | AbiType::RefFuture(_) | AbiType::Future(_)
        | AbiType::RefStream(_) | AbiType::Stream(_) | AbiType::Tuple(_) => false,
        _ => true,
    }
}

/// Returns the name of a type.
pub fn ty(abi_type: &AbiType) -> (name: String)
    requires
        nameable(abi_type@),
    ensures
        name@ == spec_ty(abi_type@),
    decreases abi_type,
{
    match abi_type {
        AbiType::Num(num) => String::from_str(num_type(*num)),
        AbiType::Isize => String::from_str("isize"),
        AbiType::Usize => String::from_str("usize"),
        AbiType::Bool => String::from_str("bool"),
        AbiType::RefStr => String::from_str("&str"),
        AbiType::String => String::from_str("String"),
        AbiType::RefSlice(num) => {
            let mut name = String::from_str("&[");
            name.append(num_type(*num));
            name.append("]");
            name
        },
        AbiType::Vec(num) => {
            let mut name = String::from_str("Vec<");
            name.append(num_type(*num));
            name.append(">");
            name
        },
        AbiType::Option(inner) => {
            let mut name = String::from_str("Option<");
            name.append(ty(&**inner).as_str());
            name.append(">");
            name
        },
        AbiType::Result(inner) => {
            let mut name = String::from_str("Result<");
            name.append(ty(&**inner).as_str());
            name.append(">");
            name
        },
        _ => {
            assert(false);
            String::new()
        },
    }
}

/// The name of a field of an aggregate return: `ret` followed by its
/// index.
pub open spec fn spec_ret_field(index: nat) -> Seq<char> {
    crate::naming::indexed("ret"@, index)
}

/// Returns the name of a field of an aggregate return.
pub fn ret_field(index: usize) -> (name: String)
    ensures
        name@ == spec_ret_field(index as nat),
{
    crate::naming::indexed_name("ret", index)
}

} // verus!
