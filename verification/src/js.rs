//! The names of types in the generated JavaScript and TypeScript code.

use crate::abi::{AbiType, AbiTypeView, NumType};
use vstd::prelude::*;
use vstd::string::StringExecFns;

verus! {

/// The typed array that holds numbers of a type.
pub open spec fn spec_array(num: NumType) -> Seq<char> {
    match num {
        NumType::U8 => "Uint8Array"@,
        NumType::U16 => "Uint16Array"@,
        NumType::U32 => "Uint32Array"@,
        NumType::U64 => "BigUint64Array"@,
        NumType::I8 => "Int8Array"@,
        NumType::I16 => "Int16Array"@,
        NumType::I32 => "Int32Array"@,
        NumType::I64 => "BigInt64Array"@,
        NumType::F32 => "Float32Array"@,
        NumType::F64 => "Float64Array"@,
    }
}

/// Returns the typed array that holds numbers of a type.
pub fn generate_array(num: NumType) -> (name: &'static str)
    ensures
        name@ == spec_array(num),
{
    match num {
        NumType::U8 => "Uint8Array",
        NumType::U16 => "Uint16Array",
        NumType::U32 => "Uint32Array",
        NumType::U64 => "BigUint64Array",
        NumType::I8 => "Int8Array",
        NumType::I16 => "Int16Array",
        NumType::I32 => "Int32Array",
        NumType::I64 => "BigInt64Array",
        NumType::F32 => "Float32Array",
        NumType::F64 => "Float64Array",
    }
}

/// The TypeScript type of a number: a 64-bit integer is a `BigInt`.
pub open spec fn spec_number_type(num: NumType) -> Seq<char> {
    match num {
        NumType::U64 | NumType::I64 => "BigInt"@,
        _ => "number"@,
    }
}

/// Returns the TypeScript type of a number: a 64-bit integer is a `BigInt`.
pub fn number_type(num: NumType) -> (name: &'static str)
    ensures
        name@ == spec_number_type(num),
{
    match num {
        NumType::U64 | NumType::I64 => "BigInt",
        _ => "number",
    }
}

/// Whether the type definitions can name a type: a number, a boolean,
/// text, an array of numbers or an object.
pub open spec fn declarable(ty: AbiTypeView) -> bool {
    !(ty is Option || ty is Result || ty is RefFuture || ty is Future || ty is RefStream
        || ty is Stream || ty is Tuple)
}

/// The TypeScript type of an argument, or of a result if there is one;
/// no result is `void`.
pub open spec fn spec_return_type(ret: Option<AbiTypeView>) -> Seq<char> {
    match ret {
        Some(AbiTypeView::Num(num)) => spec_number_type(num),
        Some(AbiTypeView::Isize) | Some(AbiTypeView::Usize) => "number"@,
        Some(AbiTypeView::Bool) => "boolean"@,
        Some(AbiTypeView::RefStr) | Some(AbiTypeView::String) => "string"@,
        Some(AbiTypeView::RefSlice(num)) | Some(AbiTypeView::Vec(num)) => "Array<"@
            + spec_number_type(num) + ">"@,
        Some(AbiTypeView::RefObject(name)) | Some(AbiTypeView::Object(name)) => name,
        Some(_) => Seq::empty(),
        None => "void"@,
    }
}

/// Tells whether the type definitions can name a type.
pub fn can_declare(ty: &AbiType) -> (ok: bool)
    ensures
        ok == declarable(ty@),
{
    match ty {
        AbiType::Option(_) | AbiType::Result(_) | AbiType::RefFuture(_) | AbiType::Future(_)
        | AbiType::RefStream(_) | AbiType::Stream(_) | AbiType::Tuple(_) => false,
        _ => true,
    }
}

/// Returns the TypeScript type of an argument or of a result.
pub fn generate_return_type(ret: Option<&AbiType>) -> (name: String)
    requires
        ret matches Some(ty) ==> declarable(ty@),
    ensures
        name@ == spec_return_type(ret.deep_view()),
{
    match ret {
        Some(ty) => match ty {
            AbiType::Num(num) => String::from_str(number_type(*num)),
            AbiType::Isize | AbiType::Usize => String::from_str("number"),
            AbiType::Bool => String::from_str("boolean"),
            AbiType::RefStr | AbiType::String => String::from_str("string"),
            AbiType::RefSlice(num) | AbiType::Vec(num) => {
                let mut name = String::from_str("Array<");
                name.append(number_type(*num));
                name.append(">");
                name
            },
            AbiType::RefObject(object) | AbiType::Object(object) => object.clone(),
            _ => {
                assert(false);
                String::new()
            },
        },
        None => String::from_str("void"),
    }
}

} // verus!
