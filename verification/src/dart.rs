//! The names that the Dart bindings give to functions, symbols and
//! aggregate returns.

use crate::abi::{AbiFunction, AbiFunctionView, AbiType, AbiTypeView, FunctionType, NumType};
use vstd::prelude::*;
use vstd::string::StringExecFns;

verus! {

/// The mixed-case form of a text: what `heck::MixedCase::to_mixed_case`
/// returns for it.
pub uninterp spec fn mixed_case(s: Seq<char>) -> Seq<char>;

/// The camel-case form of a text: what `heck::CamelCase::to_camel_case`
/// returns for it.
pub uninterp spec fn camel_case(s: Seq<char>) -> Seq<char>;

/// Calls `heck::MixedCase::to_mixed_case`, which splits a text into words
/// and joins them with every word but the first capitalized. The contract
/// gives the result the name [`mixed_case`] and claims nothing else of
/// it.
#[verifier::external_body]
pub(crate) fn to_mixed_case(s: &str) -> (res: String)
    ensures
        res@ == mixed_case(s@),
{
    heck::MixedCase::to_mixed_case(s)
}

/// Calls `heck::CamelCase::to_camel_case`, which splits a text into words
/// and joins them with every word capitalized. The contract gives the
/// result the name [`camel_case`] and claims nothing else of it.
#[verifier::external_body]
pub(crate) fn to_camel_case(s: &str) -> (res: String)
    ensures
        res@ == camel_case(s@),
{
    heck::CamelCase::to_camel_case(s)
}

/// Puts one text before another.
pub fn prefixed(before: &str, text: &str) -> (res: String)
    ensures
        res@ == before@ + text@,
{
    let mut res = String::from_str(before);
    res.append(text);
    res
}

/// The name of the member that holds a symbol, for the mixed-case form of
/// the symbol: an underscore before it.
pub fn symbol_member(ident: &str) -> (res: String)
    ensures
        res@ == "_"@ + ident@,
{
    prefixed("_", ident)
}

/// The name of the member that holds the address of a symbol, for the
/// mixed-case form of the symbol: an underscore before it and `Ptr`
/// behind it.
pub fn pointer_member(ident: &str) -> (res: String)
    ensures
        res@ == "_"@ + ident@ + "Ptr"@,
{
    let mut res = prefixed("_", ident);
    res.append("Ptr");
    res
}

/// The name of the method that polls, for the mixed-case form of the
/// symbol of the poll function: two underscores before it.
pub fn poll_method(ident: &str) -> (res: String)
    ensures
        res@ == "__"@ + ident@,
{
    prefixed("__", ident)
}

/// The name of a function of the bindings: the poll method of a future or
/// stream is named after the symbol, any other function after its own
/// name.
pub open spec fn spec_function_name(f: AbiFunctionView) -> Seq<char> {
    if f.ty is PollFuture || f.ty is PollStream {
        "__"@ + mixed_case(f.symbol())
    } else {
        mixed_case(f.name)
    }
}

/// Returns the name of a function of the bindings.
pub fn function_name(func: &AbiFunction) -> (name: String)
    ensures
        name@ == spec_function_name(func@),
{
    match &func.ty {
        FunctionType::PollFuture(_, _) | FunctionType::PollStream(_, _) => {
            let symbol = func.symbol();
            let ident = to_mixed_case(symbol.as_str());
            poll_method(ident.as_str())
        },
        _ => to_mixed_case(func.name.as_str()),
    }
}

/// Returns the name of the member that holds a symbol.
pub fn symbol_name(symbol: &str) -> (name: String)
    ensures
        name@ == "_"@ + mixed_case(symbol@),
{
    let ident = to_mixed_case(symbol);
    symbol_member(ident.as_str())
}

/// Returns the name of the member that holds the address of a symbol.
pub fn pointer_name(symbol: &str) -> (name: String)
    ensures
        name@ == "_"@ + mixed_case(symbol@) + "Ptr"@,
{
    let ident = to_mixed_case(symbol);
    pointer_member(ident.as_str())
}

/// Returns the name of the class of an aggregate return, for the name of
/// the aggregate: an underscore before its camel-case form.
pub fn struct_name(name: &str) -> (res: String)
    ensures
        res@ == "_"@ + camel_case(name@),
{
    let ident = to_camel_case(name);
    symbol_member(ident.as_str())
}

/// Returns the name of an argument or of a local.
pub fn ident(name: &str) -> (res: String)
    ensures
        res@ == mixed_case(name@),
{
    to_mixed_case(name)
}

/// The type of a number in a foreign signature.
pub open spec fn spec_native_num_type(num: NumType) -> Seq<char> {
    match num {
        NumType::I8 => "ffi.Int8"@,
        NumType::I16 => "ffi.Int16"@,
        NumType::I32 => "ffi.Int32"@,
        NumType::I64 => "ffi.Int64"@,
        NumType::U8 => "ffi.Uint8"@,
        NumType::U16 => "ffi.Uint16"@,
        NumType::U32 => "ffi.Uint32"@,
        NumType::U64 => "ffi.Uint64"@,
        NumType::F32 => "ffi.Float"@,
        NumType::F64 => "ffi.Double"@,
    }
}

/// Returns the type of a number in a foreign signature.
pub fn generate_native_num_type(num: NumType) -> (name: &'static str)
    ensures
        name@ == spec_native_num_type(num),
{
    match num {
        NumType::I8 => "ffi.Int8",
        NumType::I16 => "ffi.Int16",
        NumType::I32 => "ffi.Int32",
        NumType::I64 => "ffi.Int64",
        NumType::U8 => "ffi.Uint8",
        NumType::U16 => "ffi.Uint16",
        NumType::U32 => "ffi.Uint32",
        NumType::U64 => "ffi.Uint64",
        NumType::F32 => "ffi.Float",
        NumType::F64 => "ffi.Double",
    }
}

/// The Dart type of a number.
pub open spec fn spec_wrapped_num_type(num: NumType) -> Seq<char> {
    match num {
        NumType::F32 | NumType::F64 => "double"@,
        _ => "int"@,
    }
}

/// Returns the Dart type of a number.
pub fn generate_wrapped_num_type(num: NumType) -> (name: &'static str)
    ensures
        name@ == spec_wrapped_num_type(num),
{
    match num {
        NumType::F32 | NumType::F64 => "double",
        _ => "int",
    }
}

/// Whether the bindings can name a type: a borrowed future or stream and
/// a tuple have no name, nor has an optional or fallible one of them.
pub open spec fn nameable(ty: AbiTypeView) -> bool
    decreases ty,
{
    match ty {
        AbiTypeView::Option(inner) => nameable(*inner),
        AbiTypeView::Result(inner) => nameable(*inner),
        AbiTypeView::RefFuture(_) | AbiTypeView::RefStream(_) | AbiTypeView::Tuple(_) => false,
        _ => true,
    }
}

/// The Dart type of a value: an optional value is nullable, and a fallible
/// value has the type of its payload.
pub open spec fn spec_type(ty: AbiTypeView) -> Seq<char>
    decreases ty,
{
    match ty {
        AbiTypeView::Num(num) => spec_wrapped_num_type(num),
        AbiTypeView::Isize | AbiTypeView::Usize => "int"@,
        AbiTypeView::Bool => "bool"@,
        AbiTypeView::RefStr | AbiTypeView::String => "String"@,
        AbiTypeView::RefSlice(num) | AbiTypeView::Vec(num) => "List<"@ + spec_wrapped_num_type(num)
            + ">"@,
        AbiTypeView::Object(name) | AbiTypeView::RefObject(name) => name,
        AbiTypeView::Option(inner) => spec_type(*inner) + "?"@,
        AbiTypeView::Result(inner) => spec_type(*inner),
        AbiTypeView::Future(_) => "Future"@,
        AbiTypeView::Stream(_) => "Stream"@,
        _ => Seq::empty(),
    }
}

/// Tells whether the bindings can name a type.
pub fn can_name(ty: &AbiType) -> (ok: bool)
    ensures
        ok == nameable(ty@),
    decreases ty,
{
    match ty {
        AbiType::Option(inner) => can_name(&**inner),
        AbiType::Result(inner) => can_name(&**inner),
        AbiType::RefFuture(_) | AbiType::RefStream(_) | AbiType::Tuple(_) => false,
        _ => true,
    }
}

/// Returns the Dart type of a value.
pub fn generate_type(ty: &AbiType) -> (name: String)
    requires
        nameable(ty@),
    ensures
        name@ == spec_type(ty@),
    decreases ty,
{
    match ty {
        AbiType::Num(num) => String::from_str(generate_wrapped_num_type(*num)),
        AbiType::Isize | AbiType::Usize => String::from_str("int"),
        AbiType::Bool => String::from_str("bool"),
        AbiType::RefStr | AbiType::String => String::from_str("String"),
        AbiType::RefSlice(num) | AbiType::Vec(num) => {
            let mut name = String::from_str("List<");
            name.append(generate_wrapped_num_type(*num));
            name.append(">");
            name
        },
        AbiType::Object(object) | AbiType::RefObject(object) => object.clone(),
        AbiType::Option(inner) => {
            let mut name = generate_type(&**inner);
            name.append("?");
            name
        },
        AbiType::Result(inner) => generate_type(&**inner),
        AbiType::Future(_) => String::from_str("Future"),
        AbiType::Stream(_) => String::from_str("Stream"),
        _ => {
            assert(false);
            String::new()
        },
    }
}

/// The name of a field of an aggregate return: `arg` followed by its
/// index.
pub open spec fn spec_ret_field(index: nat) -> Seq<char> {
    crate::naming::indexed("arg"@, index)
}

/// Returns the name of a field of an aggregate return.
pub fn ret_field(index: usize) -> (name: String)
    ensures
        name@ == spec_ret_field(index as nat),
{
    crate::naming::indexed_name("arg", index)
}

} // verus!
