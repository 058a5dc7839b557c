//! Lowering of source-language types to target-language type text.
//!
//! `type_text` is the specification: a structural recursion from a
//! `KiroType` to the exact character sequence the compiler emits for it.
//! The raw-handle case is special: `Adr(Void)` lowers to a bare address
//! word, while `Adr(T)` lowers to an optional shared mutable pointer, and
//! the two must stay distinct.

use vstd::prelude::*;

use crate::ast::KiroType;
use crate::ast::StructNameVal;

verus! {

/// Structural size of a type, used as a termination measure for the
/// mutually recursive lowering functions.
pub open spec fn type_size(t: KiroType) -> nat
    decreases t,
{
    match t {
        KiroType::Adr(inner) => 1 + type_size(*inner),
        KiroType::Pipe(inner) => 1 + type_size(*inner),
        KiroType::List(inner) => 1 + type_size(*inner),
        KiroType::MapOf(k, v) => 1 + type_size(*k) + type_size(*v),
        _ => 1,
    }
}

/// The exact target text of a lowered type.
pub open spec fn type_text(t: KiroType) -> Seq<char>
    decreases t,
{
    match t {
        KiroType::Num => "f64"@,
        KiroType::Str => "String"@,
        KiroType::Bool => "bool"@,
        KiroType::Void => "()"@,
        KiroType::Adr(inner) => {
            if *inner is Void {
                "usize"@
            } else {
                "Option<std::sync::Arc<std::sync::Mutex<"@ + type_text(*inner) + ">>>"@
            }
        },
        KiroType::Pipe(inner) => "KiroPipe<"@ + type_text(*inner) + ">"@,
        KiroType::List(inner) => "Vec<"@ + type_text(*inner) + ">"@,
        KiroType::MapOf(k, v) => {
            "std::collections::HashMap<"@ + type_text(*k) + ", "@ + type_text(*v) + ">"@
        },
        KiroType::Custom(s) => s.value@,
    }
}

pub fn compile_num() -> (r: String)
    ensures
        r@ == type_text(KiroType::Num),
{
    String::from_str("f64")
}

pub fn compile_str() -> (r: String)
    ensures
        r@ == type_text(KiroType::Str),
{
    String::from_str("String")
}

pub fn compile_bool() -> (r: String)
    ensures
        r@ == type_text(KiroType::Bool),
{
    String::from_str("bool")
}

pub fn compile_void() -> (r: String)
    ensures
        r@ == type_text(KiroType::Void),
{
    String::from_str("()")
}

pub fn compile_custom(name: &StructNameVal) -> (r: String)
    ensures
        r@ == type_text(KiroType::Custom(StructNameVal { value: name.value })),
{
    let mut out = String::new();
    out.append(name.value.as_str());
    proof {
        assert(out@ =~= name.value@);
    }
    out
}

pub fn compile_adr(inner: &KiroType) -> (r: String)
    ensures
        r@ == type_text(KiroType::Adr(Box::new(*inner))),
    decreases type_size(*inner), 2nat,
{
    if let KiroType::Void = inner {
        String::from_str("usize")
    } else {
        let mut out = String::from_str("Option<std::sync::Arc<std::sync::Mutex<");
        let t = compile_type(inner);
        out.append(t.as_str());
        out.append(">>>");
        out
    }
}

pub fn compile_pipe(inner: &KiroType) -> (r: String)
    ensures
        r@ == type_text(KiroType::Pipe(Box::new(*inner))),
    decreases type_size(*inner), 2nat,
{
    let mut out = String::from_str("KiroPipe<");
    let t = compile_type(inner);
    out.append(t.as_str());
    out.append(">");
    out
}

pub fn compile_list(inner: &KiroType) -> (r: String)
    ensures
        r@ == type_text(KiroType::List(Box::new(*inner))),
    decreases type_size(*inner), 2nat,
{
    let mut out = String::from_str("Vec<");
    let t = compile_type(inner);
    out.append(t.as_str());
    out.append(">");
    out
}

pub fn compile_map(key: &KiroType, value: &KiroType) -> (r: String)
    ensures
        r@ == type_text(KiroType::MapOf(Box::new(*key), Box::new(*value))),
    decreases type_size(*key) + type_size(*value), 2nat,
{
    let mut out = String::from_str("std::collections::HashMap<");
    let k = compile_type(key);
    out.append(k.as_str());
    out.append(", ");
    let v = compile_type(value);
    out.append(v.as_str());
    out.append(">");
    out
}

pub fn compile_type(t: &KiroType) -> (r: String)
    ensures
        r@ == type_text(*t),
    decreases type_size(*t), 1nat,
{
    match t {
        KiroType::Num => compile_num(),
        KiroType::Str => compile_str(),
        KiroType::Bool => compile_bool(),
        KiroType::Void => compile_void(),
        KiroType::Adr(inner) => compile_adr(inner),
        KiroType::Pipe(inner) => compile_pipe(inner),
        KiroType::List(inner) => compile_list(inner),
        KiroType::MapOf(k, v) => compile_map(k, v),
        KiroType::Custom(s) => compile_custom(s),
    }
}

} // verus!
