//! Names of types, for diagnostics.
use vstd::prelude::*;
use vstd::string::StringExecFns;

verus! {

/// A type that can name itself in diagnostic output.
///
/// The name is fixed per type; the name of a generic type is made from the
/// names of its parameters.
pub trait Labeled {
    /// The name of the type; a type that gives no name is named by the
    /// empty sequence.
    open spec fn label() -> Seq<char> {
        Seq::empty()
    }

    /// Returns the name of the type.
    fn type_label() -> (r: String)
        ensures
            r@ == Self::label(),
    ;
}

impl Labeled for u8 {
    open spec fn label() -> Seq<char> {
        "u8"@
    }

    fn type_label() -> (r: String) {
        String::from_str("u8")
    }
}

impl Labeled for u16 {
    open spec fn label() -> Seq<char> {
        "u16"@
    }

    fn type_label() -> (r: String) {
        String::from_str("u16")
    }
}

impl Labeled for u32 {
    open spec fn label() -> Seq<char> {
        "u32"@
    }

    fn type_label() -> (r: String) {
        String::from_str("u32")
    }
}

impl Labeled for u64 {
    open spec fn label() -> Seq<char> {
        "u64"@
    }

    fn type_label() -> (r: String) {
        String::from_str("u64")
    }
}

impl Labeled for u128 {
    open spec fn label() -> Seq<char> {
        "u128"@
    }

    fn type_label() -> (r: String) {
        String::from_str("u128")
    }
}

impl Labeled for usize {
    open spec fn label() -> Seq<char> {
        "usize"@
    }

    fn type_label() -> (r: String) {
        String::from_str("usize")
    }
}

impl Labeled for i8 {
    open spec fn label() -> Seq<char> {
        "i8"@
    }

    fn type_label() -> (r: String) {
        String::from_str("i8")
    }
}

impl Labeled for i16 {
    open spec fn label() -> Seq<char> {
        "i16"@
    }

    fn type_label() -> (r: String) {
        String::from_str("i16")
    }
}

impl Labeled for i32 {
    open spec fn label() -> Seq<char> {
        "i32"@
    }

    fn type_label() -> (r: String) {
        String::from_str("i32")
    }
}

impl Labeled for i64 {
    open spec fn label() -> Seq<char> {
        "i64"@
    }

    fn type_label() -> (r: String) {
        String::from_str("i64")
    }
}

impl Labeled for i128 {
    open spec fn label() -> Seq<char> {
        "i128"@
    }

    fn type_label() -> (r: String) {
        String::from_str("i128")
    }
}

impl Labeled for isize {
    open spec fn label() -> Seq<char> {
        "isize"@
    }

    fn type_label() -> (r: String) {
        String::from_str("isize")
    }
}

impl Labeled for bool {
    open spec fn label() -> Seq<char> {
        "bool"@
    }

    fn type_label() -> (r: String) {
        String::from_str("bool")
    }
}

impl Labeled for char {
    open spec fn label() -> Seq<char> {
        "char"@
    }

    fn type_label() -> (r: String) {
        String::from_str("char")
    }
}

impl Labeled for String {
    open spec fn label() -> Seq<char> {
        "alloc::string::String"@
    }

    fn type_label() -> (r: String) {
        String::from_str("alloc::string::String")
    }
}

impl<'a> Labeled for &'a str {
    open spec fn label() -> Seq<char> {
        "&str"@
    }

    fn type_label() -> (r: String) {
        String::from_str("&str")
    }
}

} // verus!
