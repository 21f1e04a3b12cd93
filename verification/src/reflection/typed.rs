//! From a Rust type to the value that describes it.

use vstd::prelude::*;
use std::marker::PhantomData;
use vstd::std_specs::convert::FromSpecImpl;
use crate::reflection::info::{Kind, Type};

verus! {

/// Provides the type value for a Rust type which implements this trait.
pub trait Typed {
    fn typed(&self) -> Type;
}

/// A wrapper type around T which allows specialization for the Typed trait:
/// the wrapper itself is typed for the types that are known, and a reference
/// to it for every type.
pub struct TypeWrapper<T: ?Sized>(PhantomData<T>);

impl<T: ?Sized> TypeWrapper<T> {
    pub fn new() -> Self {
        TypeWrapper(PhantomData)
    }
}

impl<T: ?Sized> From<&T> for TypeWrapper<T> {
    fn from(value: &T) -> (wrapper: Self) {
        TypeWrapper(PhantomData)
    }
}

impl<T: ?Sized> FromSpecImpl<&T> for TypeWrapper<T> {
    open spec fn obeys_from_spec() -> bool {
        true
    }

    closed spec fn from_spec(value: &T) -> Self {
        TypeWrapper(PhantomData)
    }
}

/// The default implementation of Typed describes the unknown type.
impl<T: ?Sized> Typed for &TypeWrapper<T> {
    fn typed(&self) -> (ty: Type)
        ensures
            ty.item.name@ == "<unknown>"@,
            ty.item.path@ == "<unknown>"@,
            ty.kind == (Kind::Struct { fields: &[] }),
    {
        Type::primitive("<unknown>", Kind::Struct { fields: &[] })
    }
}

impl Typed for TypeWrapper<u32> {
    fn typed(&self) -> (ty: Type)
        ensures
            ty.item.name@ == "u32"@,
            ty.item.path@ == "u32"@,
            ty.kind == Kind::U32,
    {
        Type::primitive("u32", Kind::U32)
    }
}

impl Typed for TypeWrapper<bool> {
    fn typed(&self) -> (ty: Type)
        ensures
            ty.item.name@ == "bool"@,
            ty.item.path@ == "bool"@,
            ty.kind == Kind::Primitive,
    {
        Type::primitive("bool", Kind::Primitive)
    }
}

impl Typed for TypeWrapper<char> {
    fn typed(&self) -> (ty: Type)
        ensures
            ty.item.name@ == "char"@,
            ty.item.path@ == "char"@,
            ty.kind == Kind::Primitive,
    {
        Type::primitive("char", Kind::Primitive)
    }
}

impl Typed for TypeWrapper<i8> {
    fn typed(&self) -> (ty: Type)
        ensures
            ty.item.name@ == "i8"@,
            ty.item.path@ == "i8"@,
            ty.kind == Kind::Primitive,
    {
        Type::primitive("i8", Kind::Primitive)
    }
}

impl Typed for TypeWrapper<i16> {
    fn typed(&self) -> (ty: Type)
        ensures
            ty.item.name@ == "i16"@,
            ty.item.path@ == "i16"@,
            ty.kind == Kind::Primitive,
    {
        Type::primitive("i16", Kind::Primitive)
    }
}

impl Typed for TypeWrapper<i32> {
    fn typed(&self) -> (ty: Type)
        ensures
            ty.item.name@ == "i32"@,
            ty.item.path@ == "i32"@,
            ty.kind == Kind::Primitive,
    {
        Type::primitive("i32", Kind::Primitive)
    }
}

impl Typed for TypeWrapper<i64> {
    fn typed(&self) -> (ty: Type)
        ensures
            ty.item.name@ == "i64"@,
            ty.item.path@ == "i64"@,
            ty.kind == Kind::Primitive,
    {
        Type::primitive("i64", Kind::Primitive)
    }
}

impl Typed for TypeWrapper<i128> {
    fn typed(&self) -> (ty: Type)
        ensures
            ty.item.name@ == "i128"@,
            ty.item.path@ == "i128"@,
            ty.kind == Kind::Primitive,
    {
        Type::primitive("i128", Kind::Primitive)
    }
}

impl Typed for TypeWrapper<isize> {
    fn typed(&self) -> (ty: Type)
        ensures
            ty.item.name@ == "isize"@,
            ty.item.path@ == "isize"@,
            ty.kind == Kind::Primitive,
    {
        Type::primitive("isize", Kind::Primitive)
    }
}

impl Typed for TypeWrapper<str> {
    fn typed(&self) -> (ty: Type)
        ensures
            ty.item.name@ == "str"@,
            ty.item.path@ == "str"@,
            ty.kind == Kind::Primitive,
    {
        Type::primitive("str", Kind::Primitive)
    }
}

impl Typed for TypeWrapper<u8> {
    fn typed(&self) -> (ty: Type)
        ensures
            ty.item.name@ == "u8"@,
            ty.item.path@ == "u8"@,
            ty.kind == Kind::Primitive,
    {
        Type::primitive("u8", Kind::Primitive)
    }
}

impl Typed for TypeWrapper<u16> {
    fn typed(&self) -> (ty: Type)
        ensures
            ty.item.name@ == "u16"@,
            ty.item.path@ == "u16"@,
            ty.kind == Kind::Primitive,
    {
        Type::primitive("u16", Kind::Primitive)
    }
}

impl Typed for TypeWrapper<u64> {
    fn typed(&self) -> (ty: Type)
        ensures
            ty.item.name@ == "u64"@,
            ty.item.path@ == "u64"@,
            ty.kind == Kind::Primitive,
    {
        Type::primitive("u64", Kind::Primitive)
    }
}

impl Typed for TypeWrapper<u128> {
    fn typed(&self) -> (ty: Type)
        ensures
            ty.item.name@ == "u128"@,
            ty.item.path@ == "u128"@,
            ty.kind == Kind::Primitive,
    {
        Type::primitive("u128", Kind::Primitive)
    }
}

impl Typed for TypeWrapper<usize> {
    fn typed(&self) -> (ty: Type)
        ensures
            ty.item.name@ == "usize"@,
            ty.item.path@ == "usize"@,
            ty.kind == Kind::Primitive,
    {
        Type::primitive("usize", Kind::Primitive)
    }
}

} // verus!
