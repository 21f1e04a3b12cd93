//! Values that know their own type.

use vstd::prelude::*;
use crate::reflection::info::{FieldInfo, Type};

verus! {

/// A value that can tell the type it is of.
pub trait Object {
    fn object_type() -> &'static Type where Self: Sized;

    fn get_type(&self) -> &'static Type;
}

impl FieldInfo {
    /// The value of this field in `object`. No field can be read yet: the
    /// answer is always the error.
    pub fn get<'a>(&self, object: &'a dyn Object) -> (r: Result<&'a dyn Object, ()>)
        ensures
            r is Err,
    {
        Err(())
    }
}

/// Where objects are found by their type.
pub trait Stage {
    fn enter(&mut self, ty: &Type) -> Result<&dyn Object, ()>;
}

/// A constant that belongs to a trait.
pub trait AssociatedConstant {
    fn identifier(&self) -> &str;

    fn typed(&self) -> &Type;
}

/// What a trait is made of.
pub trait Trait {
    fn constants(&self) -> &[&dyn AssociatedConstant];
}

} // verus!
