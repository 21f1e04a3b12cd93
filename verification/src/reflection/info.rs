//! The values that describe an item, a field and a type.

use vstd::prelude::*;
use vstd::std_specs::cmp::PartialEqSpecImpl;
use vstd::utf8::encode_utf8_decode_utf8;

verus! {

/// Whether two strings hold the same text.
pub fn same_text(a: &str, b: &str) -> (r: bool)
    ensures
        r == (a@ == b@),
{
    let x = a.as_bytes();
    let y = b.as_bytes();
    proof {
        encode_utf8_decode_utf8(a@);
        encode_utf8_decode_utf8(b@);
    }
    if x.len() != y.len() {
        return false;
    }
    let mut i: usize = 0;
    while i < x.len()
        invariant
            i <= x.len(),
            x.len() == y.len(),
            x@ == vstd::utf8::encode_utf8(a@),
            y@ == vstd::utf8::encode_utf8(b@),
            forall|j: int| 0 <= j < i ==> x@[j] == y@[j],
        decreases x.len() - i,
    {
        if x[i] != y[i] {
            return false;
        }
        i += 1;
    }
    assert(x@ =~= y@);
    true
}

/// The name of an item and the path under which it is found.
#[derive(Debug)]
pub struct ItemInfo {
    pub name: &'static str,
    pub path: &'static str,
}

impl PartialEq for ItemInfo {
    /// Two items are the same item if they are found under the same path.
    fn eq(&self, other: &Self) -> (r: bool) {
        same_text(self.path, other.path)
    }
}

impl PartialEqSpecImpl for ItemInfo {
    open spec fn obeys_eq_spec() -> bool {
        true
    }

    open spec fn eq_spec(&self, other: &Self) -> bool {
        self.path@ == other.path@
    }
}

/// What a type is made of.
#[derive(Debug)]
pub enum Kind {
    U32,
    /// A type of the language itself, other than `u32`.
    Primitive,
    Struct { fields: &'static [FieldInfo] },
}

/// A field of a struct.
#[derive(Debug)]
pub struct FieldInfo {
    pub item: ItemInfo,
    pub kind: Kind,
}

/// A type.
#[derive(Debug)]
pub struct Type {
    pub item: ItemInfo,
    pub kind: Kind,
}

impl PartialEq for Type {
    /// Two types are the same type if they are the same item.
    fn eq(&self, other: &Self) -> (r: bool) {
        self.item == other.item
    }
}

impl PartialEqSpecImpl for Type {
    open spec fn obeys_eq_spec() -> bool {
        true
    }

    open spec fn eq_spec(&self, other: &Self) -> bool {
        self.item.path@ == other.item.path@
    }
}

impl Type {
    /// The description of a type of the language itself: it is found under its
    /// name.
    pub fn primitive(name: &'static str, kind: Kind) -> (ty: Type)
        ensures
            ty.item.name == name,
            ty.item.path == name,
            ty.kind == kind,
    {
        Type { item: ItemInfo { name, path: name }, kind }
    }

    /// The name by which the type is known.
    pub fn identifier(&self) -> (name: &'static str)
        ensures
            name == self.item.name,
    {
        self.item.name
    }
}

/// What is known of an item at run time: its name.
#[derive(Eq, PartialEq, Debug)]
pub struct Reflection {
    name: String,
}

impl Clone for Reflection {
    fn clone(&self) -> (copy: Self)
        ensures
            copy.name() == self.name(),
    {
        Reflection { name: self.name.clone() }
    }
}

impl Reflection {
    pub closed spec fn name(&self) -> Seq<char> {
        self.name@
    }

    pub fn new(name: String) -> (reflection: Reflection)
        ensures
            reflection.name() == name@,
    {
        Reflection { name }
    }

    /// The name of the item.
    pub fn identifier(&self) -> (name: &str)
        ensures
            name@ == self.name(),
    {
        self.name.as_str()
    }
}

} // verus!
