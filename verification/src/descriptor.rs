//! The structural description of a declared type.

use vstd::prelude::*;
use crate::error::Shape;

verus! {

/// Mathematical value of a [`TypeDescriptor`]: a finite tree.
pub enum TypeShape {
    Path { name: Seq<char>, args: Seq<TypeShape> },
    Reference { elem: Box<TypeShape> },
    Unsupported { shape: Shape },
}

/// A declared type as the translation reads it.
#[derive(Debug, PartialEq, Eq)]
pub enum TypeDescriptor {
    /// A named type, `name`, or `name<args..>`. Only type arguments are
    /// listed, in the order in which they are written.
    Path { name: String, args: Vec<TypeDescriptor> },
    /// One layer of indirection, `&elem` or `&mut elem`.
    Reference { elem: Box<TypeDescriptor> },
    /// A form that cannot be translated.
    Unsupported { shape: Shape },
}

impl TypeDescriptor {
    /// The tree that this descriptor stands for.
    pub open spec fn shape(self) -> TypeShape
        decreases self,
    {
        match self {
            TypeDescriptor::Path { name, args } => TypeShape::Path {
                name: name@,
                args: Seq::new(
                    args@.len(),
                    |i: int|
                        if 0 <= i < args@.len() {
                            args[i].shape()
                        } else {
                            TypeShape::Unsupported { shape: Shape::Other }
                        },
                ),
            },
            TypeDescriptor::Reference { elem } => TypeShape::Reference {
                elem: Box::new(elem.shape()),
            },
            TypeDescriptor::Unsupported { shape } => TypeShape::Unsupported { shape },
        }
    }
}

impl View for TypeDescriptor {
    type V = TypeShape;

    open spec fn view(&self) -> TypeShape {
        self.shape()
    }
}

/// The trees of a list of descriptors, in the same order.
pub open spec fn shapes(list: Seq<TypeDescriptor>) -> Seq<TypeShape> {
    Seq::new(list.len(), |i: int| list[i]@)
}

impl TypeShape {
    /// This tree behind `layers` further layers of indirection.
    pub open spec fn borrowed(self, layers: nat) -> TypeShape
        decreases layers,
    {
        if layers == 0 {
            self
        } else {
            TypeShape::Reference { elem: Box::new(self.borrowed((layers - 1) as nat)) }
        }
    }

    /// Whether a form that cannot be translated occurs anywhere in the tree.
    pub open spec fn has_unsupported(self) -> bool
        decreases self,
    {
        match self {
            TypeShape::Path { name, args } => exists|i: int|
                0 <= i < args.len() && (#[trigger] args[i]).has_unsupported(),
            TypeShape::Reference { elem } => elem.has_unsupported(),
            TypeShape::Unsupported { shape } => true,
        }
    }
}

} // verus!
