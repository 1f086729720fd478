//! What a parsed signature holds of its types and its receiver, as far as
//! the boundary type model reads it, and how boundary types are read off it.

use crate::text::join;
use crate::types::{SelfType, Type, TypeView};
use vstd::prelude::*;
use vstd::string::*;

verus! {

/// What follows the name in the one segment of a path.
#[derive(Clone, Copy, PartialEq, Eq, Hash, Debug, Structural)]
pub enum ArgumentsKind {
    /// Nothing: `Name`.
    Absent,
    /// Types between parentheses: `Fn(A) -> B`.
    Parenthesized,
    /// Generic arguments between angle brackets: `Name<A, B>`.
    AngleBracketed,
}

/// A type as a signature writes it.
#[derive(PartialEq, Eq, Hash, Debug)]
pub enum TypeSyntax {
    /// `&elem` or `&mut elem`, with or without a lifetime.
    Reference { has_lifetime: bool, is_mut: bool, elem: Box<TypeSyntax> },
    /// A path. Of its segments the first is held: its name, what kind of
    /// arguments follow, and the generic arguments between angle brackets.
    Path {
        has_qself: bool,
        has_leading_colon: bool,
        segments: usize,
        ident: String,
        kind: ArgumentsKind,
        args: Vec<Box<TypeSyntax>>,
    },
    /// A generic argument that is no type: a lifetime, a constant, a binding.
    NotAType,
    /// Any other type: an array, a tuple, a pointer, a slice and so on.
    Other,
}

/// The receiver of a method as a signature writes it.
#[derive(Clone, Copy, PartialEq, Eq, Hash, Debug, Structural)]
pub struct ReceiverSyntax {
    pub has_attrs: bool,
    pub is_reference: bool,
    pub has_lifetime: bool,
    pub is_mut: bool,
}

/// The first argument of a function: a receiver, or an argument with a type.
#[derive(Clone, Copy, PartialEq, Eq, Hash, Debug, Structural)]
pub enum FnArgSyntax {
    Receiver(ReceiverSyntax),
    Typed,
}

/// What a signature says of the value that the function returns.
#[derive(PartialEq, Eq, Hash, Debug)]
pub enum ReturnSyntax {
    /// Nothing is written: the function returns `()`.
    Default,
    Type(TypeSyntax),
}

/// Whether `name` is one of the primitive types that cross the boundary as
/// they are.
pub open spec fn is_primitive_name(name: Seq<char>) -> bool {
    name == "u8"@ || name == "u16"@ || name == "u32"@ || name == "u64"@ || name == "i8"@ || name
        == "i16"@ || name == "i32"@ || name == "i64"@ || name == "bool"@
}

impl TypeSyntax {
    /// Whether the syntax has a boundary type: a reference without a
    /// lifetime to such a type; a plain name; or a name with generic
    /// arguments that are all such types.
    pub open spec fn supported(&self) -> bool
        decreases self,
    {
        match self {
            TypeSyntax::Reference { has_lifetime, is_mut, elem } => !*has_lifetime
                && elem.supported(),
            TypeSyntax::Path { has_qself, has_leading_colon, segments, ident, kind, args } => {
                &&& !*has_qself
                &&& *segments == 1
                &&& match kind {
                    ArgumentsKind::Absent => !*has_leading_colon,
                    ArgumentsKind::Parenthesized => false,
                    ArgumentsKind::AngleBracketed => forall|i: int|
                        0 <= i < args.len() ==> (#[trigger] args[i]).supported(),
                }
            },
            TypeSyntax::NotAType => false,
            TypeSyntax::Other => false,
        }
    }

    /// The boundary type of the syntax: a reference becomes a reference; a
    /// plain name a primitive where it names one, else a struct without
    /// arguments; a name with generic arguments a struct with theirs.
    pub open spec fn boundary_type(&self) -> TypeView
        decreases self,
    {
        match self {
            TypeSyntax::Reference { has_lifetime, is_mut, elem } => if *is_mut {
                TypeView::RefMut(Box::new(elem.boundary_type()))
            } else {
                TypeView::Ref(Box::new(elem.boundary_type()))
            },
            TypeSyntax::Path { has_qself, has_leading_colon, segments, ident, kind, args } => {
                if *kind == ArgumentsKind::AngleBracketed {
                    TypeView::Struct {
                        name: ident@,
                        args: Seq::new(
                            args.len() as nat,
                            |i: int|
                                if 0 <= i < args.len() {
                                    args[i].boundary_type()
                                } else {
                                    TypeView::Primitive(Seq::empty())
                                },
                        ),
                    }
                } else if is_primitive_name(ident@) {
                    TypeView::Primitive(ident@)
                } else {
                    TypeView::Struct { name: ident@, args: Seq::empty() }
                }
            },
            _ => TypeView::Primitive(Seq::empty()),
        }
    }

    /// The texts of generic arguments, in order.
    pub open spec fn texts(args: Seq<Box<TypeSyntax>>) -> Seq<Seq<char>>
        decreases args, 0nat,
    {
        Seq::new(
            args.len(),
            |i: int|
                if 0 <= i < args.len() {
                    args[i].text()
                } else {
                    Seq::empty()
                },
        )
    }

    /// The syntax as a signature writes it, where it is a reference or a
    /// path of one name: the generic arguments stand between angle brackets
    /// with a comma and a space between them.
    pub open spec fn text(&self) -> Seq<char>
        decreases self, 1nat,
    {
        match self {
            TypeSyntax::Reference { has_lifetime, is_mut, elem } => (if *is_mut {
                "&mut "@
            } else {
                "&"@
            }) + elem.text(),
            TypeSyntax::Path { has_qself, has_leading_colon, segments, ident, kind, args } => {
                if *kind == ArgumentsKind::AngleBracketed {
                    ident@ + "<"@ + join(Self::texts(args@), ", "@) + ">"@
                } else {
                    ident@
                }
            },
            _ => Seq::empty(),
        }
    }

    /// Whether the syntax has a boundary type and is written as a native
    /// declaration is: without a leading `::`, and without angle brackets
    /// that hold nothing.
    pub open spec fn canonical(&self) -> bool
        decreases self,
    {
        match self {
            TypeSyntax::Reference { has_lifetime, is_mut, elem } => !*has_lifetime
                && elem.canonical(),
            TypeSyntax::Path { has_qself, has_leading_colon, segments, ident, kind, args } => {
                &&& !*has_qself
                &&& !*has_leading_colon
                &&& *segments == 1
                &&& match kind {
                    ArgumentsKind::Absent => true,
                    ArgumentsKind::Parenthesized => false,
                    ArgumentsKind::AngleBracketed => args.len() > 0 && forall|i: int|
                        0 <= i < args.len() ==> (#[trigger] args[i]).canonical(),
                }
            },
            TypeSyntax::NotAType => false,
            TypeSyntax::Other => false,
        }
    }

    /// Whether the syntax has a boundary type.
    pub fn is_supported(&self) -> (res: bool)
        ensures
            res == self.supported(),
        decreases self,
    {
        match self {
            TypeSyntax::Reference { has_lifetime, is_mut, elem } => !*has_lifetime
                && elem.is_supported(),
            TypeSyntax::Path { has_qself, has_leading_colon, segments, ident, kind, args } => {
                if *has_qself || *segments != 1 {
                    return false;
                }
                match kind {
                    ArgumentsKind::Absent => !*has_leading_colon,
                    ArgumentsKind::Parenthesized => false,
                    ArgumentsKind::AngleBracketed => {
                        let mut i: usize = 0;
                        while i < args.len()
                            invariant
                                i <= args.len(),
                                self is Path,
                                self->args == args,
                                self.supported() <==> forall|j: int|
                                    0 <= j < args.len() ==> (#[trigger] args[j]).supported(),
                                forall|j: int| 0 <= j < i ==> (#[trigger] args[j]).supported(),
                            decreases args.len() - i,
                        {
                            if !args[i].is_supported() {
                                assert(!args[i as int].supported());
                                return false;
                            }
                            i = i + 1;
                        }
                        true
                    },
                }
            },
            TypeSyntax::NotAType => false,
            TypeSyntax::Other => false,
        }
    }
}

/// Whether `name` is one of the primitive types.
fn names_primitive(name: &String) -> (res: bool)
    ensures
        res == is_primitive_name(name@),
{
    *name == "u8".to_owned() || *name == "u16".to_owned() || *name == "u32".to_owned() || *name
        == "u64".to_owned() || *name == "i8".to_owned() || *name == "i16".to_owned() || *name
        == "i32".to_owned() || *name == "i64".to_owned() || *name == "bool".to_owned()
}

impl Type {
    /// The boundary type that a signature's type stands for.
    pub fn from_syntax(ty: &TypeSyntax) -> (res: Type)
        requires
            ty.supported(),
        ensures
            res@ == ty.boundary_type(),
        decreases ty,
    {
        match ty {
            TypeSyntax::Reference { has_lifetime, is_mut, elem } => {
                let inner = Type::from_syntax(elem);
                if *is_mut {
                    Type::RefMut(Box::new(inner))
                } else {
                    Type::Ref(Box::new(inner))
                }
            },
            TypeSyntax::Path { has_qself, has_leading_colon, segments, ident, kind, args } => {
                match kind {
                    ArgumentsKind::AngleBracketed => {
                        let mut types: Vec<Box<Type>> = Vec::new();
                        let mut i: usize = 0;
                        while i < args.len()
                            invariant
                                i <= args.len(),
                                ty is Path,
                                ty->args == args,
                                forall|j: int| 0 <= j < args.len() ==> (#[trigger] args[j]).supported(),
                                types@.len() == i,
                                forall|j: int|
                                    0 <= j < i ==> (#[trigger] types@[j]).model()
                                        == args[j].boundary_type(),
                            decreases args.len() - i,
                        {
                            types.push(Box::new(Type::from_syntax(&args[i])));
                            i = i + 1;
                        }
                        let res = Type::Struct { name: ident.clone(), args: types };
                        assert(res@->Struct_args =~= ty.boundary_type()->Struct_args);
                        res
                    },
                    _ => {
                        if names_primitive(ident) {
                            Type::Primitive(ident.clone())
                        } else {
                            let res = Type::Struct { name: ident.clone(), args: Vec::new() };
                            assert(res@->Struct_args =~= Seq::empty());
                            res
                        }
                    },
                }
            },
            TypeSyntax::NotAType => Type::Primitive(String::new()),
            TypeSyntax::Other => Type::Primitive(String::new()),
        }
    }

    /// The boundary type of the value that a function returns, if it
    /// returns one.
    pub fn from_return_type(ty: &ReturnSyntax) -> (res: Option<Type>)
        requires
            ty matches ReturnSyntax::Type(syntax) ==> syntax.supported(),
        ensures
            match ty {
                ReturnSyntax::Default => res is None,
                ReturnSyntax::Type(syntax) => res matches Some(found) && found@
                    == syntax.boundary_type(),
            },
    {
        match ty {
            ReturnSyntax::Default => None,
            ReturnSyntax::Type(syntax) => Some(Type::from_syntax(syntax)),
        }
    }
}

impl ReceiverSyntax {
    /// Whether the receiver can be wrapped: it carries no attribute and no
    /// lifetime.
    pub open spec fn supported(&self) -> bool {
        !self.has_attrs && !(self.is_reference && self.has_lifetime)
    }

    /// How the receiver is taken.
    pub open spec fn self_type(&self) -> SelfType {
        if self.is_reference {
            if self.is_mut {
                SelfType::RefMut
            } else {
                SelfType::Ref
            }
        } else {
            if self.is_mut {
                SelfType::ValueMut
            } else {
                SelfType::Value
            }
        }
    }

    /// Whether the receiver can be wrapped.
    pub fn is_supported(&self) -> (res: bool)
        ensures
            res == self.supported(),
    {
        !self.has_attrs && !(self.is_reference && self.has_lifetime)
    }
}

impl FnArgSyntax {
    /// Whether the argument can be read as a receiver or as none.
    pub open spec fn supported(&self) -> bool {
        self matches FnArgSyntax::Receiver(receiver) ==> receiver.supported()
    }

    /// Whether the argument can be read as a receiver or as none.
    pub fn is_supported(&self) -> (res: bool)
        ensures
            res == self.supported(),
    {
        match self {
            FnArgSyntax::Receiver(receiver) => receiver.is_supported(),
            FnArgSyntax::Typed => true,
        }
    }
}

impl SelfType {
    /// How a method takes the receiver that its signature writes.
    pub fn from_receiver(receiver: &ReceiverSyntax) -> (res: SelfType)
        requires
            receiver.supported(),
        ensures
            res == receiver.self_type(),
    {
        if receiver.is_reference {
            if receiver.is_mut {
                SelfType::RefMut
            } else {
                SelfType::Ref
            }
        } else {
            if receiver.is_mut {
                SelfType::ValueMut
            } else {
                SelfType::Value
            }
        }
    }

    /// How a function takes its first argument: as the receiver that it
    /// is, or not as a receiver.
    pub fn from_fn_arg(arg: &FnArgSyntax) -> (res: SelfType)
        requires
            arg.supported(),
        ensures
            res == (match arg {
                FnArgSyntax::Receiver(receiver) => receiver.self_type(),
                FnArgSyntax::Typed => SelfType::Absent,
            }),
    {
        match arg {
            FnArgSyntax::Receiver(receiver) => SelfType::from_receiver(receiver),
            FnArgSyntax::Typed => SelfType::Absent,
        }
    }
}

} // verus!
