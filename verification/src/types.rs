//! The boundary type model: how a type is written on the native side, and how
//! it is flattened for the C side.

use crate::text::{join, join_strings, strs};
use vstd::prelude::*;
use vstd::string::*;

verus! {

/// A type as it is written on the native side of the boundary.
#[derive(PartialEq, Eq, Hash, Debug)]
pub enum Type {
    Primitive(String),
    Struct { name: String, args: Vec<Box<Type>> },
    Ref(Box<Type>),
    RefMut(Box<Type>),
    Buffer(Box<Type>),
    Enum { name: String, variants: Vec<String> },
}

/// How a method takes its receiver.
#[derive(Clone, Copy, PartialEq, Eq, Hash, Debug, Structural)]
pub enum SelfType {
    /// No receiver: an associated or free function.
    Absent,
    Value,
    Ref,
    RefMut,
    ValueMut,
}

/// A trait that a wrapped struct may derive.
#[derive(Clone, Copy, PartialEq, Eq, Hash, Debug, Structural)]
pub enum DerivedTrait {
    Default,
    Clone,
    PartialEq,
    Eq,
}

/// The mathematical tree that a `Type` stands for.
pub enum TypeView {
    Primitive(Seq<char>),
    Struct { name: Seq<char>, args: Seq<TypeView> },
    Ref(Box<TypeView>),
    RefMut(Box<TypeView>),
    Buffer(Box<TypeView>),
    Enum { name: Seq<char>, variants: Seq<Seq<char>> },
}

impl TypeView {
    /// A sequence whose elements are sequences.
    pub open spec fn is_nested_sequence(self) -> bool {
        self matches TypeView::Buffer(elem) && *elem is Buffer
    }

    /// No sequence of sequences occurs anywhere in the tree.
    pub open spec fn supported(self) -> bool
        decreases self,
    {
        match self {
            TypeView::Primitive(_) => true,
            TypeView::Struct { name, args } => forall|i: int|
                0 <= i < args.len() ==> (#[trigger] args[i]).supported(),
            TypeView::Ref(inner) => inner.supported(),
            TypeView::RefMut(inner) => inner.supported(),
            TypeView::Buffer(elem) => !(*elem is Buffer) && elem.supported(),
            TypeView::Enum { .. } => true,
        }
    }

    /// The flat encoding on the C side: structs and references become an
    /// opaque pointer, a sequence a pointer to its elements, an enum its
    /// ordinal, and a primitive stays what it is.
    pub open spec fn abi_text(self) -> Seq<char>
        decreases self,
    {
        match self {
            TypeView::Primitive(name) => name,
            TypeView::Struct { .. } => "*mut ::std::os::raw::c_void"@,
            TypeView::Ref(_) => "*mut ::std::os::raw::c_void"@,
            TypeView::RefMut(_) => "*mut ::std::os::raw::c_void"@,
            TypeView::Buffer(elem) => "*const "@ + elem.abi_text(),
            TypeView::Enum { .. } => "usize"@,
        }
    }

    /// The native declarations of the generic arguments, in order.
    pub open spec fn rust_texts(args: Seq<TypeView>) -> Seq<Seq<char>>
        decreases args, 0nat,
    {
        Seq::new(
            args.len(),
            |i: int|
                if 0 <= i < args.len() {
                    args[i].rust_text()
                } else {
                    Seq::empty()
                },
        )
    }

    /// The native declaration: the name, with the generic arguments between
    /// angle brackets where there are any.
    pub open spec fn rust_text(self) -> Seq<char>
        decreases self, 1nat,
    {
        match self {
            TypeView::Primitive(name) => name,
            TypeView::Struct { name, args } => if args.len() == 0 {
                name
            } else {
                name + "<"@ + join(Self::rust_texts(args), ", "@) + ">"@
            },
            TypeView::Ref(inner) => "&"@ + inner.rust_text(),
            TypeView::RefMut(inner) => "&mut "@ + inner.rust_text(),
            TypeView::Buffer(elem) => "*const "@ + (match *elem {
                TypeView::Ref(inner) => "*const "@ + inner.rust_text(),
                TypeView::RefMut(inner) => "*mut "@ + inner.rust_text(),
                _ => elem.rust_text(),
            }),
            TypeView::Enum { name, .. } => name,
        }
    }

    /// The tree with every struct called `Self` renamed to `name`, as far as
    /// struct arguments and references lead.
    pub open spec fn resolved(self, name: Seq<char>) -> TypeView
        decreases self,
    {
        match self {
            TypeView::Struct { name: own, args } => TypeView::Struct {
                name: if own == "Self"@ {
                    name
                } else {
                    own
                },
                args: Seq::new(
                    args.len(),
                    |i: int|
                        if 0 <= i < args.len() {
                            args[i].resolved(name)
                        } else {
                            TypeView::Primitive(Seq::empty())
                        },
                ),
            },
            TypeView::Ref(inner) => TypeView::Ref(Box::new(inner.resolved(name))),
            TypeView::RefMut(inner) => TypeView::RefMut(Box::new(inner.resolved(name))),
            _ => self,
        }
    }
}

impl SelfType {
    /// Whether the receiver is taken by reference, shared or mutable.
    pub fn is_ref(&self) -> (res: bool)
        ensures
            res == (*self == SelfType::Ref || *self == SelfType::RefMut),
    {
        match self {
            SelfType::Absent => false,
            SelfType::Value => false,
            SelfType::Ref => true,
            SelfType::RefMut => true,
            SelfType::ValueMut => false,
        }
    }

    /// Whether there is no receiver.
    pub fn is_none(&self) -> (res: bool)
        ensures
            res == (*self == SelfType::Absent),
    {
        match self {
            SelfType::Absent => true,
            _ => false,
        }
    }

    /// Whether there is a receiver.
    pub fn is_some(&self) -> (res: bool)
        ensures
            res == (*self != SelfType::Absent),
    {
        !self.is_none()
    }
}

impl Type {
    /// The tree that this value stands for.
    pub open spec fn model(&self) -> TypeView
        decreases self,
    {
        match self {
            Type::Primitive(name) => TypeView::Primitive(name@),
            Type::Struct { name, args } => TypeView::Struct {
                name: name@,
                args: Seq::new(
                    args.len() as nat,
                    |i: int|
                        if 0 <= i < args.len() {
                            args[i].model()
                        } else {
                            TypeView::Primitive(Seq::empty())
                        },
                ),
            },
            Type::Ref(inner) => TypeView::Ref(Box::new(inner.model())),
            Type::RefMut(inner) => TypeView::RefMut(Box::new(inner.model())),
            Type::Buffer(inner) => TypeView::Buffer(Box::new(inner.model())),
            Type::Enum { name, variants } => TypeView::Enum {
                name: name@,
                variants: strs(variants@),
            },
        }
    }
}

impl View for Type {
    type V = TypeView;

    open spec fn view(&self) -> TypeView {
        self.model()
    }
}

impl Type {
    /// A struct without generic arguments.
    pub fn new_struct(struct_name: &str) -> (res: Type)
        ensures
            res@ == (TypeView::Struct { name: struct_name@, args: Seq::empty() }),
    {
        let res = Type::Struct { name: struct_name.to_owned(), args: Vec::new() };
        assert(res@->Struct_args =~= Seq::empty());
        res
    }

    /// A shared reference to a struct without generic arguments.
    pub fn new_ref(struct_name: &str) -> (res: Type)
        ensures
            res@ == TypeView::Ref(
                Box::new(TypeView::Struct { name: struct_name@, args: Seq::empty() }),
            ),
    {
        Type::Ref(Box::new(Type::new_struct(struct_name)))
    }

    /// A mutable reference to a struct without generic arguments.
    pub fn new_ref_mut(struct_name: &str) -> (res: Type)
        ensures
            res@ == TypeView::RefMut(
                Box::new(TypeView::Struct { name: struct_name@, args: Seq::empty() }),
            ),
    {
        Type::RefMut(Box::new(Type::new_struct(struct_name)))
    }

    /// A sequence of bytes.
    pub fn new_u8_buffer() -> (res: Type)
        ensures
            res@ == TypeView::Buffer(Box::new(TypeView::Primitive("u8"@))),
    {
        let elem = Type::Primitive("u8".to_owned());
        assert(elem@ == TypeView::Primitive("u8"@));
        Type::Buffer(Box::new(elem))
    }

    /// Whether the type is a sequence.
    pub fn is_buffer(&self) -> (res: bool)
        ensures
            res == (self@ is Buffer),
    {
        match self {
            Type::Buffer(_) => true,
            _ => false,
        }
    }

    /// Whether the type is a struct.
    pub fn is_struct(&self) -> (res: bool)
        ensures
            res == (self@ is Struct),
    {
        match self {
            Type::Struct { .. } => true,
            _ => false,
        }
    }

    /// Whether no sequence of sequences occurs in the type.
    pub fn is_supported(&self) -> (res: bool)
        ensures
            res == self@.supported(),
        decreases self,
    {
        match self {
            Type::Primitive(_) => true,
            Type::Struct { name, args } => {
                let mut i: usize = 0;
                while i < args.len()
                    invariant
                        i <= args.len(),
                        self is Struct,
                        self->args == args,
                        forall|j: int| 0 <= j < i ==> (#[trigger] self@->Struct_args[j]).supported(),
                    decreases args.len() - i,
                {
                    if !args[i].is_supported() {
                        assert(!self@->Struct_args[i as int].supported());
                        return false;
                    }
                    i = i + 1;
                }
                true
            },
            Type::Ref(inner) => inner.is_supported(),
            Type::RefMut(inner) => inner.is_supported(),
            Type::Buffer(elem) => !elem.is_buffer() && elem.is_supported(),
            Type::Enum { .. } => true,
        }
    }

    /// The type as C sees it.
    pub fn to_c_str(&self) -> (res: String)
        requires
            !self@.is_nested_sequence(),
        ensures
            res@ == self@.abi_text(),
        decreases self,
    {
        match self {
            Type::Primitive(ty) => ty.clone(),
            Type::Struct { .. } => "*mut ::std::os::raw::c_void".to_owned(),
            Type::Ref(_) => "*mut ::std::os::raw::c_void".to_owned(),
            Type::RefMut(_) => "*mut ::std::os::raw::c_void".to_owned(),
            Type::Buffer(elem) => {
                let mut out = "*const ".to_owned();
                out.append(elem.to_c_str().as_str());
                out
            },
            Type::Enum { .. } => "usize".to_owned(),
        }
    }

    /// The native declarations of a struct's generic arguments.
    pub fn generic_texts(&self) -> (res: Vec<String>)
        requires
            self@ is Struct,
            self@.supported(),
        ensures
            strs(res@) == TypeView::rust_texts(self@->Struct_args),
        decreases self, 0nat,
    {
        let mut texts: Vec<String> = Vec::new();
        match self {
            Type::Struct { name, args } => {
                let mut i: usize = 0;
                while i < args.len()
                    invariant
                        i <= args.len(),
                        self is Struct,
                        self->args == args,
                        self@.supported(),
                        texts@.len() == i,
                        forall|j: int|
                            0 <= j < i ==> (#[trigger] texts@[j])@ == args[j].model().rust_text(),
                    decreases args.len() - i,
                {
                    assert(self@->Struct_args[i as int].supported());
                    texts.push(args[i].to_rust_str());
                    i = i + 1;
                }
                assert(strs(texts@) =~= TypeView::rust_texts(self@->Struct_args));
            },
            _ => {},
        }
        texts
    }

    /// The type as the wrapper's body names it.
    pub fn to_rust_str(&self) -> (res: String)
        requires
            self@.supported(),
        ensures
            res@ == self@.rust_text(),
        decreases self, 1nat,
    {
        match self {
            Type::Primitive(ty) => ty.clone(),
            Type::Struct { name, args } => {
                if args.len() == 0 {
                    name.clone()
                } else {
                    let texts = self.generic_texts();
                    let joined = join_strings(&texts, ", ");
                    let mut out = name.clone();
                    out.append("<");
                    out.append(joined.as_str());
                    out.append(">");
                    out
                }
            },
            Type::Ref(ty) => {
                let mut out = "&".to_owned();
                out.append(ty.to_rust_str().as_str());
                out
            },
            Type::RefMut(ty) => {
                let mut out = "&mut ".to_owned();
                out.append(ty.to_rust_str().as_str());
                out
            },
            Type::Buffer(ty) => {
                let mut out = "*const ".to_owned();
                assert(ty@.supported());
                match &**ty {
                    Type::Ref(inner) => {
                        assert(inner@.supported());
                        out.append("*const ");
                        out.append(inner.to_rust_str().as_str());
                    },
                    Type::RefMut(inner) => {
                        assert(inner@.supported());
                        out.append("*mut ");
                        out.append(inner.to_rust_str().as_str());
                    },
                    _ => {
                        out.append(ty.to_rust_str().as_str());
                    },
                }
                out
            },
            Type::Enum { name, .. } => name.clone(),
        }
    }

    /// Renames every struct called `Self` to `struct_name`.
    pub fn update_struct(&mut self, struct_name: &str)
        ensures
            final(self)@ == old(self)@.resolved(struct_name@),
        decreases *old(self),
    {
        match self {
            Type::Primitive(_) | Type::Buffer(_) | Type::Enum { .. } => {},
            Type::Struct { name, args } => {
                let placeholder = "Self".to_owned();
                if *name == placeholder {
                    *name = struct_name.to_owned();
                }
                let ghost before = *args;
                let mut i: usize = 0;
                while i < args.len()
                    invariant
                        i <= args.len(),
                        args.len() == before.len(),
                        *old(self) is Struct,
                        old(self)->args == before,
                        forall|j: int| i <= j < args.len() ==> args[j] == before[j],
                        forall|j: int|
                            0 <= j < i ==> (#[trigger] args[j]).model() == before[j].model().resolved(
                                struct_name@,
                            ),
                    decreases args.len() - i,
                {
                    args[i].update_struct(struct_name);
                    i = i + 1;
                }
                assert((Type::Struct { name: *name, args: *args })@->Struct_args =~= old(
                    self,
                )@.resolved(struct_name@)->Struct_args);
            },
            Type::Ref(ty) => {
                ty.update_struct(struct_name);
            },
            Type::RefMut(ty) => {
                ty.update_struct(struct_name);
            },
        }
    }

    /// A deep copy.
    pub fn duplicate(&self) -> (res: Type)
        ensures
            res@ == self@,
        decreases self,
    {
        match self {
            Type::Primitive(name) => Type::Primitive(name.clone()),
            Type::Struct { name, args } => {
                let mut copies: Vec<Box<Type>> = Vec::new();
                let mut i: usize = 0;
                while i < args.len()
                    invariant
                        i <= args.len(),
                        self is Struct,
                        self->args == args,
                        copies@.len() == i,
                        forall|j: int|
                            0 <= j < i ==> (#[trigger] copies@[j]).model() == args@[j].model(),
                    decreases args.len() - i,
                {
                    let c = args[i].duplicate();
                    copies.push(Box::new(c));
                    i = i + 1;
                }
                let res = Type::Struct { name: name.clone(), args: copies };
                assert(res@->Struct_args =~= self@->Struct_args);
                res
            },
            Type::Ref(inner) => Type::Ref(Box::new(inner.duplicate())),
            Type::RefMut(inner) => Type::RefMut(Box::new(inner.duplicate())),
            Type::Buffer(inner) => Type::Buffer(Box::new(inner.duplicate())),
            Type::Enum { name, variants } => {
                let mut copies: Vec<String> = Vec::new();
                let mut i: usize = 0;
                while i < variants.len()
                    invariant
                        i <= variants.len(),
                        copies@.len() == i,
                        forall|j: int| 0 <= j < i ==> (#[trigger] copies@[j])@ == variants@[j]@,
                    decreases variants.len() - i,
                {
                    copies.push(variants[i].clone());
                    i = i + 1;
                }
                let res = Type::Enum { name: name.clone(), variants: copies };
                assert(res@->Enum_variants =~= self@->Enum_variants);
                res
            },
        }
    }
}

impl Clone for Type {
    fn clone(&self) -> (res: Type)
        ensures
            res@ == self@,
    {
        self.duplicate()
    }
}

} // verus!
