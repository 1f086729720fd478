//! What a boundary wrapper consists of: from the description of one native
//! function to the statements of its wrapper, in the order in which they
//! are written.
//!
//! The receiver and the arguments are taken back from their pointers, the
//! native function is called, its result is dispatched on where it reports
//! an error code, the return value is handed over through out-pointers, and
//! what was only borrowed is released.

use crate::compiler::{CArgInfoView, FunctionArgView, FunctionView, MatchView, Statement};
use crate::error::GenError;
use crate::text::{decimal, join};
use crate::types::{SelfType, Type, TypeView};
use vstd::prelude::*;

verus! {

/// One native function to be wrapped.
pub struct FunctionDescriptor {
    /// The name of the exported wrapper.
    pub extern_name: Seq<char>,
    /// The type that the function belongs to, and how it takes its receiver.
    pub owner: Option<(TypeView, SelfType)>,
    /// The name of the native function.
    pub func_name: Seq<char>,
    /// The arguments, by name and type, in order.
    pub args: Seq<(Seq<char>, TypeView)>,
    /// The type of the value that the function returns, if it returns one.
    pub ret: Option<TypeView>,
    /// Whether the function returns a `Result`, reported to C as 0 or 1.
    pub use_error_code: bool,
}

/// The owner as the descriptor holds it.
pub open spec fn owner_view(owner: Option<(Type, SelfType)>) -> Option<(TypeView, SelfType)> {
    match owner {
        Some((ty, self_ty)) => Some((ty@, self_ty)),
        None => None,
    }
}

/// The arguments as the descriptor holds them.
pub open spec fn raw_args_view(args: Seq<(&str, Type)>) -> Seq<(Seq<char>, TypeView)> {
    Seq::new(args.len(), |i: int| (args[i].0@, args[i].1@))
}

/// The return type as the descriptor holds it.
pub open spec fn ret_view(ret: Option<Type>) -> Option<TypeView> {
    match ret {
        Some(ty) => Some(ty@),
        None => None,
    }
}

/// The name that the wrapper's body gives to argument `index`.
pub open spec fn binding(index: nat) -> Seq<char> {
    "arg"@ + decimal(index)
}

/// The expression that takes back ownership of the `ty` behind `pointer`.
pub open spec fn reclaim(pointer: Seq<char>, ty: Seq<char>) -> Seq<char> {
    "Box::from_raw("@ + pointer + " as *mut "@ + ty + ")"@
}

/// The statement that hands the allocation owned by `handle` back to its
/// raw pointer, so that it outlives the wrapper.
pub open spec fn release(handle: Seq<char>) -> Statement {
    Statement::Call {
        left: None,
        ty: None,
        caller: None,
        func: "Box::into_raw"@,
        args: seq![handle],
    }
}

/// The statement that moves `value` to the heap and keeps the raw pointer.
pub open spec fn box_value() -> Statement {
    Statement::Call {
        left: Some("value"@),
        ty: None,
        caller: None,
        func: "Box::into_raw"@,
        args: seq!["Box::new(value)"@],
    }
}

/// The parameters that one argument becomes: itself, and its length where
/// it is a sequence.
pub open spec fn argument_params(name: Seq<char>, ty: TypeView) -> Seq<FunctionArgView> {
    if ty is Buffer {
        seq![
            FunctionArgView::CArg(CArgInfoView::arg(name, ty.abi_text())),
            FunctionArgView::CArg(CArgInfoView::len_arg(name)),
        ]
    } else {
        seq![FunctionArgView::CArg(CArgInfoView::arg(name, ty.abi_text()))]
    }
}

/// The parameters that the arguments become, in order.
pub open spec fn arguments_params(args: Seq<(Seq<char>, TypeView)>) -> Seq<FunctionArgView>
    decreases args.len(),
{
    if args.len() == 0 {
        Seq::empty()
    } else {
        arguments_params(args.drop_last()) + argument_params(args.last().0, args.last().1)
    }
}

/// The out-parameters of a return value: a pointer, and a length for a
/// sequence.
pub open spec fn return_params(ret: Option<TypeView>) -> Seq<FunctionArgView> {
    match ret {
        None => Seq::empty(),
        Some(ty) => if ty is Buffer {
            seq![
                FunctionArgView::CArg(CArgInfoView::ret_arg(ty.abi_text())),
                FunctionArgView::CArg(CArgInfoView::ret_len_arg()),
            ]
        } else {
            seq![FunctionArgView::CArg(CArgInfoView::ret_arg(ty.abi_text()))]
        },
    }
}

/// The receiver is taken back from its opaque pointer. By value it
/// is owned under the name `self_`; by reference the owning handle is
/// `self_box` and `self_` borrows from it.
pub open spec fn receiver_statements(owner: TypeView, self_ty: SelfType) -> Seq<Statement> {
    let taken = reclaim("self_"@, owner.rust_text());
    match self_ty {
        SelfType::Absent => Seq::empty(),
        SelfType::Value => seq![
            Statement::Let { is_mut: false, ty: None, left: "self_"@, right: taken, is_unsafe: true },
        ],
        SelfType::Ref => seq![
            Statement::Let {
                is_mut: false,
                ty: None,
                left: "self_box"@,
                right: taken,
                is_unsafe: true,
            },
            Statement::Let {
                is_mut: false,
                ty: None,
                left: "self_"@,
                right: "&**self_box"@,
                is_unsafe: true,
            },
        ],
        SelfType::RefMut => seq![
            Statement::Let {
                is_mut: false,
                ty: None,
                left: "self_box"@,
                right: taken,
                is_unsafe: true,
            },
            Statement::Let {
                is_mut: false,
                ty: None,
                left: "self_"@,
                right: "&mut **self_box"@,
                is_unsafe: true,
            },
        ],
        SelfType::ValueMut => seq![
            Statement::Let { is_mut: true, ty: None, left: "self_"@, right: taken, is_unsafe: true },
        ],
    }
}

/// The patterns of the match that decodes an enum of `count` variants: the
/// ordinals from zero, then the default.
pub open spec fn ordinal_arms(count: nat) -> Seq<Seq<char>> {
    Seq::new(count, |k: int| decimal(k as nat)).push("_"@)
}

/// The arms that name the variants: each gives its variant and is closed.
pub open spec fn variant_arms(name: Seq<char>, variants: Seq<Seq<char>>) -> Seq<Statement>
    decreases variants.len(),
{
    if variants.len() == 0 {
        Seq::empty()
    } else {
        variant_arms(name, variants.drop_last()) + seq![
            Statement::Value { value: name + "::"@ + variants.last(), with_return: false },
            Statement::Close,
        ]
    }
}

/// The decoding of an enum argument from its ordinal: one arm for each
/// variant, and a default arm that ends the process.
pub open spec fn decode_statements(
    name: Seq<char>,
    left: Seq<char>,
    enum_name: Seq<char>,
    variants: Seq<Seq<char>>,
) -> Seq<Statement> {
    seq![
        Statement::OpenMatch(
            MatchView { scrutinee: name, arms: ordinal_arms(variants.len()), def: Some(left) },
        ),
    ] + variant_arms(enum_name, variants) + seq![
        Statement::Value { value: "panic!(\"invalid enum variant\")"@, with_return: false },
        Statement::Close,
    ]
}

/// One argument: a primitive is passed through; a struct is
/// taken back and moved out of its box; a reference is taken back into an
/// owning handle; a sequence is viewed through its pointer and length; an
/// enum is decoded from its ordinal.
pub open spec fn argument_statements(name: Seq<char>, ty: TypeView, index: nat) -> Seq<Statement> {
    let left = binding(index);
    match ty {
        TypeView::Primitive(_) => seq![
            Statement::Let { is_mut: false, ty: None, left, right: name, is_unsafe: false },
        ],
        TypeView::Struct { .. } => seq![
            Statement::Let {
                is_mut: false,
                ty: None,
                left,
                right: "*"@ + reclaim(name, ty.rust_text()),
                is_unsafe: true,
            },
        ],
        TypeView::Ref(inner) => seq![
            Statement::Let {
                is_mut: false,
                ty: None,
                left,
                right: reclaim(name, inner.rust_text()),
                is_unsafe: true,
            },
        ],
        TypeView::RefMut(inner) => seq![
            Statement::Let {
                is_mut: true,
                ty: None,
                left,
                right: reclaim(name, inner.rust_text()),
                is_unsafe: true,
            },
        ],
        TypeView::Buffer(_) => seq![
            Statement::Let {
                is_mut: false,
                ty: None,
                left,
                right: "std::slice::from_raw_parts("@ + name + " as "@ + ty.rust_text() + ", "@
                    + name + "_len)"@,
                is_unsafe: true,
            },
        ],
        TypeView::Enum { name: enum_name, variants } => decode_statements(
            name,
            left,
            enum_name,
            variants,
        ),
    }
}

/// The arguments, in declaration order.
pub open spec fn arguments_statements(args: Seq<(Seq<char>, TypeView)>) -> Seq<Statement>
    decreases args.len(),
{
    if args.len() == 0 {
        Seq::empty()
    } else {
        arguments_statements(args.drop_last()) + argument_statements(
            args.last().0,
            args.last().1,
            (args.len() - 1) as nat,
        )
    }
}

/// How argument `index` is handed to the native function: a shared
/// reference as a borrow of its handle, a mutable reference as a mutable
/// borrow of what its handle owns, anything else as its binding.
pub open spec fn passed(ty: TypeView, index: nat) -> Seq<char> {
    match ty {
        TypeView::Ref(_) => "&"@ + binding(index),
        TypeView::RefMut(_) => "unsafe { &mut *"@ + binding(index) + " }"@,
        _ => binding(index),
    }
}

/// What the native function is called with.
pub open spec fn passed_arguments(args: Seq<(Seq<char>, TypeView)>) -> Seq<Seq<char>> {
    Seq::new(args.len(), |i: int| passed(args[i].1, i as nat))
}

/// The type written on the binding of the result: a returned reference is
/// bound as a raw pointer.
pub open spec fn result_annotation(ret: Option<TypeView>) -> Option<Seq<char>> {
    match ret {
        Some(TypeView::Ref(inner)) => Some("*const "@ + inner.rust_text()),
        Some(TypeView::RefMut(inner)) => Some("*mut "@ + inner.rust_text()),
        _ => None,
    }
}

/// The two-armed dispatch on the result. Success gives the payload on, or
/// an empty value where there is no payload; failure returns 1 at once.
pub open spec fn dispatch_statements(has_payload: bool) -> Seq<Statement> {
    if has_payload {
        seq![
            Statement::OpenMatch(
                MatchView {
                    scrutinee: "value"@,
                    arms: seq!["Ok(value)"@, "Err(_)"@],
                    def: Some("value"@),
                },
            ),
            Statement::Value { value: "value"@, with_return: false },
            Statement::Close,
            Statement::Value { value: "1"@, with_return: true },
            Statement::Close,
        ]
    } else {
        seq![
            Statement::OpenMatch(
                MatchView { scrutinee: "value"@, arms: seq!["Ok(_)"@, "Err(_)"@], def: None },
            ),
            Statement::Value { value: ""@, with_return: false },
            Statement::Close,
            Statement::Value { value: "1"@, with_return: true },
            Statement::Close,
        ]
    }
}

/// The return value: a primitive is written through the
/// out-pointer; a struct is boxed and its pointer written; a reference is
/// written as an address; of a sequence each element is boxed, and the base
/// address and the count are written.
pub open spec fn return_statements(ret: Option<TypeView>) -> Seq<Statement> {
    match ret {
        None => Seq::empty(),
        Some(TypeView::Primitive(_)) => seq![
            Statement::Assign { target: "return_ptr"@, value: "value"@ },
        ],
        Some(TypeView::Struct { .. }) => seq![
            box_value(),
            Statement::Assign { target: "return_ptr"@, value: "value as _"@ },
        ],
        Some(TypeView::Ref(_)) => seq![
            Statement::Assign { target: "return_ptr"@, value: "value as _"@ },
        ],
        Some(TypeView::RefMut(_)) => seq![
            Statement::Assign { target: "return_ptr"@, value: "value as _"@ },
        ],
        Some(TypeView::Buffer(elem)) => seq![
            Statement::Let {
                is_mut: false,
                ty: Some("Vec<*mut "@ + elem.rust_text() + ">"@),
                left: "value"@,
                right: "value.into_iter().map(|x| Box::into_raw(Box::new(x))).collect()"@,
                is_unsafe: false,
            },
            box_value(),
            Statement::Assign { target: "return_ptr"@, value: "(*value).as_ptr() as _"@ },
            Statement::Assign { target: "return_len_ptr"@, value: "(*value).len()"@ },
        ],
        Some(TypeView::Enum { .. }) => Seq::empty(),
    }
}

/// A borrowed receiver is released after the call.
pub open spec fn receiver_release(self_ty: SelfType) -> Seq<Statement> {
    if self_ty == SelfType::Ref || self_ty == SelfType::RefMut {
        seq![release("self_box"@)]
    } else {
        Seq::empty()
    }
}

/// A borrowed argument is released after the call.
pub open spec fn argument_release(ty: TypeView, index: nat) -> Seq<Statement> {
    if ty is Ref || ty is RefMut {
        seq![release(binding(index))]
    } else {
        Seq::empty()
    }
}

/// The releases of the arguments, in declaration order.
pub open spec fn arguments_release(args: Seq<(Seq<char>, TypeView)>) -> Seq<Statement>
    decreases args.len(),
{
    if args.len() == 0 {
        Seq::empty()
    } else {
        arguments_release(args.drop_last()) + argument_release(
            args.last().1,
            (args.len() - 1) as nat,
        )
    }
}

/// Whether the function takes a receiver.
pub open spec fn takes_receiver(owner: Option<(TypeView, SelfType)>) -> bool {
    owner matches Some((_, self_ty)) && self_ty != SelfType::Absent
}

/// Whether no type among these holds a sequence of sequences.
pub open spec fn all_supported(
    owner: Option<(TypeView, SelfType)>,
    args: Seq<(Seq<char>, TypeView)>,
    ret: Option<TypeView>,
) -> bool {
    &&& owner matches Some((ty, _)) ==> ty.supported()
    &&& forall|i: int| 0 <= i < args.len() ==> (#[trigger] args[i]).1.supported()
    &&& ret matches Some(ty) ==> ty.supported()
}

/// Why no wrapper can be generated, if that is so: the owner of an
/// associated function is no struct; a type holds a sequence of sequences;
/// the return type is an enum; a sequence is returned without an error code.
/// Where several hold, the first of them is reported.
pub open spec fn problem_of(
    owner: Option<(TypeView, SelfType)>,
    args: Seq<(Seq<char>, TypeView)>,
    ret: Option<TypeView>,
    use_error_code: bool,
) -> Option<GenError> {
    if owner matches Some((ty, self_ty)) && self_ty == SelfType::Absent && !(ty is Struct) {
        Some(GenError::OwnerNotStruct)
    } else if !all_supported(owner, args, ret) {
        Some(GenError::NestedSequence)
    } else if ret matches Some(ty) && ty is Enum {
        Some(GenError::EnumReturn)
    } else if ret matches Some(ty) && ty is Buffer && !use_error_code {
        Some(GenError::SequenceReturnWithoutErrorCode)
    } else {
        None
    }
}

/// The parameters of the wrapper: the receiver's pointer, then the
/// arguments, then the out-parameters of the return value.
pub open spec fn wrapper_params(
    owner: Option<(TypeView, SelfType)>,
    args: Seq<(Seq<char>, TypeView)>,
    ret: Option<TypeView>,
) -> Seq<FunctionArgView> {
    (if takes_receiver(owner) {
        seq![FunctionArgView::CSelfArg]
    } else {
        Seq::empty()
    }) + arguments_params(args) + return_params(ret)
}

/// The path of the native function: a method by its name, an associated
/// function through its owner with the owner's generic arguments.
pub open spec fn callee_path(owner: Option<(TypeView, SelfType)>, func_name: Seq<char>) -> Seq<char> {
    match owner {
        Some((TypeView::Struct { name, args }, SelfType::Absent)) => name + "::<"@ + join(
            TypeView::rust_texts(args),
            ", "@,
        ) + ">::"@ + func_name,
        _ => func_name,
    }
}

/// The call of the native function. Its result is bound to `value` where
/// there is a return value or an error code.
pub open spec fn call_statement(
    owner: Option<(TypeView, SelfType)>,
    func_name: Seq<char>,
    args: Seq<(Seq<char>, TypeView)>,
    ret: Option<TypeView>,
    use_error_code: bool,
) -> Statement {
    let bound = use_error_code || ret is Some;
    Statement::Call {
        left: if bound {
            Some("value"@)
        } else {
            None
        },
        ty: if bound {
            result_annotation(ret)
        } else {
            None
        },
        caller: if takes_receiver(owner) {
            Some("self_"@)
        } else {
            None
        },
        func: callee_path(owner, func_name),
        args: passed_arguments(args),
    }
}

/// What is released after the call, the receiver first.
pub open spec fn release_statements(
    owner: Option<(TypeView, SelfType)>,
    args: Seq<(Seq<char>, TypeView)>,
) -> Seq<Statement> {
    (match owner {
        Some((_, self_ty)) => receiver_release(self_ty),
        None => Seq::empty(),
    }) + arguments_release(args)
}

impl FunctionDescriptor {
    /// Whether the function takes a receiver.
    pub open spec fn has_receiver(self) -> bool {
        takes_receiver(self.owner)
    }

    /// Why no wrapper can be generated, if that is so.
    pub open spec fn problem(self) -> Option<GenError> {
        problem_of(self.owner, self.args, self.ret, self.use_error_code)
    }

    /// The parameters of the wrapper.
    pub open spec fn params(self) -> Seq<FunctionArgView> {
        wrapper_params(self.owner, self.args, self.ret)
    }

    /// The scope of the wrapper.
    pub open spec fn scope(self) -> FunctionView {
        FunctionView::extern_c(self.extern_name, true, self.params(), self.use_error_code)
    }

    /// The statements that take the receiver back.
    pub open spec fn receiver(self) -> Seq<Statement> {
        match self.owner {
            Some((ty, self_ty)) => receiver_statements(ty, self_ty),
            None => Seq::empty(),
        }
    }

    /// The call of the native function.
    pub open spec fn invocation(self) -> Statement {
        call_statement(self.owner, self.func_name, self.args, self.ret, self.use_error_code)
    }

    /// The dispatch on the result, where the function reports an error code.
    pub open spec fn dispatch(self) -> Seq<Statement> {
        if self.use_error_code {
            dispatch_statements(self.ret is Some)
        } else {
            Seq::empty()
        }
    }

    /// What is released after the call, the receiver first.
    pub open spec fn releases(self) -> Seq<Statement> {
        release_statements(self.owner, self.args)
    }

    /// The success sentinel that ends a wrapper with an error code.
    pub open spec fn epilogue(self) -> Seq<Statement> {
        if self.use_error_code {
            seq![Statement::Line("0"@)]
        } else {
            Seq::empty()
        }
    }

    /// What stands between the braces of the wrapper.
    pub open spec fn body(self) -> Seq<Statement> {
        self.receiver() + arguments_statements(self.args) + seq![self.invocation()]
            + self.dispatch() + return_statements(self.ret) + self.releases() + self.epilogue()
    }

    /// The wrapper: its scope, its body, and an empty line after it.
    pub open spec fn statements(self) -> Seq<Statement> {
        seq![Statement::OpenFunction(self.scope())] + self.body() + seq![
            Statement::Close,
            Statement::Newline,
        ]
    }
}

/// The descriptor that the arguments of `add_extern_c_function` stand for.
pub open spec fn descriptor(
    extern_name: &str,
    struct_ty: Option<(Type, SelfType)>,
    func_name: &str,
    raw_args: Seq<(&str, Type)>,
    raw_ret: Option<Type>,
    use_error_code: bool,
) -> FunctionDescriptor {
    FunctionDescriptor {
        extern_name: extern_name@,
        owner: owner_view(struct_ty),
        func_name: func_name@,
        args: raw_args_view(raw_args),
        ret: ret_view(raw_ret),
        use_error_code,
    }
}

} // verus!
