//! What holds of every wrapper, whatever function it wraps.

use crate::wrapper::{
    binding,
    argument_params, argument_statements, arguments_params, arguments_release,
    arguments_statements, decode_statements, ordinal_arms, receiver_release,
    reclaim, release, return_params, return_statements, takes_receiver,
    variant_arms, wrapper_params, FunctionDescriptor,
};
use crate::compiler::{CArgInfoView, FunctionArgView, Statement};
use crate::syntax::{ArgumentsKind, TypeSyntax};
use crate::text::{decimal, join};
use crate::types::{SelfType, TypeView};
use vstd::prelude::*;

verus! {

/// How many statements of `statements` meet `wanted`.
pub open spec fn count(statements: Seq<Statement>, wanted: spec_fn(Statement) -> bool) -> nat
    decreases statements.len(),
{
    if statements.len() == 0 {
        0
    } else {
        count(statements.drop_last(), wanted) + (if wanted(statements.last()) {
            1nat
        } else {
            0nat
        })
    }
}

/// Counting over two lists in a row adds up.
pub proof fn lemma_count_concat(
    first: Seq<Statement>,
    second: Seq<Statement>,
    wanted: spec_fn(Statement) -> bool,
)
    ensures
        count(first + second, wanted) == count(first, wanted) + count(second, wanted),
    decreases second.len(),
{
    if second.len() == 0 {
        assert(first + second =~= first);
    } else {
        lemma_count_concat(first, second.drop_last(), wanted);
        assert((first + second).drop_last() =~= first + second.drop_last());
        assert((first + second).last() == second.last());
    }
}

/// Where none of the statements meets `wanted`, the count is zero.
pub proof fn lemma_count_none(statements: Seq<Statement>, wanted: spec_fn(Statement) -> bool)
    requires
        forall|i: int| 0 <= i < statements.len() ==> !wanted(#[trigger] statements[i]),
    ensures
        count(statements, wanted) == 0,
    decreases statements.len(),
{
    if statements.len() > 0 {
        lemma_count_none(statements.drop_last(), wanted);
    }
}

/// The statements of a wrapper that meet `wanted` are those of its parts
/// taken together: the opening of the function, the receiver, the
/// arguments, the call, the dispatch, the return value, the releases, the
/// sentinel and the closing.
pub proof fn lemma_count_in_wrapper(d: FunctionDescriptor, wanted: spec_fn(Statement) -> bool)
    ensures
        count(d.statements(), wanted) == count(seq![Statement::OpenFunction(d.scope())], wanted)
            + count(d.receiver(), wanted) + count(arguments_statements(d.args), wanted) + count(
            seq![d.invocation()],
            wanted,
        ) + count(d.dispatch(), wanted) + count(return_statements(d.ret), wanted) + count(
            d.releases(),
            wanted,
        ) + count(d.epilogue(), wanted) + count(
            seq![Statement::Close, Statement::Newline],
            wanted,
        ),
{
    let open = seq![Statement::OpenFunction(d.scope())];
    let close = seq![Statement::Close, Statement::Newline];
    let b1 = d.receiver() + arguments_statements(d.args);
    let b2 = b1 + seq![d.invocation()];
    let b3 = b2 + d.dispatch();
    let b4 = b3 + return_statements(d.ret);
    let b5 = b4 + d.releases();
    let body = b5 + d.epilogue();
    assert(body == d.body());
    lemma_count_concat(d.receiver(), arguments_statements(d.args), wanted);
    lemma_count_concat(b1, seq![d.invocation()], wanted);
    lemma_count_concat(b2, d.dispatch(), wanted);
    lemma_count_concat(b3, return_statements(d.ret), wanted);
    lemma_count_concat(b4, d.releases(), wanted);
    lemma_count_concat(b5, d.epilogue(), wanted);
    lemma_count_concat(open, body, wanted);
    lemma_count_concat(open + body, close, wanted);
}

/// The native declaration of a struct with two generic arguments is its
/// name and, between angle brackets, the declarations of the two arguments
/// with a comma and a space between them, however deep the arguments nest.
pub proof fn lemma_two_generic_arguments(name: Seq<char>, first: TypeView, second: TypeView)
    ensures
        (TypeView::Struct { name, args: seq![first, second] }).rust_text() == name + "<"@
            + first.rust_text() + ", "@ + second.rust_text() + ">"@,
{
    let args = seq![first, second];
    let texts = TypeView::rust_texts(args);
    assert(texts.len() == 2);
    assert(texts[0] == first.rust_text());
    assert(texts[1] == second.rust_text());
    assert(texts.drop_last().len() == 1);
    assert(texts.drop_last()[0] == first.rust_text());
    assert(join(texts.drop_last(), ", "@) == first.rust_text());
    assert(join(texts, ", "@) == first.rust_text() + ", "@ + second.rust_text());
    assert(name + "<"@ + (first.rust_text() + ", "@ + second.rust_text()) + ">"@ =~= name + "<"@
        + first.rust_text() + ", "@ + second.rust_text() + ">"@);
}

/// The arms that name the variants are two statements for each variant: the
/// variant, and the end of its arm.
pub proof fn lemma_variant_arms(name: Seq<char>, variants: Seq<Seq<char>>)
    ensures
        variant_arms(name, variants).len() == 2 * variants.len(),
        forall|k: int|
            0 <= k < variants.len() ==> #[trigger] variant_arms(name, variants)[2 * k]
                == (Statement::Value { value: name + "::"@ + variants[k], with_return: false }),
        forall|k: int|
            0 <= k < variants.len() ==> #[trigger] variant_arms(name, variants)[2 * k + 1]
                == Statement::Close,
    decreases variants.len(),
{
    if variants.len() > 0 {
        lemma_variant_arms(name, variants.drop_last());
        let shorter = variant_arms(name, variants.drop_last());
        let all = variant_arms(name, variants);
        assert forall|k: int| 0 <= k < variants.len() implies #[trigger] all[2 * k]
            == (Statement::Value { value: name + "::"@ + variants[k], with_return: false }) by {
            if k < variants.len() - 1 {
                assert(all[2 * k] == shorter[2 * k]);
                assert(variants.drop_last()[k] == variants[k]);
            }
        }
        assert forall|k: int| 0 <= k < variants.len() implies #[trigger] all[2 * k + 1]
            == Statement::Close by {
            if k < variants.len() - 1 {
                assert(all[2 * k + 1] == shorter[2 * k + 1]);
            }
        }
    }
}

/// Decoding an enum is exhaustive. For an enum of N variants the match has
/// N + 1 arms: the ordinals 0 to N - 1 in order, each giving the variant at
/// that position, and last the default `_`, which ends the process. Every
/// arm is closed.
pub proof fn lemma_decode_is_exhaustive(
    name: Seq<char>,
    left: Seq<char>,
    enum_name: Seq<char>,
    variants: Seq<Seq<char>>,
)
    ensures
        ({
            let all = decode_statements(name, left, enum_name, variants);
            let n = variants.len() as int;
            &&& all.len() == 2 * n + 3
            &&& all[0] matches Statement::OpenMatch(scope)
            &&& scope.scrutinee == name
            &&& scope.def == Some(left)
            &&& scope.arms.len() == n + 1
            &&& scope.arms.last() == "_"@
            &&& forall|k: int| 0 <= k < n ==> #[trigger] scope.arms[k] == decimal(k as nat)
            &&& forall|k: int|
                0 <= k < n ==> #[trigger] all[1 + 2 * k] == (Statement::Value {
                    value: enum_name + "::"@ + variants[k],
                    with_return: false,
                })
            &&& forall|k: int| 0 <= k <= n ==> #[trigger] all[2 + 2 * k] == Statement::Close
            &&& all[1 + 2 * n] == (Statement::Value {
                value: "panic!(\"invalid enum variant\")"@,
                with_return: false,
            })
        }),
{
    lemma_variant_arms(enum_name, variants);
    let all = decode_statements(name, left, enum_name, variants);
    let arms = variant_arms(enum_name, variants);
    let n = variants.len() as int;
    assert forall|k: int| 0 <= k < n implies #[trigger] all[1 + 2 * k] == (Statement::Value {
        value: enum_name + "::"@ + variants[k],
        with_return: false,
    }) by {
        assert(all[1 + 2 * k] == arms[2 * k]);
    }
    assert forall|k: int| 0 <= k <= n implies #[trigger] all[2 + 2 * k] == Statement::Close by {
        if k < n {
            assert(all[2 + 2 * k] == arms[2 * k + 1]);
        }
    }
}

/// The parameters of the first arguments open the parameters of all of them.
pub proof fn lemma_arguments_params_prefix(args: Seq<(Seq<char>, TypeView)>, upto: int)
    requires
        0 <= upto <= args.len(),
    ensures
        arguments_params(args.take(upto)).len() <= arguments_params(args).len(),
        arguments_params(args).subrange(0, arguments_params(args.take(upto)).len() as int)
            == arguments_params(args.take(upto)),
    decreases args.len(),
{
    if upto == args.len() {
        assert(args.take(upto) =~= args);
        assert(arguments_params(args).subrange(0, arguments_params(args).len() as int)
            =~= arguments_params(args));
    } else {
        lemma_arguments_params_prefix(args.drop_last(), upto);
        assert(args.drop_last().take(upto) =~= args.take(upto));
        let shorter = arguments_params(args.drop_last());
        let prefix = arguments_params(args.take(upto));
        assert(arguments_params(args).subrange(0, prefix.len() as int) =~= shorter.subrange(
            0,
            prefix.len() as int,
        ));
    }
}

/// Where the parameter of argument `index` stands in the wrapper's
/// parameter list: behind the receiver and the parameters of the arguments
/// before it.
pub open spec fn param_index(
    owner: Option<(TypeView, SelfType)>,
    args: Seq<(Seq<char>, TypeView)>,
    index: int,
) -> int {
    (if takes_receiver(owner) {
        1int
    } else {
        0int
    }) + arguments_params(args.take(index)).len()
}

/// The parameters keep the order of the arguments, and a sequence argument
/// is followed at once by its length, named after it with `_len` appended.
/// So each argument stands at `param_index`; the next parameter is its
/// length where it is a sequence; and the parameter of the argument after
/// it, or the first out-parameter, follows directly.
pub proof fn lemma_sequence_argument_has_length_companion(
    owner: Option<(TypeView, SelfType)>,
    args: Seq<(Seq<char>, TypeView)>,
    ret: Option<TypeView>,
    index: int,
)
    requires
        0 <= index < args.len(),
    ensures
        ({
            let params = wrapper_params(owner, args, ret);
            let at = param_index(owner, args, index);
            let name = args[index].0;
            let ty = args[index].1;
            &&& 0 <= at < params.len()
            &&& params[at] == FunctionArgView::CArg(CArgInfoView::arg(name, ty.abi_text()))
            &&& ty is Buffer ==> at + 1 < params.len() && params[at + 1] == FunctionArgView::CArg(
                CArgInfoView::len_arg(name),
            ) && CArgInfoView::len_arg(name).name == name + "_len"@
            &&& param_index(owner, args, index + 1) == at + (if ty is Buffer {
                2int
            } else {
                1int
            })
            &&& param_index(owner, args, index + 1) <= params.len() - return_params(ret).len()
        }),
{
    let head: Seq<FunctionArgView> = if takes_receiver(owner) {
        seq![FunctionArgView::CSelfArg]
    } else {
        Seq::empty()
    };
    let before = arguments_params(args.take(index));
    let b = before.len() as int;
    let through = arguments_params(args.take(index + 1));
    let all = arguments_params(args);
    assert(args.take(index + 1).drop_last() =~= args.take(index));
    assert(args.take(index + 1).last() == args[index]);
    assert(through == before + argument_params(args[index].0, args[index].1));
    lemma_arguments_params_prefix(args, index + 1);
    let params = wrapper_params(owner, args, ret);
    let at = param_index(owner, args, index);
    assert(params == head + all + return_params(ret));
    assert(params[at] == all[b]);
    assert(all[b] == all.subrange(0, through.len() as int)[b]);
    assert(through[b] == argument_params(args[index].0, args[index].1)[0]);
    if args[index].1 is Buffer {
        assert(params[at + 1] == all[b + 1]);
        assert(all[b + 1] == all.subrange(0, through.len() as int)[b + 1]);
        assert(through[b + 1] == argument_params(args[index].0, args[index].1)[1]);
    }
}

/// The statements that take the receiver of type `owner` back from its
/// pointer.
pub open spec fn takes_receiver_back(owner: TypeView) -> spec_fn(Statement) -> bool {
    |s: Statement|
        s matches Statement::Let { right, is_unsafe, .. } && is_unsafe && right == reclaim(
            "self_"@,
            owner.rust_text(),
        )
}

/// The statements that release a handle: a bare call of `Box::into_raw` on
/// one handle.
pub open spec fn releases_a_handle() -> spec_fn(Statement) -> bool {
    |s: Statement|
        s matches Statement::Call { left, caller, func, args, .. } && left is None && caller is None
            && func == "Box::into_raw"@ && args.len() == 1
}

/// Taking the receiver back is no borrow of the handle.
proof fn lemma_reclaim_is_no_borrow(pointer: Seq<char>, ty: Seq<char>)
    ensures
        reclaim(pointer, ty) != "&**self_box"@,
        reclaim(pointer, ty) != "&mut **self_box"@,
{
    reveal_strlit("Box::from_raw(");
    reveal_strlit("&**self_box");
    reveal_strlit("&mut **self_box");
    assert(reclaim(pointer, ty)[0] == 'B');
    assert("&**self_box"@[0] == '&');
    assert("&mut **self_box"@[0] == '&');
}

/// In the wrapper of a function without arguments that takes a receiver,
/// exactly one statement takes the receiver back, and it is the first of
/// the body. Where the receiver is taken by reference, shared or mutable,
/// exactly one statement releases a handle: it releases `self_box`, and it
/// is the last of the body but for the success sentinel. Where the receiver
/// is taken by value, no statement releases anything.
pub proof fn lemma_receiver_is_taken_back_once(d: FunctionDescriptor)
    requires
        d.args.len() == 0,
        d.has_receiver(),
    ensures
        ({
            let owner = d.owner.unwrap().0;
            let self_ty = d.owner.unwrap().1;
            let borrowed = self_ty == SelfType::Ref || self_ty == SelfType::RefMut;
            &&& count(d.statements(), takes_receiver_back(owner)) == 1
            &&& takes_receiver_back(owner)(d.body()[0])
            &&& count(d.statements(), releases_a_handle()) == (if borrowed {
                1nat
            } else {
                0nat
            })
            &&& borrowed ==> d.body()[d.body().len() - 1 - d.epilogue().len()] == release(
                "self_box"@,
            )
        }),
{
    let owner = d.owner.unwrap().0;
    let self_ty = d.owner.unwrap().1;
    let taken = takes_receiver_back(owner);
    let freed = releases_a_handle();
    let open = seq![Statement::OpenFunction(d.scope())];
    let close = seq![Statement::Close, Statement::Newline];
    let receiver = d.receiver();
    let arguments = arguments_statements(d.args);
    let call = seq![d.invocation()];
    let dispatch = d.dispatch();
    let results = return_statements(d.ret);
    let releases = d.releases();
    let epilogue = d.epilogue();
    lemma_reclaim_is_no_borrow("self_"@, owner.rust_text());
    assert(arguments_release(d.args) =~= Seq::empty());
    assert(releases =~= receiver_release(self_ty));
    lemma_count_none(open, taken);
    lemma_count_none(open, freed);
    lemma_count_none(close, taken);
    lemma_count_none(close, freed);
    lemma_count_none(arguments, taken);
    lemma_count_none(arguments, freed);
    lemma_count_none(call, taken);
    lemma_count_none(call, freed);
    lemma_count_none(dispatch, taken);
    lemma_count_none(dispatch, freed);
    lemma_count_none(results, taken);
    lemma_count_none(results, freed);
    lemma_count_none(epilogue, taken);
    lemma_count_none(epilogue, freed);
    lemma_count_none(releases, taken);
    lemma_count_none(receiver, freed);
    assert(count(receiver, taken) == 1) by {
        reveal_with_fuel(count, 3);
        assert(receiver.len() == 1 || receiver.len() == 2);
        if receiver.len() == 2 {
            assert(receiver.drop_last().len() == 1);
            assert(receiver.drop_last()[0] == receiver[0]);
        }
    }
    assert(count(releases, freed) == (if self_ty == SelfType::Ref || self_ty == SelfType::RefMut {
        1nat
    } else {
        0nat
    })) by {
        reveal_with_fuel(count, 2);
    }
    lemma_count_in_wrapper(d, taken);
    lemma_count_in_wrapper(d, freed);
    let body = d.body();
    assert(body[0] == receiver[0]);
    if self_ty == SelfType::Ref || self_ty == SelfType::RefMut {
        assert(body[body.len() - 1 - epilogue.len()] == releases[0]);
    }
}

/// The statements that open the dispatch on success and failure: a match of
/// two arms whose second arm takes the failure.
pub open spec fn opens_dispatch() -> spec_fn(Statement) -> bool {
    |s: Statement|
        s matches Statement::OpenMatch(scope) && scope.arms.len() == 2 && scope.arms[1]
            == "Err(_)"@
}

/// The statements that write through an out-pointer.
pub open spec fn writes_out() -> spec_fn(Statement) -> bool {
    |s: Statement| s is Assign
}

/// The arms that name the variants hold values and ends of arms only.
proof fn lemma_variant_arms_kinds(name: Seq<char>, variants: Seq<Seq<char>>)
    ensures
        forall|i: int|
            0 <= i < variant_arms(name, variants).len() ==> {
                let s = #[trigger] variant_arms(name, variants)[i];
                s is Value || s is Close
            },
    decreases variants.len(),
{
    if variants.len() > 0 {
        lemma_variant_arms_kinds(name, variants.drop_last());
        let shorter = variant_arms(name, variants.drop_last());
        let all = variant_arms(name, variants);
        assert forall|i: int| 0 <= i < all.len() implies {
            let s = #[trigger] all[i];
            s is Value || s is Close
        } by {
            if i < shorter.len() {
                assert(all[i] == shorter[i]);
            }
        }
    }
}

/// Unmarshalling one argument opens no dispatch and writes through no
/// out-pointer.
proof fn lemma_argument_is_plain(name: Seq<char>, ty: TypeView, index: nat)
    ensures
        count(argument_statements(name, ty, index), opens_dispatch()) == 0,
        count(argument_statements(name, ty, index), writes_out()) == 0,
{
    let all = argument_statements(name, ty, index);
    if let TypeView::Enum { name: enum_name, variants } = ty {
        lemma_variant_arms_kinds(enum_name, variants);
        let arms = variant_arms(enum_name, variants);
        reveal_strlit("_");
        reveal_strlit("Err(_)");
        assert forall|i: int| 0 <= i < all.len() implies !opens_dispatch()(#[trigger] all[i])
            && !writes_out()(all[i]) by {
            if 1 <= i <= arms.len() {
                assert(all[i] == arms[i - 1]);
            } else if i == 0 {
                let patterns = ordinal_arms(variants.len());
                if patterns.len() == 2 {
                    assert(patterns[1] == "_"@);
                    assert("_"@.len() != "Err(_)"@.len());
                }
            }
        }
    }
    lemma_count_none(all, opens_dispatch());
    lemma_count_none(all, writes_out());
}

/// Unmarshalling the arguments opens no dispatch and writes through no
/// out-pointer.
proof fn lemma_arguments_are_plain(args: Seq<(Seq<char>, TypeView)>)
    ensures
        count(arguments_statements(args), opens_dispatch()) == 0,
        count(arguments_statements(args), writes_out()) == 0,
    decreases args.len(),
{
    if args.len() > 0 {
        lemma_arguments_are_plain(args.drop_last());
        let last = argument_statements(args.last().0, args.last().1, (args.len() - 1) as nat);
        lemma_argument_is_plain(args.last().0, args.last().1, (args.len() - 1) as nat);
        lemma_count_concat(arguments_statements(args.drop_last()), last, opens_dispatch());
        lemma_count_concat(arguments_statements(args.drop_last()), last, writes_out());
    }
}

/// Where the dispatch stands in the wrapper: behind the opening of the
/// function, the receiver, the arguments and the call.
pub open spec fn dispatch_index(d: FunctionDescriptor) -> int {
    (1 + d.receiver().len() + arguments_statements(d.args).len() + 1) as int
}

/// In the wrapper of a function that reports an error code and returns a
/// primitive, exactly one statement opens a dispatch on success and
/// failure. Its success arm gives the payload on and is closed; its failure
/// arm returns 1 and is closed. Exactly one statement writes through an
/// out-pointer: it writes the payload to `return_ptr`, and it follows the
/// dispatch directly, so that the failure arm has returned before anything
/// is written. The wrapper's last statement is the success sentinel 0.
pub proof fn lemma_fallible_primitive_return(d: FunctionDescriptor)
    requires
        d.use_error_code,
        d.ret matches Some(ty) && ty is Primitive,
    ensures
        ({
            let all = d.statements();
            let at = dispatch_index(d);
            &&& count(all, opens_dispatch()) == 1
            &&& count(all, writes_out()) == 1
            &&& at + 6 < all.len()
            &&& opens_dispatch()(all[at])
            &&& all[at + 1] == (Statement::Value { value: "value"@, with_return: false })
            &&& all[at + 2] == Statement::Close
            &&& all[at + 3] == (Statement::Value { value: "1"@, with_return: true })
            &&& all[at + 4] == Statement::Close
            &&& all[at + 5] == (Statement::Assign { target: "return_ptr"@, value: "value"@ })
            &&& all[all.len() - 3] == Statement::Line("0"@)
            &&& all[all.len() - 2] == Statement::Close
        }),
{
    let found = opens_dispatch();
    let written = writes_out();
    let open = seq![Statement::OpenFunction(d.scope())];
    let close = seq![Statement::Close, Statement::Newline];
    let receiver = d.receiver();
    let arguments = arguments_statements(d.args);
    let call = seq![d.invocation()];
    let dispatch = d.dispatch();
    let results = return_statements(d.ret);
    let releases = d.releases();
    let epilogue = d.epilogue();
    lemma_arguments_are_plain(d.args);
    lemma_count_none(open, found);
    lemma_count_none(open, written);
    lemma_count_none(close, found);
    lemma_count_none(close, written);
    lemma_count_none(receiver, found);
    lemma_count_none(receiver, written);
    lemma_count_none(call, found);
    lemma_count_none(call, written);
    lemma_count_none(epilogue, found);
    lemma_count_none(epilogue, written);
    lemma_count_none(dispatch, written);
    lemma_count_none(results, found);
    assert(forall|i: int| 0 <= i < releases.len() ==> (#[trigger] releases[i]) is Call) by {
        lemma_releases_are_calls(d.owner, d.args);
    }
    lemma_count_none(releases, found);
    lemma_count_none(releases, written);
    assert(count(results, written) == 1) by {
        reveal_with_fuel(count, 2);
    }
    assert(count(dispatch, found) == 1) by {
        lemma_count_none(dispatch.subrange(1, 5), found);
        lemma_count_concat(dispatch.subrange(0, 1), dispatch.subrange(1, 5), found);
        assert(dispatch =~= dispatch.subrange(0, 1) + dispatch.subrange(1, 5));
        reveal_with_fuel(count, 2);
        assert(found(dispatch.subrange(0, 1).last()));
    }
    lemma_count_in_wrapper(d, found);
    lemma_count_in_wrapper(d, written);
    let b2 = receiver + arguments + call;
    let b3 = b2 + dispatch;
    let b4 = b3 + results;
    let body = d.body();
    let all = d.statements();
    let at = dispatch_index(d);
    assert(all == open + body + close);
    assert(b2.len() == at - 1);
    assert forall|k: int| 0 <= k < 5 implies all[at + k] == #[trigger] dispatch[k] by {
        assert(all[at + k] == body[at + k - 1]);
        assert(body[at + k - 1] == b3[at + k - 1]);
    }
    assert(all[at] == dispatch[0]);
    assert(all[at + 1] == dispatch[1]);
    assert(all[at + 2] == dispatch[2]);
    assert(all[at + 3] == dispatch[3]);
    assert(all[at + 4] == dispatch[4]);
    assert(all[at + 5] == results[0]) by {
        assert(all[at + 5] == body[at + 4]);
        assert(body[at + 4] == b4[at + 4]);
    }
    assert(all[all.len() - 3] == epilogue[0]) by {
        assert(all[all.len() - 3] == body[body.len() - 1]);
    }
}

/// What is released after the call is released by calls.
proof fn lemma_releases_are_calls(
    owner: Option<(TypeView, SelfType)>,
    args: Seq<(Seq<char>, TypeView)>,
)
    ensures
        forall|i: int|
            0 <= i < crate::wrapper::release_statements(owner, args).len()
                ==> (#[trigger] crate::wrapper::release_statements(owner, args)[i]) is Call,
{
    lemma_argument_releases_are_calls(args);
}

/// The releases of the arguments are calls.
proof fn lemma_argument_releases_are_calls(args: Seq<(Seq<char>, TypeView)>)
    ensures
        forall|i: int|
            0 <= i < arguments_release(args).len() ==> (#[trigger] arguments_release(
                args,
            )[i]) is Call,
    decreases args.len(),
{
    if args.len() > 0 {
        lemma_argument_releases_are_calls(args.drop_last());
        let shorter = arguments_release(args.drop_last());
        let all = arguments_release(args);
        assert forall|i: int| 0 <= i < all.len() implies (#[trigger] all[i]) is Call by {
            if i < shorter.len() {
                assert(all[i] == shorter[i]);
            }
        }
    }
}

/// The boundary type of a signature's type holds no sequence, so it has a
/// native declaration.
pub proof fn lemma_boundary_type_is_supported(syntax: TypeSyntax)
    requires
        syntax.supported(),
    ensures
        syntax.boundary_type().supported(),
    decreases syntax,
{
    match syntax {
        TypeSyntax::Reference { has_lifetime, is_mut, elem } => {
            lemma_boundary_type_is_supported(*elem);
        },
        TypeSyntax::Path { has_qself, has_leading_colon, segments, ident, kind, args } => {
            if kind == ArgumentsKind::AngleBracketed {
                let found = syntax.boundary_type()->Struct_args;
                assert forall|i: int| 0 <= i < found.len() implies (#[trigger] found[i]).supported() by {
                    assert(args[i].supported());
                    lemma_boundary_type_is_supported(*args[i]);
                }
            }
        },
        _ => {},
    }
}

/// Reading a type off its syntax and writing the native declaration of
/// what was read gives the syntax back, letter for letter, however deep
/// the generic arguments nest.
pub proof fn lemma_native_declaration_round_trip(syntax: TypeSyntax)
    requires
        syntax.canonical(),
    ensures
        syntax.supported(),
        syntax.boundary_type().rust_text() == syntax.text(),
    decreases syntax,
{
    match syntax {
        TypeSyntax::Reference { has_lifetime, is_mut, elem } => {
            lemma_native_declaration_round_trip(*elem);
        },
        TypeSyntax::Path { has_qself, has_leading_colon, segments, ident, kind, args } => {
            if kind == ArgumentsKind::AngleBracketed {
                let found = syntax.boundary_type()->Struct_args;
                assert forall|i: int| 0 <= i < args.len() implies (#[trigger] args[i]).supported()
                    && found[i].rust_text() == args[i].text() by {
                    assert(args[i].canonical());
                    lemma_native_declaration_round_trip(*args[i]);
                }
                assert(TypeView::rust_texts(found) =~= TypeSyntax::texts(args@));
            }
        },
        _ => {},
    }
}

/// How many of the arguments are references, shared or mutable.
pub open spec fn reference_arguments(args: Seq<(Seq<char>, TypeView)>) -> nat
    decreases args.len(),
{
    if args.len() == 0 {
        0
    } else {
        reference_arguments(args.drop_last()) + (if args.last().1 is Ref || args.last().1 is RefMut {
            1nat
        } else {
            0nat
        })
    }
}

/// Unmarshalling the arguments releases nothing.
proof fn lemma_arguments_release_nothing(args: Seq<(Seq<char>, TypeView)>)
    ensures
        count(arguments_statements(args), releases_a_handle()) == 0,
    decreases args.len(),
{
    if args.len() > 0 {
        lemma_arguments_release_nothing(args.drop_last());
        let name = args.last().0;
        let ty = args.last().1;
        let last = argument_statements(name, ty, (args.len() - 1) as nat);
        if let TypeView::Enum { name: enum_name, variants } = ty {
            lemma_variant_arms_kinds(enum_name, variants);
            let arms = variant_arms(enum_name, variants);
            assert forall|i: int| 0 <= i < last.len() implies !releases_a_handle()(
                #[trigger] last[i],
            ) by {
                if 1 <= i <= arms.len() {
                    assert(last[i] == arms[i - 1]);
                }
            }
        }
        lemma_count_none(last, releases_a_handle());
        lemma_count_concat(arguments_statements(args.drop_last()), last, releases_a_handle());
    }
}

/// One release for each argument that is a reference.
proof fn lemma_argument_releases(args: Seq<(Seq<char>, TypeView)>)
    ensures
        count(arguments_release(args), releases_a_handle()) == reference_arguments(args),
    decreases args.len(),
{
    if args.len() > 0 {
        lemma_argument_releases(args.drop_last());
        let last = crate::wrapper::argument_release(args.last().1, (args.len() - 1) as nat);
        assert(count(last, releases_a_handle()) == (if args.last().1 is Ref || args.last().1
            is RefMut {
            1nat
        } else {
            0nat
        })) by {
            reveal_with_fuel(count, 2);
        }
        lemma_count_concat(arguments_release(args.drop_last()), last, releases_a_handle());
    }
}

/// What a wrapper borrows it releases, and nothing else: the statements
/// that release a handle are as many as the borrowed receiver and the
/// arguments that are references. What is taken by value is consumed by the
/// call and never released. This is said of every function whose own call
/// is not written like a release.
pub proof fn lemma_releases_match_borrows(d: FunctionDescriptor)
    requires
        !releases_a_handle()(d.invocation()),
    ensures
        count(d.statements(), releases_a_handle()) == (if d.owner matches Some((_, self_ty))
            && (self_ty == SelfType::Ref || self_ty == SelfType::RefMut) {
            1nat
        } else {
            0nat
        }) + reference_arguments(d.args),
{
    let freed = releases_a_handle();
    let open = seq![Statement::OpenFunction(d.scope())];
    let close = seq![Statement::Close, Statement::Newline];
    let receiver = d.receiver();
    let arguments = arguments_statements(d.args);
    let call = seq![d.invocation()];
    let dispatch = d.dispatch();
    let results = return_statements(d.ret);
    let releases = d.releases();
    let epilogue = d.epilogue();
    lemma_arguments_release_nothing(d.args);
    lemma_argument_releases(d.args);
    lemma_count_none(open, freed);
    lemma_count_none(close, freed);
    lemma_count_none(receiver, freed);
    lemma_count_none(call, freed);
    lemma_count_none(dispatch, freed);
    lemma_count_none(results, freed);
    lemma_count_none(epilogue, freed);
    let first = match d.owner {
        Some((_, self_ty)) => receiver_release(self_ty),
        None => Seq::empty(),
    };
    assert(count(first, freed) == (if d.owner matches Some((_, self_ty)) && (self_ty
        == SelfType::Ref || self_ty == SelfType::RefMut) {
        1nat
    } else {
        0nat
    })) by {
        reveal_with_fuel(count, 2);
    }
    lemma_count_concat(first, arguments_release(d.args), freed);
    lemma_count_in_wrapper(d, freed);
}

/// Whether a struct called `Self` stands in the type, as far as struct
/// arguments and references lead.
pub open spec fn names_placeholder(ty: TypeView) -> bool
    decreases ty,
{
    match ty {
        TypeView::Struct { name, args } => name == "Self"@ || exists|i: int|
            0 <= i < args.len() && names_placeholder(#[trigger] args[i]),
        TypeView::Ref(inner) => names_placeholder(*inner),
        TypeView::RefMut(inner) => names_placeholder(*inner),
        _ => false,
    }
}

/// Renaming the placeholder leaves no placeholder behind, and renaming once
/// more changes nothing.
pub proof fn lemma_resolved_names_no_placeholder(ty: TypeView, name: Seq<char>)
    requires
        name != "Self"@,
    ensures
        !names_placeholder(ty.resolved(name)),
        ty.resolved(name).resolved(name) == ty.resolved(name),
    decreases ty,
{
    match ty {
        TypeView::Struct { name: own, args } => {
            let renamed = ty.resolved(name)->Struct_args;
            assert forall|i: int| 0 <= i < renamed.len() implies !names_placeholder(
                #[trigger] renamed[i],
            ) && renamed[i].resolved(name) == renamed[i] by {
                lemma_resolved_names_no_placeholder(args[i], name);
            }
            assert(ty.resolved(name).resolved(name)->Struct_args =~= renamed);
        },
        TypeView::Ref(inner) => {
            lemma_resolved_names_no_placeholder(*inner, name);
        },
        TypeView::RefMut(inner) => {
            lemma_resolved_names_no_placeholder(*inner, name);
        },
        _ => {},
    }
}

/// The call of the native function is made on the receiver `self_` where
/// there is one, with as many arguments as were declared and in their
/// order: a shared reference as `&argN`, a mutable reference as
/// `unsafe { &mut *argN }`, anything else as `argN`.
pub proof fn lemma_call_receives_arguments_in_order(d: FunctionDescriptor)
    ensures
        d.invocation() matches Statement::Call { caller, args, .. } && {
            &&& caller == (if d.has_receiver() {
                Some("self_"@)
            } else {
                None
            })
            &&& args.len() == d.args.len()
            &&& forall|i: int|
                0 <= i < d.args.len() ==> #[trigger] args[i] == (match d.args[i].1 {
                    TypeView::Ref(_) => "&"@ + binding(i as nat),
                    TypeView::RefMut(_) => "unsafe { &mut *"@ + binding(i as nat) + " }"@,
                    _ => binding(i as nat),
                })
        },
{
}

} // verus!
