//! The ownership-transfer marshaller: it writes the wrapper of a native
//! function, statement by statement, into the engine. Which statements
//! these are is said in `wrapper`.
//!
//! The texts of the files around the generated source, the build script and
//! the manifest, are written here too.

use crate::compiler::{
    args_view, lemma_run_concat, lemma_run_five, lemma_run_four, lemma_run_one, lemma_run_push,
    lemma_run_two, opt_view, CArgInfo, CompilerView, Context, ContextView, FunctionArg,
    FunctionContext, FunctionView, MatchContext, MatchView, SerializationCompiler, Statement,
};
use crate::error::GenError;
use crate::text::{decimal, decimal_string, join_strings, replace, replaced, strs};
use crate::types::{SelfType, Type};
use crate::wrapper::{
    all_supported, argument_statements, arguments_params, argument_params, arguments_release,
    arguments_statements, binding, call_statement, callee_path, decode_statements, descriptor,
    dispatch_statements, ordinal_arms, owner_view, passed, passed_arguments, problem_of,
    raw_args_view, receiver_release, receiver_statements, reclaim, release, release_statements,
    result_annotation, ret_view, return_params, return_statements, variant_arms, wrapper_params,
};
use vstd::prelude::*;
use vstd::string::*;

verus! {

/// The parameters of the wrapper.
fn boundary_params(
    struct_ty: &Option<(Type, SelfType)>,
    raw_args: &Vec<(&str, Type)>,
    raw_ret: &Option<Type>,
) -> (res: Vec<FunctionArg>)
    requires
        forall|i: int| 0 <= i < raw_args.len() ==> !(#[trigger] raw_args[i]).1@.is_nested_sequence(),
        raw_ret matches Some(ty) ==> !ty@.is_nested_sequence(),
    ensures
        args_view(res@) == wrapper_params(
            owner_view(*struct_ty),
            raw_args_view(raw_args@),
            ret_view(*raw_ret),
        ),
{
    let ghost args = raw_args_view(raw_args@);
    let mut params: Vec<FunctionArg> = Vec::new();
    match struct_ty {
        Some((_, self_ty)) => {
            if self_ty.is_some() {
                params.push(FunctionArg::CSelfArg);
            }
        },
        None => {},
    }
    let ghost head = args_view(params@);
    let mut i: usize = 0;
    while i < raw_args.len()
        invariant
            i <= raw_args.len(),
            args == raw_args_view(raw_args@),
            forall|i: int|
                0 <= i < raw_args.len() ==> !(#[trigger] raw_args[i]).1@.is_nested_sequence(),
            args_view(params@) == head + arguments_params(args.take(i as int)),
        decreases raw_args.len() - i,
    {
        let ghost before = args_view(params@);
        assert(args.take(i + 1).drop_last() =~= args.take(i as int));
        assert(args.take(i + 1).last() == args[i as int]);
        let name = raw_args[i].0;
        let ty = &raw_args[i].1;
        params.push(FunctionArg::CArg(CArgInfo::arg(name, ty.to_c_str().as_str())));
        if ty.is_buffer() {
            params.push(FunctionArg::CArg(CArgInfo::len_arg(name)));
        }
        assert(args_view(params@) =~= before + argument_params(args[i as int].0, args[i as int].1));
        i = i + 1;
    }
    assert(args.take(i as int) =~= args);
    let ghost before = args_view(params@);
    match raw_ret {
        Some(ty) => {
            params.push(FunctionArg::CArg(CArgInfo::ret_arg(ty.to_c_str().as_str())));
            if ty.is_buffer() {
                params.push(FunctionArg::CArg(CArgInfo::ret_len_arg()));
            }
        },
        None => {},
    }
    assert(args_view(params@) =~= before + return_params(ret_view(*raw_ret)));
    params
}

/// The text of `reclaim`.
fn reclaim_text(pointer: &str, ty: &str) -> (res: String)
    ensures
        res@ == reclaim(pointer@, ty@),
{
    let mut out = "Box::from_raw(".to_owned();
    out.append(pointer);
    out.append(" as *mut ");
    out.append(ty);
    out.append(")");
    out
}

/// Takes the receiver back from its pointer.
fn emit_receiver(compiler: &mut SerializationCompiler, owner: &Type, self_ty: SelfType)
    requires
        owner@.supported(),
    ensures
        final(compiler)@ == old(compiler)@.run(receiver_statements(owner@, self_ty)),
        final(compiler)@.contexts == old(compiler)@.contexts,
{
    let ghost start = compiler@;
    match self_ty {
        SelfType::Absent => {},
        SelfType::Value => {
            let taken = reclaim_text("self_", owner.to_rust_str().as_str());
            compiler.add_unsafe_def_with_let(false, None, "self_", taken.as_str());
            proof {
                lemma_run_one(start, receiver_statements(owner@, self_ty)[0]);
                assert(receiver_statements(owner@, self_ty) =~= seq![
                    receiver_statements(owner@, self_ty)[0],
                ]);
            }
        },
        SelfType::Ref => {
            let taken = reclaim_text("self_", owner.to_rust_str().as_str());
            compiler.add_unsafe_def_with_let(false, None, "self_box", taken.as_str());
            compiler.add_unsafe_def_with_let(false, None, "self_", "&**self_box");
            proof {
                let s = receiver_statements(owner@, self_ty);
                lemma_run_two(start, s[0], s[1]);
                assert(s =~= seq![s[0], s[1]]);
            }
        },
        SelfType::RefMut => {
            let taken = reclaim_text("self_", owner.to_rust_str().as_str());
            compiler.add_unsafe_def_with_let(false, None, "self_box", taken.as_str());
            compiler.add_unsafe_def_with_let(false, None, "self_", "&mut **self_box");
            proof {
                let s = receiver_statements(owner@, self_ty);
                lemma_run_two(start, s[0], s[1]);
                assert(s =~= seq![s[0], s[1]]);
            }
        },
        SelfType::ValueMut => {
            let taken = reclaim_text("self_", owner.to_rust_str().as_str());
            compiler.add_unsafe_def_with_let(true, None, "self_", taken.as_str());
            proof {
                lemma_run_one(start, receiver_statements(owner@, self_ty)[0]);
                assert(receiver_statements(owner@, self_ty) =~= seq![
                    receiver_statements(owner@, self_ty)[0],
                ]);
            }
        },
    }
}

/// The text of `binding`.
fn binding_text(index: usize) -> (res: String)
    ensures
        res@ == binding(index as nat),
{
    let mut out = "arg".to_owned();
    out.append(decimal_string(index).as_str());
    out
}

/// The patterns `0`, `1`, ... and `_` for an enum of `count` variants.
fn ordinal_patterns(count: usize) -> (res: Vec<String>)
    ensures
        strs(res@) == ordinal_arms(count as nat),
{
    let mut arms: Vec<String> = Vec::new();
    let mut k: usize = 0;
    while k < count
        invariant
            k <= count,
            arms@.len() == k,
            forall|j: int| 0 <= j < k ==> (#[trigger] arms@[j])@ == decimal(j as nat),
        decreases count - k,
    {
        arms.push(decimal_string(k));
        k = k + 1;
    }
    arms.push("_".to_owned());
    assert(strs(arms@) =~= ordinal_arms(count as nat));
    arms
}

/// Decodes an enum argument from its ordinal.
fn emit_decode(
    compiler: &mut SerializationCompiler,
    name: &str,
    left: &str,
    enum_name: &String,
    variants: &Vec<String>,
)
    ensures
        final(compiler)@ == old(compiler)@.run(
            decode_statements(name@, left@, enum_name@, strs(variants@)),
        ),
        final(compiler)@.contexts == old(compiler)@.contexts,
{
    let ghost start = compiler@;
    let ghost names = strs(variants@);
    let ghost arms = ordinal_arms(variants.len() as nat);
    let ghost scope = MatchView { scrutinee: name@, arms, def: Some(left@) };
    let patterns = ordinal_patterns(variants.len());
    compiler.add_context(Context::Match(MatchContext::new_with_def(name, patterns, left)));
    let ghost mut done: Seq<Statement> = seq![Statement::OpenMatch(scope)];
    proof {
        lemma_run_one(start, Statement::OpenMatch(scope));
        assert(arms.skip(0) =~= arms);
        assert(done =~= seq![Statement::OpenMatch(scope)] + variant_arms(
            enum_name@,
            names.take(0),
        ));
    }
    let mut k: usize = 0;
    while k < variants.len()
        invariant
            k <= variants.len(),
            names == strs(variants@),
            arms == ordinal_arms(variants.len() as nat),
            scope == (MatchView { scrutinee: name@, arms, def: Some(left@) }),
            done == seq![Statement::OpenMatch(scope)] + variant_arms(enum_name@, names.take(k as int)),
            compiler@ == start.run(done),
            compiler@.contexts == start.contexts.push(
                ContextView::Match(
                    MatchView { scrutinee: name@, arms: arms.skip(k as int), def: Some(left@) },
                ),
            ),
        decreases variants.len() - k,
    {
        let mut value = enum_name.clone();
        value.append("::");
        value.append(variants[k].as_str());
        let ghost given = Statement::Value { value: value@, with_return: false };
        compiler.add_return_val(value.as_str(), false);
        let _ = compiler.pop_context();
        proof {
            lemma_run_push(start, done, given);
            lemma_run_push(start, done.push(given), Statement::Close);
            assert(names.take(k + 1).drop_last() =~= names.take(k as int));
            assert(names.take(k + 1).last() == variants@[k as int]@);
            assert(arms.skip(k as int).drop_first() =~= arms.skip(k + 1));
            assert(start.contexts.push(
                ContextView::Match(
                    MatchView { scrutinee: name@, arms: arms.skip(k as int), def: Some(left@) },
                ),
            ).drop_last() =~= start.contexts);
            done = done.push(given).push(Statement::Close);
            assert(done =~= seq![Statement::OpenMatch(scope)] + variant_arms(
                enum_name@,
                names.take(k + 1),
            ));
        }
        k = k + 1;
    }
    let ghost stop = Statement::Value {
        value: "panic!(\"invalid enum variant\")"@,
        with_return: false,
    };
    compiler.add_return_val("panic!(\"invalid enum variant\")", false);
    let _ = compiler.pop_context();
    proof {
        lemma_run_push(start, done, stop);
        lemma_run_push(start, done.push(stop), Statement::Close);
        assert(names.take(k as int) =~= names);
        assert(start.contexts.push(
            ContextView::Match(
                MatchView { scrutinee: name@, arms: arms.skip(k as int), def: Some(left@) },
            ),
        ).drop_last() =~= start.contexts);
        assert(done.push(stop).push(Statement::Close) =~= decode_statements(
            name@,
            left@,
            enum_name@,
            names,
        ));
    }
}

/// Unmarshals one argument.
fn emit_argument(compiler: &mut SerializationCompiler, name: &str, ty: &Type, index: usize)
    requires
        ty@.supported(),
    ensures
        final(compiler)@ == old(compiler)@.run(argument_statements(name@, ty@, index as nat)),
        final(compiler)@.contexts == old(compiler)@.contexts,
{
    let ghost start = compiler@;
    let ghost expected = argument_statements(name@, ty@, index as nat);
    let left = binding_text(index);
    match ty {
        Type::Primitive(_) => {
            compiler.add_def_with_let(false, None, left.as_str(), name);
            proof {
                lemma_run_one(start, expected[0]);
                assert(expected =~= seq![expected[0]]);
            }
        },
        Type::Struct { .. } => {
            let mut right = "*".to_owned();
            right.append(reclaim_text(name, ty.to_rust_str().as_str()).as_str());
            compiler.add_unsafe_def_with_let(false, None, left.as_str(), right.as_str());
            proof {
                lemma_run_one(start, expected[0]);
                assert(expected =~= seq![expected[0]]);
            }
        },
        Type::Ref(inner) => {
            let right = reclaim_text(name, inner.to_rust_str().as_str());
            compiler.add_unsafe_def_with_let(false, None, left.as_str(), right.as_str());
            proof {
                lemma_run_one(start, expected[0]);
                assert(expected =~= seq![expected[0]]);
            }
        },
        Type::RefMut(inner) => {
            let right = reclaim_text(name, inner.to_rust_str().as_str());
            compiler.add_unsafe_def_with_let(true, None, left.as_str(), right.as_str());
            proof {
                lemma_run_one(start, expected[0]);
                assert(expected =~= seq![expected[0]]);
            }
        },
        Type::Buffer(_) => {
            let mut right = "std::slice::from_raw_parts(".to_owned();
            right.append(name);
            right.append(" as ");
            right.append(ty.to_rust_str().as_str());
            right.append(", ");
            right.append(name);
            right.append("_len)");
            compiler.add_unsafe_def_with_let(false, None, left.as_str(), right.as_str());
            proof {
                lemma_run_one(start, expected[0]);
                assert(expected =~= seq![expected[0]]);
            }
        },
        Type::Enum { name: enum_name, variants } => {
            emit_decode(compiler, name, left.as_str(), enum_name, variants);
        },
    }
}

/// Unmarshals the arguments, in declaration order.
fn emit_arguments(compiler: &mut SerializationCompiler, raw_args: &Vec<(&str, Type)>)
    requires
        forall|i: int| 0 <= i < raw_args.len() ==> (#[trigger] raw_args[i]).1@.supported(),
    ensures
        final(compiler)@ == old(compiler)@.run(arguments_statements(raw_args_view(raw_args@))),
        final(compiler)@.contexts == old(compiler)@.contexts,
{
    let ghost start = compiler@;
    let ghost args = raw_args_view(raw_args@);
    let mut i: usize = 0;
    while i < raw_args.len()
        invariant
            i <= raw_args.len(),
            args == raw_args_view(raw_args@),
            forall|i: int| 0 <= i < raw_args.len() ==> (#[trigger] raw_args[i]).1@.supported(),
            compiler@ == start.run(arguments_statements(args.take(i as int))),
            compiler@.contexts == start.contexts,
        decreases raw_args.len() - i,
    {
        proof {
            assert(args.take(i + 1).drop_last() =~= args.take(i as int));
            assert(args.take(i + 1).last() == args[i as int]);
            lemma_run_concat(
                start,
                arguments_statements(args.take(i as int)),
                argument_statements(args[i as int].0, args[i as int].1, i as nat),
            );
        }
        emit_argument(compiler, raw_args[i].0, &raw_args[i].1, i);
        i = i + 1;
    }
    assert(args.take(i as int) =~= args);
}

/// What the native function is called with.
fn passed_texts(raw_args: &Vec<(&str, Type)>) -> (res: Vec<String>)
    ensures
        strs(res@) == passed_arguments(raw_args_view(raw_args@)),
{
    let mut texts: Vec<String> = Vec::new();
    let mut i: usize = 0;
    while i < raw_args.len()
        invariant
            i <= raw_args.len(),
            texts@.len() == i,
            forall|j: int|
                0 <= j < i ==> (#[trigger] texts@[j])@ == passed(raw_args@[j].1@, j as nat),
        decreases raw_args.len() - i,
    {
        let name = binding_text(i);
        let text = match &raw_args[i].1 {
            Type::Ref(_) => {
                let mut out = "&".to_owned();
                out.append(name.as_str());
                out
            },
            Type::RefMut(_) => {
                let mut out = "unsafe { &mut *".to_owned();
                out.append(name.as_str());
                out.append(" }");
                out
            },
            _ => name,
        };
        texts.push(text);
        i = i + 1;
    }
    assert(strs(texts@) =~= passed_arguments(raw_args_view(raw_args@)));
    texts
}

/// The path of the native function.
fn callee_text(struct_ty: &Option<(Type, SelfType)>, func_name: &str) -> (res: String)
    requires
        struct_ty matches Some((ty, self_ty)) ==> ty@.supported(),
    ensures
        res@ == callee_path(owner_view(*struct_ty), func_name@),
{
    match struct_ty {
        Some((ty, SelfType::Absent)) => {
            match ty {
                Type::Struct { name, args } => {
                    let texts = ty.generic_texts();
                    let mut out = name.clone();
                    out.append("::<");
                    out.append(join_strings(&texts, ", ").as_str());
                    out.append(">::");
                    out.append(func_name);
                    out
                },
                _ => func_name.to_owned(),
            }
        },
        _ => func_name.to_owned(),
    }
}

/// The type written on the binding of the result.
fn annotation_text(raw_ret: &Option<Type>) -> (res: Option<String>)
    requires
        raw_ret matches Some(ty) ==> ty@.supported(),
    ensures
        opt_view(res) == result_annotation(ret_view(*raw_ret)),
{
    match raw_ret {
        Some(Type::Ref(inner)) => {
            let mut out = "*const ".to_owned();
            out.append(inner.to_rust_str().as_str());
            Some(out)
        },
        Some(Type::RefMut(inner)) => {
            let mut out = "*mut ".to_owned();
            out.append(inner.to_rust_str().as_str());
            Some(out)
        },
        _ => None,
    }
}

/// Calls the native function.
fn emit_invocation(
    compiler: &mut SerializationCompiler,
    struct_ty: &Option<(Type, SelfType)>,
    func_name: &str,
    raw_args: &Vec<(&str, Type)>,
    raw_ret: &Option<Type>,
    use_error_code: bool,
)
    requires
        struct_ty matches Some((ty, self_ty)) ==> ty@.supported(),
        raw_ret matches Some(ty) ==> ty@.supported(),
    ensures
        final(compiler)@ == old(compiler)@.step(
            call_statement(
                owner_view(*struct_ty),
                func_name@,
                raw_args_view(raw_args@),
                ret_view(*raw_ret),
                use_error_code,
            ),
        ),
        final(compiler)@.contexts == old(compiler)@.contexts,
{
    let caller = match struct_ty {
        Some((_, self_ty)) => if self_ty.is_some() {
            Some("self_".to_owned())
        } else {
            None
        },
        None => None,
    };
    let func = callee_text(struct_ty, func_name);
    let args = passed_texts(raw_args);
    if use_error_code || raw_ret.is_some() {
        let ty = annotation_text(raw_ret);
        compiler.add_func_call_with_let("value", ty, caller, func.as_str(), args);
    } else {
        compiler.add_func_call(caller, func.as_str(), args);
    }
}

/// Dispatches on the result: success goes on, failure returns 1.
fn emit_dispatch(compiler: &mut SerializationCompiler, has_payload: bool)
    ensures
        final(compiler)@ == old(compiler)@.run(dispatch_statements(has_payload)),
        final(compiler)@.contexts == old(compiler)@.contexts,
{
    let ghost start = compiler@;
    let ghost expected = dispatch_statements(has_payload);
    let mut arms: Vec<String> = Vec::new();
    if has_payload {
        arms.push("Ok(value)".to_owned());
        arms.push("Err(_)".to_owned());
        assert(strs(arms@) =~= seq!["Ok(value)"@, "Err(_)"@]);
        compiler.add_context(Context::Match(MatchContext::new_with_def("value", arms, "value")));
        compiler.add_return_val("value", false);
        let ghost open = compiler@.contexts;
        let _ = compiler.pop_context();
        assert(open.drop_last() =~= start.contexts);
        compiler.add_return_val("1", true);
        let ghost open = compiler@.contexts;
        let _ = compiler.pop_context();
        assert(open.drop_last() =~= start.contexts);
        proof {
            lemma_run_five(start, expected[0], expected[1], expected[2], expected[3], expected[4]);
            assert(expected =~= seq![
                expected[0],
                expected[1],
                expected[2],
                expected[3],
                expected[4],
            ]);
        }
    } else {
        arms.push("Ok(_)".to_owned());
        arms.push("Err(_)".to_owned());
        assert(strs(arms@) =~= seq!["Ok(_)"@, "Err(_)"@]);
        compiler.add_context(Context::Match(MatchContext::new("value", arms)));
        compiler.add_return_val("", false);
        let ghost open = compiler@.contexts;
        let _ = compiler.pop_context();
        assert(open.drop_last() =~= start.contexts);
        compiler.add_return_val("1", true);
        let ghost open = compiler@.contexts;
        let _ = compiler.pop_context();
        assert(open.drop_last() =~= start.contexts);
        proof {
            lemma_run_five(start, expected[0], expected[1], expected[2], expected[3], expected[4]);
            assert(expected =~= seq![
                expected[0],
                expected[1],
                expected[2],
                expected[3],
                expected[4],
            ]);
        }
    }
}

/// Hands the return value to the caller through the out-pointers.
fn emit_return(compiler: &mut SerializationCompiler, raw_ret: &Option<Type>)
    requires
        raw_ret matches Some(ty) ==> ty@.supported(),
    ensures
        final(compiler)@ == old(compiler)@.run(return_statements(ret_view(*raw_ret))),
        final(compiler)@.contexts == old(compiler)@.contexts,
{
    let ghost start = compiler@;
    let ghost expected = return_statements(ret_view(*raw_ret));
    match raw_ret {
        None => {},
        Some(Type::Primitive(_)) => {
            compiler.add_unsafe_set("return_ptr", "value");
            proof {
                lemma_run_one(start, expected[0]);
                assert(expected =~= seq![expected[0]]);
            }
        },
        Some(Type::Struct { .. }) => {
            let mut boxed: Vec<String> = Vec::new();
            boxed.push("Box::new(value)".to_owned());
            assert(strs(boxed@) =~= seq!["Box::new(value)"@]);
            compiler.add_func_call_with_let("value", None, None, "Box::into_raw", boxed);
            compiler.add_unsafe_set("return_ptr", "value as _");
            proof {
                lemma_run_two(start, expected[0], expected[1]);
                assert(expected =~= seq![expected[0], expected[1]]);
            }
        },
        Some(Type::Ref(_)) => {
            compiler.add_unsafe_set("return_ptr", "value as _");
            proof {
                lemma_run_one(start, expected[0]);
                assert(expected =~= seq![expected[0]]);
            }
        },
        Some(Type::RefMut(_)) => {
            compiler.add_unsafe_set("return_ptr", "value as _");
            proof {
                lemma_run_one(start, expected[0]);
                assert(expected =~= seq![expected[0]]);
            }
        },
        Some(Type::Buffer(elem)) => {
            let mut ty = "Vec<*mut ".to_owned();
            ty.append(elem.to_rust_str().as_str());
            ty.append(">");
            compiler.add_def_with_let(
                false,
                Some(ty),
                "value",
                "value.into_iter().map(|x| Box::into_raw(Box::new(x))).collect()",
            );
            let mut boxed: Vec<String> = Vec::new();
            boxed.push("Box::new(value)".to_owned());
            assert(strs(boxed@) =~= seq!["Box::new(value)"@]);
            compiler.add_func_call_with_let("value", None, None, "Box::into_raw", boxed);
            compiler.add_unsafe_set("return_ptr", "(*value).as_ptr() as _");
            compiler.add_unsafe_set("return_len_ptr", "(*value).len()");
            proof {
                lemma_run_four(start, expected[0], expected[1], expected[2], expected[3]);
                assert(expected =~= seq![expected[0], expected[1], expected[2], expected[3]]);
            }
        },
        Some(Type::Enum { .. }) => {},
    }
}

/// Writes the statement that releases `handle`.
fn emit_release(compiler: &mut SerializationCompiler, handle: String)
    ensures
        final(compiler)@ == old(compiler)@.step(release(handle@)),
        final(compiler)@.contexts == old(compiler)@.contexts,
{
    let mut handles: Vec<String> = Vec::new();
    let ghost text = handle@;
    handles.push(handle);
    assert(strs(handles@) =~= seq![text]);
    compiler.add_func_call(None, "Box::into_raw", handles);
}

/// Releases what was only borrowed: the receiver, then the arguments.
fn emit_releases(
    compiler: &mut SerializationCompiler,
    struct_ty: &Option<(Type, SelfType)>,
    raw_args: &Vec<(&str, Type)>,
)
    ensures
        final(compiler)@ == old(compiler)@.run(
            release_statements(owner_view(*struct_ty), raw_args_view(raw_args@)),
        ),
        final(compiler)@.contexts == old(compiler)@.contexts,
{
    let ghost start = compiler@;
    let ghost args = raw_args_view(raw_args@);
    let ghost first = match *struct_ty {
        Some((_, self_ty)) => receiver_release(self_ty),
        None => Seq::empty(),
    };
    match struct_ty {
        Some((_, self_ty)) => {
            if self_ty.is_ref() {
                emit_release(compiler, "self_box".to_owned());
                proof {
                    lemma_run_one(start, release("self_box"@));
                }
            }
        },
        None => {},
    }
    assert(compiler@ == start.run(first));
    let mut i: usize = 0;
    proof {
        assert(first + arguments_release(args.take(0)) =~= first);
    }
    while i < raw_args.len()
        invariant
            i <= raw_args.len(),
            args == raw_args_view(raw_args@),
            compiler@ == start.run(first + arguments_release(args.take(i as int))),
            compiler@.contexts == start.contexts,
        decreases raw_args.len() - i,
    {
        let ghost done = first + arguments_release(args.take(i as int));
        proof {
            assert(args.take(i + 1).drop_last() =~= args.take(i as int));
            assert(args.take(i + 1).last() == args[i as int]);
        }
        match &raw_args[i].1 {
            Type::Ref(_) => {
                emit_release(compiler, binding_text(i));
                proof {
                    lemma_run_push(start, done, release(binding(i as nat)));
                    assert(done.push(release(binding(i as nat))) =~= first + arguments_release(
                        args.take(i + 1),
                    ));
                }
            },
            Type::RefMut(_) => {
                emit_release(compiler, binding_text(i));
                proof {
                    lemma_run_push(start, done, release(binding(i as nat)));
                    assert(done.push(release(binding(i as nat))) =~= first + arguments_release(
                        args.take(i + 1),
                    ));
                }
            },
            _ => {
                assert(done =~= first + arguments_release(args.take(i + 1)));
            },
        }
        i = i + 1;
    }
    assert(args.take(i as int) =~= args);
}

/// Whether no type of the descriptor holds a sequence of sequences.
fn types_supported(
    struct_ty: &Option<(Type, SelfType)>,
    raw_args: &Vec<(&str, Type)>,
    raw_ret: &Option<Type>,
) -> (res: bool)
    ensures
        res == all_supported(owner_view(*struct_ty), raw_args_view(raw_args@), ret_view(*raw_ret)),
{
    let ghost args = raw_args_view(raw_args@);
    match struct_ty {
        Some((ty, _)) => {
            if !ty.is_supported() {
                return false;
            }
        },
        None => {},
    }
    let mut i: usize = 0;
    while i < raw_args.len()
        invariant
            i <= raw_args.len(),
            args == raw_args_view(raw_args@),
            forall|j: int| 0 <= j < i ==> (#[trigger] args[j]).1.supported(),
        decreases raw_args.len() - i,
    {
        if !raw_args[i].1.is_supported() {
            assert(!args[i as int].1.supported());
            return false;
        }
        i = i + 1;
    }
    match raw_ret {
        Some(ty) => ty.is_supported(),
        None => true,
    }
}

/// Why no wrapper can be generated for the function, if that is so.
pub fn check_descriptor(
    struct_ty: &Option<(Type, SelfType)>,
    raw_args: &Vec<(&str, Type)>,
    raw_ret: &Option<Type>,
    use_error_code: bool,
) -> (res: Option<GenError>)
    ensures
        res == problem_of(
            owner_view(*struct_ty),
            raw_args_view(raw_args@),
            ret_view(*raw_ret),
            use_error_code,
        ),
{
    match struct_ty {
        Some((ty, self_ty)) => {
            if self_ty.is_none() && !ty.is_struct() {
                return Some(GenError::OwnerNotStruct);
            }
        },
        None => {},
    }
    if !types_supported(struct_ty, raw_args, raw_ret) {
        return Some(GenError::NestedSequence);
    }
    match raw_ret {
        Some(Type::Enum { .. }) => Some(GenError::EnumReturn),
        Some(Type::Buffer(_)) => if use_error_code {
            None
        } else {
            Some(GenError::SequenceReturnWithoutErrorCode)
        },
        _ => None,
    }
}

/// Writes what stands between the braces of the wrapper.
fn emit_body(
    compiler: &mut SerializationCompiler,
    struct_ty: &Option<(Type, SelfType)>,
    func_name: &str,
    raw_args: &Vec<(&str, Type)>,
    raw_ret: &Option<Type>,
    use_error_code: bool,
)
    requires
        all_supported(owner_view(*struct_ty), raw_args_view(raw_args@), ret_view(*raw_ret)),
    ensures
        final(compiler)@ == old(compiler)@.run(
            descriptor("", *struct_ty, func_name, raw_args@, *raw_ret, use_error_code).body(),
        ),
        final(compiler)@.contexts == old(compiler)@.contexts,
{
    let ghost start = compiler@;
    let ghost d = descriptor("", *struct_ty, func_name, raw_args@, *raw_ret, use_error_code);
    assert forall|i: int| 0 <= i < raw_args.len() implies (#[trigger] raw_args[i]).1@.supported() by {
        assert(d.args[i].1.supported());
    }
    match struct_ty {
        Some((ty, self_ty)) => {
            emit_receiver(compiler, ty, *self_ty);
        },
        None => {},
    }
    let ghost p1 = d.receiver();
    assert(compiler@ == start.run(p1));
    emit_arguments(compiler, raw_args);
    let ghost p2 = p1 + arguments_statements(d.args);
    assert(compiler@ == start.run(p2)) by {
        lemma_run_concat(start, p1, arguments_statements(d.args));
    }
    emit_invocation(compiler, struct_ty, func_name, raw_args, raw_ret, use_error_code);
    let ghost p3 = p2 + seq![d.invocation()];
    assert(compiler@ == start.run(p3)) by {
        lemma_run_push(start, p2, d.invocation());
        assert(p3 =~= p2.push(d.invocation()));
    }
    if use_error_code {
        emit_dispatch(compiler, raw_ret.is_some());
    }
    let ghost p4 = p3 + d.dispatch();
    assert(compiler@ == start.run(p4)) by {
        lemma_run_concat(start, p3, d.dispatch());
    }
    emit_return(compiler, raw_ret);
    let ghost p5 = p4 + return_statements(d.ret);
    assert(compiler@ == start.run(p5)) by {
        lemma_run_concat(start, p4, return_statements(d.ret));
    }
    emit_releases(compiler, struct_ty, raw_args);
    let ghost p6 = p5 + d.releases();
    assert(compiler@ == start.run(p6)) by {
        lemma_run_concat(start, p5, d.releases());
    }
    let ghost before = compiler@;
    if use_error_code {
        compiler.add_line("0");
    }
    assert(compiler@ == start.run(p6 + d.epilogue())) by {
        if use_error_code {
            lemma_run_one(before, Statement::Line("0"@));
        }
        lemma_run_concat(start, p6, d.epilogue());
    }
}

/// Writes the wrapper of a function that `check_descriptor` accepts.
fn emit_wrapper(
    compiler: &mut SerializationCompiler,
    extern_name: &str,
    struct_ty: &Option<(Type, SelfType)>,
    func_name: &str,
    raw_args: &Vec<(&str, Type)>,
    raw_ret: &Option<Type>,
    use_error_code: bool,
)
    requires
        all_supported(owner_view(*struct_ty), raw_args_view(raw_args@), ret_view(*raw_ret)),
    ensures
        final(compiler)@ == old(compiler)@.run(
            descriptor(
                extern_name,
                *struct_ty,
                func_name,
                raw_args@,
                *raw_ret,
                use_error_code,
            ).statements(),
        ),
        final(compiler)@.contexts == old(compiler)@.contexts,
{
    let ghost start = compiler@;
    let ghost d = descriptor(extern_name, *struct_ty, func_name, raw_args@, *raw_ret, use_error_code);
    let ghost body = descriptor("", *struct_ty, func_name, raw_args@, *raw_ret, use_error_code).body();
    assert(body == d.body());
    assert forall|i: int| 0 <= i < raw_args.len() implies !(#[trigger] raw_args[i]).1@.is_nested_sequence() by {
        assert(d.args[i].1.supported());
    }
    let params = boundary_params(struct_ty, raw_args, raw_ret);
    let scope = FunctionContext::new_extern_c(extern_name, true, params, use_error_code);
    let ghost opening = Statement::OpenFunction(d.scope());
    compiler.add_context(Context::Function(scope));
    let ghost inside = compiler@.contexts;
    assert(compiler@ == start.run(seq![opening])) by {
        lemma_run_one(start, opening);
    }
    emit_body(compiler, struct_ty, func_name, raw_args, raw_ret, use_error_code);
    assert(compiler@ == start.run(seq![opening] + body)) by {
        lemma_run_concat(start, seq![opening], body);
    }
    let _ = compiler.pop_context();
    compiler.add_newline();
    proof {
        assert(inside.drop_last() =~= start.contexts);
        lemma_run_push(start, seq![opening] + body, Statement::Close);
        lemma_run_push(start, (seq![opening] + body).push(Statement::Close), Statement::Newline);
        assert((seq![opening] + body).push(Statement::Close).push(Statement::Newline)
            =~= d.statements());
    }
}

/// Writes the boundary wrapper of one native function, or says why there is
/// none. On an error nothing is written.
pub fn add_extern_c_function(
    compiler: &mut SerializationCompiler,
    extern_name: &str,
    struct_ty: Option<(Type, SelfType)>,
    func_name: &str,
    raw_args: Vec<(&str, Type)>,
    raw_ret: Option<Type>,
    use_error_code: bool,
) -> (res: Result<(), GenError>)
    ensures
        match descriptor(
            extern_name,
            struct_ty,
            func_name,
            raw_args@,
            raw_ret,
            use_error_code,
        ).problem() {
            Some(error) => res == Err::<(), GenError>(error) && final(compiler)@ == old(compiler)@,
            None => res is Ok && final(compiler)@ == old(compiler)@.run(
                descriptor(
                    extern_name,
                    struct_ty,
                    func_name,
                    raw_args@,
                    raw_ret,
                    use_error_code,
                ).statements(),
            ),
        },
        final(compiler)@.contexts == old(compiler)@.contexts,
{
    match check_descriptor(&struct_ty, &raw_args, &raw_ret, use_error_code) {
        Some(error) => Err(error),
        None => {
            emit_wrapper(
                compiler,
                extern_name,
                &struct_ty,
                func_name,
                &raw_args,
                &raw_ret,
                use_error_code,
            );
            Ok(())
        },
    }
}

/// The lines of the makefile that builds the generated package.
pub open spec fn makefile_statements() -> Seq<Statement> {
    seq![Statement::Line("build:"@), Statement::Line("\tCDYLIB=1 cargo b --release"@)]
}

/// The expression for the path of the header that the build script writes.
pub open spec fn header_path(package_name: Seq<char>) -> Seq<char> {
    "PathBuf::from(&cargo_manifest_dir).join(\""@ + package_name + ".h\").display().to_string()"@
}

/// The build script: it has the header generator write the C header of the
/// package next to its manifest.
pub open spec fn build_script_statements(package_name: Seq<char>) -> Seq<Statement> {
    seq![
        Statement::extern_crate_line("cbindgen"@),
        Statement::Newline,
        Statement::use_line("std::{env, path::PathBuf}"@),
        Statement::use_line("cbindgen::Config"@),
        Statement::Newline,
        Statement::OpenFunction(FunctionView::plain("main"@, false, Seq::empty(), Seq::empty())),
        Statement::Let {
            is_mut: false,
            ty: None,
            left: "cargo_manifest_dir"@,
            right: "env::var(\"CARGO_MANIFEST_DIR\").unwrap()"@,
            is_unsafe: false,
        },
        Statement::Let {
            is_mut: false,
            ty: None,
            left: "output_file"@,
            right: header_path(package_name),
            is_unsafe: false,
        },
        Statement::Let {
            is_mut: false,
            ty: None,
            left: "config"@,
            right: "Config { language: cbindgen::Language::C, ..Default::default() }"@,
            is_unsafe: false,
        },
        Statement::Line(
            "cbindgen::generate_with_config(&cargo_manifest_dir, config) .unwrap() .write_to_file(&output_file);"@,
        ),
        Statement::Close,
    ]
}

/// The name of the generated package: underscores become hyphens, and `-c`
/// follows.
pub open spec fn c_package_name(package_name: Seq<char>) -> Seq<char> {
    replaced(package_name, '_', "-"@) + "-c"@
}

/// The lines of the manifest before the dependencies.
pub open spec fn manifest_head(package_name: Seq<char>) -> Seq<Statement> {
    seq![
        Statement::Line("[package]"@),
        Statement::Line("name = \""@ + c_package_name(package_name) + "\""@),
        Statement::Line("version = \"0.1.0\""@),
        Statement::Line("edition = \"2021\""@),
        Statement::Newline,
        Statement::Line("[lib]"@),
        Statement::Line("name = \""@ + package_name + "_c\""@),
        Statement::Line("path = \"src/lib.rs\""@),
        Statement::Line("crate-type = [\"cdylib\"]"@),
        Statement::Newline,
        Statement::Line("[dependencies]"@),
    ]
}

/// One line for each declared dependency, in the order of declaration.
pub open spec fn dependency_lines(crates: Seq<Seq<char>>) -> Seq<Statement> {
    Seq::new(crates.len(), |i: int| Statement::Line(crates[i]))
}

/// The lines of the manifest after the dependencies.
pub open spec fn manifest_tail() -> Seq<Statement> {
    seq![
        Statement::Newline,
        Statement::Line("[build-dependencies]"@),
        Statement::Line("cbindgen = \"0.23.0\""@),
        Statement::Newline,
        Statement::Line("[workspace]"@),
    ]
}

/// The manifest of the generated package.
pub open spec fn manifest_statements(package_name: Seq<char>, crates: Seq<Seq<char>>) -> Seq<
    Statement,
> {
    manifest_head(package_name) + dependency_lines(crates) + manifest_tail()
}

/// The text of the makefile.
pub fn gen_makefile() -> (res: String)
    ensures
        res@ == CompilerView::empty().run(makefile_statements()).text,
{
    let mut compiler = SerializationCompiler::new();
    let ghost start = compiler@;
    compiler.add_line("build:");
    compiler.add_line("\tCDYLIB=1 cargo b --release");
    proof {
        lemma_run_two(start, makefile_statements()[0], makefile_statements()[1]);
        assert(makefile_statements() =~= seq![makefile_statements()[0], makefile_statements()[1]]);
    }
    compiler.output()
}

/// The text of the build script of the package `package_name`.
pub fn gen_build_rs(package_name: &str) -> (res: String)
    ensures
        res@ == CompilerView::empty().run(build_script_statements(package_name@)).text,
{
    let mut compiler = SerializationCompiler::new();
    let ghost start = compiler@;
    let ghost all = build_script_statements(package_name@);
    let ghost mut done: Seq<Statement> = Seq::empty();
    compiler.add_extern_crate("cbindgen");
    proof {
        lemma_run_push(start, done, all[0]);
        done = done.push(all[0]);
    }
    compiler.add_newline();
    proof {
        lemma_run_push(start, done, all[1]);
        done = done.push(all[1]);
    }
    compiler.add_dependency("std::{env, path::PathBuf}");
    proof {
        lemma_run_push(start, done, all[2]);
        done = done.push(all[2]);
    }
    compiler.add_dependency("cbindgen::Config");
    proof {
        lemma_run_push(start, done, all[3]);
        done = done.push(all[3]);
    }
    compiler.add_newline();
    proof {
        lemma_run_push(start, done, all[4]);
        done = done.push(all[4]);
    }
    let scope = FunctionContext::new("main", false, Vec::new(), "");
    assert(scope@.args =~= Seq::empty());
    assert(""@ =~= Seq::empty()) by {
        reveal_strlit("");
    }
    compiler.add_context(Context::Function(scope));
    proof {
        lemma_run_push(start, done, all[5]);
        done = done.push(all[5]);
    }
    compiler.add_def_with_let(
        false,
        None,
        "cargo_manifest_dir",
        "env::var(\"CARGO_MANIFEST_DIR\").unwrap()",
    );
    proof {
        lemma_run_push(start, done, all[6]);
        done = done.push(all[6]);
    }
    let mut path = "PathBuf::from(&cargo_manifest_dir).join(\"".to_owned();
    path.append(package_name);
    path.append(".h\").display().to_string()");
    compiler.add_def_with_let(false, None, "output_file", path.as_str());
    proof {
        lemma_run_push(start, done, all[7]);
        done = done.push(all[7]);
    }
    compiler.add_def_with_let(
        false,
        None,
        "config",
        "Config { language: cbindgen::Language::C, ..Default::default() }",
    );
    proof {
        lemma_run_push(start, done, all[8]);
        done = done.push(all[8]);
    }
    compiler.add_line(
        "cbindgen::generate_with_config(&cargo_manifest_dir, config) .unwrap() .write_to_file(&output_file);",
    );
    proof {
        lemma_run_push(start, done, all[9]);
        done = done.push(all[9]);
    }
    let _ = compiler.pop_context();
    proof {
        lemma_run_push(start, done, all[10]);
        done = done.push(all[10]);
        assert(done =~= all);
    }
    compiler.output()
}

/// Writes the lines of `lines`, in order.
fn emit_lines(compiler: &mut SerializationCompiler, lines: &Vec<String>)
    ensures
        final(compiler)@ == old(compiler)@.run(dependency_lines(strs(lines@))),
        final(compiler)@.contexts == old(compiler)@.contexts,
{
    let ghost start = compiler@;
    let ghost all = dependency_lines(strs(lines@));
    let mut i: usize = 0;
    while i < lines.len()
        invariant
            i <= lines.len(),
            all == dependency_lines(strs(lines@)),
            compiler@ == start.run(all.take(i as int)),
            compiler@.contexts == start.contexts,
        decreases lines.len() - i,
    {
        compiler.add_line(lines[i].as_str());
        proof {
            lemma_run_push(start, all.take(i as int), all[i as int]);
            assert(all.take(i + 1) =~= all.take(i as int).push(all[i as int]));
        }
        i = i + 1;
    }
    assert(all.take(i as int) =~= all);
}

/// The text of the manifest of the package `package_name` with the
/// dependency lines `crates`.
pub fn gen_cargo_toml(package_name: &str, crates: &Vec<String>) -> (res: String)
    ensures
        res@ == CompilerView::empty().run(manifest_statements(package_name@, strs(crates@))).text,
{
    let mut compiler = SerializationCompiler::new();
    let ghost start = compiler@;
    let ghost head = manifest_head(package_name@);
    let ghost tail = manifest_tail();
    let ghost mut done: Seq<Statement> = Seq::empty();
    let mut name_c = replace(package_name, '_', "-");
    name_c.append("-c");
    let mut c_line = "name = \"".to_owned();
    c_line.append(name_c.as_str());
    c_line.append("\"");
    let mut rust_line = "name = \"".to_owned();
    rust_line.append(package_name);
    rust_line.append("_c\"");
    compiler.add_line("[package]");
    proof {
        lemma_run_push(start, done, head[0]);
        done = done.push(head[0]);
    }
    compiler.add_line(c_line.as_str());
    proof {
        lemma_run_push(start, done, head[1]);
        done = done.push(head[1]);
    }
    compiler.add_line("version = \"0.1.0\"");
    proof {
        lemma_run_push(start, done, head[2]);
        done = done.push(head[2]);
    }
    compiler.add_line("edition = \"2021\"");
    proof {
        lemma_run_push(start, done, head[3]);
        done = done.push(head[3]);
    }
    compiler.add_newline();
    proof {
        lemma_run_push(start, done, head[4]);
        done = done.push(head[4]);
    }
    compiler.add_line("[lib]");
    proof {
        lemma_run_push(start, done, head[5]);
        done = done.push(head[5]);
    }
    compiler.add_line(rust_line.as_str());
    proof {
        lemma_run_push(start, done, head[6]);
        done = done.push(head[6]);
    }
    compiler.add_line("path = \"src/lib.rs\"");
    proof {
        lemma_run_push(start, done, head[7]);
        done = done.push(head[7]);
    }
    compiler.add_line("crate-type = [\"cdylib\"]");
    proof {
        lemma_run_push(start, done, head[8]);
        done = done.push(head[8]);
    }
    compiler.add_newline();
    proof {
        lemma_run_push(start, done, head[9]);
        done = done.push(head[9]);
    }
    compiler.add_line("[dependencies]");
    proof {
        lemma_run_push(start, done, head[10]);
        done = done.push(head[10]);
        assert(done =~= head);
    }
    emit_lines(&mut compiler, crates);
    proof {
        lemma_run_concat(start, head, dependency_lines(strs(crates@)));
        done = head + dependency_lines(strs(crates@));
    }
    compiler.add_newline();
    proof {
        lemma_run_push(start, done, tail[0]);
        done = done.push(tail[0]);
    }
    compiler.add_line("[build-dependencies]");
    proof {
        lemma_run_push(start, done, tail[1]);
        done = done.push(tail[1]);
    }
    compiler.add_line("cbindgen = \"0.23.0\"");
    proof {
        lemma_run_push(start, done, tail[2]);
        done = done.push(tail[2]);
    }
    compiler.add_newline();
    proof {
        lemma_run_push(start, done, tail[3]);
        done = done.push(tail[3]);
    }
    compiler.add_line("[workspace]");
    proof {
        lemma_run_push(start, done, tail[4]);
        done = done.push(tail[4]);
        assert(done =~= manifest_statements(package_name@, strs(crates@)));
    }
    compiler.output()
}

} // verus!
