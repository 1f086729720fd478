//! The scoped emission engine: an append-only text buffer with a stack of open
//! scopes. Every statement is written at the depth of the scopes around it.
//!
//! What the engine does is stated over `Statement`: each method appends the
//! text of one statement, as `CompilerView::step` says.

use crate::error::GenError;
use crate::text::{join, join_strings, strs};
use vstd::prelude::*;
use vstd::string::*;

verus! {

/// What a boundary parameter carries.
#[derive(Clone, Copy, PartialEq, Eq, Hash, Debug, Structural)]
pub enum ArgKind {
    /// An argument of the wrapped function.
    Value,
    /// The element count of the sequence argument before it.
    Length,
    /// Where the return value is written.
    ReturnOut,
    /// Where the element count of a returned sequence is written.
    ReturnLengthOut,
}

/// A named parameter of a boundary function.
#[derive(Debug)]
pub struct CArgInfo {
    pub name: String,
    pub ty: String,
    pub kind: ArgKind,
}

/// What a `CArgInfo` stands for.
pub struct CArgInfoView {
    pub name: Seq<char>,
    pub ty: Seq<char>,
    pub kind: ArgKind,
}

impl View for CArgInfo {
    type V = CArgInfoView;

    open spec fn view(&self) -> CArgInfoView {
        CArgInfoView { name: self.name@, ty: self.ty@, kind: self.kind }
    }
}

impl CArgInfoView {
    /// An argument passed on under its own name.
    pub open spec fn arg(name: Seq<char>, ty: Seq<char>) -> CArgInfoView {
        CArgInfoView { name, ty, kind: ArgKind::Value }
    }

    /// The length companion of the sequence argument `name`.
    pub open spec fn len_arg(name: Seq<char>) -> CArgInfoView {
        CArgInfoView { name: name + "_len"@, ty: "usize"@, kind: ArgKind::Length }
    }

    /// The out-pointer for a return value of C type `ty`.
    pub open spec fn ret_arg(ty: Seq<char>) -> CArgInfoView {
        CArgInfoView { name: "return_ptr"@, ty: "*mut "@ + ty, kind: ArgKind::ReturnOut }
    }

    /// The out-pointer for the length of a returned sequence.
    pub open spec fn ret_len_arg() -> CArgInfoView {
        CArgInfoView {
            name: "return_len_ptr"@,
            ty: "*mut usize"@,
            kind: ArgKind::ReturnLengthOut,
        }
    }
}

impl CArgInfo {
    /// An argument of C type `ty`, passed on under its own name.
    pub fn arg(name: &str, ty: &str) -> (res: CArgInfo)
        ensures
            res@ == CArgInfoView::arg(name@, ty@),
    {
        CArgInfo { name: name.to_owned(), ty: ty.to_owned(), kind: ArgKind::Value }
    }

    /// The length companion of the sequence argument `name`.
    pub fn len_arg(name: &str) -> (res: CArgInfo)
        ensures
            res@ == CArgInfoView::len_arg(name@),
    {
        let mut full = name.to_owned();
        full.append("_len");
        CArgInfo { name: full, ty: "usize".to_owned(), kind: ArgKind::Length }
    }

    /// The out-pointer for a return value of C type `ty`.
    pub fn ret_arg(ty: &str) -> (res: CArgInfo)
        ensures
            res@ == CArgInfoView::ret_arg(ty@),
    {
        let mut full = "*mut ".to_owned();
        full.append(ty);
        CArgInfo { name: "return_ptr".to_owned(), ty: full, kind: ArgKind::ReturnOut }
    }

    /// The out-pointer for the length of a returned sequence.
    pub fn ret_len_arg() -> (res: CArgInfo)
        ensures
            res@ == CArgInfoView::ret_len_arg(),
    {
        CArgInfo {
            name: "return_len_ptr".to_owned(),
            ty: "*mut usize".to_owned(),
            kind: ArgKind::ReturnLengthOut,
        }
    }
}

/// A parameter of a function scope.
#[derive(Debug)]
pub enum FunctionArg {
    /// The receiver, as an opaque pointer.
    CSelfArg,
    CArg(CArgInfo),
}

/// What a `FunctionArg` stands for.
pub enum FunctionArgView {
    CSelfArg,
    CArg(CArgInfoView),
}

impl View for FunctionArg {
    type V = FunctionArgView;

    open spec fn view(&self) -> FunctionArgView {
        match self {
            FunctionArg::CSelfArg => FunctionArgView::CSelfArg,
            FunctionArg::CArg(info) => FunctionArgView::CArg(info@),
        }
    }
}

impl FunctionArgView {
    /// The parameter as the signature writes it.
    pub open spec fn text(self) -> Seq<char> {
        match self {
            FunctionArgView::CSelfArg => "self_: *mut ::std::os::raw::c_void"@,
            FunctionArgView::CArg(info) => info.name + ": "@ + info.ty,
        }
    }
}

/// The views of a parameter list.
pub open spec fn args_view(args: Seq<FunctionArg>) -> Seq<FunctionArgView> {
    args.map_values(|a: FunctionArg| a@)
}

/// The texts of a parameter list.
pub open spec fn arg_texts(args: Seq<FunctionArgView>) -> Seq<Seq<char>> {
    args.map_values(|a: FunctionArgView| a.text())
}

impl FunctionArg {
    /// The parameter as the signature writes it.
    pub fn to_text(&self) -> (res: String)
        ensures
            res@ == self@.text(),
    {
        match self {
            FunctionArg::CSelfArg => "self_: *mut ::std::os::raw::c_void".to_owned(),
            FunctionArg::CArg(info) => {
                let mut out = info.name.clone();
                out.append(": ");
                out.append(info.ty.as_str());
                out
            },
        }
    }
}

/// A function scope: what its header says.
#[derive(Debug)]
pub struct FunctionContext {
    pub name: String,
    pub is_pub: bool,
    pub is_extern_c: bool,
    pub args: Vec<FunctionArg>,
    /// The return type; empty where the function returns nothing.
    pub ret: String,
}

/// What a `FunctionContext` stands for.
pub struct FunctionView {
    pub name: Seq<char>,
    pub is_pub: bool,
    pub is_extern_c: bool,
    pub args: Seq<FunctionArgView>,
    pub ret: Seq<char>,
}

impl View for FunctionContext {
    type V = FunctionView;

    open spec fn view(&self) -> FunctionView {
        FunctionView {
            name: self.name@,
            is_pub: self.is_pub,
            is_extern_c: self.is_extern_c,
            args: args_view(self.args@),
            ret: self.ret@,
        }
    }
}

impl FunctionView {
    /// An ordinary function.
    pub open spec fn plain(
        name: Seq<char>,
        is_pub: bool,
        args: Seq<FunctionArgView>,
        ret: Seq<char>,
    ) -> FunctionView {
        FunctionView { name, is_pub, is_extern_c: false, args, ret }
    }

    /// A function exported under the C calling convention. With
    /// `use_error_code` it returns the 0/1 sentinel, else nothing.
    pub open spec fn extern_c(
        name: Seq<char>,
        is_pub: bool,
        args: Seq<FunctionArgView>,
        use_error_code: bool,
    ) -> FunctionView {
        FunctionView {
            name,
            is_pub,
            is_extern_c: true,
            args,
            ret: if use_error_code {
                "u32"@
            } else {
                Seq::empty()
            },
        }
    }

    /// The line that opens the function.
    pub open spec fn signature(self) -> Seq<char> {
        (if self.is_pub {
            "pub "@
        } else {
            Seq::empty()
        }) + (if self.is_extern_c {
            "extern \"C\" "@
        } else {
            Seq::empty()
        }) + "fn "@ + self.name + "("@ + join(arg_texts(self.args), ", "@) + ")"@ + (if self.ret.len()
            > 0 {
            " -> "@ + self.ret
        } else {
            Seq::empty()
        }) + " {"@
    }
}

impl FunctionContext {
    /// An ordinary function; it returns nothing where `ret` is empty.
    pub fn new(name: &str, is_pub: bool, args: Vec<FunctionArg>, ret: &str) -> (res:
        FunctionContext)
        ensures
            res@ == FunctionView::plain(name@, is_pub, args_view(args@), ret@),
    {
        FunctionContext {
            name: name.to_owned(),
            is_pub,
            is_extern_c: false,
            args,
            ret: ret.to_owned(),
        }
    }

    /// A function exported under the C calling convention. With
    /// `use_error_code` it returns the 0/1 sentinel, else nothing.
    pub fn new_extern_c(
        name: &str,
        is_pub: bool,
        args: Vec<FunctionArg>,
        use_error_code: bool,
    ) -> (res: FunctionContext)
        ensures
            res@ == FunctionView::extern_c(name@, is_pub, args_view(args@), use_error_code),
    {
        let ret = if use_error_code {
            "u32".to_owned()
        } else {
            String::new()
        };
        FunctionContext { name: name.to_owned(), is_pub, is_extern_c: true, args, ret }
    }

    /// The line that opens the function.
    pub fn signature(&self) -> (res: String)
        ensures
            res@ == self@.signature(),
    {
        let mut texts: Vec<String> = Vec::new();
        let mut i: usize = 0;
        while i < self.args.len()
            invariant
                i <= self.args.len(),
                texts@.len() == i,
                forall|j: int| 0 <= j < i ==> (#[trigger] texts@[j])@ == self.args@[j]@.text(),
            decreases self.args.len() - i,
        {
            texts.push(self.args[i].to_text());
            i = i + 1;
        }
        assert(strs(texts@) =~= arg_texts(self@.args));
        let params = join_strings(&texts, ", ");
        let mut out = String::new();
        if self.is_pub {
            out.append("pub ");
        }
        if self.is_extern_c {
            out.append("extern \"C\" ");
        }
        out.append("fn ");
        out.append(self.name.as_str());
        out.append("(");
        out.append(params.as_str());
        out.append(")");
        if !self.ret.as_str().is_empty() {
            out.append(" -> ");
            out.append(self.ret.as_str());
        }
        out.append(" {");
        assert(out@ =~= self@.signature());
        out
    }
}

/// A match scope: the scrutinee, the arms not yet closed (the first one is
/// open), and the binding that captures the value of the match, if any.
#[derive(Debug)]
pub struct MatchContext {
    pub scrutinee: String,
    pub arms: Vec<String>,
    pub def: Option<String>,
}

/// What a `MatchContext` stands for.
pub struct MatchView {
    pub scrutinee: Seq<char>,
    pub arms: Seq<Seq<char>>,
    pub def: Option<Seq<char>>,
}

/// The view of an optional string.
pub open spec fn opt_view(s: Option<String>) -> Option<Seq<char>> {
    match s {
        Some(s) => Some(s@),
        None => None,
    }
}

impl View for MatchContext {
    type V = MatchView;

    open spec fn view(&self) -> MatchView {
        MatchView { scrutinee: self.scrutinee@, arms: strs(self.arms@), def: opt_view(self.def) }
    }
}

impl MatchView {
    /// The line that opens the match.
    pub open spec fn header(self) -> Seq<char> {
        (match self.def {
            Some(def) => "let "@ + def + " = "@,
            None => Seq::empty(),
        }) + "match "@ + self.scrutinee + " {"@
    }

    /// The line that closes the match.
    pub open spec fn closer(self) -> Seq<char> {
        match self.def {
            Some(_) => "};"@,
            None => "}"@,
        }
    }

    /// The line that opens the arm for `pattern`.
    pub open spec fn arm_header(pattern: Seq<char>) -> Seq<char> {
        pattern + " => {"@
    }
}

impl MatchContext {
    /// A match on `scrutinee` with the arm patterns `arms`.
    pub fn new(scrutinee: &str, arms: Vec<String>) -> (res: MatchContext)
        ensures
            res@ == (MatchView { scrutinee: scrutinee@, arms: strs(arms@), def: None }),
    {
        MatchContext { scrutinee: scrutinee.to_owned(), arms, def: None }
    }

    /// A match on `scrutinee` whose value is bound to `def`.
    pub fn new_with_def(scrutinee: &str, arms: Vec<String>, def: &str) -> (res: MatchContext)
        ensures
            res@ == (MatchView { scrutinee: scrutinee@, arms: strs(arms@), def: Some(def@) }),
    {
        MatchContext { scrutinee: scrutinee.to_owned(), arms, def: Some(def.to_owned()) }
    }

    fn header(&self) -> (res: String)
        ensures
            res@ == self@.header(),
    {
        let mut out = String::new();
        match &self.def {
            Some(def) => {
                out.append("let ");
                out.append(def.as_str());
                out.append(" = ");
            },
            None => {},
        }
        out.append("match ");
        out.append(self.scrutinee.as_str());
        out.append(" {");
        assert(out@ =~= self@.header());
        out
    }

    fn closer(&self) -> (res: &'static str)
        ensures
            res@ == self@.closer(),
    {
        match &self.def {
            Some(_) => "};",
            None => "}",
        }
    }
}

/// An open scope.
#[derive(Debug)]
pub enum Context {
    Function(FunctionContext),
    Match(MatchContext),
}

/// What a `Context` stands for.
pub enum ContextView {
    Function(FunctionView),
    Match(MatchView),
}

impl View for Context {
    type V = ContextView;

    open spec fn view(&self) -> ContextView {
        match self {
            Context::Function(f) => ContextView::Function(f@),
            Context::Match(m) => ContextView::Match(m@),
        }
    }
}

/// One level of indentation.
pub open spec fn pad() -> Seq<char> {
    "    "@
}

impl ContextView {
    /// The statement that opens this scope.
    pub open spec fn opening(self) -> Statement {
        match self {
            ContextView::Function(f) => Statement::OpenFunction(f),
            ContextView::Match(m) => Statement::OpenMatch(m),
        }
    }

    /// By how much a scope indents what is written inside it: one level for
    /// a function, two for an arm of a match.
    pub open spec fn indent(self) -> Seq<char> {
        match self {
            ContextView::Function(_) => pad(),
            ContextView::Match(m) => if m.arms.len() > 0 {
                pad() + pad()
            } else {
                pad()
            },
        }
    }
}

/// The views of a stack of scopes.
pub open spec fn contexts_view(contexts: Seq<Context>) -> Seq<ContextView> {
    contexts.map_values(|c: Context| c@)
}

/// The indentation inside a stack of scopes.
pub open spec fn indent_of(contexts: Seq<ContextView>) -> Seq<char>
    decreases contexts.len(),
{
    if contexts.len() == 0 {
        Seq::empty()
    } else {
        indent_of(contexts.drop_last()) + contexts.last().indent()
    }
}

/// `text` with one more line: `indent`, `extra`, `line` and a line break.
pub open spec fn with_line(
    text: Seq<char>,
    indent: Seq<char>,
    extra: Seq<char>,
    line: Seq<char>,
) -> Seq<char> {
    text + indent + extra + line + "\n"@
}

/// An instruction to the engine.
#[allow(inconsistent_fields)]
pub enum Statement {
    /// Opens a function scope.
    OpenFunction(FunctionView),
    /// Opens a match scope, and its first arm.
    OpenMatch(MatchView),
    /// Closes the innermost scope, or moves on to the next arm of a match.
    Close,
    /// A binding declaration.
    Let { is_mut: bool, ty: Option<Seq<char>>, left: Seq<char>, right: Seq<char>, is_unsafe: bool },
    /// An assignment through a pointer.
    Assign { target: Seq<char>, value: Seq<char> },
    /// The value of a block, or a `return`.
    Value { value: Seq<char>, with_return: bool },
    /// A call, bound to `left` where there is one.
    Call {
        left: Option<Seq<char>>,
        ty: Option<Seq<char>>,
        caller: Option<Seq<char>>,
        func: Seq<char>,
        args: Seq<Seq<char>>,
    },
    /// A line as it is.
    Line(Seq<char>),
    /// An empty line.
    Newline,
}

impl Statement {
    /// `: ` and the type, where there is one.
    pub open spec fn annotation(ty: Option<Seq<char>>) -> Seq<char> {
        match ty {
            Some(ty) => ": "@ + ty,
            None => Seq::empty(),
        }
    }

    /// The callee and its arguments.
    pub open spec fn call_text(caller: Option<Seq<char>>, func: Seq<char>, args: Seq<Seq<char>>) -> Seq<
        char,
    > {
        (match caller {
            Some(caller) => caller + "."@,
            None => Seq::empty(),
        }) + func + "("@ + join(args, ", "@) + ");"@
    }

    /// The line of a statement that opens or closes no scope.
    pub open spec fn text(self) -> Seq<char> {
        match self {
            Statement::Let { is_mut, ty, left, right, is_unsafe } => "let "@ + (if is_mut {
                "mut "@
            } else {
                Seq::empty()
            }) + left + Self::annotation(ty) + " = "@ + (if is_unsafe {
                "unsafe { "@ + right + " }"@
            } else {
                right
            }) + ";"@,
            Statement::Assign { target, value } => "unsafe { *"@ + target + " = "@ + value + "; }"@,
            Statement::Value { value, with_return } => if with_return {
                "return "@ + value + ";"@
            } else {
                value
            },
            Statement::Call { left, ty, caller, func, args } => (match left {
                Some(left) => "let "@ + left + Self::annotation(ty) + " = "@,
                None => Seq::empty(),
            }) + Self::call_text(caller, func, args),
            Statement::Line(line) => line,
            _ => Seq::empty(),
        }
    }

    /// The line `use dependency;`.
    pub open spec fn use_line(dependency: Seq<char>) -> Statement {
        Statement::Line("use "@ + dependency + ";"@)
    }

    /// The line `extern crate name;`.
    pub open spec fn extern_crate_line(name: Seq<char>) -> Statement {
        Statement::Line("extern crate "@ + name + ";"@)
    }
}

/// The state of the engine: the text written so far and the open scopes,
/// outermost first.
pub struct CompilerView {
    pub text: Seq<char>,
    pub contexts: Seq<ContextView>,
}

impl CompilerView {
    /// Nothing written, nothing open.
    pub open spec fn empty() -> CompilerView {
        CompilerView { text: Seq::empty(), contexts: Seq::empty() }
    }

    /// The state after one more line at the current depth.
    pub open spec fn line(self, line: Seq<char>) -> CompilerView {
        CompilerView {
            text: with_line(self.text, indent_of(self.contexts), Seq::empty(), line),
            contexts: self.contexts,
        }
    }

    /// The state after a scope was opened.
    pub open spec fn open(self, context: ContextView) -> CompilerView {
        match context {
            ContextView::Function(f) => {
                let text = if f.is_extern_c {
                    with_line(
                        self.text,
                        indent_of(self.contexts),
                        Seq::empty(),
                        "#[no_mangle]"@,
                    )
                } else {
                    self.text
                };
                CompilerView {
                    text: with_line(text, indent_of(self.contexts), Seq::empty(), f.signature()),
                    contexts: self.contexts.push(context),
                }
            },
            ContextView::Match(m) => {
                let text = with_line(self.text, indent_of(self.contexts), Seq::empty(), m.header());
                CompilerView {
                    text: if m.arms.len() > 0 {
                        with_line(
                            text,
                            indent_of(self.contexts),
                            pad(),
                            MatchView::arm_header(m.arms[0]),
                        )
                    } else {
                        text
                    },
                    contexts: self.contexts.push(context),
                }
            },
        }
    }

    /// The state after the innermost scope was closed. In a match with
    /// further arms, the open arm is closed and the next one opened. With no
    /// scope open nothing changes.
    pub open spec fn close(self) -> CompilerView {
        if self.contexts.len() == 0 {
            self
        } else {
            let outer = self.contexts.drop_last();
            let base = indent_of(outer);
            match self.contexts.last() {
                ContextView::Function(_) => CompilerView {
                    text: with_line(self.text, base, Seq::empty(), "}"@),
                    contexts: outer,
                },
                ContextView::Match(m) => if m.arms.len() == 0 {
                    CompilerView {
                        text: with_line(self.text, base, Seq::empty(), m.closer()),
                        contexts: outer,
                    }
                } else if m.arms.len() == 1 {
                    CompilerView {
                        text: with_line(
                            with_line(self.text, base, pad(), "}"@),
                            base,
                            Seq::empty(),
                            m.closer(),
                        ),
                        contexts: outer,
                    }
                } else {
                    CompilerView {
                        text: with_line(
                            with_line(self.text, base, pad(), "}"@),
                            base,
                            pad(),
                            MatchView::arm_header(m.arms[1]),
                        ),
                        contexts: outer.push(
                            ContextView::Match(
                                MatchView {
                                    scrutinee: m.scrutinee,
                                    arms: m.arms.drop_first(),
                                    def: m.def,
                                },
                            ),
                        ),
                    }
                },
            }
        }
    }

    /// The state after one statement.
    #[verifier::opaque]
    pub open spec fn step(self, statement: Statement) -> CompilerView {
        match statement {
            Statement::OpenFunction(f) => self.open(ContextView::Function(f)),
            Statement::OpenMatch(m) => self.open(ContextView::Match(m)),
            Statement::Close => self.close(),
            Statement::Newline => CompilerView {
                text: self.text + "\n"@,
                contexts: self.contexts,
            },
            _ => self.line(statement.text()),
        }
    }

    /// The state after a list of statements, in order.
    pub open spec fn run(self, statements: Seq<Statement>) -> CompilerView
        decreases statements.len(),
    {
        if statements.len() == 0 {
            self
        } else {
            self.run(statements.drop_last()).step(statements.last())
        }
    }
}

/// One more statement at the end of a list is one more step.
pub proof fn lemma_run_push(state: CompilerView, statements: Seq<Statement>, last: Statement)
    ensures
        state.run(statements.push(last)) == state.run(statements).step(last),
{
    assert(statements.push(last).drop_last() =~= statements);
}

/// Running two lists one after the other is running their concatenation.
pub proof fn lemma_run_concat(state: CompilerView, first: Seq<Statement>, second: Seq<Statement>)
    ensures
        state.run(first + second) == state.run(first).run(second),
    decreases second.len(),
{
    if second.len() == 0 {
        assert(first + second =~= first);
    } else {
        lemma_run_concat(state, first, second.drop_last());
        assert((first + second).drop_last() =~= first + second.drop_last());
        assert((first + second).last() == second.last());
    }
}

/// A list of one statement is one step.
pub proof fn lemma_run_one(state: CompilerView, a: Statement)
    ensures
        state.run(seq![a]) == state.step(a),
{
    lemma_run_push(state, Seq::empty(), a);
    assert(seq![a] =~= Seq::empty().push(a));
}

/// A list of two statements is two steps.
pub proof fn lemma_run_two(state: CompilerView, a: Statement, b: Statement)
    ensures
        state.run(seq![a, b]) == state.step(a).step(b),
{
    lemma_run_one(state, a);
    lemma_run_push(state, seq![a], b);
    assert(seq![a, b] =~= seq![a].push(b));
}

/// A list of four statements is four steps.
pub proof fn lemma_run_four(state: CompilerView, a: Statement, b: Statement, c: Statement, d: Statement)
    ensures
        state.run(seq![a, b, c, d]) == state.step(a).step(b).step(c).step(d),
{
    lemma_run_two(state, a, b);
    lemma_run_push(state, seq![a, b], c);
    assert(seq![a, b, c] =~= seq![a, b].push(c));
    lemma_run_push(state, seq![a, b, c], d);
    assert(seq![a, b, c, d] =~= seq![a, b, c].push(d));
}

/// A list of five statements is five steps.
pub proof fn lemma_run_five(
    state: CompilerView,
    a: Statement,
    b: Statement,
    c: Statement,
    d: Statement,
    e: Statement,
)
    ensures
        state.run(seq![a, b, c, d, e]) == state.step(a).step(b).step(c).step(d).step(e),
{
    lemma_run_four(state, a, b, c, d);
    lemma_run_push(state, seq![a, b, c, d], e);
    assert(seq![a, b, c, d, e] =~= seq![a, b, c, d].push(e));
}

/// The state after the innermost scope was closed `times` times.
pub open spec fn closed(state: CompilerView, times: nat) -> CompilerView
    decreases times,
{
    if times == 0 {
        state
    } else {
        closed(state, (times - 1) as nat).close()
    }
}

/// Closing a function scope restores the scopes, and so the indentation,
/// that were there before it was opened; the closing brace stands at that
/// indentation.
pub proof fn lemma_function_scope_closes(state: CompilerView, scope: FunctionView)
    ensures
        ({
            let opened = state.open(ContextView::Function(scope));
            &&& opened.close().contexts == state.contexts
            &&& opened.close().text == with_line(
                opened.text,
                indent_of(state.contexts),
                Seq::empty(),
                "}"@,
            )
        }),
{
    let opened = state.open(ContextView::Function(scope));
    assert(opened.contexts.drop_last() =~= state.contexts);
}

/// While arms of a match are left, closing moves on to the next arm and
/// the match stays open.
proof fn lemma_match_scope_advances(state: CompilerView, scope: MatchView, times: nat)
    requires
        times < scope.arms.len(),
    ensures
        closed(state.open(ContextView::Match(scope)), times).contexts == state.contexts.push(
            ContextView::Match(
                MatchView {
                    scrutinee: scope.scrutinee,
                    arms: scope.arms.skip(times as int),
                    def: scope.def,
                },
            ),
        ),
    decreases times,
{
    let opened = state.open(ContextView::Match(scope));
    if times == 0 {
        assert(scope.arms.skip(0) =~= scope.arms);
    } else {
        lemma_match_scope_advances(state, scope, (times - 1) as nat);
        let before = closed(opened, (times - 1) as nat);
        assert(before.contexts.drop_last() =~= state.contexts);
        assert(scope.arms.skip(times - 1).drop_first() =~= scope.arms.skip(times as int));
    }
}

/// A match scope with arms is closed by as many closes as it has arms: the
/// scopes, and so the indentation, are then as they were before it was
/// opened.
pub proof fn lemma_match_scope_closes(state: CompilerView, scope: MatchView)
    requires
        scope.arms.len() > 0,
    ensures
        closed(state.open(ContextView::Match(scope)), scope.arms.len()).contexts == state.contexts,
        forall|times: nat|
            times < scope.arms.len() ==> (#[trigger] closed(
                state.open(ContextView::Match(scope)),
                times,
            )).contexts.len() == state.contexts.len() + 1,
{
    let opened = state.open(ContextView::Match(scope));
    let last = (scope.arms.len() - 1) as nat;
    lemma_match_scope_advances(state, scope, last);
    let before = closed(opened, last);
    assert(before.contexts.drop_last() =~= state.contexts);
    assert(scope.arms.skip(last as int).len() == 1);
    assert forall|times: nat| times < scope.arms.len() implies (#[trigger] closed(
        opened,
        times,
    )).contexts.len() == state.contexts.len() + 1 by {
        lemma_match_scope_advances(state, scope, times);
    }
}

/// The engine.
pub struct SerializationCompiler {
    text: String,
    contexts: Vec<Context>,
}

impl View for SerializationCompiler {
    type V = CompilerView;

    closed spec fn view(&self) -> CompilerView {
        CompilerView { text: self.text@, contexts: contexts_view(self.contexts@) }
    }
}

impl SerializationCompiler {
    /// An engine that has written nothing and has no scope open.
    pub fn new() -> (res: SerializationCompiler)
        ensures
            res@ == CompilerView::empty(),
    {
        let res = SerializationCompiler { text: String::new(), contexts: Vec::new() };
        assert(res@.contexts =~= Seq::empty());
        res
    }

    /// The text written so far.
    pub fn output(&self) -> (res: String)
        ensures
            res@ == self@.text,
    {
        self.text.clone()
    }

    /// How many scopes are open.
    pub fn depth(&self) -> (res: usize)
        ensures
            res == self@.contexts.len(),
    {
        self.contexts.len()
    }

    /// Writes one line inside the open scopes, `extra` levels deeper.
    fn write_line(&mut self, extra: bool, line: &str)
        ensures
            final(self).contexts == old(self).contexts,
            final(self).text@ == with_line(
                old(self).text@,
                indent_of(contexts_view(old(self).contexts@)),
                if extra {
                    pad()
                } else {
                    Seq::empty()
                },
                line@,
            ),
    {
        let ghost views = contexts_view(self.contexts@);
        let mut i: usize = 0;
        while i < self.contexts.len()
            invariant
                i <= self.contexts.len(),
                self.contexts == old(self).contexts,
                views == contexts_view(self.contexts@),
                self.text@ == old(self).text@ + indent_of(views.take(i as int)),
            decreases self.contexts.len() - i,
        {
            assert(views.take(i + 1).drop_last() =~= views.take(i as int));
            assert(views.take(i + 1).last() == self.contexts@[i as int]@);
            let deep = match &self.contexts[i] {
                Context::Function(_) => false,
                Context::Match(m) => m.arms.len() > 0,
            };
            if deep {
                self.text.append("        ");
                assert("        "@ =~= pad() + pad()) by {
                    reveal_strlit("        ");
                    reveal_strlit("    ");
                }
            } else {
                self.text.append("    ");
            }
            assert(self.text@ =~= old(self).text@ + indent_of(views.take(i + 1)));
            i = i + 1;
        }
        assert(views.take(i as int) =~= views);
        if extra {
            self.text.append("    ");
        }
        self.text.append(line);
        self.text.append("\n");
        assert(self.text@ =~= with_line(
            old(self).text@,
            indent_of(views),
            if extra {
                pad()
            } else {
                Seq::empty()
            },
            line@,
        ));
    }

    /// Writes `line` at the current depth.
    pub fn add_line(&mut self, line: &str)
        ensures
            final(self)@ == old(self)@.step(Statement::Line(line@)),
            final(self)@.contexts == old(self)@.contexts,
    {
        proof {
            reveal(CompilerView::step);
        }
        self.write_line(false, line);
    }

    /// Writes an empty line.
    pub fn add_newline(&mut self)
        ensures
            final(self)@ == old(self)@.step(Statement::Newline),
            final(self)@.contexts == old(self)@.contexts,
    {
        proof {
            reveal(CompilerView::step);
        }
        self.text.append("\n");
    }

    /// Writes `use dependency;`.
    pub fn add_dependency(&mut self, dependency: &str)
        ensures
            final(self)@ == old(self)@.step(Statement::use_line(dependency@)),
            final(self)@.contexts == old(self)@.contexts,
    {
        proof {
            reveal(CompilerView::step);
        }
        let mut line = "use ".to_owned();
        line.append(dependency);
        line.append(";");
        self.write_line(false, line.as_str());
    }

    /// Writes `extern crate name;`.
    pub fn add_extern_crate(&mut self, name: &str)
        ensures
            final(self)@ == old(self)@.step(Statement::extern_crate_line(name@)),
            final(self)@.contexts == old(self)@.contexts,
    {
        proof {
            reveal(CompilerView::step);
        }
        let mut line = "extern crate ".to_owned();
        line.append(name);
        line.append(";");
        self.write_line(false, line.as_str());
    }

    /// Opens a scope: writes its header, and what follows goes inside it.
    pub fn add_context(&mut self, context: Context)
        ensures
            final(self)@ == old(self)@.step(context@.opening()),
            final(self)@.contexts == old(self)@.contexts.push(context@),
    {
        proof {
            reveal(CompilerView::step);
        }
        match &context {
            Context::Function(f) => {
                if f.is_extern_c {
                    self.write_line(false, "#[no_mangle]");
                }
                let signature = f.signature();
                self.write_line(false, signature.as_str());
            },
            Context::Match(m) => {
                let header = m.header();
                self.write_line(false, header.as_str());
                if m.arms.len() > 0 {
                    let mut arm = m.arms[0].clone();
                    arm.append(" => {");
                    self.write_line(true, arm.as_str());
                }
            },
        }
        self.contexts.push(context);
        assert(contexts_view(self.contexts@) =~= contexts_view(old(self).contexts@).push(
            context@,
        ));
    }

    /// Closes the innermost scope, or moves on to the next arm of a match.
    /// Fails, and changes nothing, where no scope is open.
    pub fn pop_context(&mut self) -> (res: Result<(), GenError>)
        ensures
            res is Ok <==> old(self)@.contexts.len() > 0,
            res is Ok ==> final(self)@ == old(self)@.step(Statement::Close),
            res is Ok ==> final(self)@.contexts == old(self)@.close().contexts,
            res is Err ==> res == Err::<(), GenError>(GenError::NoOpenContext) && final(self)@ == old(
                self,
            )@,
    {
        proof {
            reveal(CompilerView::step);
        }
        let ghost views = contexts_view(self.contexts@);
        match self.contexts.pop() {
            None => Err(GenError::NoOpenContext),
            Some(context) => {
                assert(contexts_view(self.contexts@) =~= views.drop_last());
                assert(views.last() == context@);
                match context {
                    Context::Function(_) => {
                        self.write_line(false, "}");
                    },
                    Context::Match(m) => {
                        if m.arms.len() == 0 {
                            self.write_line(false, m.closer());
                        } else if m.arms.len() == 1 {
                            self.write_line(true, "}");
                            self.write_line(false, m.closer());
                        } else {
                            self.write_line(true, "}");
                            let mut arm = m.arms[1].clone();
                            arm.append(" => {");
                            self.write_line(true, arm.as_str());
                            let mut m = m;
                            let ghost before = m@;
                            m.arms.remove(0);
                            assert(m@.arms =~= before.arms.drop_first());
                            self.contexts.push(Context::Match(m));
                            assert(contexts_view(self.contexts@) =~= views.drop_last().push(
                                ContextView::Match(
                                    MatchView {
                                        scrutinee: before.scrutinee,
                                        arms: before.arms.drop_first(),
                                        def: before.def,
                                    },
                                ),
                            ));
                        }
                    },
                }
                Ok(())
            },
        }
    }

    fn let_line(is_mut: bool, ty: &Option<String>, left: &str, right: &str, is_unsafe: bool) -> (res:
        String)
        ensures
            res@ == (Statement::Let {
                is_mut,
                ty: opt_view(*ty),
                left: left@,
                right: right@,
                is_unsafe,
            }).text(),
    {
        let mut out = "let ".to_owned();
        if is_mut {
            out.append("mut ");
        }
        out.append(left);
        match ty {
            Some(ty) => {
                out.append(": ");
                out.append(ty.as_str());
            },
            None => {},
        }
        out.append(" = ");
        if is_unsafe {
            out.append("unsafe { ");
            out.append(right);
            out.append(" }");
        } else {
            out.append(right);
        }
        out.append(";");
        assert(out@ =~= (Statement::Let {
            is_mut,
            ty: opt_view(*ty),
            left: left@,
            right: right@,
            is_unsafe,
        }).text());
        out
    }

    /// Writes `let left = right;`, with `mut` and a type where asked.
    pub fn add_def_with_let(&mut self, is_mut: bool, ty: Option<String>, left: &str, right: &str)
        ensures
            final(self)@ == old(self)@.step(
                Statement::Let {
                    is_mut,
                    ty: opt_view(ty),
                    left: left@,
                    right: right@,
                    is_unsafe: false,
                },
            ),
            final(self)@.contexts == old(self)@.contexts,
    {
        proof {
            reveal(CompilerView::step);
        }
        let line = Self::let_line(is_mut, &ty, left, right, false);
        self.write_line(false, line.as_str());
    }

    /// Writes `let left = unsafe { right };`, with `mut` and a type where
    /// asked.
    pub fn add_unsafe_def_with_let(
        &mut self,
        is_mut: bool,
        ty: Option<String>,
        left: &str,
        right: &str,
    )
        ensures
            final(self)@ == old(self)@.step(
                Statement::Let {
                    is_mut,
                    ty: opt_view(ty),
                    left: left@,
                    right: right@,
                    is_unsafe: true,
                },
            ),
            final(self)@.contexts == old(self)@.contexts,
    {
        proof {
            reveal(CompilerView::step);
        }
        let line = Self::let_line(is_mut, &ty, left, right, true);
        self.write_line(false, line.as_str());
    }

    /// Writes `unsafe { *target = value; }`.
    pub fn add_unsafe_set(&mut self, target: &str, value: &str)
        ensures
            final(self)@ == old(self)@.step(Statement::Assign { target: target@, value: value@ }),
            final(self)@.contexts == old(self)@.contexts,
    {
        proof {
            reveal(CompilerView::step);
        }
        let mut line = "unsafe { *".to_owned();
        line.append(target);
        line.append(" = ");
        line.append(value);
        line.append("; }");
        self.write_line(false, line.as_str());
    }

    /// Writes `value` as the value of the block, or `return value;`.
    pub fn add_return_val(&mut self, value: &str, with_return: bool)
        ensures
            final(self)@ == old(self)@.step(Statement::Value { value: value@, with_return }),
            final(self)@.contexts == old(self)@.contexts,
    {
        proof {
            reveal(CompilerView::step);
        }
        if with_return {
            let mut line = "return ".to_owned();
            line.append(value);
            line.append(";");
            self.write_line(false, line.as_str());
        } else {
            self.write_line(false, value);
        }
    }

    fn call_line(
        left: &Option<String>,
        ty: &Option<String>,
        caller: &Option<String>,
        func: &str,
        args: &Vec<String>,
    ) -> (res: String)
        ensures
            res@ == (Statement::Call {
                left: opt_view(*left),
                ty: opt_view(*ty),
                caller: opt_view(*caller),
                func: func@,
                args: strs(args@),
            }).text(),
    {
        let mut out = String::new();
        match left {
            Some(left) => {
                out.append("let ");
                out.append(left.as_str());
                match ty {
                    Some(ty) => {
                        out.append(": ");
                        out.append(ty.as_str());
                    },
                    None => {},
                }
                out.append(" = ");
            },
            None => {},
        }
        match caller {
            Some(caller) => {
                out.append(caller.as_str());
                out.append(".");
            },
            None => {},
        }
        out.append(func);
        out.append("(");
        let joined = join_strings(args, ", ");
        out.append(joined.as_str());
        out.append(");");
        assert(out@ =~= (Statement::Call {
            left: opt_view(*left),
            ty: opt_view(*ty),
            caller: opt_view(*caller),
            func: func@,
            args: strs(args@),
        }).text());
        out
    }

    /// Writes the call `caller.func(args);`, or `func(args);` without a
    /// caller.
    pub fn add_func_call(&mut self, caller: Option<String>, func: &str, args: Vec<String>)
        ensures
            final(self)@ == old(self)@.step(
                Statement::Call {
                    left: None,
                    ty: None,
                    caller: opt_view(caller),
                    func: func@,
                    args: strs(args@),
                },
            ),
            final(self)@.contexts == old(self)@.contexts,
    {
        proof {
            reveal(CompilerView::step);
        }
        let line = Self::call_line(&None, &None, &caller, func, &args);
        self.write_line(false, line.as_str());
    }

    /// Writes the call and binds its result: `let left: ty = caller.func(args);`.
    pub fn add_func_call_with_let(
        &mut self,
        left: &str,
        ty: Option<String>,
        caller: Option<String>,
        func: &str,
        args: Vec<String>,
    )
        ensures
            final(self)@ == old(self)@.step(
                Statement::Call {
                    left: Some(left@),
                    ty: opt_view(ty),
                    caller: opt_view(caller),
                    func: func@,
                    args: strs(args@),
                },
            ),
            final(self)@.contexts == old(self)@.contexts,
    {
        proof {
            reveal(CompilerView::step);
        }
        let line = Self::call_line(&Some(left.to_owned()), &ty, &caller, func, &args);
        self.write_line(false, line.as_str());
    }
}

} // verus!
