//! A generator of C-callable wrappers around native methods and functions.
//!
//! A `CDylibCompiler` collects the wrappers and the dependencies of one
//! generated package; the texts of its source file, manifest and build
//! script are what it hands out.

pub mod codegen;
pub mod compiler;
pub mod error;
pub mod laws;
pub mod syntax;
pub mod text;
pub mod types;
pub mod wrapper;

use crate::codegen::{
    build_script_statements, c_package_name, gen_build_rs, gen_cargo_toml, manifest_statements,
};
use crate::compiler::{CompilerView, SerializationCompiler, Statement};
use crate::error::GenError;
use crate::text::{join, join_strings, replace, replaced, strs};
use crate::types::{SelfType, Type};
use crate::wrapper::{descriptor, problem_of, raw_args_view, ret_view, FunctionDescriptor};
use vstd::prelude::*;
use vstd::string::*;

verus! {

/// The generator of one package.
pub struct CDylibCompiler {
    /// The source file of the package, as far as it is written.
    pub inner: SerializationCompiler,
    /// The name of the wrapped package, with underscores.
    pub package_name: String,
    /// The name of the generated package.
    pub package_name_c: String,
    /// The folder under which the generated package is written.
    pub output_folder: String,
    /// The dependency lines of the manifest, in the order of declaration.
    pub crates: Vec<String>,
}

/// The manifest line of a dependency with a version.
pub open spec fn version_line(crate_name: Seq<char>, version: Seq<char>) -> Seq<char> {
    crate_name + " = \""@ + version + "\""@
}

/// The entries `key = value` of a dependency table.
pub open spec fn table_entries(kv: Seq<(&str, &str)>) -> Seq<Seq<char>> {
    Seq::new(kv.len(), |i: int| kv[i].0@ + " = "@ + kv[i].1@)
}

/// The manifest line of a dependency with a table of keys.
pub open spec fn table_line(crate_name: Seq<char>, kv: Seq<(&str, &str)>) -> Seq<char> {
    crate_name + " = { "@ + join(table_entries(kv), ","@) + " }"@
}

/// The name of the wrapper of `func_call` on the struct `struct_name`.
pub open spec fn default_extern_name(struct_name: Seq<char>, func_call: Seq<char>) -> Seq<char> {
    struct_name + "_"@ + func_call
}

impl CDylibCompiler {
    /// The dependency lines declared so far, in order.
    pub open spec fn dependencies(&self) -> Seq<Seq<char>> {
        strs(self.crates@)
    }

    /// A generator for the package `package_name`, to be written under
    /// `output_folder`. Hyphens in the name become underscores.
    pub fn new(package_name: &str, output_folder: &str) -> (res: CDylibCompiler)
        ensures
            res.inner@ == CompilerView::empty(),
            res.package_name@ == replaced(package_name@, '-', "_"@),
            res.package_name_c@ == c_package_name(res.package_name@),
            res.output_folder@ == output_folder@,
            res.dependencies() == Seq::<Seq<char>>::empty(),
    {
        let name = replace(package_name, '-', "_");
        let mut name_c = replace(name.as_str(), '_', "-");
        name_c.append("-c");
        let res = CDylibCompiler {
            inner: SerializationCompiler::new(),
            package_name: name,
            package_name_c: name_c,
            output_folder: output_folder.to_owned(),
            crates: Vec::new(),
        };
        assert(res.dependencies() =~= Seq::<Seq<char>>::empty());
        res
    }

    /// Declares a dependency on a version of a crate.
    pub fn add_dependency_version(&mut self, crate_name: &str, version: &str)
        ensures
            final(self).dependencies() == old(self).dependencies().push(
                version_line(crate_name@, version@),
            ),
            final(self).inner == old(self).inner,
            final(self).package_name == old(self).package_name,
            final(self).package_name_c == old(self).package_name_c,
            final(self).output_folder == old(self).output_folder,
    {
        let mut line = crate_name.to_owned();
        line.append(" = \"");
        line.append(version);
        line.append("\"");
        self.crates.push(line);
        assert(self.dependencies() =~= old(self).dependencies().push(
            version_line(crate_name@, version@),
        ));
    }

    /// Declares a dependency by a table of keys, such as where its source
    /// lies. Without any key nothing is declared.
    pub fn add_dependency(&mut self, crate_name: &str, kv: Vec<(&str, &str)>) -> (res: Result<
        (),
        GenError,
    >)
        ensures
            kv@.len() == 0 ==> res == Err::<(), GenError>(GenError::NoDependencyKeys)
                && final(self).dependencies() == old(self).dependencies(),
            kv@.len() > 0 ==> res is Ok && final(self).dependencies() == old(
                self,
            ).dependencies().push(table_line(crate_name@, kv@)),
            final(self).inner == old(self).inner,
            final(self).package_name == old(self).package_name,
            final(self).package_name_c == old(self).package_name_c,
            final(self).output_folder == old(self).output_folder,
    {
        if kv.len() == 0 {
            return Err(GenError::NoDependencyKeys);
        }
        let mut entries: Vec<String> = Vec::new();
        let mut i: usize = 0;
        while i < kv.len()
            invariant
                i <= kv.len(),
                entries@.len() == i,
                forall|j: int|
                    0 <= j < i ==> (#[trigger] entries@[j])@ == kv@[j].0@ + " = "@ + kv@[j].1@,
            decreases kv.len() - i,
        {
            let mut entry = kv[i].0.to_owned();
            entry.append(" = ");
            entry.append(kv[i].1);
            entries.push(entry);
            i = i + 1;
        }
        assert(strs(entries@) =~= table_entries(kv@));
        let mut line = crate_name.to_owned();
        line.append(" = { ");
        line.append(join_strings(&entries, ",").as_str());
        line.append(" }");
        self.crates.push(line);
        assert(self.dependencies() =~= old(self).dependencies().push(
            table_line(crate_name@, kv@),
        ));
        Ok(())
    }

    /// Writes `use dependency;` into the source file.
    pub fn import(&mut self, dependency: &str)
        ensures
            final(self).inner@ == old(self).inner@.step(Statement::use_line(dependency@)),
            final(self).dependencies() == old(self).dependencies(),
            final(self).package_name == old(self).package_name,
            final(self).package_name_c == old(self).package_name_c,
            final(self).output_folder == old(self).output_folder,
    {
        self.inner.add_dependency(dependency);
    }

    /// Writes the wrapper of a method or associated function of a struct,
    /// under the name of the struct, an underscore and the function's name.
    /// Fails, and writes nothing, where the owner is not a struct or the
    /// function has no wrapper.
    pub fn add_extern_c_function(
        &mut self,
        struct_ty: Type,
        self_ty: SelfType,
        func_call: &str,
        raw_args: Vec<(&str, Type)>,
        raw_ret: Option<Type>,
        use_error_code: bool,
    ) -> (res: Result<(), GenError>)
        ensures
            match (if struct_ty@ is Struct {
                problem_of(
                    Some((struct_ty@, self_ty)),
                    raw_args_view(raw_args@),
                    ret_view(raw_ret),
                    use_error_code,
                )
            } else {
                Some(GenError::OwnerNotStruct)
            }) {
                Some(error) => res == Err::<(), GenError>(error) && final(self).inner@ == old(
                    self,
                ).inner@,
                None => res is Ok && final(self).inner@ == old(self).inner@.run(
                    (FunctionDescriptor {
                        extern_name: default_extern_name(struct_ty@->Struct_name, func_call@),
                        owner: Some((struct_ty@, self_ty)),
                        func_name: func_call@,
                        args: raw_args_view(raw_args@),
                        ret: ret_view(raw_ret),
                        use_error_code,
                    }).statements(),
                ),
            },
            final(self).inner@.contexts == old(self).inner@.contexts,
            final(self).dependencies() == old(self).dependencies(),
            final(self).package_name == old(self).package_name,
            final(self).package_name_c == old(self).package_name_c,
            final(self).output_folder == old(self).output_folder,
    {
        let extern_name = match &struct_ty {
            Type::Struct { name, .. } => {
                let mut full = name.clone();
                full.append("_");
                full.append(func_call);
                full
            },
            _ => {
                return Err(GenError::OwnerNotStruct);
            },
        };
        codegen::add_extern_c_function(
            &mut self.inner,
            extern_name.as_str(),
            Some((struct_ty, self_ty)),
            func_call,
            raw_args,
            raw_ret,
            use_error_code,
        )
    }

    /// Like `add_extern_c_function`, under the name `extern_name`.
    pub fn add_extern_c_function_with_name(
        &mut self,
        extern_name: &str,
        struct_ty: Type,
        self_ty: SelfType,
        func_call: &str,
        raw_args: Vec<(&str, Type)>,
        raw_ret: Option<Type>,
        use_error_code: bool,
    ) -> (res: Result<(), GenError>)
        ensures
            match (if struct_ty@ is Struct {
                problem_of(
                    Some((struct_ty@, self_ty)),
                    raw_args_view(raw_args@),
                    ret_view(raw_ret),
                    use_error_code,
                )
            } else {
                Some(GenError::OwnerNotStruct)
            }) {
                Some(error) => res == Err::<(), GenError>(error) && final(self).inner@ == old(
                    self,
                ).inner@,
                None => res is Ok && final(self).inner@ == old(self).inner@.run(
                    (FunctionDescriptor {
                        extern_name: extern_name@,
                        owner: Some((struct_ty@, self_ty)),
                        func_name: func_call@,
                        args: raw_args_view(raw_args@),
                        ret: ret_view(raw_ret),
                        use_error_code,
                    }).statements(),
                ),
            },
            final(self).inner@.contexts == old(self).inner@.contexts,
            final(self).dependencies() == old(self).dependencies(),
            final(self).package_name == old(self).package_name,
            final(self).package_name_c == old(self).package_name_c,
            final(self).output_folder == old(self).output_folder,
    {
        if !struct_ty.is_struct() {
            return Err(GenError::OwnerNotStruct);
        }
        codegen::add_extern_c_function(
            &mut self.inner,
            extern_name,
            Some((struct_ty, self_ty)),
            func_call,
            raw_args,
            raw_ret,
            use_error_code,
        )
    }

    /// Writes the wrapper of a function that belongs to no struct.
    pub fn add_extern_c_function_standalone(
        &mut self,
        extern_name: &str,
        func_call: &str,
        raw_args: Vec<(&str, Type)>,
        raw_ret: Option<Type>,
        use_error_code: bool,
    ) -> (res: Result<(), GenError>)
        ensures
            match problem_of(None, raw_args_view(raw_args@), ret_view(raw_ret), use_error_code) {
                Some(error) => res == Err::<(), GenError>(error) && final(self).inner@ == old(
                    self,
                ).inner@,
                None => res is Ok && final(self).inner@ == old(self).inner@.run(
                    descriptor(
                        extern_name,
                        None,
                        func_call,
                        raw_args@,
                        raw_ret,
                        use_error_code,
                    ).statements(),
                ),
            },
            final(self).inner@.contexts == old(self).inner@.contexts,
            final(self).dependencies() == old(self).dependencies(),
            final(self).package_name == old(self).package_name,
            final(self).package_name_c == old(self).package_name_c,
            final(self).output_folder == old(self).output_folder,
    {
        codegen::add_extern_c_function(
            &mut self.inner,
            extern_name,
            None,
            func_call,
            raw_args,
            raw_ret,
            use_error_code,
        )
    }

    /// The text of the source file, as far as it is written.
    pub fn source(&self) -> (res: String)
        ensures
            res@ == self.inner@.text,
    {
        self.inner.output()
    }

    /// The text of the manifest, with the dependencies declared so far.
    pub fn manifest(&self) -> (res: String)
        ensures
            res@ == CompilerView::empty().run(
                manifest_statements(self.package_name@, self.dependencies()),
            ).text,
    {
        gen_cargo_toml(self.package_name.as_str(), &self.crates)
    }

    /// The text of the build script.
    pub fn build_script(&self) -> (res: String)
        ensures
            res@ == CompilerView::empty().run(build_script_statements(self.package_name@)).text,
    {
        gen_build_rs(self.package_name.as_str())
    }
}

} // verus!
