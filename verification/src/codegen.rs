use crate::ast::{expr_debug, Expr, ExprModel, Function, FunctionModel, Program, ProgramModel};
use crate::backend::{
    add_function, append_basic_block, build_return, builder_error_text, const_int, create_builder,
    constant_bits, create_module, function_count, i32_type, is_c_text, is_positioned, module_name,
    nullary_fn_type, position_at_end,
};
use crate::text::{child_path, decimal, decimal_string, join_path, same_text};
use inkwell::builder::Builder;
use inkwell::context::Context;
use inkwell::module::Module;
use inkwell::values::{FunctionValue, IntValue};
use vstd::prelude::*;

verus! {

/// Why no code could be generated, or why the generated module could not be
/// written out.
#[derive(Debug, Clone, PartialEq)]
pub enum CodegenError {
    /// A function declares a return type other than `u32` and `i32`; the type
    /// as it is spelled.
    UnsupportedReturnType(String),
    /// The body of a function is not exactly one statement; the number of
    /// its statements.
    UnsupportedBody(usize),
    /// A statement is no `return`; the statement, as a diagnostic shows it.
    UnsupportedStatement(String),
    /// A `return` names a variable; there are none.
    UnknownIdentifier(String),
    /// A `return` returns a `return`.
    NestedReturn,
    /// The backend refused the return instruction, for the reason given.
    BuildReturn(String),
    /// The backend for this machine could not be set up.
    TargetInit(String),
    /// The textual form of the module could not be written.
    WriteIr(String),
    /// No target is known under this machine's triple.
    TargetLookup(String),
    /// No target machine could be made for this machine.
    TargetMachine,
    /// The object file could not be written.
    WriteObject(String),
}

/// The mathematical value of a [`CodegenError`].
pub enum CodegenErrorModel {
    UnsupportedReturnType(Seq<char>),
    UnsupportedBody(nat),
    UnsupportedStatement(Seq<char>),
    UnknownIdentifier(Seq<char>),
    NestedReturn,
    BuildReturn(Seq<char>),
    TargetInit(Seq<char>),
    WriteIr(Seq<char>),
    TargetLookup(Seq<char>),
    TargetMachine,
    WriteObject(Seq<char>),
}

impl View for CodegenError {
    type V = CodegenErrorModel;

    open spec fn view(&self) -> CodegenErrorModel {
        match self {
            CodegenError::UnsupportedReturnType(s) => CodegenErrorModel::UnsupportedReturnType(s@),
            CodegenError::UnsupportedBody(n) => CodegenErrorModel::UnsupportedBody(*n as nat),
            CodegenError::UnsupportedStatement(s) => CodegenErrorModel::UnsupportedStatement(s@),
            CodegenError::UnknownIdentifier(s) => CodegenErrorModel::UnknownIdentifier(s@),
            CodegenError::NestedReturn => CodegenErrorModel::NestedReturn,
            CodegenError::BuildReturn(s) => CodegenErrorModel::BuildReturn(s@),
            CodegenError::TargetInit(s) => CodegenErrorModel::TargetInit(s@),
            CodegenError::WriteIr(s) => CodegenErrorModel::WriteIr(s@),
            CodegenError::TargetLookup(s) => CodegenErrorModel::TargetLookup(s@),
            CodegenError::TargetMachine => CodegenErrorModel::TargetMachine,
            CodegenError::WriteObject(s) => CodegenErrorModel::WriteObject(s@),
        }
    }
}

/// How the text of an error about the shape of a function body begins.
pub open spec fn unsupported_body_prefix() -> Seq<char> {
    "Unsupported function body in MVP: expected one return statement, found "@
}

/// The text of a code generation error.
pub open spec fn codegen_error_text(e: CodegenErrorModel) -> Seq<char> {
    match e {
        CodegenErrorModel::UnsupportedReturnType(ty) => "Unsupported return type for MVP: "@ + ty,
        CodegenErrorModel::UnsupportedBody(n) => unsupported_body_prefix() + decimal(n),
        CodegenErrorModel::UnsupportedStatement(s) => "Unsupported statement in MVP: "@ + s,
        CodegenErrorModel::UnknownIdentifier(name) => "MVP: unknown identifier '"@ + name
            + "' (no vars yet)"@,
        CodegenErrorModel::NestedReturn => "MVP: nested return not allowed"@,
        CodegenErrorModel::BuildReturn(why) => "build_return failed: "@ + why,
        CodegenErrorModel::TargetInit(why) => "initialize_native failed: "@ + why,
        CodegenErrorModel::WriteIr(why) => "print_to_file(.ll) failed: "@ + why,
        CodegenErrorModel::TargetLookup(why) => "Target::from_triple failed: "@ + why,
        CodegenErrorModel::TargetMachine => "create_target_machine returned None"@,
        CodegenErrorModel::WriteObject(why) => "write_to_file(.o) failed: "@ + why,
    }
}

impl CodegenError {
    /// The text of this error.
    pub fn message(&self) -> (r: String)
        ensures
            r@ == codegen_error_text(self@),
    {
        match self {
            CodegenError::UnsupportedReturnType(ty) => String::from_str(
                "Unsupported return type for MVP: ",
            ).concat(ty.as_str()),
            CodegenError::UnsupportedBody(n) => {
                let count = decimal_string(*n as u64);
                String::from_str(
                    "Unsupported function body in MVP: expected one return statement, found ",
                ).concat(count.as_str())
            },
            CodegenError::UnsupportedStatement(s) => String::from_str(
                "Unsupported statement in MVP: ",
            ).concat(s.as_str()),
            CodegenError::UnknownIdentifier(name) => String::from_str(
                "MVP: unknown identifier '",
            ).concat(name.as_str()).concat("' (no vars yet)"),
            CodegenError::NestedReturn => String::from_str("MVP: nested return not allowed"),
            CodegenError::BuildReturn(why) => String::from_str("build_return failed: ").concat(
                why.as_str(),
            ),
            CodegenError::TargetInit(why) => String::from_str("initialize_native failed: ").concat(
                why.as_str(),
            ),
            CodegenError::WriteIr(why) => String::from_str("print_to_file(.ll) failed: ").concat(
                why.as_str(),
            ),
            CodegenError::TargetLookup(why) => String::from_str(
                "Target::from_triple failed: ",
            ).concat(why.as_str()),
            CodegenError::TargetMachine => String::from_str("create_target_machine returned None"),
            CodegenError::WriteObject(why) => String::from_str("write_to_file(.o) failed: ").concat(
                why.as_str(),
            ),
        }
    }
}

/// The constant that an operand of `return` stands for, or why it stands for
/// none.
pub open spec fn operand_constant(e: ExprModel) -> Result<i64, CodegenErrorModel> {
    match e {
        ExprModel::Int(v) => Ok(v),
        ExprModel::Ident(name) => Err(CodegenErrorModel::UnknownIdentifier(name)),
        ExprModel::Return(_) => Err(CodegenErrorModel::NestedReturn),
    }
}

/// The low 32 bits of `v`, read as a number without sign: what a constant of
/// the 32-bit integer type holds of it.
pub open spec fn low_bits(v: i64) -> nat {
    (v as int % 0x1_0000_0000) as nat
}

/// Whether the function `f` gets declared in the module: its return type is
/// one that code generation knows.
pub open spec fn declares(f: FunctionModel) -> bool {
    f.return_type == "u32"@ || f.return_type == "i32"@
}

/// The constant that the function `f` returns, or why no code is generated
/// for it. The return type is looked at first: `u32` and `i32` are accepted,
/// both as the 32-bit integer type. The body is then exactly one statement, a
/// `return` of an integer literal.
pub open spec fn function_constant(f: FunctionModel) -> Result<i64, CodegenErrorModel> {
    if !declares(f) {
        Err(CodegenErrorModel::UnsupportedReturnType(f.return_type))
    } else if f.body.len() != 1 {
        Err(CodegenErrorModel::UnsupportedBody(f.body.len()))
    } else {
        match f.body[0] {
            ExprModel::Return(inner) => operand_constant(*inner),
            other => Err(CodegenErrorModel::UnsupportedStatement(expr_debug(other))),
        }
    }
}

/// The error of the first function from index `i` on for which no code is
/// generated.
pub open spec fn first_codegen_error(functions: Seq<FunctionModel>, i: int) -> Option<
    CodegenErrorModel,
>
    decreases functions.len() - i,
{
    if i < 0 || i >= functions.len() {
        None
    } else {
        match function_constant(functions[i]) {
            Err(e) => Some(e),
            Ok(_) => first_codegen_error(functions, i + 1),
        }
    }
}

/// The error that code generation ends with on this program, if it does.
pub open spec fn codegen_outcome(program: ProgramModel) -> Option<CodegenErrorModel> {
    first_codegen_error(program.functions, 0)
}

/// A native module under construction: the functions of a program are added
/// to it one by one.
pub struct CodeGen<'ctx> {
    context: &'ctx Context,
    module: Module<'ctx>,
    builder: Builder<'ctx>,
}

impl<'ctx> CodeGen<'ctx> {
    /// The context that the module belongs to.
    pub closed spec fn context(&self) -> &Context {
        self.context
    }

    /// The name of the module.
    pub closed spec fn name(&self) -> Seq<char> {
        module_name(&self.module)
    }

    /// The number of functions that the module holds so far.
    pub closed spec fn declared(&self) -> nat {
        function_count(&self.module)
    }

    /// Whether the place is set at which the next instruction goes in.
    pub closed spec fn positioned(&self) -> bool {
        is_positioned(&self.builder)
    }

    /// A module in `context` that holds no function yet and bears the name
    /// `module_name`, up to the first NUL character where the name has one.
    /// No place is set yet for instructions to go in.
    pub fn new(context: &'ctx Context, module_name: &str) -> (r: Self)
        ensures
            r.context() == context,
            is_c_text(module_name@, r.name()),
            r.declared() == 0,
            !r.positioned(),
    {
        let module = create_module(context, module_name);
        let builder = create_builder(context);
        Self { context, module, builder }
    }

    /// Generates every function of `program`, in order, and hands over the
    /// module: it bears the name that it was made with and holds one function
    /// more for each function of the program. The first function for which
    /// no code can be generated ends it: there is then no module, only that
    /// function's error.
    pub fn compile_program(self, program: &Program) -> (r: Result<Module<'ctx>, CodegenError>)
        ensures
            match codegen_outcome(program@) {
                None => r is Ok && module_name(&r->Ok_0) == self.name() && function_count(
                    &r->Ok_0,
                ) == self.declared() + program@.functions.len(),
                Some(e) => r is Err && r->Err_0@ == e,
            },
    {
        let mut this = self;
        let mut i: usize = 0;
        while i < program.functions.len()
            invariant
                i <= program.functions.len(),
                codegen_outcome(program@) == first_codegen_error(program@.functions, i as int),
                this.name() == self.name(),
                this.declared() == self.declared() + i,
            decreases program.functions.len() - i,
        {
            match this.compile_function(&program.functions[i]) {
                Err(e) => {
                    return Err(e);
                },
                Ok(_) => {},
            }
            i = i + 1;
        }
        Ok(this.module)
    }

    /// Declares the function `f` in the module, without parameters and with
    /// the 32-bit integer type as its return type, and gives it one block
    /// that returns the function's constant. A function whose return type is
    /// not known is not declared; one whose body is refused stays declared.
    pub fn compile_function(&mut self, f: &Function) -> (r: Result<
        FunctionValue<'ctx>,
        CodegenError,
    >)
        ensures
            match function_constant(f@) {
                Ok(_) => r is Ok,
                Err(e) => r is Err && r->Err_0@ == e,
            },
            final(self).context() == old(self).context(),
            final(self).name() == old(self).name(),
            final(self).declared() == old(self).declared() + (if declares(f@) {
                1nat
            } else {
                0nat
            }),
            final(self).positioned() == (declares(f@) || old(self).positioned()),
    {
        if !(same_text(f.return_type.as_str(), "u32") || same_text(f.return_type.as_str(), "i32")) {
            return Err(CodegenError::UnsupportedReturnType(f.return_type.clone()));
        }
        let ret_ty = i32_type(self.context);
        let fn_ty = nullary_fn_type(ret_ty);
        let fn_val = add_function(&mut self.module, f.name.as_str(), fn_ty);
        let entry = append_basic_block(self.context, fn_val, "entry");
        position_at_end(&mut self.builder, entry);
        if f.body.len() != 1 {
            return Err(CodegenError::UnsupportedBody(f.body.len()));
        }
        match &f.body[0] {
            Expr::Return(inner) => {
                let value = match self.codegen_expr(inner) {
                    Err(e) => {
                        return Err(e);
                    },
                    Ok(value) => value,
                };
                match build_return(&mut self.builder, &value) {
                    Err(e) => {
                        return Err(CodegenError::BuildReturn(builder_error_text(&e)));
                    },
                    Ok(_) => {},
                }
            },
            other => {
                return Err(CodegenError::UnsupportedStatement(other.debug_string()));
            },
        }
        Ok(fn_val)
    }

    /// The constant that the operand `e` of a `return` stands for: that of an
    /// integer literal, in the 32-bit integer type. It holds the low 32 bits
    /// of the literal.
    pub fn codegen_expr(&self, e: &Expr) -> (r: Result<IntValue<'ctx>, CodegenError>)
        ensures
            match operand_constant(e@) {
                Ok(v) => r is Ok && constant_bits(&r->Ok_0) == low_bits(v),
                Err(e) => r is Err && r->Err_0@ == e,
            },
    {
        let i32t = i32_type(self.context);
        match e {
            Expr::Int(v) => {
                let bits: u64 = if *v >= 0 {
                    *v as u64
                } else {
                    ((*v + 1 + i64::MAX) as u64) + 0x8000_0000_0000_0000
                };
                assert(bits == if *v >= 0 {
                    *v as int
                } else {
                    *v + 0x1_0000_0000_0000_0000
                });
                Ok(const_int(i32t, bits))
            },
            Expr::Ident(name) => Err(CodegenError::UnknownIdentifier(name.clone())),
            Expr::Return(_) => Err(CodegenError::NestedReturn),
        }
    }
}

/// Where the object file and the textual form of the module go by default:
/// `out.o` and `out.ll` in the directory `out_dir`.
pub fn default_output_paths(out_dir: &str) -> (r: (String, String))
    ensures
        r.0@ == child_path(out_dir@, "out.o"@),
        r.1@ == child_path(out_dir@, "out.ll"@),
{
    let obj = join_path(out_dir, "out.o");
    let ll = join_path(out_dir, "out.ll");
    (obj, ll)
}

} // verus!
