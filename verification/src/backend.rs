use inkwell::basic_block::BasicBlock;
use inkwell::builder::{Builder, BuilderError};
use inkwell::context::Context;
use inkwell::module::Module;
use inkwell::types::{FunctionType, IntType};
use inkwell::values::{FunctionValue, IntValue};
use vstd::prelude::*;

verus! {

/// `inkwell::context::Context`: the owner of everything that a module is made
/// of. Nothing is known of what it holds.
#[verifier::external_type_specification]
#[verifier::external_body]
pub struct ExContext(Context);

/// `inkwell::module::Module`: a native module. Nothing is known of what it
/// holds.
#[verifier::external_type_specification]
#[verifier::external_body]
pub struct ExModule<'ctx>(Module<'ctx>);

/// `inkwell::builder::Builder`: what inserts instructions. Of what it holds
/// only `is_positioned` is spoken of.
#[verifier::external_type_specification]
#[verifier::external_body]
pub struct ExBuilder<'ctx>(Builder<'ctx>);

/// `inkwell::builder::BuilderError`: why a builder refused an instruction.
#[verifier::external_type_specification]
#[verifier::external_body]
pub struct ExBuilderError(BuilderError);

/// `inkwell::types::IntType`: an integer type. Of what it holds only
/// `bit_width` is spoken of.
#[verifier::external_type_specification]
#[verifier::external_body]
pub struct ExIntType<'ctx>(IntType<'ctx>);

/// `inkwell::types::FunctionType`: the type of a function.
#[verifier::external_type_specification]
#[verifier::external_body]
pub struct ExFunctionType<'ctx>(FunctionType<'ctx>);

/// `inkwell::values::FunctionValue`: a function of a module.
#[verifier::external_type_specification]
#[verifier::external_body]
pub struct ExFunctionValue<'ctx>(FunctionValue<'ctx>);

/// `inkwell::values::IntValue`: an integer value. Of what it holds only
/// `constant_bits` is spoken of.
#[verifier::external_type_specification]
#[verifier::external_body]
pub struct ExIntValue<'ctx>(IntValue<'ctx>);

/// `inkwell::basic_block::BasicBlock`: a block of a function.
#[verifier::external_type_specification]
#[verifier::external_body]
pub struct ExBasicBlock<'ctx>(BasicBlock<'ctx>);

/// The name that a module bears.
pub uninterp spec fn module_name(module: &Module) -> Seq<char>;

/// The number of functions that a module holds.
pub uninterp spec fn function_count(module: &Module) -> nat;

/// `text` is `name` as a C string holds it: `name` up to its first NUL
/// character, and all of `name` where it has none.
pub open spec fn is_c_text(name: Seq<char>, text: Seq<char>) -> bool {
    &&& text.len() <= name.len()
    &&& forall|i: int| 0 <= i < text.len() ==> text[i] == name[i] && text[i] != '\0'
    &&& (text.len() < name.len() ==> name[text.len() as int] == '\0')
}

/// Whether a builder has been given a place to insert at. Until then every
/// `build_*` method of it fails.
pub uninterp spec fn is_positioned(builder: &Builder) -> bool;

/// `Context::create_module`: a new module without functions. It bears the
/// name `name`, which is handed on as a C string.
#[verifier::external_body]
pub(crate) fn create_module<'ctx>(context: &'ctx Context, name: &str) -> (module: Module<'ctx>)
    ensures
        is_c_text(name@, module_name(&module)),
        function_count(&module) == 0,
{
    context.create_module(name)
}

/// `Context::create_builder`: a new builder, which has no place to insert at
/// yet.
#[verifier::external_body]
pub(crate) fn create_builder<'ctx>(context: &'ctx Context) -> (builder: Builder<'ctx>)
    ensures
        !is_positioned(&builder),
{
    context.create_builder()
}

/// The number of bits of the integers of a type.
pub uninterp spec fn bit_width(ty: &IntType) -> nat;

/// The bits of an integer constant, read as a number without sign.
pub uninterp spec fn constant_bits(value: &IntValue) -> nat;

/// `Context::i32_type`: the type of 32-bit integers.
#[verifier::external_body]
pub(crate) fn i32_type<'ctx>(context: &'ctx Context) -> (ty: IntType<'ctx>)
    ensures
        bit_width(&ty) == 32,
{
    context.i32_type()
}

/// `IntType::fn_type` without parameter types: the type of the functions that
/// take nothing and return an integer of type `ret`.
#[verifier::external_body]
pub(crate) fn nullary_fn_type<'ctx>(ret: IntType<'ctx>) -> FunctionType<'ctx> {
    ret.fn_type(&[], false)
}

/// `Module::add_function` with the default linkage: declares a function of
/// that name and type in the module, which then holds one function more and
/// bears the name that it bore.
#[verifier::external_body]
pub(crate) fn add_function<'ctx>(
    module: &mut Module<'ctx>,
    name: &str,
    ty: FunctionType<'ctx>,
) -> (function: FunctionValue<'ctx>)
    ensures
        function_count(final(module)) == function_count(old(module)) + 1,
        module_name(final(module)) == module_name(old(module)),
{
    module.add_function(name, ty, None)
}

/// `Context::append_basic_block`: a new block of that name at the end of the
/// function.
#[verifier::external_body]
pub(crate) fn append_basic_block<'ctx>(
    context: &'ctx Context,
    function: FunctionValue<'ctx>,
    name: &str,
) -> BasicBlock<'ctx> {
    context.append_basic_block(function, name)
}

/// `Builder::position_at_end`: from now on the builder inserts at the end of
/// `block`, so it has a place to insert at.
#[verifier::external_body]
pub(crate) fn position_at_end<'ctx>(builder: &mut Builder<'ctx>, block: BasicBlock<'ctx>)
    ensures
        is_positioned(final(builder)),
{
    builder.position_at_end(block)
}

/// `IntType::const_int` with sign extension, on a type of fewer than 64 bits:
/// the constant of type `ty` whose bits are the low bits of `value`, as many
/// as the type has.
#[verifier::external_body]
pub(crate) fn const_int<'ctx>(ty: IntType<'ctx>, value: u64) -> (r: IntValue<'ctx>)
    requires
        bit_width(&ty) == 32,
    ensures
        constant_bits(&r) == value % 0x1_0000_0000,
{
    ty.const_int(value, true)
}

/// `Builder::build_return` with a value: inserts the instruction that
/// returns `value`. It fails only where the builder has no place to insert
/// at.
#[verifier::external_body]
pub(crate) fn build_return<'ctx>(builder: &mut Builder<'ctx>, value: &IntValue<'ctx>) -> (r: Result<
    (),
    BuilderError,
>)
    ensures
        is_positioned(old(builder)) ==> r is Ok,
        is_positioned(final(builder)) == is_positioned(old(builder)),
{
    builder.build_return(Some(value)).map(|_| ())
}

/// `format!` with `{:?}` on a `BuilderError`: its `Debug` text.
#[verifier::external_body]
pub(crate) fn builder_error_text(e: &BuilderError) -> String {
    format!("{:?}", e)
}

} // verus!
