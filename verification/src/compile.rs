//! Composition synthesis and emission: from the model of a unit to the
//! declarations of the composite.

pub mod context;
pub mod dispatch;
pub mod function_descriptor;
pub mod impl_block;
pub mod module;
pub mod rewrite;
pub mod role;
pub mod trait_info;

pub use self::context::CompiledContext;
pub use self::function_descriptor::CompiledFunctionDescription;
pub use self::impl_block::CompiledImplBlock;
pub use self::module::{
    compile_module_with_error_reporting, expand_module, process_module, CompiledModule, Config,
};
pub use self::role::{to_role_name, to_snake_case, CompiledRole};
pub use self::trait_info::CompiledTraitInfo;
