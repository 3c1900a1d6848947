//! Structural analysis: from the declarations of a compilation unit to the
//! model of contracts, roles and the aggregate.

pub mod code_analysis;
pub mod context_info;
pub mod errors;
pub mod function_description;
pub mod generics_info;
pub mod impl_block_info;
pub mod parameter_info;
pub mod property_info;
pub mod role;
pub mod trait_info;
pub mod type_description;

pub use self::code_analysis::{
    analyze_module, analyze_module_with_error_reporting, ModuleInfo, ModuleInfoView,
};
pub use self::context_info::{analyze_context, ContextInfo, ContextView};
pub use self::errors::{
    create_multiple_errors, ErrorKind, ErrorKindView, MacroError, MacroErrorView,
};
pub use self::function_description::{analyze_trait_methods, FunctionDescription, FunctionView};
pub use self::generics_info::{
    analyze_generics, analyze_generics_from_impl_method, analyze_generics_from_method,
    extract_inline_where_clauses_from_signature, GenericsInfo,
};
pub use self::impl_block_info::{analyze_impl_block, ImplBlockInfo, ImplBlockView};
pub use self::parameter_info::{analyze_parameters, ParameterInfo, ParameterView, SelfType};
pub use self::property_info::{PropertyInfo, PropertyView};
pub use self::role::{Role, RoleView};
pub use self::trait_info::{analyze_trait, TraitInfo, TraitInfoView};
pub use self::type_description::{TypeDescription, TypeDescriptionView};
