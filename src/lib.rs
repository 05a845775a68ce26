//! Binding generation for classes of a JVM-hosted runtime: a renaming engine
//! from foreign names to Rust paths, a wire-descriptor and type-mapping engine,
//! and an emitter that writes one source module per class.

pub mod config;
pub mod emitter;
pub mod formatted;
pub mod model;
pub mod naming;
pub mod output;
pub mod signature;
pub mod text;
pub mod typemap;

pub use config::{Config, Generator, Mapping};
pub use emitter::{generate_class, generate_entry, generate_interface, generate_method};
pub use formatted::{format_name, FormattedClassEntry, FormattedMethodEntry};
pub use model::{ArgumentType, ClassEntry, ClassType, MethodEntry};
pub use naming::{assemble_path, case_normalize, escape_keywords, rename_class_fq};
pub use output::{
    generated_classes, in_root, is_anonymous_class, is_class_resource, output_path, plan_outputs,
};
pub use signature::{argument_type_to_signature, generate_signature};
