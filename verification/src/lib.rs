//! A schema compiler and validation engine: a declarative schema document is
//! compiled into a tree of validators, which is then run against candidate
//! data trees to produce a stream of violations.

pub mod checks;
pub mod context;
pub mod error;
pub mod keywords;
pub mod laws;
pub mod model;
pub mod validator;
pub mod patterns;
pub mod value;

pub use checks::FormatName;
pub use context::CompilationContext;
pub use error::{CompileError, ErrorKind, ValidationError};
pub use keywords::any_of::AnyOfValidator;
pub use keywords::format::FormatValidator;
pub use keywords::maximum::MaximumValidator;
pub use keywords::pattern_properties::PatternPropertiesValidator;
pub use keywords::type_::TypeValidator;
pub use validator::{compile_validators, JsonSchema, Validator, Validators};
pub use value::{clone_json, json_eq, json_view, Json, JsonType, JsonV};
