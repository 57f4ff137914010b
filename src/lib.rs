//! Rewrites barrel imports (`import { Button, DatePicker } from "antd"`) into one import per
//! symbol, by a table of rules, each with the side-effect imports that its rule asks for.

pub mod ast;
pub mod case;
pub mod config;
pub mod laws;
pub mod text;
pub mod transform;

pub use ast::{ImportDecl, ImportSpecifier, ModuleItem};
pub use case::{transform_filename, FilenameCase};
pub use config::{PluginConfig, SpecifierType, TransformConfig};
pub use transform::{build_imports, ImportTransformer};
