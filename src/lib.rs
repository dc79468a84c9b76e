//! Classifies user-agent strings into product, operating system, device, CPU
//! architecture and rendering engine, by ordered pattern rules and
//! replacement templates.

pub mod builtin;
pub mod errors;
pub mod laws;
pub mod matcher;
pub mod models;
pub mod parser;
pub mod rules;
pub mod substitution;
pub mod text;
pub mod yaml;

pub use builtin::{CPURegex, EngineRegex};
pub use errors::UserAgentParserError;
pub use models::{Device, Engine, Product, UserAgent, CPU, OS};
pub use parser::UserAgentParser;
pub use rules::{DeviceRegex, OSRegex, ProductRegex};
pub use yaml::YamlNode;
