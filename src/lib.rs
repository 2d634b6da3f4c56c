pub mod chain;
pub mod rule;
pub mod system;
pub mod table;
pub mod validator;
pub mod version;
pub mod text;
pub mod vparser;
