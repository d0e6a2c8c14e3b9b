pub mod text;
pub mod value;
pub mod codec;
pub mod error;
pub mod function;
pub mod render;
pub mod dispatch;
pub mod join;
pub mod env;
