pub mod codec;
pub mod command;
pub mod probe;
pub mod resolver;
pub mod process;
