pub mod context;
pub mod shader;
