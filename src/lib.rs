pub mod ir;
pub mod matmul;
pub mod pipeline;
pub mod report;
pub mod text;
