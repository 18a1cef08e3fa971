pub mod anchor;
pub mod engine;
pub mod id_set;
pub mod render;
pub mod report;
pub mod report_layout;
pub mod sequence;
pub mod style;
pub mod task;
pub mod task_laws;
pub mod text;
pub mod utils;
