//! Five-number summaries of file sizes, and their rendering as a
//! proportional box-plot line.
pub mod distribution;
pub mod external;
pub mod render;
pub mod report;
