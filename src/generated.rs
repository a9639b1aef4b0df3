//! A problem after its programs were prepared and its cases were laid out: what
//! graders and exporters consume.

pub mod problem;
pub mod program;
