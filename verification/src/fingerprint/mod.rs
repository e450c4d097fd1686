pub mod farbling;
pub mod gecko;
pub mod interface;
pub mod strict;
