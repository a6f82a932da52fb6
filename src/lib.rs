pub mod design_pattern;
pub mod rate_limiting;
