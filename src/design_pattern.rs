pub mod observer_pattern;
pub mod strategy_pattern;
