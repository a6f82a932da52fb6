pub mod fixed_window_rate_limiter;
