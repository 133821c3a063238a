pub mod battery;
pub mod battery_indicator;
pub mod dpi;
pub mod indicator_led;
pub mod led;
pub mod onboard;
