//! Time on a bus clock: a 24-hour cycle split into four named six-hour shifts.

pub mod bus_time;
pub mod decimal;
pub mod shift;

pub use bus_time::BusTime;
pub use shift::{Shift, ALPHA_FLIGHT, DAWN_GUARD, NIGHT_WATCH, ZETA_SHIFT};
