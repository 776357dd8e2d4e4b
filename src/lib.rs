//! Decision engine of a daily service restarter: it waits for a configured
//! hour, reboots the host when the network is gone, and restarts a list of
//! services one at a time, telling its driver which effect to perform next.

pub mod digits;
pub mod clock;
pub mod messages;
pub mod cycle;
pub mod laws;
