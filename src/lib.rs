//! A desktop notification broker's core: the lifecycle of notifications,
//! their expiry schedule, and the records of who sent them.

pub mod database;
pub mod dbus_methods;
pub mod dispatch;
pub mod laws;
pub mod registry;
pub mod scheduler;
