//! Command arbitration for a small two-wheeled vehicle: a remote link and an
//! obstacle-avoidance routine produce intents, a single dispatcher applies them.
pub mod autotrack;
pub mod bluetooth;
pub mod car;
pub mod control;
pub mod dispatch;
pub mod idle;
pub mod servo;
