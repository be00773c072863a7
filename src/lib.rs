//! A work/break reminder engine: decides, once per polling tick, whether a
//! "start work" or "start break" reminder is due, from a cycle configuration,
//! a daily active window (which may span midnight) and a weekday mask.

pub mod clock;
pub mod window;
pub mod settings;
pub mod scheduler;
