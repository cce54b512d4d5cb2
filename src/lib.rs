//! A day-of-the-week quiz: random calendar dates drawn from the Gregorian era,
//! weekday lookup, guess parsing and running score keeping.

pub mod calendar;
pub mod oracle;
pub mod guess;
pub mod stats;
