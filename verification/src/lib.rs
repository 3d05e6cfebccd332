//! Verified core of a chat bot that turns a "from station X to station Y"
//! request into a formatted itinerary message for a chat client.
//!
//! The library holds the logic: station resolution, trip-response
//! validation, itinerary formatting and the trip-command decisions.
//! Network transport, configuration loading and the web server live
//! outside the library and hand it plain values.

pub mod blocks;
pub mod command;
pub mod formatter;
pub mod sl;
pub mod text;
pub mod timepoint;
