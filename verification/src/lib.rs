//! The decisions of a cryptocurrency price ticker: what to make of the price
//! service's answers, how long a cached answer may stand in for a new one,
//! and what to draw on the ticker line.
//!
//! Nothing here touches the network, the file system or the terminal. The
//! [`ticker::Ticker`] names one action after the other and is told what came
//! of each; the program around it does the work. Every function is total,
//! and is proved against its contract by Verus, but for the three calls into
//! `serde_json` in [`json`], whose contracts are believed.

pub mod cache;
pub mod codec;
pub mod error;
pub mod fetch;
pub mod interval;
pub mod json;
pub mod record;
pub mod render;
pub mod resolver;
pub mod ticker;
