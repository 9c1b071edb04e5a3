//! A virtual AWACS controller: the airspace picture, the tactical replies, the
//! segmentation of captured voice into utterances, and the pacing of spoken
//! transmissions.

pub mod brevity;
pub mod config;
pub mod gci;
pub mod numerals;
pub mod ordered;
pub mod recognition;
pub mod state;
pub mod telemetry;
pub mod text;
pub mod transmission;
