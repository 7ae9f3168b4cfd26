//! Handy's media control around a recording and the request logic of its
//! cloud speech-to-text, with their behaviour stated and proved.
//!
//! - `session`: when media is paused for a recording and when it is resumed,
//!   as steps around the platform pause call.
//! - `manager`: those steps composed by a single owner with a media backend
//!   whose history records the calls made on it.
//! - `mpris`: which Linux MPRIS player is paused, and the pause and resume
//!   stages of one player.
//! - `platform`: small macOS and Windows decisions.
//! - `windows_session`: which Windows media session is paused or resumed.
//! - `stt`: what a cloud transcription request holds, and how a reply is read.
//! - `wav`: the 16-bit mono WAVE file the request carries.
//! - `text`: character-level text helpers.

pub mod manager;
pub mod mpris;
pub mod platform;
pub mod session;
pub mod stt;
pub mod text;
pub mod wav;
pub mod windows_session;
