//! The decisions behind the HUD skillbar: which bars, labels, icons and
//! tooltips it shows for a character's vitals, equipment and hotbar.

pub mod vitals;
pub mod equipment;
pub mod labels;
pub mod message;
pub mod hotbar;
pub mod skillbar;
