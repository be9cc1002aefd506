//! A desktop-creature behaviour core: a small finite-state engine that drives
//! a sprite which idles, talks, jumps, hides behind other windows and recoils
//! when caught, together with the image-scanning logic that picks a geometric
//! hiding spot inside a captured window image.

pub mod creature;
pub mod ext_window;
pub mod hiding;
pub mod image_asset;
pub mod render;
pub mod rng;
pub mod util;
