//! Reads the summary screens of the first two generations of a handheld
//! monster-collecting game from a picture of the console's display, and
//! narrows down the hidden determinant values of the creature shown.

pub mod chains;
pub mod contours;
pub mod evos;
pub mod fmt;
pub mod format;
pub mod gameboy;
pub mod glyphs;
pub mod items;
pub mod layout;
pub mod learnset;
pub mod moves;
pub mod moveset;
pub mod names;
pub mod ocr;
pub mod pokemon;
pub mod position;
pub mod raster;
pub mod report;
pub mod roi;
pub mod scan;
pub mod stats;
pub mod summary;
pub mod symbols;
pub mod text;
pub mod utils;
