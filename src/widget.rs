//! State of the views that present a tournament: the selectable grid of matchups,
//! the inspector of one match and the list of strategy labels.
pub mod app;
pub mod grid;
pub mod inspectors;
pub mod labels;
