//! Verified models and decision logic of the COSMIC widget toolkit.

pub mod about;
pub mod button;
pub mod calendar;
pub mod color_picker;
pub mod context_drawer;
pub mod context_menu;
pub mod dialog;
pub mod dnd_destination;
pub mod dnd_source;
pub mod dropdown;
pub mod dropdown_multi;
pub mod expander;
pub mod flex_row;
pub mod frames;
pub mod grid;
pub mod header_bar;
pub mod headerbar;
pub mod icon;
pub mod link;
pub mod portal;
pub mod theme;
pub mod track;
