#![allow(non_camel_case_types)]

use vstd::prelude::*;

verus! {

/// Integer types of the X protocol.
pub type xcb_atom_t = u32;
pub type xcb_button_t = u8;
pub type xcb_colormap_t = u32;
pub type xcb_cursor_t = u32;
pub type xcb_drawable_t = u32;
pub type xcb_font_t = u32;
pub type xcb_fontable_t = u32;
pub type xcb_gcontext_t = u32;
pub type xcb_keycode_t = u8;
pub type xcb_pixmap_t = u32;
pub type xcb_timestamp_t = u32;
pub type xcb_visualid_t = u32;
pub type xcb_window_t = u32;

} // verus!
