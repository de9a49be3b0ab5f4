#![allow(non_camel_case_types)]

use vstd::prelude::*;
use super::types::{xcb_atom_t, xcb_colormap_t, xcb_visualid_t, xcb_window_t};
use super::records::{xcb_charinfo_t};

verus! {

/// The X protocol reply record `xcb_generic_reply_t`.
#[derive(Clone, Copy, Debug)]
pub struct xcb_generic_reply_t {
    pub response_type: u8,
    pub pad0: u8,
    pub sequence: u16,
    pub length: u32,
}

/// The X protocol reply record `xcb_get_window_attributes_reply_t`.
#[derive(Clone, Copy, Debug)]
pub struct xcb_get_window_attributes_reply_t {
    pub response_type: u8,
    pub backing_store: u8,
    pub sequence: u16,
    pub length: u32,
    pub visual: xcb_visualid_t,
    pub _class: u16,
    pub bit_gravity: u8,
    pub win_gravity: u8,
    pub backing_planes: u32,
    pub backing_pixel: u32,
    pub save_under: u8,
    pub map_is_installed: u8,
    pub map_state: u8,
    pub override_redirect: u8,
    pub colormap: xcb_colormap_t,
    pub all_event_masks: u32,
    pub your_event_mask: u32,
    pub do_not_propagate_mask: u16,
    pub pad0: [u8; 2],
}

/// The X protocol reply record `xcb_get_geometry_reply_t`.
#[derive(Clone, Copy, Debug)]
pub struct xcb_get_geometry_reply_t {
    pub response_type: u8,
    pub depth: u8,
    pub sequence: u16,
    pub length: u32,
    pub root: xcb_window_t,
    pub x: i16,
    pub y: i16,
    pub width: u16,
    pub height: u16,
    pub border_width: u16,
    pub pad0: [u8; 2],
}

/// The X protocol reply record `xcb_query_tree_reply_t`.
#[derive(Clone, Copy, Debug)]
pub struct xcb_query_tree_reply_t {
    pub response_type: u8,
    pub pad0: u8,
    pub sequence: u16,
    pub length: u32,
    pub root: xcb_window_t,
    pub parent: xcb_window_t,
    pub children_len: u16,
    pub pad1: [u8; 14],
}

/// The X protocol reply record `xcb_intern_atom_reply_t`.
#[derive(Clone, Copy, Debug)]
pub struct xcb_intern_atom_reply_t {
    pub response_type: u8,
    pub pad0: u8,
    pub sequence: u16,
    pub length: u32,
    pub atom: xcb_atom_t,
}

/// The X protocol reply record `xcb_get_atom_name_reply_t`.
#[derive(Clone, Copy, Debug)]
pub struct xcb_get_atom_name_reply_t {
    pub response_type: u8,
    pub pad0: u8,
    pub sequence: u16,
    pub length: u32,
    pub name_len: u16,
    pub pad1: [u8; 22],
}

/// The X protocol reply record `xcb_get_property_reply_t`.
#[derive(Clone, Copy, Debug)]
pub struct xcb_get_property_reply_t {
    pub response_type: u8,
    pub format: u8,
    pub sequence: u16,
    pub length: u32,
    pub type_: xcb_atom_t,
    pub bytes_after: u32,
    pub value_len: u32,
    pub pad0: [u8; 12],
}

/// The X protocol reply record `xcb_list_properties_reply_t`.
#[derive(Clone, Copy, Debug)]
pub struct xcb_list_properties_reply_t {
    pub response_type: u8,
    pub pad0: u8,
    pub sequence: u16,
    pub length: u32,
    pub atoms_len: u16,
    pub pad1: [u8; 22],
}

/// The X protocol reply record `xcb_get_selection_owner_reply_t`.
#[derive(Clone, Copy, Debug)]
pub struct xcb_get_selection_owner_reply_t {
    pub response_type: u8,
    pub pad0: u8,
    pub sequence: u16,
    pub length: u32,
    pub owner: xcb_window_t,
}

/// The X protocol reply record `xcb_grab_pointer_reply_t`.
#[derive(Clone, Copy, Debug)]
pub struct xcb_grab_pointer_reply_t {
    pub response_type: u8,
    pub status: u8,
    pub sequence: u16,
    pub length: u32,
}

/// The X protocol reply record `xcb_grab_keyboard_reply_t`.
#[derive(Clone, Copy, Debug)]
pub struct xcb_grab_keyboard_reply_t {
    pub response_type: u8,
    pub status: u8,
    pub sequence: u16,
    pub length: u32,
}

/// The X protocol reply record `xcb_query_pointer_reply_t`.
#[derive(Clone, Copy, Debug)]
pub struct xcb_query_pointer_reply_t {
    pub response_type: u8,
    pub same_screen: u8,
    pub sequence: u16,
    pub length: u32,
    pub root: xcb_window_t,
    pub child: xcb_window_t,
    pub root_x: i16,
    pub root_y: i16,
    pub win_x: i16,
    pub win_y: i16,
    pub mask: u16,
    pub pad0: [u8; 2],
}

/// The X protocol reply record `xcb_get_motion_events_reply_t`.
#[derive(Clone, Copy, Debug)]
pub struct xcb_get_motion_events_reply_t {
    pub response_type: u8,
    pub pad0: u8,
    pub sequence: u16,
    pub length: u32,
    pub events_len: u32,
    pub pad1: [u8; 20],
}

/// The X protocol reply record `xcb_translate_coordinates_reply_t`.
#[derive(Clone, Copy, Debug)]
pub struct xcb_translate_coordinates_reply_t {
    pub response_type: u8,
    pub same_screen: u8,
    pub sequence: u16,
    pub length: u32,
    pub child: xcb_window_t,
    pub dst_x: i16,
    pub dst_y: i16,
}

/// The X protocol reply record `xcb_get_input_focus_reply_t`.
#[derive(Clone, Copy, Debug)]
pub struct xcb_get_input_focus_reply_t {
    pub response_type: u8,
    pub revert_to: u8,
    pub sequence: u16,
    pub length: u32,
    pub focus: xcb_window_t,
}

/// The X protocol reply record `xcb_query_keymap_reply_t`.
#[derive(Clone, Copy, Debug)]
pub struct xcb_query_keymap_reply_t {
    pub response_type: u8,
    pub pad0: u8,
    pub sequence: u16,
    pub length: u32,
    pub keys: [u8; 32],
}

/// The X protocol reply record `xcb_query_font_reply_t`.
#[derive(Clone, Copy, Debug)]
pub struct xcb_query_font_reply_t {
    pub response_type: u8,
    pub pad0: u8,
    pub sequence: u16,
    pub length: u32,
    pub min_bounds: xcb_charinfo_t,
    pub pad1: [u8; 4],
    pub max_bounds: xcb_charinfo_t,
    pub pad2: [u8; 4],
    pub min_char_or_byte2: u16,
    pub max_char_or_byte2: u16,
    pub default_char: u16,
    pub properties_len: u16,
    pub draw_direction: u8,
    pub min_byte1: u8,
    pub max_byte1: u8,
    pub all_chars_exist: u8,
    pub font_ascent: i16,
    pub font_descent: i16,
    pub char_infos_len: u32,
}

/// The X protocol reply record `xcb_query_text_extents_reply_t`.
#[derive(Clone, Copy, Debug)]
pub struct xcb_query_text_extents_reply_t {
    pub response_type: u8,
    pub draw_direction: u8,
    pub sequence: u16,
    pub length: u32,
    pub font_ascent: i16,
    pub font_descent: i16,
    pub overall_ascent: i16,
    pub overall_descent: i16,
    pub overall_width: i32,
    pub overall_left: i32,
    pub overall_right: i32,
}

/// The X protocol reply record `xcb_list_fonts_reply_t`.
#[derive(Clone, Copy, Debug)]
pub struct xcb_list_fonts_reply_t {
    pub response_type: u8,
    pub pad0: u8,
    pub sequence: u16,
    pub length: u32,
    pub names_len: u16,
    pub pad1: [u8; 22],
}

/// The X protocol reply record `xcb_list_fonts_with_info_reply_t`.
#[derive(Clone, Copy, Debug)]
pub struct xcb_list_fonts_with_info_reply_t {
    pub response_type: u8,
    pub name_len: u8,
    pub sequence: u16,
    pub length: u32,
    pub min_bounds: xcb_charinfo_t,
    pub pad0: [u8; 4],
    pub max_bounds: xcb_charinfo_t,
    pub pad1: [u8; 4],
    pub min_char_or_byte2: u16,
    pub max_char_or_byte2: u16,
    pub default_char: u16,
    pub properties_len: u16,
    pub draw_direction: u8,
    pub min_byte1: u8,
    pub max_byte1: u8,
    pub all_chars_exist: u8,
    pub font_ascent: i16,
    pub font_descent: i16,
    pub replies_hint: u32,
}

/// The X protocol reply record `xcb_get_font_path_reply_t`.
#[derive(Clone, Copy, Debug)]
pub struct xcb_get_font_path_reply_t {
    pub response_type: u8,
    pub pad0: u8,
    pub sequence: u16,
    pub length: u32,
    pub path_len: u16,
    pub pad1: [u8; 22],
}

/// The X protocol reply record `xcb_get_image_reply_t`.
#[derive(Clone, Copy, Debug)]
pub struct xcb_get_image_reply_t {
    pub response_type: u8,
    pub depth: u8,
    pub sequence: u16,
    pub length: u32,
    pub visual: xcb_visualid_t,
    pub pad0: [u8; 20],
}

/// The X protocol reply record `xcb_list_installed_colormaps_reply_t`.
#[derive(Clone, Copy, Debug)]
pub struct xcb_list_installed_colormaps_reply_t {
    pub response_type: u8,
    pub pad0: u8,
    pub sequence: u16,
    pub length: u32,
    pub cmaps_len: u16,
    pub pad1: [u8; 22],
}

/// The X protocol reply record `xcb_alloc_color_reply_t`.
#[derive(Clone, Copy, Debug)]
pub struct xcb_alloc_color_reply_t {
    pub response_type: u8,
    pub pad0: u8,
    pub sequence: u16,
    pub length: u32,
    pub red: u16,
    pub green: u16,
    pub blue: u16,
    pub pad1: [u8; 2],
    pub pixel: u32,
}

/// The X protocol reply record `xcb_alloc_named_color_reply_t`.
#[derive(Clone, Copy, Debug)]
pub struct xcb_alloc_named_color_reply_t {
    pub response_type: u8,
    pub pad0: u8,
    pub sequence: u16,
    pub length: u32,
    pub pixel: u32,
    pub exact_red: u16,
    pub exact_green: u16,
    pub exact_blue: u16,
    pub visual_red: u16,
    pub visual_green: u16,
    pub visual_blue: u16,
}

/// The X protocol reply record `xcb_alloc_color_cells_reply_t`.
#[derive(Clone, Copy, Debug)]
pub struct xcb_alloc_color_cells_reply_t {
    pub response_type: u8,
    pub pad0: u8,
    pub sequence: u16,
    pub length: u32,
    pub pixels_len: u16,
    pub masks_len: u16,
    pub pad1: [u8; 20],
}

/// The X protocol reply record `xcb_alloc_color_planes_reply_t`.
#[derive(Clone, Copy, Debug)]
pub struct xcb_alloc_color_planes_reply_t {
    pub response_type: u8,
    pub pad0: u8,
    pub sequence: u16,
    pub length: u32,
    pub pixels_len: u16,
    pub pad1: [u8; 2],
    pub red_mask: u32,
    pub green_mask: u32,
    pub blue_mask: u32,
    pub pad2: [u8; 8],
}

/// The X protocol reply record `xcb_query_colors_reply_t`.
#[derive(Clone, Copy, Debug)]
pub struct xcb_query_colors_reply_t {
    pub response_type: u8,
    pub pad0: u8,
    pub sequence: u16,
    pub length: u32,
    pub colors_len: u16,
    pub pad1: [u8; 22],
}

/// The X protocol reply record `xcb_lookup_color_reply_t`.
#[derive(Clone, Copy, Debug)]
pub struct xcb_lookup_color_reply_t {
    pub response_type: u8,
    pub pad0: u8,
    pub sequence: u16,
    pub length: u32,
    pub exact_red: u16,
    pub exact_green: u16,
    pub exact_blue: u16,
    pub visual_red: u16,
    pub visual_green: u16,
    pub visual_blue: u16,
}

/// The X protocol reply record `xcb_query_best_size_reply_t`.
#[derive(Clone, Copy, Debug)]
pub struct xcb_query_best_size_reply_t {
    pub response_type: u8,
    pub pad0: u8,
    pub sequence: u16,
    pub length: u32,
    pub width: u16,
    pub height: u16,
}

/// The X protocol reply record `xcb_query_extension_reply_t`.
#[derive(Clone, Copy, Debug)]
pub struct xcb_query_extension_reply_t {
    pub response_type: u8,
    pub pad0: u8,
    pub sequence: u16,
    pub length: u32,
    pub present: u8,
    pub major_opcode: u8,
    pub first_event: u8,
    pub first_error: u8,
}

/// The X protocol reply record `xcb_list_extensions_reply_t`.
#[derive(Clone, Copy, Debug)]
pub struct xcb_list_extensions_reply_t {
    pub response_type: u8,
    pub names_len: u8,
    pub sequence: u16,
    pub length: u32,
    pub pad0: [u8; 24],
}

/// The X protocol reply record `xcb_get_keyboard_mapping_reply_t`.
#[derive(Clone, Copy, Debug)]
pub struct xcb_get_keyboard_mapping_reply_t {
    pub response_type: u8,
    pub keysyms_per_keycode: u8,
    pub sequence: u16,
    pub length: u32,
    pub pad0: [u8; 24],
}

/// The X protocol reply record `xcb_get_keyboard_control_reply_t`.
#[derive(Clone, Copy, Debug)]
pub struct xcb_get_keyboard_control_reply_t {
    pub response_type: u8,
    pub global_auto_repeat: u8,
    pub sequence: u16,
    pub length: u32,
    pub led_mask: u32,
    pub key_click_percent: u8,
    pub bell_percent: u8,
    pub bell_pitch: u16,
    pub bell_duration: u16,
    pub pad0: [u8; 2],
    pub auto_repeats: [u8; 32],
}

/// The X protocol reply record `xcb_get_pointer_control_reply_t`.
#[derive(Clone, Copy, Debug)]
pub struct xcb_get_pointer_control_reply_t {
    pub response_type: u8,
    pub pad0: u8,
    pub sequence: u16,
    pub length: u32,
    pub acceleration_numerator: u16,
    pub acceleration_denominator: u16,
    pub threshold: u16,
    pub pad1: [u8; 18],
}

/// The X protocol reply record `xcb_get_screen_saver_reply_t`.
#[derive(Clone, Copy, Debug)]
pub struct xcb_get_screen_saver_reply_t {
    pub response_type: u8,
    pub pad0: u8,
    pub sequence: u16,
    pub length: u32,
    pub timeout: u16,
    pub interval: u16,
    pub prefer_blanking: u8,
    pub allow_exposures: u8,
    pub pad1: [u8; 18],
}

/// The X protocol reply record `xcb_list_hosts_reply_t`.
#[derive(Clone, Copy, Debug)]
pub struct xcb_list_hosts_reply_t {
    pub response_type: u8,
    pub mode: u8,
    pub sequence: u16,
    pub length: u32,
    pub hosts_len: u16,
    pub pad0: [u8; 22],
}

/// The X protocol reply record `xcb_set_pointer_mapping_reply_t`.
#[derive(Clone, Copy, Debug)]
pub struct xcb_set_pointer_mapping_reply_t {
    pub response_type: u8,
    pub status: u8,
    pub sequence: u16,
    pub length: u32,
}

/// The X protocol reply record `xcb_get_pointer_mapping_reply_t`.
#[derive(Clone, Copy, Debug)]
pub struct xcb_get_pointer_mapping_reply_t {
    pub response_type: u8,
    pub map_len: u8,
    pub sequence: u16,
    pub length: u32,
    pub pad0: [u8; 24],
}

/// The X protocol reply record `xcb_set_modifier_mapping_reply_t`.
#[derive(Clone, Copy, Debug)]
pub struct xcb_set_modifier_mapping_reply_t {
    pub response_type: u8,
    pub status: u8,
    pub sequence: u16,
    pub length: u32,
}

/// The X protocol reply record `xcb_get_modifier_mapping_reply_t`.
#[derive(Clone, Copy, Debug)]
pub struct xcb_get_modifier_mapping_reply_t {
    pub response_type: u8,
    pub keycodes_per_modifier: u8,
    pub sequence: u16,
    pub length: u32,
    pub pad0: [u8; 24],
}

} // verus!
