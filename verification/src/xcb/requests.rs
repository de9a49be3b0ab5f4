#![allow(non_camel_case_types)]

use vstd::prelude::*;
use super::types::{xcb_atom_t, xcb_colormap_t, xcb_cursor_t, xcb_drawable_t, xcb_font_t, xcb_fontable_t, xcb_gcontext_t, xcb_keycode_t, xcb_pixmap_t, xcb_timestamp_t, xcb_visualid_t, xcb_window_t};

verus! {

/// The X protocol request record `xcb_setup_request_t`.
#[derive(Clone, Copy, Debug)]
pub struct xcb_setup_request_t {
    pub byte_order: u8,
    pub pad0: u8,
    pub protocol_major_version: u16,
    pub protocol_minor_version: u16,
    pub authorization_protocol_name_len: u16,
    pub authorization_protocol_data_len: u16,
    pub pad1: [u8; 2],
}

/// The X protocol request record `xcb_create_window_request_t`.
#[derive(Clone, Copy, Debug)]
pub struct xcb_create_window_request_t {
    pub major_opcode: u8,
    pub depth: u8,
    pub length: u16,
    pub wid: xcb_window_t,
    pub parent: xcb_window_t,
    pub x: i16,
    pub y: i16,
    pub width: u16,
    pub height: u16,
    pub border_width: u16,
    pub _class: u16,
    pub visual: xcb_visualid_t,
    pub value_mask: u32,
}

/// The X protocol request record `xcb_change_window_attributes_request_t`.
#[derive(Clone, Copy, Debug)]
pub struct xcb_change_window_attributes_request_t {
    pub major_opcode: u8,
    pub pad0: u8,
    pub length: u16,
    pub window: xcb_window_t,
    pub value_mask: u32,
}

/// The X protocol request record `xcb_get_window_attributes_request_t`.
#[derive(Clone, Copy, Debug)]
pub struct xcb_get_window_attributes_request_t {
    pub major_opcode: u8,
    pub pad0: u8,
    pub length: u16,
    pub window: xcb_window_t,
}

/// The X protocol request record `xcb_destroy_window_request_t`.
#[derive(Clone, Copy, Debug)]
pub struct xcb_destroy_window_request_t {
    pub major_opcode: u8,
    pub pad0: u8,
    pub length: u16,
    pub window: xcb_window_t,
}

/// The X protocol request record `xcb_destroy_subwindows_request_t`.
#[derive(Clone, Copy, Debug)]
pub struct xcb_destroy_subwindows_request_t {
    pub major_opcode: u8,
    pub pad0: u8,
    pub length: u16,
    pub window: xcb_window_t,
}

/// The X protocol request record `xcb_change_save_set_request_t`.
#[derive(Clone, Copy, Debug)]
pub struct xcb_change_save_set_request_t {
    pub major_opcode: u8,
    pub mode: u8,
    pub length: u16,
    pub window: xcb_window_t,
}

/// The X protocol request record `xcb_reparent_window_request_t`.
#[derive(Clone, Copy, Debug)]
pub struct xcb_reparent_window_request_t {
    pub major_opcode: u8,
    pub pad0: u8,
    pub length: u16,
    pub window: xcb_window_t,
    pub parent: xcb_window_t,
    pub x: i16,
    pub y: i16,
}

/// The X protocol request record `xcb_map_window_request_t`.
#[derive(Clone, Copy, Debug)]
pub struct xcb_map_window_request_t {
    pub major_opcode: u8,
    pub pad0: u8,
    pub length: u16,
    pub window: xcb_window_t,
}

/// The X protocol request record `xcb_map_subwindows_request_t`.
#[derive(Clone, Copy, Debug)]
pub struct xcb_map_subwindows_request_t {
    pub major_opcode: u8,
    pub pad0: u8,
    pub length: u16,
    pub window: xcb_window_t,
}

/// The X protocol request record `xcb_unmap_window_request_t`.
#[derive(Clone, Copy, Debug)]
pub struct xcb_unmap_window_request_t {
    pub major_opcode: u8,
    pub pad0: u8,
    pub length: u16,
    pub window: xcb_window_t,
}

/// The X protocol request record `xcb_unmap_subwindows_request_t`.
#[derive(Clone, Copy, Debug)]
pub struct xcb_unmap_subwindows_request_t {
    pub major_opcode: u8,
    pub pad0: u8,
    pub length: u16,
    pub window: xcb_window_t,
}

/// The X protocol request record `xcb_configure_window_request_t`.
#[derive(Clone, Copy, Debug)]
pub struct xcb_configure_window_request_t {
    pub major_opcode: u8,
    pub pad0: u8,
    pub length: u16,
    pub window: xcb_window_t,
    pub value_mask: u16,
    pub pad1: [u8; 2],
}

/// The X protocol request record `xcb_circulate_window_request_t`.
#[derive(Clone, Copy, Debug)]
pub struct xcb_circulate_window_request_t {
    pub major_opcode: u8,
    pub direction: u8,
    pub length: u16,
    pub window: xcb_window_t,
}

/// The X protocol request record `xcb_get_geometry_request_t`.
#[derive(Clone, Copy, Debug)]
pub struct xcb_get_geometry_request_t {
    pub major_opcode: u8,
    pub pad0: u8,
    pub length: u16,
    pub drawable: xcb_drawable_t,
}

/// The X protocol request record `xcb_query_tree_request_t`.
#[derive(Clone, Copy, Debug)]
pub struct xcb_query_tree_request_t {
    pub major_opcode: u8,
    pub pad0: u8,
    pub length: u16,
    pub window: xcb_window_t,
}

/// The X protocol request record `xcb_intern_atom_request_t`.
#[derive(Clone, Copy, Debug)]
pub struct xcb_intern_atom_request_t {
    pub major_opcode: u8,
    pub only_if_exists: u8,
    pub length: u16,
    pub name_len: u16,
    pub pad0: [u8; 2],
}

/// The X protocol request record `xcb_get_atom_name_request_t`.
#[derive(Clone, Copy, Debug)]
pub struct xcb_get_atom_name_request_t {
    pub major_opcode: u8,
    pub pad0: u8,
    pub length: u16,
    pub atom: xcb_atom_t,
}

/// The X protocol request record `xcb_change_property_request_t`.
#[derive(Clone, Copy, Debug)]
pub struct xcb_change_property_request_t {
    pub major_opcode: u8,
    pub mode: u8,
    pub length: u16,
    pub window: xcb_window_t,
    pub property: xcb_atom_t,
    pub type_: xcb_atom_t,
    pub format: u8,
    pub pad0: [u8; 3],
    pub data_len: u32,
}

/// The X protocol request record `xcb_delete_property_request_t`.
#[derive(Clone, Copy, Debug)]
pub struct xcb_delete_property_request_t {
    pub major_opcode: u8,
    pub pad0: u8,
    pub length: u16,
    pub window: xcb_window_t,
    pub property: xcb_atom_t,
}

/// The X protocol request record `xcb_get_property_request_t`.
#[derive(Clone, Copy, Debug)]
pub struct xcb_get_property_request_t {
    pub major_opcode: u8,
    pub _delete: u8,
    pub length: u16,
    pub window: xcb_window_t,
    pub property: xcb_atom_t,
    pub type_: xcb_atom_t,
    pub long_offset: u32,
    pub long_length: u32,
}

/// The X protocol request record `xcb_list_properties_request_t`.
#[derive(Clone, Copy, Debug)]
pub struct xcb_list_properties_request_t {
    pub major_opcode: u8,
    pub pad0: u8,
    pub length: u16,
    pub window: xcb_window_t,
}

/// The X protocol request record `xcb_set_selection_owner_request_t`.
#[derive(Clone, Copy, Debug)]
pub struct xcb_set_selection_owner_request_t {
    pub major_opcode: u8,
    pub pad0: u8,
    pub length: u16,
    pub owner: xcb_window_t,
    pub selection: xcb_atom_t,
    pub time: xcb_timestamp_t,
}

/// The X protocol request record `xcb_get_selection_owner_request_t`.
#[derive(Clone, Copy, Debug)]
pub struct xcb_get_selection_owner_request_t {
    pub major_opcode: u8,
    pub pad0: u8,
    pub length: u16,
    pub selection: xcb_atom_t,
}

/// The X protocol request record `xcb_convert_selection_request_t`.
#[derive(Clone, Copy, Debug)]
pub struct xcb_convert_selection_request_t {
    pub major_opcode: u8,
    pub pad0: u8,
    pub length: u16,
    pub requestor: xcb_window_t,
    pub selection: xcb_atom_t,
    pub target: xcb_atom_t,
    pub property: xcb_atom_t,
    pub time: xcb_timestamp_t,
}

/// The X protocol request record `xcb_grab_pointer_request_t`.
#[derive(Clone, Copy, Debug)]
pub struct xcb_grab_pointer_request_t {
    pub major_opcode: u8,
    pub owner_events: u8,
    pub length: u16,
    pub grab_window: xcb_window_t,
    pub event_mask: u16,
    pub pointer_mode: u8,
    pub keyboard_mode: u8,
    pub confine_to: xcb_window_t,
    pub cursor: xcb_cursor_t,
    pub time: xcb_timestamp_t,
}

/// The X protocol request record `xcb_ungrab_pointer_request_t`.
#[derive(Clone, Copy, Debug)]
pub struct xcb_ungrab_pointer_request_t {
    pub major_opcode: u8,
    pub pad0: u8,
    pub length: u16,
    pub time: xcb_timestamp_t,
}

/// The X protocol request record `xcb_grab_button_request_t`.
#[derive(Clone, Copy, Debug)]
pub struct xcb_grab_button_request_t {
    pub major_opcode: u8,
    pub owner_events: u8,
    pub length: u16,
    pub grab_window: xcb_window_t,
    pub event_mask: u16,
    pub pointer_mode: u8,
    pub keyboard_mode: u8,
    pub confine_to: xcb_window_t,
    pub cursor: xcb_cursor_t,
    pub button: u8,
    pub pad0: u8,
    pub modifiers: u16,
}

/// The X protocol request record `xcb_ungrab_button_request_t`.
#[derive(Clone, Copy, Debug)]
pub struct xcb_ungrab_button_request_t {
    pub major_opcode: u8,
    pub button: u8,
    pub length: u16,
    pub grab_window: xcb_window_t,
    pub modifiers: u16,
    pub pad0: [u8; 2],
}

/// The X protocol request record `xcb_change_active_pointer_grab_request_t`.
#[derive(Clone, Copy, Debug)]
pub struct xcb_change_active_pointer_grab_request_t {
    pub major_opcode: u8,
    pub pad0: u8,
    pub length: u16,
    pub cursor: xcb_cursor_t,
    pub time: xcb_timestamp_t,
    pub event_mask: u16,
    pub pad1: [u8; 2],
}

/// The X protocol request record `xcb_grab_keyboard_request_t`.
#[derive(Clone, Copy, Debug)]
pub struct xcb_grab_keyboard_request_t {
    pub major_opcode: u8,
    pub owner_events: u8,
    pub length: u16,
    pub grab_window: xcb_window_t,
    pub time: xcb_timestamp_t,
    pub pointer_mode: u8,
    pub keyboard_mode: u8,
    pub pad0: [u8; 2],
}

/// The X protocol request record `xcb_ungrab_keyboard_request_t`.
#[derive(Clone, Copy, Debug)]
pub struct xcb_ungrab_keyboard_request_t {
    pub major_opcode: u8,
    pub pad0: u8,
    pub length: u16,
    pub time: xcb_timestamp_t,
}

/// The X protocol request record `xcb_grab_key_request_t`.
#[derive(Clone, Copy, Debug)]
pub struct xcb_grab_key_request_t {
    pub major_opcode: u8,
    pub owner_events: u8,
    pub length: u16,
    pub grab_window: xcb_window_t,
    pub modifiers: u16,
    pub key: xcb_keycode_t,
    pub pointer_mode: u8,
    pub keyboard_mode: u8,
    pub pad0: [u8; 3],
}

/// The X protocol request record `xcb_ungrab_key_request_t`.
#[derive(Clone, Copy, Debug)]
pub struct xcb_ungrab_key_request_t {
    pub major_opcode: u8,
    pub key: xcb_keycode_t,
    pub length: u16,
    pub grab_window: xcb_window_t,
    pub modifiers: u16,
    pub pad0: [u8; 2],
}

/// The X protocol request record `xcb_allow_events_request_t`.
#[derive(Clone, Copy, Debug)]
pub struct xcb_allow_events_request_t {
    pub major_opcode: u8,
    pub mode: u8,
    pub length: u16,
    pub time: xcb_timestamp_t,
}

/// The X protocol request record `xcb_grab_server_request_t`.
#[derive(Clone, Copy, Debug)]
pub struct xcb_grab_server_request_t {
    pub major_opcode: u8,
    pub pad0: u8,
    pub length: u16,
}

/// The X protocol request record `xcb_ungrab_server_request_t`.
#[derive(Clone, Copy, Debug)]
pub struct xcb_ungrab_server_request_t {
    pub major_opcode: u8,
    pub pad0: u8,
    pub length: u16,
}

/// The X protocol request record `xcb_query_pointer_request_t`.
#[derive(Clone, Copy, Debug)]
pub struct xcb_query_pointer_request_t {
    pub major_opcode: u8,
    pub pad0: u8,
    pub length: u16,
    pub window: xcb_window_t,
}

/// The X protocol request record `xcb_get_motion_events_request_t`.
#[derive(Clone, Copy, Debug)]
pub struct xcb_get_motion_events_request_t {
    pub major_opcode: u8,
    pub pad0: u8,
    pub length: u16,
    pub window: xcb_window_t,
    pub start: xcb_timestamp_t,
    pub stop: xcb_timestamp_t,
}

/// The X protocol request record `xcb_translate_coordinates_request_t`.
#[derive(Clone, Copy, Debug)]
pub struct xcb_translate_coordinates_request_t {
    pub major_opcode: u8,
    pub pad0: u8,
    pub length: u16,
    pub src_window: xcb_window_t,
    pub dst_window: xcb_window_t,
    pub src_x: i16,
    pub src_y: i16,
}

/// The X protocol request record `xcb_warp_pointer_request_t`.
#[derive(Clone, Copy, Debug)]
pub struct xcb_warp_pointer_request_t {
    pub major_opcode: u8,
    pub pad0: u8,
    pub length: u16,
    pub src_window: xcb_window_t,
    pub dst_window: xcb_window_t,
    pub src_x: i16,
    pub src_y: i16,
    pub src_width: u16,
    pub src_height: u16,
    pub dst_x: i16,
    pub dst_y: i16,
}

/// The X protocol request record `xcb_set_input_focus_request_t`.
#[derive(Clone, Copy, Debug)]
pub struct xcb_set_input_focus_request_t {
    pub major_opcode: u8,
    pub revert_to: u8,
    pub length: u16,
    pub focus: xcb_window_t,
    pub time: xcb_timestamp_t,
}

/// The X protocol request record `xcb_get_input_focus_request_t`.
#[derive(Clone, Copy, Debug)]
pub struct xcb_get_input_focus_request_t {
    pub major_opcode: u8,
    pub pad0: u8,
    pub length: u16,
}

/// The X protocol request record `xcb_query_keymap_request_t`.
#[derive(Clone, Copy, Debug)]
pub struct xcb_query_keymap_request_t {
    pub major_opcode: u8,
    pub pad0: u8,
    pub length: u16,
}

/// The X protocol request record `xcb_open_font_request_t`.
#[derive(Clone, Copy, Debug)]
pub struct xcb_open_font_request_t {
    pub major_opcode: u8,
    pub pad0: u8,
    pub length: u16,
    pub fid: xcb_font_t,
    pub name_len: u16,
    pub pad1: [u8; 2],
}

/// The X protocol request record `xcb_close_font_request_t`.
#[derive(Clone, Copy, Debug)]
pub struct xcb_close_font_request_t {
    pub major_opcode: u8,
    pub pad0: u8,
    pub length: u16,
    pub font: xcb_font_t,
}

/// The X protocol request record `xcb_query_font_request_t`.
#[derive(Clone, Copy, Debug)]
pub struct xcb_query_font_request_t {
    pub major_opcode: u8,
    pub pad0: u8,
    pub length: u16,
    pub font: xcb_fontable_t,
}

/// The X protocol request record `xcb_query_text_extents_request_t`.
#[derive(Clone, Copy, Debug)]
pub struct xcb_query_text_extents_request_t {
    pub major_opcode: u8,
    pub odd_length: u8,
    pub length: u16,
    pub font: xcb_fontable_t,
}

/// The X protocol request record `xcb_list_fonts_request_t`.
#[derive(Clone, Copy, Debug)]
pub struct xcb_list_fonts_request_t {
    pub major_opcode: u8,
    pub pad0: u8,
    pub length: u16,
    pub max_names: u16,
    pub pattern_len: u16,
}

/// The X protocol request record `xcb_list_fonts_with_info_request_t`.
#[derive(Clone, Copy, Debug)]
pub struct xcb_list_fonts_with_info_request_t {
    pub major_opcode: u8,
    pub pad0: u8,
    pub length: u16,
    pub max_names: u16,
    pub pattern_len: u16,
}

/// The X protocol request record `xcb_set_font_path_request_t`.
#[derive(Clone, Copy, Debug)]
pub struct xcb_set_font_path_request_t {
    pub major_opcode: u8,
    pub pad0: u8,
    pub length: u16,
    pub font_qty: u16,
    pub pad1: [u8; 2],
}

/// The X protocol request record `xcb_get_font_path_request_t`.
#[derive(Clone, Copy, Debug)]
pub struct xcb_get_font_path_request_t {
    pub major_opcode: u8,
    pub pad0: u8,
    pub length: u16,
}

/// The X protocol request record `xcb_create_pixmap_request_t`.
#[derive(Clone, Copy, Debug)]
pub struct xcb_create_pixmap_request_t {
    pub major_opcode: u8,
    pub depth: u8,
    pub length: u16,
    pub pid: xcb_pixmap_t,
    pub drawable: xcb_drawable_t,
    pub width: u16,
    pub height: u16,
}

/// The X protocol request record `xcb_free_pixmap_request_t`.
#[derive(Clone, Copy, Debug)]
pub struct xcb_free_pixmap_request_t {
    pub major_opcode: u8,
    pub pad0: u8,
    pub length: u16,
    pub pixmap: xcb_pixmap_t,
}

/// The X protocol request record `xcb_create_gc_request_t`.
#[derive(Clone, Copy, Debug)]
pub struct xcb_create_gc_request_t {
    pub major_opcode: u8,
    pub pad0: u8,
    pub length: u16,
    pub cid: xcb_gcontext_t,
    pub drawable: xcb_drawable_t,
    pub value_mask: u32,
}

/// The X protocol request record `xcb_change_gc_request_t`.
#[derive(Clone, Copy, Debug)]
pub struct xcb_change_gc_request_t {
    pub major_opcode: u8,
    pub pad0: u8,
    pub length: u16,
    pub gc: xcb_gcontext_t,
    pub value_mask: u32,
}

/// The X protocol request record `xcb_copy_gc_request_t`.
#[derive(Clone, Copy, Debug)]
pub struct xcb_copy_gc_request_t {
    pub major_opcode: u8,
    pub pad0: u8,
    pub length: u16,
    pub src_gc: xcb_gcontext_t,
    pub dst_gc: xcb_gcontext_t,
    pub value_mask: u32,
}

/// The X protocol request record `xcb_set_dashes_request_t`.
#[derive(Clone, Copy, Debug)]
pub struct xcb_set_dashes_request_t {
    pub major_opcode: u8,
    pub pad0: u8,
    pub length: u16,
    pub gc: xcb_gcontext_t,
    pub dash_offset: u16,
    pub dashes_len: u16,
}

/// The X protocol request record `xcb_set_clip_rectangles_request_t`.
#[derive(Clone, Copy, Debug)]
pub struct xcb_set_clip_rectangles_request_t {
    pub major_opcode: u8,
    pub ordering: u8,
    pub length: u16,
    pub gc: xcb_gcontext_t,
    pub clip_x_origin: i16,
    pub clip_y_origin: i16,
}

/// The X protocol request record `xcb_free_gc_request_t`.
#[derive(Clone, Copy, Debug)]
pub struct xcb_free_gc_request_t {
    pub major_opcode: u8,
    pub pad0: u8,
    pub length: u16,
    pub gc: xcb_gcontext_t,
}

/// The X protocol request record `xcb_clear_area_request_t`.
#[derive(Clone, Copy, Debug)]
pub struct xcb_clear_area_request_t {
    pub major_opcode: u8,
    pub exposures: u8,
    pub length: u16,
    pub window: xcb_window_t,
    pub x: i16,
    pub y: i16,
    pub width: u16,
    pub height: u16,
}

/// The X protocol request record `xcb_copy_area_request_t`.
#[derive(Clone, Copy, Debug)]
pub struct xcb_copy_area_request_t {
    pub major_opcode: u8,
    pub pad0: u8,
    pub length: u16,
    pub src_drawable: xcb_drawable_t,
    pub dst_drawable: xcb_drawable_t,
    pub gc: xcb_gcontext_t,
    pub src_x: i16,
    pub src_y: i16,
    pub dst_x: i16,
    pub dst_y: i16,
    pub width: u16,
    pub height: u16,
}

/// The X protocol request record `xcb_copy_plane_request_t`.
#[derive(Clone, Copy, Debug)]
pub struct xcb_copy_plane_request_t {
    pub major_opcode: u8,
    pub pad0: u8,
    pub length: u16,
    pub src_drawable: xcb_drawable_t,
    pub dst_drawable: xcb_drawable_t,
    pub gc: xcb_gcontext_t,
    pub src_x: i16,
    pub src_y: i16,
    pub dst_x: i16,
    pub dst_y: i16,
    pub width: u16,
    pub height: u16,
    pub bit_plane: u32,
}

/// The X protocol request record `xcb_poly_point_request_t`.
#[derive(Clone, Copy, Debug)]
pub struct xcb_poly_point_request_t {
    pub major_opcode: u8,
    pub coordinate_mode: u8,
    pub length: u16,
    pub drawable: xcb_drawable_t,
    pub gc: xcb_gcontext_t,
}

/// The X protocol request record `xcb_poly_line_request_t`.
#[derive(Clone, Copy, Debug)]
pub struct xcb_poly_line_request_t {
    pub major_opcode: u8,
    pub coordinate_mode: u8,
    pub length: u16,
    pub drawable: xcb_drawable_t,
    pub gc: xcb_gcontext_t,
}

/// The X protocol request record `xcb_poly_segment_request_t`.
#[derive(Clone, Copy, Debug)]
pub struct xcb_poly_segment_request_t {
    pub major_opcode: u8,
    pub pad0: u8,
    pub length: u16,
    pub drawable: xcb_drawable_t,
    pub gc: xcb_gcontext_t,
}

/// The X protocol request record `xcb_poly_rectangle_request_t`.
#[derive(Clone, Copy, Debug)]
pub struct xcb_poly_rectangle_request_t {
    pub major_opcode: u8,
    pub pad0: u8,
    pub length: u16,
    pub drawable: xcb_drawable_t,
    pub gc: xcb_gcontext_t,
}

/// The X protocol request record `xcb_poly_arc_request_t`.
#[derive(Clone, Copy, Debug)]
pub struct xcb_poly_arc_request_t {
    pub major_opcode: u8,
    pub pad0: u8,
    pub length: u16,
    pub drawable: xcb_drawable_t,
    pub gc: xcb_gcontext_t,
}

/// The X protocol request record `xcb_fill_poly_request_t`.
#[derive(Clone, Copy, Debug)]
pub struct xcb_fill_poly_request_t {
    pub major_opcode: u8,
    pub pad0: u8,
    pub length: u16,
    pub drawable: xcb_drawable_t,
    pub gc: xcb_gcontext_t,
    pub shape: u8,
    pub coordinate_mode: u8,
    pub pad1: [u8; 2],
}

/// The X protocol request record `xcb_poly_fill_rectangle_request_t`.
#[derive(Clone, Copy, Debug)]
pub struct xcb_poly_fill_rectangle_request_t {
    pub major_opcode: u8,
    pub pad0: u8,
    pub length: u16,
    pub drawable: xcb_drawable_t,
    pub gc: xcb_gcontext_t,
}

/// The X protocol request record `xcb_poly_fill_arc_request_t`.
#[derive(Clone, Copy, Debug)]
pub struct xcb_poly_fill_arc_request_t {
    pub major_opcode: u8,
    pub pad0: u8,
    pub length: u16,
    pub drawable: xcb_drawable_t,
    pub gc: xcb_gcontext_t,
}

/// The X protocol request record `xcb_put_image_request_t`.
#[derive(Clone, Copy, Debug)]
pub struct xcb_put_image_request_t {
    pub major_opcode: u8,
    pub format: u8,
    pub length: u16,
    pub drawable: xcb_drawable_t,
    pub gc: xcb_gcontext_t,
    pub width: u16,
    pub height: u16,
    pub dst_x: i16,
    pub dst_y: i16,
    pub left_pad: u8,
    pub depth: u8,
    pub pad0: [u8; 2],
}

/// The X protocol request record `xcb_get_image_request_t`.
#[derive(Clone, Copy, Debug)]
pub struct xcb_get_image_request_t {
    pub major_opcode: u8,
    pub format: u8,
    pub length: u16,
    pub drawable: xcb_drawable_t,
    pub x: i16,
    pub y: i16,
    pub width: u16,
    pub height: u16,
    pub plane_mask: u32,
}

/// The X protocol request record `xcb_poly_text_8_request_t`.
#[derive(Clone, Copy, Debug)]
pub struct xcb_poly_text_8_request_t {
    pub major_opcode: u8,
    pub pad0: u8,
    pub length: u16,
    pub drawable: xcb_drawable_t,
    pub gc: xcb_gcontext_t,
    pub x: i16,
    pub y: i16,
}

/// The X protocol request record `xcb_poly_text_16_request_t`.
#[derive(Clone, Copy, Debug)]
pub struct xcb_poly_text_16_request_t {
    pub major_opcode: u8,
    pub pad0: u8,
    pub length: u16,
    pub drawable: xcb_drawable_t,
    pub gc: xcb_gcontext_t,
    pub x: i16,
    pub y: i16,
}

/// The X protocol request record `xcb_image_text_8_request_t`.
#[derive(Clone, Copy, Debug)]
pub struct xcb_image_text_8_request_t {
    pub major_opcode: u8,
    pub string_len: u8,
    pub length: u16,
    pub drawable: xcb_drawable_t,
    pub gc: xcb_gcontext_t,
    pub x: i16,
    pub y: i16,
}

/// The X protocol request record `xcb_image_text_16_request_t`.
#[derive(Clone, Copy, Debug)]
pub struct xcb_image_text_16_request_t {
    pub major_opcode: u8,
    pub string_len: u8,
    pub length: u16,
    pub drawable: xcb_drawable_t,
    pub gc: xcb_gcontext_t,
    pub x: i16,
    pub y: i16,
}

/// The X protocol request record `xcb_create_colormap_request_t`.
#[derive(Clone, Copy, Debug)]
pub struct xcb_create_colormap_request_t {
    pub major_opcode: u8,
    pub alloc: u8,
    pub length: u16,
    pub mid: xcb_colormap_t,
    pub window: xcb_window_t,
    pub visual: xcb_visualid_t,
}

/// The X protocol request record `xcb_free_colormap_request_t`.
#[derive(Clone, Copy, Debug)]
pub struct xcb_free_colormap_request_t {
    pub major_opcode: u8,
    pub pad0: u8,
    pub length: u16,
    pub cmap: xcb_colormap_t,
}

/// The X protocol request record `xcb_copy_colormap_and_free_request_t`.
#[derive(Clone, Copy, Debug)]
pub struct xcb_copy_colormap_and_free_request_t {
    pub major_opcode: u8,
    pub pad0: u8,
    pub length: u16,
    pub mid: xcb_colormap_t,
    pub src_cmap: xcb_colormap_t,
}

/// The X protocol request record `xcb_install_colormap_request_t`.
#[derive(Clone, Copy, Debug)]
pub struct xcb_install_colormap_request_t {
    pub major_opcode: u8,
    pub pad0: u8,
    pub length: u16,
    pub cmap: xcb_colormap_t,
}

/// The X protocol request record `xcb_uninstall_colormap_request_t`.
#[derive(Clone, Copy, Debug)]
pub struct xcb_uninstall_colormap_request_t {
    pub major_opcode: u8,
    pub pad0: u8,
    pub length: u16,
    pub cmap: xcb_colormap_t,
}

/// The X protocol request record `xcb_list_installed_colormaps_request_t`.
#[derive(Clone, Copy, Debug)]
pub struct xcb_list_installed_colormaps_request_t {
    pub major_opcode: u8,
    pub pad0: u8,
    pub length: u16,
    pub window: xcb_window_t,
}

/// The X protocol request record `xcb_alloc_color_request_t`.
#[derive(Clone, Copy, Debug)]
pub struct xcb_alloc_color_request_t {
    pub major_opcode: u8,
    pub pad0: u8,
    pub length: u16,
    pub cmap: xcb_colormap_t,
    pub red: u16,
    pub green: u16,
    pub blue: u16,
    pub pad1: [u8; 2],
}

/// The X protocol request record `xcb_alloc_named_color_request_t`.
#[derive(Clone, Copy, Debug)]
pub struct xcb_alloc_named_color_request_t {
    pub major_opcode: u8,
    pub pad0: u8,
    pub length: u16,
    pub cmap: xcb_colormap_t,
    pub name_len: u16,
    pub pad1: [u8; 2],
}

/// The X protocol request record `xcb_alloc_color_cells_request_t`.
#[derive(Clone, Copy, Debug)]
pub struct xcb_alloc_color_cells_request_t {
    pub major_opcode: u8,
    pub contiguous: u8,
    pub length: u16,
    pub cmap: xcb_colormap_t,
    pub colors: u16,
    pub planes: u16,
}

/// The X protocol request record `xcb_alloc_color_planes_request_t`.
#[derive(Clone, Copy, Debug)]
pub struct xcb_alloc_color_planes_request_t {
    pub major_opcode: u8,
    pub contiguous: u8,
    pub length: u16,
    pub cmap: xcb_colormap_t,
    pub colors: u16,
    pub reds: u16,
    pub greens: u16,
    pub blues: u16,
}

/// The X protocol request record `xcb_free_colors_request_t`.
#[derive(Clone, Copy, Debug)]
pub struct xcb_free_colors_request_t {
    pub major_opcode: u8,
    pub pad0: u8,
    pub length: u16,
    pub cmap: xcb_colormap_t,
    pub plane_mask: u32,
}

/// The X protocol request record `xcb_store_colors_request_t`.
#[derive(Clone, Copy, Debug)]
pub struct xcb_store_colors_request_t {
    pub major_opcode: u8,
    pub pad0: u8,
    pub length: u16,
    pub cmap: xcb_colormap_t,
}

/// The X protocol request record `xcb_store_named_color_request_t`.
#[derive(Clone, Copy, Debug)]
pub struct xcb_store_named_color_request_t {
    pub major_opcode: u8,
    pub flags: u8,
    pub length: u16,
    pub cmap: xcb_colormap_t,
    pub pixel: u32,
    pub name_len: u16,
    pub pad0: [u8; 2],
}

/// The X protocol request record `xcb_query_colors_request_t`.
#[derive(Clone, Copy, Debug)]
pub struct xcb_query_colors_request_t {
    pub major_opcode: u8,
    pub pad0: u8,
    pub length: u16,
    pub cmap: xcb_colormap_t,
}

/// The X protocol request record `xcb_lookup_color_request_t`.
#[derive(Clone, Copy, Debug)]
pub struct xcb_lookup_color_request_t {
    pub major_opcode: u8,
    pub pad0: u8,
    pub length: u16,
    pub cmap: xcb_colormap_t,
    pub name_len: u16,
    pub pad1: [u8; 2],
}

/// The X protocol request record `xcb_create_cursor_request_t`.
#[derive(Clone, Copy, Debug)]
pub struct xcb_create_cursor_request_t {
    pub major_opcode: u8,
    pub pad0: u8,
    pub length: u16,
    pub cid: xcb_cursor_t,
    pub source: xcb_pixmap_t,
    pub mask: xcb_pixmap_t,
    pub fore_red: u16,
    pub fore_green: u16,
    pub fore_blue: u16,
    pub back_red: u16,
    pub back_green: u16,
    pub back_blue: u16,
    pub x: u16,
    pub y: u16,
}

/// The X protocol request record `xcb_create_glyph_cursor_request_t`.
#[derive(Clone, Copy, Debug)]
pub struct xcb_create_glyph_cursor_request_t {
    pub major_opcode: u8,
    pub pad0: u8,
    pub length: u16,
    pub cid: xcb_cursor_t,
    pub source_font: xcb_font_t,
    pub mask_font: xcb_font_t,
    pub source_char: u16,
    pub mask_char: u16,
    pub fore_red: u16,
    pub fore_green: u16,
    pub fore_blue: u16,
    pub back_red: u16,
    pub back_green: u16,
    pub back_blue: u16,
}

/// The X protocol request record `xcb_free_cursor_request_t`.
#[derive(Clone, Copy, Debug)]
pub struct xcb_free_cursor_request_t {
    pub major_opcode: u8,
    pub pad0: u8,
    pub length: u16,
    pub cursor: xcb_cursor_t,
}

/// The X protocol request record `xcb_recolor_cursor_request_t`.
#[derive(Clone, Copy, Debug)]
pub struct xcb_recolor_cursor_request_t {
    pub major_opcode: u8,
    pub pad0: u8,
    pub length: u16,
    pub cursor: xcb_cursor_t,
    pub fore_red: u16,
    pub fore_green: u16,
    pub fore_blue: u16,
    pub back_red: u16,
    pub back_green: u16,
    pub back_blue: u16,
}

/// The X protocol request record `xcb_query_best_size_request_t`.
#[derive(Clone, Copy, Debug)]
pub struct xcb_query_best_size_request_t {
    pub major_opcode: u8,
    pub _class: u8,
    pub length: u16,
    pub drawable: xcb_drawable_t,
    pub width: u16,
    pub height: u16,
}

/// The X protocol request record `xcb_query_extension_request_t`.
#[derive(Clone, Copy, Debug)]
pub struct xcb_query_extension_request_t {
    pub major_opcode: u8,
    pub pad0: u8,
    pub length: u16,
    pub name_len: u16,
    pub pad1: [u8; 2],
}

/// The X protocol request record `xcb_list_extensions_request_t`.
#[derive(Clone, Copy, Debug)]
pub struct xcb_list_extensions_request_t {
    pub major_opcode: u8,
    pub pad0: u8,
    pub length: u16,
}

/// The X protocol request record `xcb_change_keyboard_mapping_request_t`.
#[derive(Clone, Copy, Debug)]
pub struct xcb_change_keyboard_mapping_request_t {
    pub major_opcode: u8,
    pub keycode_count: u8,
    pub length: u16,
    pub first_keycode: xcb_keycode_t,
    pub keysyms_per_keycode: u8,
    pub pad0: [u8; 2],
}

/// The X protocol request record `xcb_get_keyboard_mapping_request_t`.
#[derive(Clone, Copy, Debug)]
pub struct xcb_get_keyboard_mapping_request_t {
    pub major_opcode: u8,
    pub pad0: u8,
    pub length: u16,
    pub first_keycode: xcb_keycode_t,
    pub count: u8,
}

/// The X protocol request record `xcb_change_keyboard_control_request_t`.
#[derive(Clone, Copy, Debug)]
pub struct xcb_change_keyboard_control_request_t {
    pub major_opcode: u8,
    pub pad0: u8,
    pub length: u16,
    pub value_mask: u32,
}

/// The X protocol request record `xcb_get_keyboard_control_request_t`.
#[derive(Clone, Copy, Debug)]
pub struct xcb_get_keyboard_control_request_t {
    pub major_opcode: u8,
    pub pad0: u8,
    pub length: u16,
}

/// The X protocol request record `xcb_bell_request_t`.
#[derive(Clone, Copy, Debug)]
pub struct xcb_bell_request_t {
    pub major_opcode: u8,
    pub percent: i8,
    pub length: u16,
}

/// The X protocol request record `xcb_change_pointer_control_request_t`.
#[derive(Clone, Copy, Debug)]
pub struct xcb_change_pointer_control_request_t {
    pub major_opcode: u8,
    pub pad0: u8,
    pub length: u16,
    pub acceleration_numerator: i16,
    pub acceleration_denominator: i16,
    pub threshold: i16,
    pub do_acceleration: u8,
    pub do_threshold: u8,
}

/// The X protocol request record `xcb_get_pointer_control_request_t`.
#[derive(Clone, Copy, Debug)]
pub struct xcb_get_pointer_control_request_t {
    pub major_opcode: u8,
    pub pad0: u8,
    pub length: u16,
}

/// The X protocol request record `xcb_set_screen_saver_request_t`.
#[derive(Clone, Copy, Debug)]
pub struct xcb_set_screen_saver_request_t {
    pub major_opcode: u8,
    pub pad0: u8,
    pub length: u16,
    pub timeout: i16,
    pub interval: i16,
    pub prefer_blanking: u8,
    pub allow_exposures: u8,
}

/// The X protocol request record `xcb_get_screen_saver_request_t`.
#[derive(Clone, Copy, Debug)]
pub struct xcb_get_screen_saver_request_t {
    pub major_opcode: u8,
    pub pad0: u8,
    pub length: u16,
}

/// The X protocol request record `xcb_change_hosts_request_t`.
#[derive(Clone, Copy, Debug)]
pub struct xcb_change_hosts_request_t {
    pub major_opcode: u8,
    pub mode: u8,
    pub length: u16,
    pub family: u8,
    pub pad0: u8,
    pub address_len: u16,
}

/// The X protocol request record `xcb_list_hosts_request_t`.
#[derive(Clone, Copy, Debug)]
pub struct xcb_list_hosts_request_t {
    pub major_opcode: u8,
    pub pad0: u8,
    pub length: u16,
}

/// The X protocol request record `xcb_set_access_control_request_t`.
#[derive(Clone, Copy, Debug)]
pub struct xcb_set_access_control_request_t {
    pub major_opcode: u8,
    pub mode: u8,
    pub length: u16,
}

/// The X protocol request record `xcb_set_close_down_mode_request_t`.
#[derive(Clone, Copy, Debug)]
pub struct xcb_set_close_down_mode_request_t {
    pub major_opcode: u8,
    pub mode: u8,
    pub length: u16,
}

/// The X protocol request record `xcb_kill_client_request_t`.
#[derive(Clone, Copy, Debug)]
pub struct xcb_kill_client_request_t {
    pub major_opcode: u8,
    pub pad0: u8,
    pub length: u16,
    pub resource: u32,
}

/// The X protocol request record `xcb_rotate_properties_request_t`.
#[derive(Clone, Copy, Debug)]
pub struct xcb_rotate_properties_request_t {
    pub major_opcode: u8,
    pub pad0: u8,
    pub length: u16,
    pub window: xcb_window_t,
    pub atoms_len: u16,
    pub delta: i16,
}

/// The X protocol request record `xcb_force_screen_saver_request_t`.
#[derive(Clone, Copy, Debug)]
pub struct xcb_force_screen_saver_request_t {
    pub major_opcode: u8,
    pub mode: u8,
    pub length: u16,
}

/// The X protocol request record `xcb_set_pointer_mapping_request_t`.
#[derive(Clone, Copy, Debug)]
pub struct xcb_set_pointer_mapping_request_t {
    pub major_opcode: u8,
    pub map_len: u8,
    pub length: u16,
}

/// The X protocol request record `xcb_get_pointer_mapping_request_t`.
#[derive(Clone, Copy, Debug)]
pub struct xcb_get_pointer_mapping_request_t {
    pub major_opcode: u8,
    pub pad0: u8,
    pub length: u16,
}

/// The X protocol request record `xcb_set_modifier_mapping_request_t`.
#[derive(Clone, Copy, Debug)]
pub struct xcb_set_modifier_mapping_request_t {
    pub major_opcode: u8,
    pub keycodes_per_modifier: u8,
    pub length: u16,
}

/// The X protocol request record `xcb_get_modifier_mapping_request_t`.
#[derive(Clone, Copy, Debug)]
pub struct xcb_get_modifier_mapping_request_t {
    pub major_opcode: u8,
    pub pad0: u8,
    pub length: u16,
}

/// The X protocol request record `xcb_no_operation_request_t`.
#[derive(Clone, Copy, Debug)]
pub struct xcb_no_operation_request_t {
    pub major_opcode: u8,
    pub pad0: u8,
    pub length: u16,
}

} // verus!
