#![allow(non_camel_case_types)]

use vstd::prelude::*;
use super::types::{xcb_atom_t, xcb_colormap_t, xcb_keycode_t, xcb_timestamp_t, xcb_visualid_t, xcb_window_t};

verus! {

/// The X protocol record `xcb_generic_error_t`.
#[derive(Clone, Copy, Debug)]
pub struct xcb_generic_error_t {
    pub response_type: u8,
    pub error_code: u8,
    pub sequence: u16,
    pub resource_id: u32,
    pub minor_code: u16,
    pub major_code: u8,
    pub pad0: u8,
    pub pad: [u32; 5],
    pub full_sequence: u32,
}

/// The X protocol record `xcb_char2b_t`.
#[derive(Clone, Copy, Debug)]
pub struct xcb_char2b_t {
    pub byte1: u8,
    pub byte2: u8,
}

/// The X protocol record `xcb_point_t`.
#[derive(Clone, Copy, Debug)]
pub struct xcb_point_t {
    pub x: i16,
    pub y: i16,
}

/// The X protocol record `xcb_rectangle_t`.
#[derive(Clone, Copy, Debug)]
pub struct xcb_rectangle_t {
    pub x: i16,
    pub y: i16,
    pub width: u16,
    pub height: u16,
}

/// The X protocol record `xcb_arc_t`.
#[derive(Clone, Copy, Debug)]
pub struct xcb_arc_t {
    pub x: i16,
    pub y: i16,
    pub width: u16,
    pub height: u16,
    pub angle1: i16,
    pub angle2: i16,
}

/// The X protocol record `xcb_format_t`.
#[derive(Clone, Copy, Debug)]
pub struct xcb_format_t {
    pub depth: u8,
    pub bits_per_pixel: u8,
    pub scanline_pad: u8,
    pub pad0: [u8; 5],
}

/// The X protocol record `xcb_visualtype_t`.
#[derive(Clone, Copy, Debug)]
pub struct xcb_visualtype_t {
    pub visual_id: xcb_visualid_t,
    pub _class: u8,
    pub bits_per_rgb_value: u8,
    pub colormap_entries: u16,
    pub red_mask: u32,
    pub green_mask: u32,
    pub blue_mask: u32,
    pub pad0: [u8; 4],
}

/// The X protocol record `xcb_depth_t`.
#[derive(Clone, Copy, Debug)]
pub struct xcb_depth_t {
    pub depth: u8,
    pub pad0: u8,
    pub visuals_len: u16,
    pub pad1: [u8; 4],
}

/// The X protocol record `xcb_screen_t`.
#[derive(Clone, Copy, Debug)]
pub struct xcb_screen_t {
    pub root: xcb_window_t,
    pub default_colormap: xcb_colormap_t,
    pub white_pixel: u32,
    pub black_pixel: u32,
    pub current_input_masks: u32,
    pub width_in_pixels: u16,
    pub height_in_pixels: u16,
    pub width_in_millimeters: u16,
    pub height_in_millimeters: u16,
    pub min_installed_maps: u16,
    pub max_installed_maps: u16,
    pub root_visual: xcb_visualid_t,
    pub backing_stores: u8,
    pub save_unders: u8,
    pub root_depth: u8,
    pub allowed_depths_len: u8,
}

/// The X protocol record `xcb_setup_failed_t`.
#[derive(Clone, Copy, Debug)]
pub struct xcb_setup_failed_t {
    pub status: u8,
    pub reason_len: u8,
    pub protocol_major_version: u16,
    pub protocol_minor_version: u16,
    pub length: u16,
}

/// The X protocol record `xcb_setup_authenticate_t`.
#[derive(Clone, Copy, Debug)]
pub struct xcb_setup_authenticate_t {
    pub status: u8,
    pub pad0: [u8; 5],
    pub length: u16,
}

/// The X protocol record `xcb_setup_t`.
#[derive(Clone, Copy, Debug)]
pub struct xcb_setup_t {
    pub status: u8,
    pub pad0: u8,
    pub protocol_major_version: u16,
    pub protocol_minor_version: u16,
    pub length: u16,
    pub release_number: u32,
    pub resource_id_base: u32,
    pub resource_id_mask: u32,
    pub motion_buffer_size: u32,
    pub vendor_len: u16,
    pub maximum_request_length: u16,
    pub roots_len: u8,
    pub pixmap_formats_len: u8,
    pub image_byte_order: u8,
    pub bitmap_format_bit_order: u8,
    pub bitmap_format_scanline_unit: u8,
    pub bitmap_format_scanline_pad: u8,
    pub min_keycode: xcb_keycode_t,
    pub max_keycode: xcb_keycode_t,
    pub pad1: [u8; 4],
}

/// The X protocol record `xcb_request_error_t`.
#[derive(Clone, Copy, Debug)]
pub struct xcb_request_error_t {
    pub response_type: u8,
    pub error_code: u8,
    pub sequence: u16,
    pub bad_value: u32,
    pub minor_opcode: u16,
    pub major_opcode: u8,
    pub pad0: u8,
}

/// The X protocol record `xcb_value_error_t`.
#[derive(Clone, Copy, Debug)]
pub struct xcb_value_error_t {
    pub response_type: u8,
    pub error_code: u8,
    pub sequence: u16,
    pub bad_value: u32,
    pub minor_opcode: u16,
    pub major_opcode: u8,
    pub pad0: u8,
}

/// The X protocol record `xcb_timecoord_t`.
#[derive(Clone, Copy, Debug)]
pub struct xcb_timecoord_t {
    pub time: xcb_timestamp_t,
    pub x: i16,
    pub y: i16,
}

/// The X protocol record `xcb_fontprop_t`.
#[derive(Clone, Copy, Debug)]
pub struct xcb_fontprop_t {
    pub name: xcb_atom_t,
    pub value: u32,
}

/// The X protocol record `xcb_charinfo_t`.
#[derive(Clone, Copy, Debug)]
pub struct xcb_charinfo_t {
    pub left_side_bearing: i16,
    pub right_side_bearing: i16,
    pub character_width: i16,
    pub ascent: i16,
    pub descent: i16,
    pub attributes: u16,
}

/// The X protocol record `xcb_str_t`.
#[derive(Clone, Copy, Debug)]
pub struct xcb_str_t {
    pub name_len: u8,
}

/// The X protocol record `xcb_segment_t`.
#[derive(Clone, Copy, Debug)]
pub struct xcb_segment_t {
    pub x1: i16,
    pub y1: i16,
    pub x2: i16,
    pub y2: i16,
}

/// The X protocol record `xcb_coloritem_t`.
#[derive(Clone, Copy, Debug)]
pub struct xcb_coloritem_t {
    pub pixel: u32,
    pub red: u16,
    pub green: u16,
    pub blue: u16,
    pub flags: u8,
    pub pad0: u8,
}

/// The X protocol record `xcb_rgb_t`.
#[derive(Clone, Copy, Debug)]
pub struct xcb_rgb_t {
    pub red: u16,
    pub green: u16,
    pub blue: u16,
    pub pad0: [u8; 2],
}

/// The X protocol record `xcb_host_t`.
#[derive(Clone, Copy, Debug)]
pub struct xcb_host_t {
    pub family: u8,
    pub pad0: u8,
    pub address_len: u16,
}

} // verus!
