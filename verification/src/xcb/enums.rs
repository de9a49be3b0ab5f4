#![allow(non_camel_case_types)]

use vstd::prelude::*;

verus! {

/// The C enumeration `xcb_visual_class_t`.
#[derive(PartialEq, Eq, Structural, Clone, Copy, Debug)]
pub enum xcb_visual_class_t {
    XCB_VISUAL_CLASS_STATIC_GRAY,
    XCB_VISUAL_CLASS_GRAY_SCALE,
    XCB_VISUAL_CLASS_STATIC_COLOR,
    XCB_VISUAL_CLASS_PSEUDO_COLOR,
    XCB_VISUAL_CLASS_TRUE_COLOR,
    XCB_VISUAL_CLASS_DIRECT_COLOR,
}

impl xcb_visual_class_t {
    /// The value of the variant in the C enumeration.
    pub open spec fn spec_value(self) -> u32 {
        match self {
            xcb_visual_class_t::XCB_VISUAL_CLASS_STATIC_GRAY => 0,
            xcb_visual_class_t::XCB_VISUAL_CLASS_GRAY_SCALE => 1,
            xcb_visual_class_t::XCB_VISUAL_CLASS_STATIC_COLOR => 2,
            xcb_visual_class_t::XCB_VISUAL_CLASS_PSEUDO_COLOR => 3,
            xcb_visual_class_t::XCB_VISUAL_CLASS_TRUE_COLOR => 4,
            xcb_visual_class_t::XCB_VISUAL_CLASS_DIRECT_COLOR => 5,
        }
    }

    /// The value of the variant in the C enumeration.
    pub fn value(&self) -> (v: u32)
        ensures
            v == self.spec_value(),
    {
        match self {
            xcb_visual_class_t::XCB_VISUAL_CLASS_STATIC_GRAY => 0,
            xcb_visual_class_t::XCB_VISUAL_CLASS_GRAY_SCALE => 1,
            xcb_visual_class_t::XCB_VISUAL_CLASS_STATIC_COLOR => 2,
            xcb_visual_class_t::XCB_VISUAL_CLASS_PSEUDO_COLOR => 3,
            xcb_visual_class_t::XCB_VISUAL_CLASS_TRUE_COLOR => 4,
            xcb_visual_class_t::XCB_VISUAL_CLASS_DIRECT_COLOR => 5,
        }
    }
}

/// The C enumeration `xcb_event_mask_t`.
#[derive(PartialEq, Eq, Structural, Clone, Copy, Debug)]
pub enum xcb_event_mask_t {
    XCB_EVENT_MASK_NO_EVENT,
    XCB_EVENT_MASK_KEY_PRESS,
    XCB_EVENT_MASK_KEY_RELEASE,
    XCB_EVENT_MASK_BUTTON_PRESS,
    XCB_EVENT_MASK_BUTTON_RELEASE,
    XCB_EVENT_MASK_ENTER_WINDOW,
    XCB_EVENT_MASK_LEAVE_WINDOW,
    XCB_EVENT_MASK_POINTER_MOTION,
    XCB_EVENT_MASK_POINTER_MOTION_HINT,
    XCB_EVENT_MASK_BUTTON_1_MOTION,
    XCB_EVENT_MASK_BUTTON_2_MOTION,
    XCB_EVENT_MASK_BUTTON_3_MOTION,
    XCB_EVENT_MASK_BUTTON_4_MOTION,
    XCB_EVENT_MASK_BUTTON_5_MOTION,
    XCB_EVENT_MASK_BUTTON_MOTION,
    XCB_EVENT_MASK_KEYMAP_STATE,
    XCB_EVENT_MASK_EXPOSURE,
    XCB_EVENT_MASK_VISIBILITY_CHANGE,
    XCB_EVENT_MASK_STRUCTURE_NOTIFY,
    XCB_EVENT_MASK_RESIZE_REDIRECT,
    XCB_EVENT_MASK_SUBSTRUCTURE_NOTIFY,
    XCB_EVENT_MASK_SUBSTRUCTURE_REDIRECT,
    XCB_EVENT_MASK_FOCUS_CHANGE,
    XCB_EVENT_MASK_PROPERTY_CHANGE,
    XCB_EVENT_MASK_COLOR_MAP_CHANGE,
    XCB_EVENT_MASK_OWNER_GRAB_BUTTON,
}

impl xcb_event_mask_t {
    /// The value of the variant in the C enumeration.
    pub open spec fn spec_value(self) -> u32 {
        match self {
            xcb_event_mask_t::XCB_EVENT_MASK_NO_EVENT => 0,
            xcb_event_mask_t::XCB_EVENT_MASK_KEY_PRESS => 1,
            xcb_event_mask_t::XCB_EVENT_MASK_KEY_RELEASE => 2,
            xcb_event_mask_t::XCB_EVENT_MASK_BUTTON_PRESS => 4,
            xcb_event_mask_t::XCB_EVENT_MASK_BUTTON_RELEASE => 8,
            xcb_event_mask_t::XCB_EVENT_MASK_ENTER_WINDOW => 16,
            xcb_event_mask_t::XCB_EVENT_MASK_LEAVE_WINDOW => 32,
            xcb_event_mask_t::XCB_EVENT_MASK_POINTER_MOTION => 64,
            xcb_event_mask_t::XCB_EVENT_MASK_POINTER_MOTION_HINT => 128,
            xcb_event_mask_t::XCB_EVENT_MASK_BUTTON_1_MOTION => 256,
            xcb_event_mask_t::XCB_EVENT_MASK_BUTTON_2_MOTION => 512,
            xcb_event_mask_t::XCB_EVENT_MASK_BUTTON_3_MOTION => 1024,
            xcb_event_mask_t::XCB_EVENT_MASK_BUTTON_4_MOTION => 2048,
            xcb_event_mask_t::XCB_EVENT_MASK_BUTTON_5_MOTION => 4096,
            xcb_event_mask_t::XCB_EVENT_MASK_BUTTON_MOTION => 8192,
            xcb_event_mask_t::XCB_EVENT_MASK_KEYMAP_STATE => 16384,
            xcb_event_mask_t::XCB_EVENT_MASK_EXPOSURE => 32768,
            xcb_event_mask_t::XCB_EVENT_MASK_VISIBILITY_CHANGE => 65536,
            xcb_event_mask_t::XCB_EVENT_MASK_STRUCTURE_NOTIFY => 131072,
            xcb_event_mask_t::XCB_EVENT_MASK_RESIZE_REDIRECT => 262144,
            xcb_event_mask_t::XCB_EVENT_MASK_SUBSTRUCTURE_NOTIFY => 524288,
            xcb_event_mask_t::XCB_EVENT_MASK_SUBSTRUCTURE_REDIRECT => 1048576,
            xcb_event_mask_t::XCB_EVENT_MASK_FOCUS_CHANGE => 2097152,
            xcb_event_mask_t::XCB_EVENT_MASK_PROPERTY_CHANGE => 4194304,
            xcb_event_mask_t::XCB_EVENT_MASK_COLOR_MAP_CHANGE => 8388608,
            xcb_event_mask_t::XCB_EVENT_MASK_OWNER_GRAB_BUTTON => 16777216,
        }
    }

    /// The value of the variant in the C enumeration.
    pub fn value(&self) -> (v: u32)
        ensures
            v == self.spec_value(),
    {
        match self {
            xcb_event_mask_t::XCB_EVENT_MASK_NO_EVENT => 0,
            xcb_event_mask_t::XCB_EVENT_MASK_KEY_PRESS => 1,
            xcb_event_mask_t::XCB_EVENT_MASK_KEY_RELEASE => 2,
            xcb_event_mask_t::XCB_EVENT_MASK_BUTTON_PRESS => 4,
            xcb_event_mask_t::XCB_EVENT_MASK_BUTTON_RELEASE => 8,
            xcb_event_mask_t::XCB_EVENT_MASK_ENTER_WINDOW => 16,
            xcb_event_mask_t::XCB_EVENT_MASK_LEAVE_WINDOW => 32,
            xcb_event_mask_t::XCB_EVENT_MASK_POINTER_MOTION => 64,
            xcb_event_mask_t::XCB_EVENT_MASK_POINTER_MOTION_HINT => 128,
            xcb_event_mask_t::XCB_EVENT_MASK_BUTTON_1_MOTION => 256,
            xcb_event_mask_t::XCB_EVENT_MASK_BUTTON_2_MOTION => 512,
            xcb_event_mask_t::XCB_EVENT_MASK_BUTTON_3_MOTION => 1024,
            xcb_event_mask_t::XCB_EVENT_MASK_BUTTON_4_MOTION => 2048,
            xcb_event_mask_t::XCB_EVENT_MASK_BUTTON_5_MOTION => 4096,
            xcb_event_mask_t::XCB_EVENT_MASK_BUTTON_MOTION => 8192,
            xcb_event_mask_t::XCB_EVENT_MASK_KEYMAP_STATE => 16384,
            xcb_event_mask_t::XCB_EVENT_MASK_EXPOSURE => 32768,
            xcb_event_mask_t::XCB_EVENT_MASK_VISIBILITY_CHANGE => 65536,
            xcb_event_mask_t::XCB_EVENT_MASK_STRUCTURE_NOTIFY => 131072,
            xcb_event_mask_t::XCB_EVENT_MASK_RESIZE_REDIRECT => 262144,
            xcb_event_mask_t::XCB_EVENT_MASK_SUBSTRUCTURE_NOTIFY => 524288,
            xcb_event_mask_t::XCB_EVENT_MASK_SUBSTRUCTURE_REDIRECT => 1048576,
            xcb_event_mask_t::XCB_EVENT_MASK_FOCUS_CHANGE => 2097152,
            xcb_event_mask_t::XCB_EVENT_MASK_PROPERTY_CHANGE => 4194304,
            xcb_event_mask_t::XCB_EVENT_MASK_COLOR_MAP_CHANGE => 8388608,
            xcb_event_mask_t::XCB_EVENT_MASK_OWNER_GRAB_BUTTON => 16777216,
        }
    }
}

/// The C enumeration `xcb_backing_store_t`.
#[derive(PartialEq, Eq, Structural, Clone, Copy, Debug)]
pub enum xcb_backing_store_t {
    XCB_BACKING_STORE_NOT_USEFUL,
    XCB_BACKING_STORE_WHEN_MAPPED,
    XCB_BACKING_STORE_ALWAYS,
}

impl xcb_backing_store_t {
    /// The value of the variant in the C enumeration.
    pub open spec fn spec_value(self) -> u32 {
        match self {
            xcb_backing_store_t::XCB_BACKING_STORE_NOT_USEFUL => 0,
            xcb_backing_store_t::XCB_BACKING_STORE_WHEN_MAPPED => 1,
            xcb_backing_store_t::XCB_BACKING_STORE_ALWAYS => 2,
        }
    }

    /// The value of the variant in the C enumeration.
    pub fn value(&self) -> (v: u32)
        ensures
            v == self.spec_value(),
    {
        match self {
            xcb_backing_store_t::XCB_BACKING_STORE_NOT_USEFUL => 0,
            xcb_backing_store_t::XCB_BACKING_STORE_WHEN_MAPPED => 1,
            xcb_backing_store_t::XCB_BACKING_STORE_ALWAYS => 2,
        }
    }
}

/// The C enumeration `xcb_image_order_t`.
#[derive(PartialEq, Eq, Structural, Clone, Copy, Debug)]
pub enum xcb_image_order_t {
    XCB_IMAGE_ORDER_LSB_FIRST,
    XCB_IMAGE_ORDER_MSB_FIRST,
}

impl xcb_image_order_t {
    /// The value of the variant in the C enumeration.
    pub open spec fn spec_value(self) -> u32 {
        match self {
            xcb_image_order_t::XCB_IMAGE_ORDER_LSB_FIRST => 0,
            xcb_image_order_t::XCB_IMAGE_ORDER_MSB_FIRST => 1,
        }
    }

    /// The value of the variant in the C enumeration.
    pub fn value(&self) -> (v: u32)
        ensures
            v == self.spec_value(),
    {
        match self {
            xcb_image_order_t::XCB_IMAGE_ORDER_LSB_FIRST => 0,
            xcb_image_order_t::XCB_IMAGE_ORDER_MSB_FIRST => 1,
        }
    }
}

/// The C enumeration `xcb_mod_mask_t`.
#[derive(PartialEq, Eq, Structural, Clone, Copy, Debug)]
pub enum xcb_mod_mask_t {
    XCB_MOD_MASK_SHIFT,
    XCB_MOD_MASK_LOCK,
    XCB_MOD_MASK_CONTROL,
    XCB_MOD_MASK_1,
    XCB_MOD_MASK_2,
    XCB_MOD_MASK_3,
    XCB_MOD_MASK_4,
    XCB_MOD_MASK_5,
    XCB_MOD_MASK_ANY,
}

impl xcb_mod_mask_t {
    /// The value of the variant in the C enumeration.
    pub open spec fn spec_value(self) -> u32 {
        match self {
            xcb_mod_mask_t::XCB_MOD_MASK_SHIFT => 1,
            xcb_mod_mask_t::XCB_MOD_MASK_LOCK => 2,
            xcb_mod_mask_t::XCB_MOD_MASK_CONTROL => 4,
            xcb_mod_mask_t::XCB_MOD_MASK_1 => 8,
            xcb_mod_mask_t::XCB_MOD_MASK_2 => 16,
            xcb_mod_mask_t::XCB_MOD_MASK_3 => 32,
            xcb_mod_mask_t::XCB_MOD_MASK_4 => 64,
            xcb_mod_mask_t::XCB_MOD_MASK_5 => 128,
            xcb_mod_mask_t::XCB_MOD_MASK_ANY => 32768,
        }
    }

    /// The value of the variant in the C enumeration.
    pub fn value(&self) -> (v: u32)
        ensures
            v == self.spec_value(),
    {
        match self {
            xcb_mod_mask_t::XCB_MOD_MASK_SHIFT => 1,
            xcb_mod_mask_t::XCB_MOD_MASK_LOCK => 2,
            xcb_mod_mask_t::XCB_MOD_MASK_CONTROL => 4,
            xcb_mod_mask_t::XCB_MOD_MASK_1 => 8,
            xcb_mod_mask_t::XCB_MOD_MASK_2 => 16,
            xcb_mod_mask_t::XCB_MOD_MASK_3 => 32,
            xcb_mod_mask_t::XCB_MOD_MASK_4 => 64,
            xcb_mod_mask_t::XCB_MOD_MASK_5 => 128,
            xcb_mod_mask_t::XCB_MOD_MASK_ANY => 32768,
        }
    }
}

/// The C enumeration `xcb_key_but_mask_t`.
#[derive(PartialEq, Eq, Structural, Clone, Copy, Debug)]
pub enum xcb_key_but_mask_t {
    XCB_KEY_BUT_MASK_SHIFT,
    XCB_KEY_BUT_MASK_LOCK,
    XCB_KEY_BUT_MASK_CONTROL,
    XCB_KEY_BUT_MASK_MOD_1,
    XCB_KEY_BUT_MASK_MOD_2,
    XCB_KEY_BUT_MASK_MOD_3,
    XCB_KEY_BUT_MASK_MOD_4,
    XCB_KEY_BUT_MASK_MOD_5,
    XCB_KEY_BUT_MASK_BUTTON_1,
    XCB_KEY_BUT_MASK_BUTTON_2,
    XCB_KEY_BUT_MASK_BUTTON_3,
    XCB_KEY_BUT_MASK_BUTTON_4,
    XCB_KEY_BUT_MASK_BUTTON_5,
}

impl xcb_key_but_mask_t {
    /// The value of the variant in the C enumeration.
    pub open spec fn spec_value(self) -> u32 {
        match self {
            xcb_key_but_mask_t::XCB_KEY_BUT_MASK_SHIFT => 1,
            xcb_key_but_mask_t::XCB_KEY_BUT_MASK_LOCK => 2,
            xcb_key_but_mask_t::XCB_KEY_BUT_MASK_CONTROL => 4,
            xcb_key_but_mask_t::XCB_KEY_BUT_MASK_MOD_1 => 8,
            xcb_key_but_mask_t::XCB_KEY_BUT_MASK_MOD_2 => 16,
            xcb_key_but_mask_t::XCB_KEY_BUT_MASK_MOD_3 => 32,
            xcb_key_but_mask_t::XCB_KEY_BUT_MASK_MOD_4 => 64,
            xcb_key_but_mask_t::XCB_KEY_BUT_MASK_MOD_5 => 128,
            xcb_key_but_mask_t::XCB_KEY_BUT_MASK_BUTTON_1 => 256,
            xcb_key_but_mask_t::XCB_KEY_BUT_MASK_BUTTON_2 => 512,
            xcb_key_but_mask_t::XCB_KEY_BUT_MASK_BUTTON_3 => 1024,
            xcb_key_but_mask_t::XCB_KEY_BUT_MASK_BUTTON_4 => 2048,
            xcb_key_but_mask_t::XCB_KEY_BUT_MASK_BUTTON_5 => 4096,
        }
    }

    /// The value of the variant in the C enumeration.
    pub fn value(&self) -> (v: u32)
        ensures
            v == self.spec_value(),
    {
        match self {
            xcb_key_but_mask_t::XCB_KEY_BUT_MASK_SHIFT => 1,
            xcb_key_but_mask_t::XCB_KEY_BUT_MASK_LOCK => 2,
            xcb_key_but_mask_t::XCB_KEY_BUT_MASK_CONTROL => 4,
            xcb_key_but_mask_t::XCB_KEY_BUT_MASK_MOD_1 => 8,
            xcb_key_but_mask_t::XCB_KEY_BUT_MASK_MOD_2 => 16,
            xcb_key_but_mask_t::XCB_KEY_BUT_MASK_MOD_3 => 32,
            xcb_key_but_mask_t::XCB_KEY_BUT_MASK_MOD_4 => 64,
            xcb_key_but_mask_t::XCB_KEY_BUT_MASK_MOD_5 => 128,
            xcb_key_but_mask_t::XCB_KEY_BUT_MASK_BUTTON_1 => 256,
            xcb_key_but_mask_t::XCB_KEY_BUT_MASK_BUTTON_2 => 512,
            xcb_key_but_mask_t::XCB_KEY_BUT_MASK_BUTTON_3 => 1024,
            xcb_key_but_mask_t::XCB_KEY_BUT_MASK_BUTTON_4 => 2048,
            xcb_key_but_mask_t::XCB_KEY_BUT_MASK_BUTTON_5 => 4096,
        }
    }
}

/// The C enumeration `xcb_window_enum_t`.
#[derive(PartialEq, Eq, Structural, Clone, Copy, Debug)]
pub enum xcb_window_enum_t {
    XCB_WINDOW_NONE,
}

impl xcb_window_enum_t {
    /// The value of the variant in the C enumeration.
    pub open spec fn spec_value(self) -> u32 {
        match self {
            xcb_window_enum_t::XCB_WINDOW_NONE => 0,
        }
    }

    /// The value of the variant in the C enumeration.
    pub fn value(&self) -> (v: u32)
        ensures
            v == self.spec_value(),
    {
        match self {
            xcb_window_enum_t::XCB_WINDOW_NONE => 0,
        }
    }
}

/// The C enumeration `xcb_button_mask_t`.
#[derive(PartialEq, Eq, Structural, Clone, Copy, Debug)]
pub enum xcb_button_mask_t {
    XCB_BUTTON_MASK_1,
    XCB_BUTTON_MASK_2,
    XCB_BUTTON_MASK_3,
    XCB_BUTTON_MASK_4,
    XCB_BUTTON_MASK_5,
    XCB_BUTTON_MASK_ANY,
}

impl xcb_button_mask_t {
    /// The value of the variant in the C enumeration.
    pub open spec fn spec_value(self) -> u32 {
        match self {
            xcb_button_mask_t::XCB_BUTTON_MASK_1 => 256,
            xcb_button_mask_t::XCB_BUTTON_MASK_2 => 512,
            xcb_button_mask_t::XCB_BUTTON_MASK_3 => 1024,
            xcb_button_mask_t::XCB_BUTTON_MASK_4 => 2048,
            xcb_button_mask_t::XCB_BUTTON_MASK_5 => 4096,
            xcb_button_mask_t::XCB_BUTTON_MASK_ANY => 32768,
        }
    }

    /// The value of the variant in the C enumeration.
    pub fn value(&self) -> (v: u32)
        ensures
            v == self.spec_value(),
    {
        match self {
            xcb_button_mask_t::XCB_BUTTON_MASK_1 => 256,
            xcb_button_mask_t::XCB_BUTTON_MASK_2 => 512,
            xcb_button_mask_t::XCB_BUTTON_MASK_3 => 1024,
            xcb_button_mask_t::XCB_BUTTON_MASK_4 => 2048,
            xcb_button_mask_t::XCB_BUTTON_MASK_5 => 4096,
            xcb_button_mask_t::XCB_BUTTON_MASK_ANY => 32768,
        }
    }
}

/// The C enumeration `xcb_motion_t`.
#[derive(PartialEq, Eq, Structural, Clone, Copy, Debug)]
pub enum xcb_motion_t {
    XCB_MOTION_NORMAL,
    XCB_MOTION_HINT,
}

impl xcb_motion_t {
    /// The value of the variant in the C enumeration.
    pub open spec fn spec_value(self) -> u32 {
        match self {
            xcb_motion_t::XCB_MOTION_NORMAL => 0,
            xcb_motion_t::XCB_MOTION_HINT => 1,
        }
    }

    /// The value of the variant in the C enumeration.
    pub fn value(&self) -> (v: u32)
        ensures
            v == self.spec_value(),
    {
        match self {
            xcb_motion_t::XCB_MOTION_NORMAL => 0,
            xcb_motion_t::XCB_MOTION_HINT => 1,
        }
    }
}

/// The C enumeration `xcb_notify_detail_t`.
#[derive(PartialEq, Eq, Structural, Clone, Copy, Debug)]
pub enum xcb_notify_detail_t {
    XCB_NOTIFY_DETAIL_ANCESTOR,
    XCB_NOTIFY_DETAIL_VIRTUAL,
    XCB_NOTIFY_DETAIL_INFERIOR,
    XCB_NOTIFY_DETAIL_NONLINEAR,
    XCB_NOTIFY_DETAIL_NONLINEAR_VIRTUAL,
    XCB_NOTIFY_DETAIL_POINTER,
    XCB_NOTIFY_DETAIL_POINTER_ROOT,
    XCB_NOTIFY_DETAIL_NONE,
}

impl xcb_notify_detail_t {
    /// The value of the variant in the C enumeration.
    pub open spec fn spec_value(self) -> u32 {
        match self {
            xcb_notify_detail_t::XCB_NOTIFY_DETAIL_ANCESTOR => 0,
            xcb_notify_detail_t::XCB_NOTIFY_DETAIL_VIRTUAL => 1,
            xcb_notify_detail_t::XCB_NOTIFY_DETAIL_INFERIOR => 2,
            xcb_notify_detail_t::XCB_NOTIFY_DETAIL_NONLINEAR => 3,
            xcb_notify_detail_t::XCB_NOTIFY_DETAIL_NONLINEAR_VIRTUAL => 4,
            xcb_notify_detail_t::XCB_NOTIFY_DETAIL_POINTER => 5,
            xcb_notify_detail_t::XCB_NOTIFY_DETAIL_POINTER_ROOT => 6,
            xcb_notify_detail_t::XCB_NOTIFY_DETAIL_NONE => 7,
        }
    }

    /// The value of the variant in the C enumeration.
    pub fn value(&self) -> (v: u32)
        ensures
            v == self.spec_value(),
    {
        match self {
            xcb_notify_detail_t::XCB_NOTIFY_DETAIL_ANCESTOR => 0,
            xcb_notify_detail_t::XCB_NOTIFY_DETAIL_VIRTUAL => 1,
            xcb_notify_detail_t::XCB_NOTIFY_DETAIL_INFERIOR => 2,
            xcb_notify_detail_t::XCB_NOTIFY_DETAIL_NONLINEAR => 3,
            xcb_notify_detail_t::XCB_NOTIFY_DETAIL_NONLINEAR_VIRTUAL => 4,
            xcb_notify_detail_t::XCB_NOTIFY_DETAIL_POINTER => 5,
            xcb_notify_detail_t::XCB_NOTIFY_DETAIL_POINTER_ROOT => 6,
            xcb_notify_detail_t::XCB_NOTIFY_DETAIL_NONE => 7,
        }
    }
}

/// The C enumeration `xcb_notify_mode_t`.
#[derive(PartialEq, Eq, Structural, Clone, Copy, Debug)]
pub enum xcb_notify_mode_t {
    XCB_NOTIFY_MODE_NORMAL,
    XCB_NOTIFY_MODE_GRAB,
    XCB_NOTIFY_MODE_UNGRAB,
    XCB_NOTIFY_MODE_WHILE_GRABBED,
}

impl xcb_notify_mode_t {
    /// The value of the variant in the C enumeration.
    pub open spec fn spec_value(self) -> u32 {
        match self {
            xcb_notify_mode_t::XCB_NOTIFY_MODE_NORMAL => 0,
            xcb_notify_mode_t::XCB_NOTIFY_MODE_GRAB => 1,
            xcb_notify_mode_t::XCB_NOTIFY_MODE_UNGRAB => 2,
            xcb_notify_mode_t::XCB_NOTIFY_MODE_WHILE_GRABBED => 3,
        }
    }

    /// The value of the variant in the C enumeration.
    pub fn value(&self) -> (v: u32)
        ensures
            v == self.spec_value(),
    {
        match self {
            xcb_notify_mode_t::XCB_NOTIFY_MODE_NORMAL => 0,
            xcb_notify_mode_t::XCB_NOTIFY_MODE_GRAB => 1,
            xcb_notify_mode_t::XCB_NOTIFY_MODE_UNGRAB => 2,
            xcb_notify_mode_t::XCB_NOTIFY_MODE_WHILE_GRABBED => 3,
        }
    }
}

/// The C enumeration `xcb_visibility_t`.
#[derive(PartialEq, Eq, Structural, Clone, Copy, Debug)]
pub enum xcb_visibility_t {
    XCB_VISIBILITY_UNOBSCURED,
    XCB_VISIBILITY_PARTIALLY_OBSCURED,
    XCB_VISIBILITY_FULLY_OBSCURED,
}

impl xcb_visibility_t {
    /// The value of the variant in the C enumeration.
    pub open spec fn spec_value(self) -> u32 {
        match self {
            xcb_visibility_t::XCB_VISIBILITY_UNOBSCURED => 0,
            xcb_visibility_t::XCB_VISIBILITY_PARTIALLY_OBSCURED => 1,
            xcb_visibility_t::XCB_VISIBILITY_FULLY_OBSCURED => 2,
        }
    }

    /// The value of the variant in the C enumeration.
    pub fn value(&self) -> (v: u32)
        ensures
            v == self.spec_value(),
    {
        match self {
            xcb_visibility_t::XCB_VISIBILITY_UNOBSCURED => 0,
            xcb_visibility_t::XCB_VISIBILITY_PARTIALLY_OBSCURED => 1,
            xcb_visibility_t::XCB_VISIBILITY_FULLY_OBSCURED => 2,
        }
    }
}

/// The C enumeration `xcb_place_t`.
#[derive(PartialEq, Eq, Structural, Clone, Copy, Debug)]
pub enum xcb_place_t {
    XCB_PLACE_ON_TOP,
    XCB_PLACE_ON_BOTTOM,
}

impl xcb_place_t {
    /// The value of the variant in the C enumeration.
    pub open spec fn spec_value(self) -> u32 {
        match self {
            xcb_place_t::XCB_PLACE_ON_TOP => 0,
            xcb_place_t::XCB_PLACE_ON_BOTTOM => 1,
        }
    }

    /// The value of the variant in the C enumeration.
    pub fn value(&self) -> (v: u32)
        ensures
            v == self.spec_value(),
    {
        match self {
            xcb_place_t::XCB_PLACE_ON_TOP => 0,
            xcb_place_t::XCB_PLACE_ON_BOTTOM => 1,
        }
    }
}

/// The C enumeration `xcb_property_t`.
#[derive(PartialEq, Eq, Structural, Clone, Copy, Debug)]
pub enum xcb_property_t {
    XCB_PROPERTY_NEW_VALUE,
    XCB_PROPERTY_DELETE,
}

impl xcb_property_t {
    /// The value of the variant in the C enumeration.
    pub open spec fn spec_value(self) -> u32 {
        match self {
            xcb_property_t::XCB_PROPERTY_NEW_VALUE => 0,
            xcb_property_t::XCB_PROPERTY_DELETE => 1,
        }
    }

    /// The value of the variant in the C enumeration.
    pub fn value(&self) -> (v: u32)
        ensures
            v == self.spec_value(),
    {
        match self {
            xcb_property_t::XCB_PROPERTY_NEW_VALUE => 0,
            xcb_property_t::XCB_PROPERTY_DELETE => 1,
        }
    }
}

/// The C enumeration `xcb_time_t`.
#[derive(PartialEq, Eq, Structural, Clone, Copy, Debug)]
pub enum xcb_time_t {
    XCB_TIME_CURRENT_TIME,
}

impl xcb_time_t {
    /// The value of the variant in the C enumeration.
    pub open spec fn spec_value(self) -> u32 {
        match self {
            xcb_time_t::XCB_TIME_CURRENT_TIME => 0,
        }
    }

    /// The value of the variant in the C enumeration.
    pub fn value(&self) -> (v: u32)
        ensures
            v == self.spec_value(),
    {
        match self {
            xcb_time_t::XCB_TIME_CURRENT_TIME => 0,
        }
    }
}

/// The C enumeration `xcb_atom_enum_t`.
#[derive(PartialEq, Eq, Structural, Clone, Copy, Debug)]
pub enum xcb_atom_enum_t {
    XCB_ATOM_NONE,
    XCB_ATOM_PRIMARY,
    XCB_ATOM_SECONDARY,
    XCB_ATOM_ARC,
    XCB_ATOM_ATOM,
    XCB_ATOM_BITMAP,
    XCB_ATOM_CARDINAL,
    XCB_ATOM_COLORMAP,
    XCB_ATOM_CURSOR,
    XCB_ATOM_CUT_BUFFER0,
    XCB_ATOM_CUT_BUFFER1,
    XCB_ATOM_CUT_BUFFER2,
    XCB_ATOM_CUT_BUFFER3,
    XCB_ATOM_CUT_BUFFER4,
    XCB_ATOM_CUT_BUFFER5,
    XCB_ATOM_CUT_BUFFER6,
    XCB_ATOM_CUT_BUFFER7,
    XCB_ATOM_DRAWABLE,
    XCB_ATOM_FONT,
    XCB_ATOM_INTEGER,
    XCB_ATOM_PIXMAP,
    XCB_ATOM_POINT,
    XCB_ATOM_RECTANGLE,
    XCB_ATOM_RESOURCE_MANAGER,
    XCB_ATOM_RGB_COLOR_MAP,
    XCB_ATOM_RGB_BEST_MAP,
    XCB_ATOM_RGB_BLUE_MAP,
    XCB_ATOM_RGB_DEFAULT_MAP,
    XCB_ATOM_RGB_GRAY_MAP,
    XCB_ATOM_RGB_GREEN_MAP,
    XCB_ATOM_RGB_RED_MAP,
    XCB_ATOM_STRING,
    XCB_ATOM_VISUALID,
    XCB_ATOM_WINDOW,
    XCB_ATOM_WM_COMMAND,
    XCB_ATOM_WM_HINTS,
    XCB_ATOM_WM_CLIENT_MACHINE,
    XCB_ATOM_WM_ICON_NAME,
    XCB_ATOM_WM_ICON_SIZE,
    XCB_ATOM_WM_NAME,
    XCB_ATOM_WM_NORMAL_HINTS,
    XCB_ATOM_WM_SIZE_HINTS,
    XCB_ATOM_WM_ZOOM_HINTS,
    XCB_ATOM_MIN_SPACE,
    XCB_ATOM_NORM_SPACE,
    XCB_ATOM_MAX_SPACE,
    XCB_ATOM_END_SPACE,
    XCB_ATOM_SUPERSCRIPT_X,
    XCB_ATOM_SUPERSCRIPT_Y,
    XCB_ATOM_SUBSCRIPT_X,
    XCB_ATOM_SUBSCRIPT_Y,
    XCB_ATOM_UNDERLINE_POSITION,
    XCB_ATOM_UNDERLINE_THICKNESS,
    XCB_ATOM_STRIKEOUT_ASCENT,
    XCB_ATOM_STRIKEOUT_DESCENT,
    XCB_ATOM_ITALIC_ANGLE,
    XCB_ATOM_X_HEIGHT,
    XCB_ATOM_QUAD_WIDTH,
    XCB_ATOM_WEIGHT,
    XCB_ATOM_POINT_SIZE,
    XCB_ATOM_RESOLUTION,
    XCB_ATOM_COPYRIGHT,
    XCB_ATOM_NOTICE,
    XCB_ATOM_FONT_NAME,
    XCB_ATOM_FAMILY_NAME,
    XCB_ATOM_FULL_NAME,
    XCB_ATOM_CAP_HEIGHT,
    XCB_ATOM_WM_CLASS,
    XCB_ATOM_WM_TRANSIENT_FOR,
}

impl xcb_atom_enum_t {
    /// The value of the variant in the C enumeration.
    pub open spec fn spec_value(self) -> u32 {
        match self {
            xcb_atom_enum_t::XCB_ATOM_NONE => 0,
            xcb_atom_enum_t::XCB_ATOM_PRIMARY => 1,
            xcb_atom_enum_t::XCB_ATOM_SECONDARY => 2,
            xcb_atom_enum_t::XCB_ATOM_ARC => 3,
            xcb_atom_enum_t::XCB_ATOM_ATOM => 4,
            xcb_atom_enum_t::XCB_ATOM_BITMAP => 5,
            xcb_atom_enum_t::XCB_ATOM_CARDINAL => 6,
            xcb_atom_enum_t::XCB_ATOM_COLORMAP => 7,
            xcb_atom_enum_t::XCB_ATOM_CURSOR => 8,
            xcb_atom_enum_t::XCB_ATOM_CUT_BUFFER0 => 9,
            xcb_atom_enum_t::XCB_ATOM_CUT_BUFFER1 => 10,
            xcb_atom_enum_t::XCB_ATOM_CUT_BUFFER2 => 11,
            xcb_atom_enum_t::XCB_ATOM_CUT_BUFFER3 => 12,
            xcb_atom_enum_t::XCB_ATOM_CUT_BUFFER4 => 13,
            xcb_atom_enum_t::XCB_ATOM_CUT_BUFFER5 => 14,
            xcb_atom_enum_t::XCB_ATOM_CUT_BUFFER6 => 15,
            xcb_atom_enum_t::XCB_ATOM_CUT_BUFFER7 => 16,
            xcb_atom_enum_t::XCB_ATOM_DRAWABLE => 17,
            xcb_atom_enum_t::XCB_ATOM_FONT => 18,
            xcb_atom_enum_t::XCB_ATOM_INTEGER => 19,
            xcb_atom_enum_t::XCB_ATOM_PIXMAP => 20,
            xcb_atom_enum_t::XCB_ATOM_POINT => 21,
            xcb_atom_enum_t::XCB_ATOM_RECTANGLE => 22,
            xcb_atom_enum_t::XCB_ATOM_RESOURCE_MANAGER => 23,
            xcb_atom_enum_t::XCB_ATOM_RGB_COLOR_MAP => 24,
            xcb_atom_enum_t::XCB_ATOM_RGB_BEST_MAP => 25,
            xcb_atom_enum_t::XCB_ATOM_RGB_BLUE_MAP => 26,
            xcb_atom_enum_t::XCB_ATOM_RGB_DEFAULT_MAP => 27,
            xcb_atom_enum_t::XCB_ATOM_RGB_GRAY_MAP => 28,
            xcb_atom_enum_t::XCB_ATOM_RGB_GREEN_MAP => 29,
            xcb_atom_enum_t::XCB_ATOM_RGB_RED_MAP => 30,
            xcb_atom_enum_t::XCB_ATOM_STRING => 31,
            xcb_atom_enum_t::XCB_ATOM_VISUALID => 32,
            xcb_atom_enum_t::XCB_ATOM_WINDOW => 33,
            xcb_atom_enum_t::XCB_ATOM_WM_COMMAND => 34,
            xcb_atom_enum_t::XCB_ATOM_WM_HINTS => 35,
            xcb_atom_enum_t::XCB_ATOM_WM_CLIENT_MACHINE => 36,
            xcb_atom_enum_t::XCB_ATOM_WM_ICON_NAME => 37,
            xcb_atom_enum_t::XCB_ATOM_WM_ICON_SIZE => 38,
            xcb_atom_enum_t::XCB_ATOM_WM_NAME => 39,
            xcb_atom_enum_t::XCB_ATOM_WM_NORMAL_HINTS => 40,
            xcb_atom_enum_t::XCB_ATOM_WM_SIZE_HINTS => 41,
            xcb_atom_enum_t::XCB_ATOM_WM_ZOOM_HINTS => 42,
            xcb_atom_enum_t::XCB_ATOM_MIN_SPACE => 43,
            xcb_atom_enum_t::XCB_ATOM_NORM_SPACE => 44,
            xcb_atom_enum_t::XCB_ATOM_MAX_SPACE => 45,
            xcb_atom_enum_t::XCB_ATOM_END_SPACE => 46,
            xcb_atom_enum_t::XCB_ATOM_SUPERSCRIPT_X => 47,
            xcb_atom_enum_t::XCB_ATOM_SUPERSCRIPT_Y => 48,
            xcb_atom_enum_t::XCB_ATOM_SUBSCRIPT_X => 49,
            xcb_atom_enum_t::XCB_ATOM_SUBSCRIPT_Y => 50,
            xcb_atom_enum_t::XCB_ATOM_UNDERLINE_POSITION => 51,
            xcb_atom_enum_t::XCB_ATOM_UNDERLINE_THICKNESS => 52,
            xcb_atom_enum_t::XCB_ATOM_STRIKEOUT_ASCENT => 53,
            xcb_atom_enum_t::XCB_ATOM_STRIKEOUT_DESCENT => 54,
            xcb_atom_enum_t::XCB_ATOM_ITALIC_ANGLE => 55,
            xcb_atom_enum_t::XCB_ATOM_X_HEIGHT => 56,
            xcb_atom_enum_t::XCB_ATOM_QUAD_WIDTH => 57,
            xcb_atom_enum_t::XCB_ATOM_WEIGHT => 58,
            xcb_atom_enum_t::XCB_ATOM_POINT_SIZE => 59,
            xcb_atom_enum_t::XCB_ATOM_RESOLUTION => 60,
            xcb_atom_enum_t::XCB_ATOM_COPYRIGHT => 61,
            xcb_atom_enum_t::XCB_ATOM_NOTICE => 62,
            xcb_atom_enum_t::XCB_ATOM_FONT_NAME => 63,
            xcb_atom_enum_t::XCB_ATOM_FAMILY_NAME => 64,
            xcb_atom_enum_t::XCB_ATOM_FULL_NAME => 65,
            xcb_atom_enum_t::XCB_ATOM_CAP_HEIGHT => 66,
            xcb_atom_enum_t::XCB_ATOM_WM_CLASS => 67,
            xcb_atom_enum_t::XCB_ATOM_WM_TRANSIENT_FOR => 68,
        }
    }

    /// The value of the variant in the C enumeration.
    pub fn value(&self) -> (v: u32)
        ensures
            v == self.spec_value(),
    {
        match self {
            xcb_atom_enum_t::XCB_ATOM_NONE => 0,
            xcb_atom_enum_t::XCB_ATOM_PRIMARY => 1,
            xcb_atom_enum_t::XCB_ATOM_SECONDARY => 2,
            xcb_atom_enum_t::XCB_ATOM_ARC => 3,
            xcb_atom_enum_t::XCB_ATOM_ATOM => 4,
            xcb_atom_enum_t::XCB_ATOM_BITMAP => 5,
            xcb_atom_enum_t::XCB_ATOM_CARDINAL => 6,
            xcb_atom_enum_t::XCB_ATOM_COLORMAP => 7,
            xcb_atom_enum_t::XCB_ATOM_CURSOR => 8,
            xcb_atom_enum_t::XCB_ATOM_CUT_BUFFER0 => 9,
            xcb_atom_enum_t::XCB_ATOM_CUT_BUFFER1 => 10,
            xcb_atom_enum_t::XCB_ATOM_CUT_BUFFER2 => 11,
            xcb_atom_enum_t::XCB_ATOM_CUT_BUFFER3 => 12,
            xcb_atom_enum_t::XCB_ATOM_CUT_BUFFER4 => 13,
            xcb_atom_enum_t::XCB_ATOM_CUT_BUFFER5 => 14,
            xcb_atom_enum_t::XCB_ATOM_CUT_BUFFER6 => 15,
            xcb_atom_enum_t::XCB_ATOM_CUT_BUFFER7 => 16,
            xcb_atom_enum_t::XCB_ATOM_DRAWABLE => 17,
            xcb_atom_enum_t::XCB_ATOM_FONT => 18,
            xcb_atom_enum_t::XCB_ATOM_INTEGER => 19,
            xcb_atom_enum_t::XCB_ATOM_PIXMAP => 20,
            xcb_atom_enum_t::XCB_ATOM_POINT => 21,
            xcb_atom_enum_t::XCB_ATOM_RECTANGLE => 22,
            xcb_atom_enum_t::XCB_ATOM_RESOURCE_MANAGER => 23,
            xcb_atom_enum_t::XCB_ATOM_RGB_COLOR_MAP => 24,
            xcb_atom_enum_t::XCB_ATOM_RGB_BEST_MAP => 25,
            xcb_atom_enum_t::XCB_ATOM_RGB_BLUE_MAP => 26,
            xcb_atom_enum_t::XCB_ATOM_RGB_DEFAULT_MAP => 27,
            xcb_atom_enum_t::XCB_ATOM_RGB_GRAY_MAP => 28,
            xcb_atom_enum_t::XCB_ATOM_RGB_GREEN_MAP => 29,
            xcb_atom_enum_t::XCB_ATOM_RGB_RED_MAP => 30,
            xcb_atom_enum_t::XCB_ATOM_STRING => 31,
            xcb_atom_enum_t::XCB_ATOM_VISUALID => 32,
            xcb_atom_enum_t::XCB_ATOM_WINDOW => 33,
            xcb_atom_enum_t::XCB_ATOM_WM_COMMAND => 34,
            xcb_atom_enum_t::XCB_ATOM_WM_HINTS => 35,
            xcb_atom_enum_t::XCB_ATOM_WM_CLIENT_MACHINE => 36,
            xcb_atom_enum_t::XCB_ATOM_WM_ICON_NAME => 37,
            xcb_atom_enum_t::XCB_ATOM_WM_ICON_SIZE => 38,
            xcb_atom_enum_t::XCB_ATOM_WM_NAME => 39,
            xcb_atom_enum_t::XCB_ATOM_WM_NORMAL_HINTS => 40,
            xcb_atom_enum_t::XCB_ATOM_WM_SIZE_HINTS => 41,
            xcb_atom_enum_t::XCB_ATOM_WM_ZOOM_HINTS => 42,
            xcb_atom_enum_t::XCB_ATOM_MIN_SPACE => 43,
            xcb_atom_enum_t::XCB_ATOM_NORM_SPACE => 44,
            xcb_atom_enum_t::XCB_ATOM_MAX_SPACE => 45,
            xcb_atom_enum_t::XCB_ATOM_END_SPACE => 46,
            xcb_atom_enum_t::XCB_ATOM_SUPERSCRIPT_X => 47,
            xcb_atom_enum_t::XCB_ATOM_SUPERSCRIPT_Y => 48,
            xcb_atom_enum_t::XCB_ATOM_SUBSCRIPT_X => 49,
            xcb_atom_enum_t::XCB_ATOM_SUBSCRIPT_Y => 50,
            xcb_atom_enum_t::XCB_ATOM_UNDERLINE_POSITION => 51,
            xcb_atom_enum_t::XCB_ATOM_UNDERLINE_THICKNESS => 52,
            xcb_atom_enum_t::XCB_ATOM_STRIKEOUT_ASCENT => 53,
            xcb_atom_enum_t::XCB_ATOM_STRIKEOUT_DESCENT => 54,
            xcb_atom_enum_t::XCB_ATOM_ITALIC_ANGLE => 55,
            xcb_atom_enum_t::XCB_ATOM_X_HEIGHT => 56,
            xcb_atom_enum_t::XCB_ATOM_QUAD_WIDTH => 57,
            xcb_atom_enum_t::XCB_ATOM_WEIGHT => 58,
            xcb_atom_enum_t::XCB_ATOM_POINT_SIZE => 59,
            xcb_atom_enum_t::XCB_ATOM_RESOLUTION => 60,
            xcb_atom_enum_t::XCB_ATOM_COPYRIGHT => 61,
            xcb_atom_enum_t::XCB_ATOM_NOTICE => 62,
            xcb_atom_enum_t::XCB_ATOM_FONT_NAME => 63,
            xcb_atom_enum_t::XCB_ATOM_FAMILY_NAME => 64,
            xcb_atom_enum_t::XCB_ATOM_FULL_NAME => 65,
            xcb_atom_enum_t::XCB_ATOM_CAP_HEIGHT => 66,
            xcb_atom_enum_t::XCB_ATOM_WM_CLASS => 67,
            xcb_atom_enum_t::XCB_ATOM_WM_TRANSIENT_FOR => 68,
        }
    }
}

/// The C enumeration `xcb_colormap_state_t`.
#[derive(PartialEq, Eq, Structural, Clone, Copy, Debug)]
pub enum xcb_colormap_state_t {
    XCB_COLORMAP_STATE_UNINSTALLED,
    XCB_COLORMAP_STATE_INSTALLED,
}

impl xcb_colormap_state_t {
    /// The value of the variant in the C enumeration.
    pub open spec fn spec_value(self) -> u32 {
        match self {
            xcb_colormap_state_t::XCB_COLORMAP_STATE_UNINSTALLED => 0,
            xcb_colormap_state_t::XCB_COLORMAP_STATE_INSTALLED => 1,
        }
    }

    /// The value of the variant in the C enumeration.
    pub fn value(&self) -> (v: u32)
        ensures
            v == self.spec_value(),
    {
        match self {
            xcb_colormap_state_t::XCB_COLORMAP_STATE_UNINSTALLED => 0,
            xcb_colormap_state_t::XCB_COLORMAP_STATE_INSTALLED => 1,
        }
    }
}

/// The C enumeration `xcb_colormap_enum_t`.
#[derive(PartialEq, Eq, Structural, Clone, Copy, Debug)]
pub enum xcb_colormap_enum_t {
    XCB_COLORMAP_NONE,
}

impl xcb_colormap_enum_t {
    /// The value of the variant in the C enumeration.
    pub open spec fn spec_value(self) -> u32 {
        match self {
            xcb_colormap_enum_t::XCB_COLORMAP_NONE => 0,
        }
    }

    /// The value of the variant in the C enumeration.
    pub fn value(&self) -> (v: u32)
        ensures
            v == self.spec_value(),
    {
        match self {
            xcb_colormap_enum_t::XCB_COLORMAP_NONE => 0,
        }
    }
}

/// The C enumeration `xcb_mapping_t`.
#[derive(PartialEq, Eq, Structural, Clone, Copy, Debug)]
pub enum xcb_mapping_t {
    XCB_MAPPING_MODIFIER,
    XCB_MAPPING_KEYBOARD,
    XCB_MAPPING_POINTER,
}

impl xcb_mapping_t {
    /// The value of the variant in the C enumeration.
    pub open spec fn spec_value(self) -> u32 {
        match self {
            xcb_mapping_t::XCB_MAPPING_MODIFIER => 0,
            xcb_mapping_t::XCB_MAPPING_KEYBOARD => 1,
            xcb_mapping_t::XCB_MAPPING_POINTER => 2,
        }
    }

    /// The value of the variant in the C enumeration.
    pub fn value(&self) -> (v: u32)
        ensures
            v == self.spec_value(),
    {
        match self {
            xcb_mapping_t::XCB_MAPPING_MODIFIER => 0,
            xcb_mapping_t::XCB_MAPPING_KEYBOARD => 1,
            xcb_mapping_t::XCB_MAPPING_POINTER => 2,
        }
    }
}

/// The C enumeration `xcb_window_class_t`.
#[derive(PartialEq, Eq, Structural, Clone, Copy, Debug)]
pub enum xcb_window_class_t {
    XCB_WINDOW_CLASS_COPY_FROM_PARENT,
    XCB_WINDOW_CLASS_INPUT_OUTPUT,
    XCB_WINDOW_CLASS_INPUT_ONLY,
}

impl xcb_window_class_t {
    /// The value of the variant in the C enumeration.
    pub open spec fn spec_value(self) -> u32 {
        match self {
            xcb_window_class_t::XCB_WINDOW_CLASS_COPY_FROM_PARENT => 0,
            xcb_window_class_t::XCB_WINDOW_CLASS_INPUT_OUTPUT => 1,
            xcb_window_class_t::XCB_WINDOW_CLASS_INPUT_ONLY => 2,
        }
    }

    /// The value of the variant in the C enumeration.
    pub fn value(&self) -> (v: u32)
        ensures
            v == self.spec_value(),
    {
        match self {
            xcb_window_class_t::XCB_WINDOW_CLASS_COPY_FROM_PARENT => 0,
            xcb_window_class_t::XCB_WINDOW_CLASS_INPUT_OUTPUT => 1,
            xcb_window_class_t::XCB_WINDOW_CLASS_INPUT_ONLY => 2,
        }
    }
}

/// The C enumeration `xcb_cw_t`.
#[derive(PartialEq, Eq, Structural, Clone, Copy, Debug)]
pub enum xcb_cw_t {
    XCB_CW_BACK_PIXMAP,
    XCB_CW_BACK_PIXEL,
    XCB_CW_BORDER_PIXMAP,
    XCB_CW_BORDER_PIXEL,
    XCB_CW_BIT_GRAVITY,
    XCB_CW_WIN_GRAVITY,
    XCB_CW_BACKING_STORE,
    XCB_CW_BACKING_PLANES,
    XCB_CW_BACKING_PIXEL,
    XCB_CW_OVERRIDE_REDIRECT,
    XCB_CW_SAVE_UNDER,
    XCB_CW_EVENT_MASK,
    XCB_CW_DONT_PROPAGATE,
    XCB_CW_COLORMAP,
    XCB_CW_CURSOR,
}

impl xcb_cw_t {
    /// The value of the variant in the C enumeration.
    pub open spec fn spec_value(self) -> u32 {
        match self {
            xcb_cw_t::XCB_CW_BACK_PIXMAP => 1,
            xcb_cw_t::XCB_CW_BACK_PIXEL => 2,
            xcb_cw_t::XCB_CW_BORDER_PIXMAP => 4,
            xcb_cw_t::XCB_CW_BORDER_PIXEL => 8,
            xcb_cw_t::XCB_CW_BIT_GRAVITY => 16,
            xcb_cw_t::XCB_CW_WIN_GRAVITY => 32,
            xcb_cw_t::XCB_CW_BACKING_STORE => 64,
            xcb_cw_t::XCB_CW_BACKING_PLANES => 128,
            xcb_cw_t::XCB_CW_BACKING_PIXEL => 256,
            xcb_cw_t::XCB_CW_OVERRIDE_REDIRECT => 512,
            xcb_cw_t::XCB_CW_SAVE_UNDER => 1024,
            xcb_cw_t::XCB_CW_EVENT_MASK => 2048,
            xcb_cw_t::XCB_CW_DONT_PROPAGATE => 4096,
            xcb_cw_t::XCB_CW_COLORMAP => 8192,
            xcb_cw_t::XCB_CW_CURSOR => 16384,
        }
    }

    /// The value of the variant in the C enumeration.
    pub fn value(&self) -> (v: u32)
        ensures
            v == self.spec_value(),
    {
        match self {
            xcb_cw_t::XCB_CW_BACK_PIXMAP => 1,
            xcb_cw_t::XCB_CW_BACK_PIXEL => 2,
            xcb_cw_t::XCB_CW_BORDER_PIXMAP => 4,
            xcb_cw_t::XCB_CW_BORDER_PIXEL => 8,
            xcb_cw_t::XCB_CW_BIT_GRAVITY => 16,
            xcb_cw_t::XCB_CW_WIN_GRAVITY => 32,
            xcb_cw_t::XCB_CW_BACKING_STORE => 64,
            xcb_cw_t::XCB_CW_BACKING_PLANES => 128,
            xcb_cw_t::XCB_CW_BACKING_PIXEL => 256,
            xcb_cw_t::XCB_CW_OVERRIDE_REDIRECT => 512,
            xcb_cw_t::XCB_CW_SAVE_UNDER => 1024,
            xcb_cw_t::XCB_CW_EVENT_MASK => 2048,
            xcb_cw_t::XCB_CW_DONT_PROPAGATE => 4096,
            xcb_cw_t::XCB_CW_COLORMAP => 8192,
            xcb_cw_t::XCB_CW_CURSOR => 16384,
        }
    }
}

/// The C enumeration `xcb_back_pixmap_t`.
#[derive(PartialEq, Eq, Structural, Clone, Copy, Debug)]
pub enum xcb_back_pixmap_t {
    XCB_BACK_PIXMAP_NONE,
    XCB_BACK_PIXMAP_PARENT_RELATIVE,
}

impl xcb_back_pixmap_t {
    /// The value of the variant in the C enumeration.
    pub open spec fn spec_value(self) -> u32 {
        match self {
            xcb_back_pixmap_t::XCB_BACK_PIXMAP_NONE => 0,
            xcb_back_pixmap_t::XCB_BACK_PIXMAP_PARENT_RELATIVE => 1,
        }
    }

    /// The value of the variant in the C enumeration.
    pub fn value(&self) -> (v: u32)
        ensures
            v == self.spec_value(),
    {
        match self {
            xcb_back_pixmap_t::XCB_BACK_PIXMAP_NONE => 0,
            xcb_back_pixmap_t::XCB_BACK_PIXMAP_PARENT_RELATIVE => 1,
        }
    }
}

/// The C enumeration `xcb_gravity_t`.
#[derive(PartialEq, Eq, Structural, Clone, Copy, Debug)]
pub enum xcb_gravity_t {
    XCB_GRAVITY_BIT_FORGET,
    XCB_GRAVITY_NORTH_WEST,
    XCB_GRAVITY_NORTH,
    XCB_GRAVITY_NORTH_EAST,
    XCB_GRAVITY_WEST,
    XCB_GRAVITY_CENTER,
    XCB_GRAVITY_EAST,
    XCB_GRAVITY_SOUTH_WEST,
    XCB_GRAVITY_SOUTH,
    XCB_GRAVITY_SOUTH_EAST,
    XCB_GRAVITY_STATIC,
}

impl xcb_gravity_t {
    /// The value of the variant in the C enumeration.
    pub open spec fn spec_value(self) -> u32 {
        match self {
            xcb_gravity_t::XCB_GRAVITY_BIT_FORGET => 0,
            xcb_gravity_t::XCB_GRAVITY_NORTH_WEST => 1,
            xcb_gravity_t::XCB_GRAVITY_NORTH => 2,
            xcb_gravity_t::XCB_GRAVITY_NORTH_EAST => 3,
            xcb_gravity_t::XCB_GRAVITY_WEST => 4,
            xcb_gravity_t::XCB_GRAVITY_CENTER => 5,
            xcb_gravity_t::XCB_GRAVITY_EAST => 6,
            xcb_gravity_t::XCB_GRAVITY_SOUTH_WEST => 7,
            xcb_gravity_t::XCB_GRAVITY_SOUTH => 8,
            xcb_gravity_t::XCB_GRAVITY_SOUTH_EAST => 9,
            xcb_gravity_t::XCB_GRAVITY_STATIC => 10,
        }
    }

    /// The value of the variant in the C enumeration.
    pub fn value(&self) -> (v: u32)
        ensures
            v == self.spec_value(),
    {
        match self {
            xcb_gravity_t::XCB_GRAVITY_BIT_FORGET => 0,
            xcb_gravity_t::XCB_GRAVITY_NORTH_WEST => 1,
            xcb_gravity_t::XCB_GRAVITY_NORTH => 2,
            xcb_gravity_t::XCB_GRAVITY_NORTH_EAST => 3,
            xcb_gravity_t::XCB_GRAVITY_WEST => 4,
            xcb_gravity_t::XCB_GRAVITY_CENTER => 5,
            xcb_gravity_t::XCB_GRAVITY_EAST => 6,
            xcb_gravity_t::XCB_GRAVITY_SOUTH_WEST => 7,
            xcb_gravity_t::XCB_GRAVITY_SOUTH => 8,
            xcb_gravity_t::XCB_GRAVITY_SOUTH_EAST => 9,
            xcb_gravity_t::XCB_GRAVITY_STATIC => 10,
        }
    }
}

/// The C enumeration `xcb_map_state_t`.
#[derive(PartialEq, Eq, Structural, Clone, Copy, Debug)]
pub enum xcb_map_state_t {
    XCB_MAP_STATE_UNMAPPED,
    XCB_MAP_STATE_UNVIEWABLE,
    XCB_MAP_STATE_VIEWABLE,
}

impl xcb_map_state_t {
    /// The value of the variant in the C enumeration.
    pub open spec fn spec_value(self) -> u32 {
        match self {
            xcb_map_state_t::XCB_MAP_STATE_UNMAPPED => 0,
            xcb_map_state_t::XCB_MAP_STATE_UNVIEWABLE => 1,
            xcb_map_state_t::XCB_MAP_STATE_VIEWABLE => 2,
        }
    }

    /// The value of the variant in the C enumeration.
    pub fn value(&self) -> (v: u32)
        ensures
            v == self.spec_value(),
    {
        match self {
            xcb_map_state_t::XCB_MAP_STATE_UNMAPPED => 0,
            xcb_map_state_t::XCB_MAP_STATE_UNVIEWABLE => 1,
            xcb_map_state_t::XCB_MAP_STATE_VIEWABLE => 2,
        }
    }
}

/// The C enumeration `xcb_set_mode_t`.
#[derive(PartialEq, Eq, Structural, Clone, Copy, Debug)]
pub enum xcb_set_mode_t {
    XCB_SET_MODE_INSERT,
    XCB_SET_MODE_DELETE,
}

impl xcb_set_mode_t {
    /// The value of the variant in the C enumeration.
    pub open spec fn spec_value(self) -> u32 {
        match self {
            xcb_set_mode_t::XCB_SET_MODE_INSERT => 0,
            xcb_set_mode_t::XCB_SET_MODE_DELETE => 1,
        }
    }

    /// The value of the variant in the C enumeration.
    pub fn value(&self) -> (v: u32)
        ensures
            v == self.spec_value(),
    {
        match self {
            xcb_set_mode_t::XCB_SET_MODE_INSERT => 0,
            xcb_set_mode_t::XCB_SET_MODE_DELETE => 1,
        }
    }
}

/// The C enumeration `xcb_config_window_t`.
#[derive(PartialEq, Eq, Structural, Clone, Copy, Debug)]
pub enum xcb_config_window_t {
    XCB_CONFIG_WINDOW_X,
    XCB_CONFIG_WINDOW_Y,
    XCB_CONFIG_WINDOW_WIDTH,
    XCB_CONFIG_WINDOW_HEIGHT,
    XCB_CONFIG_WINDOW_BORDER_WIDTH,
    XCB_CONFIG_WINDOW_SIBLING,
    XCB_CONFIG_WINDOW_STACK_MODE,
}

impl xcb_config_window_t {
    /// The value of the variant in the C enumeration.
    pub open spec fn spec_value(self) -> u32 {
        match self {
            xcb_config_window_t::XCB_CONFIG_WINDOW_X => 1,
            xcb_config_window_t::XCB_CONFIG_WINDOW_Y => 2,
            xcb_config_window_t::XCB_CONFIG_WINDOW_WIDTH => 4,
            xcb_config_window_t::XCB_CONFIG_WINDOW_HEIGHT => 8,
            xcb_config_window_t::XCB_CONFIG_WINDOW_BORDER_WIDTH => 16,
            xcb_config_window_t::XCB_CONFIG_WINDOW_SIBLING => 32,
            xcb_config_window_t::XCB_CONFIG_WINDOW_STACK_MODE => 64,
        }
    }

    /// The value of the variant in the C enumeration.
    pub fn value(&self) -> (v: u32)
        ensures
            v == self.spec_value(),
    {
        match self {
            xcb_config_window_t::XCB_CONFIG_WINDOW_X => 1,
            xcb_config_window_t::XCB_CONFIG_WINDOW_Y => 2,
            xcb_config_window_t::XCB_CONFIG_WINDOW_WIDTH => 4,
            xcb_config_window_t::XCB_CONFIG_WINDOW_HEIGHT => 8,
            xcb_config_window_t::XCB_CONFIG_WINDOW_BORDER_WIDTH => 16,
            xcb_config_window_t::XCB_CONFIG_WINDOW_SIBLING => 32,
            xcb_config_window_t::XCB_CONFIG_WINDOW_STACK_MODE => 64,
        }
    }
}

/// The C enumeration `xcb_stack_mode_t`.
#[derive(PartialEq, Eq, Structural, Clone, Copy, Debug)]
pub enum xcb_stack_mode_t {
    XCB_STACK_MODE_ABOVE,
    XCB_STACK_MODE_BELOW,
    XCB_STACK_MODE_TOP_IF,
    XCB_STACK_MODE_BOTTOM_IF,
    XCB_STACK_MODE_OPPOSITE,
}

impl xcb_stack_mode_t {
    /// The value of the variant in the C enumeration.
    pub open spec fn spec_value(self) -> u32 {
        match self {
            xcb_stack_mode_t::XCB_STACK_MODE_ABOVE => 0,
            xcb_stack_mode_t::XCB_STACK_MODE_BELOW => 1,
            xcb_stack_mode_t::XCB_STACK_MODE_TOP_IF => 2,
            xcb_stack_mode_t::XCB_STACK_MODE_BOTTOM_IF => 3,
            xcb_stack_mode_t::XCB_STACK_MODE_OPPOSITE => 4,
        }
    }

    /// The value of the variant in the C enumeration.
    pub fn value(&self) -> (v: u32)
        ensures
            v == self.spec_value(),
    {
        match self {
            xcb_stack_mode_t::XCB_STACK_MODE_ABOVE => 0,
            xcb_stack_mode_t::XCB_STACK_MODE_BELOW => 1,
            xcb_stack_mode_t::XCB_STACK_MODE_TOP_IF => 2,
            xcb_stack_mode_t::XCB_STACK_MODE_BOTTOM_IF => 3,
            xcb_stack_mode_t::XCB_STACK_MODE_OPPOSITE => 4,
        }
    }
}

/// The C enumeration `xcb_circulate_t`.
#[derive(PartialEq, Eq, Structural, Clone, Copy, Debug)]
pub enum xcb_circulate_t {
    XCB_CIRCULATE_RAISE_LOWEST,
    XCB_CIRCULATE_LOWER_HIGHEST,
}

impl xcb_circulate_t {
    /// The value of the variant in the C enumeration.
    pub open spec fn spec_value(self) -> u32 {
        match self {
            xcb_circulate_t::XCB_CIRCULATE_RAISE_LOWEST => 0,
            xcb_circulate_t::XCB_CIRCULATE_LOWER_HIGHEST => 1,
        }
    }

    /// The value of the variant in the C enumeration.
    pub fn value(&self) -> (v: u32)
        ensures
            v == self.spec_value(),
    {
        match self {
            xcb_circulate_t::XCB_CIRCULATE_RAISE_LOWEST => 0,
            xcb_circulate_t::XCB_CIRCULATE_LOWER_HIGHEST => 1,
        }
    }
}

/// The C enumeration `xcb_prop_mode_t`.
#[derive(PartialEq, Eq, Structural, Clone, Copy, Debug)]
pub enum xcb_prop_mode_t {
    XCB_PROP_MODE_REPLACE,
    XCB_PROP_MODE_PREPEND,
    XCB_PROP_MODE_APPEND,
}

impl xcb_prop_mode_t {
    /// The value of the variant in the C enumeration.
    pub open spec fn spec_value(self) -> u32 {
        match self {
            xcb_prop_mode_t::XCB_PROP_MODE_REPLACE => 0,
            xcb_prop_mode_t::XCB_PROP_MODE_PREPEND => 1,
            xcb_prop_mode_t::XCB_PROP_MODE_APPEND => 2,
        }
    }

    /// The value of the variant in the C enumeration.
    pub fn value(&self) -> (v: u32)
        ensures
            v == self.spec_value(),
    {
        match self {
            xcb_prop_mode_t::XCB_PROP_MODE_REPLACE => 0,
            xcb_prop_mode_t::XCB_PROP_MODE_PREPEND => 1,
            xcb_prop_mode_t::XCB_PROP_MODE_APPEND => 2,
        }
    }
}

/// The C enumeration `xcb_get_property_type_t`.
#[derive(PartialEq, Eq, Structural, Clone, Copy, Debug)]
pub enum xcb_get_property_type_t {
    XCB_GET_PROPERTY_TYPE_ANY,
}

impl xcb_get_property_type_t {
    /// The value of the variant in the C enumeration.
    pub open spec fn spec_value(self) -> u32 {
        match self {
            xcb_get_property_type_t::XCB_GET_PROPERTY_TYPE_ANY => 0,
        }
    }

    /// The value of the variant in the C enumeration.
    pub fn value(&self) -> (v: u32)
        ensures
            v == self.spec_value(),
    {
        match self {
            xcb_get_property_type_t::XCB_GET_PROPERTY_TYPE_ANY => 0,
        }
    }
}

/// The C enumeration `xcb_send_event_dest_t`.
#[derive(PartialEq, Eq, Structural, Clone, Copy, Debug)]
pub enum xcb_send_event_dest_t {
    XCB_SEND_EVENT_DEST_POINTER_WINDOW,
    XCB_SEND_EVENT_DEST_ITEM_FOCUS,
}

impl xcb_send_event_dest_t {
    /// The value of the variant in the C enumeration.
    pub open spec fn spec_value(self) -> u32 {
        match self {
            xcb_send_event_dest_t::XCB_SEND_EVENT_DEST_POINTER_WINDOW => 0,
            xcb_send_event_dest_t::XCB_SEND_EVENT_DEST_ITEM_FOCUS => 1,
        }
    }

    /// The value of the variant in the C enumeration.
    pub fn value(&self) -> (v: u32)
        ensures
            v == self.spec_value(),
    {
        match self {
            xcb_send_event_dest_t::XCB_SEND_EVENT_DEST_POINTER_WINDOW => 0,
            xcb_send_event_dest_t::XCB_SEND_EVENT_DEST_ITEM_FOCUS => 1,
        }
    }
}

/// The C enumeration `xcb_grab_mode_t`.
#[derive(PartialEq, Eq, Structural, Clone, Copy, Debug)]
pub enum xcb_grab_mode_t {
    XCB_GRAB_MODE_SYNC,
    XCB_GRAB_MODE_ASYNC,
}

impl xcb_grab_mode_t {
    /// The value of the variant in the C enumeration.
    pub open spec fn spec_value(self) -> u32 {
        match self {
            xcb_grab_mode_t::XCB_GRAB_MODE_SYNC => 0,
            xcb_grab_mode_t::XCB_GRAB_MODE_ASYNC => 1,
        }
    }

    /// The value of the variant in the C enumeration.
    pub fn value(&self) -> (v: u32)
        ensures
            v == self.spec_value(),
    {
        match self {
            xcb_grab_mode_t::XCB_GRAB_MODE_SYNC => 0,
            xcb_grab_mode_t::XCB_GRAB_MODE_ASYNC => 1,
        }
    }
}

/// The C enumeration `xcb_grab_status_t`.
#[derive(PartialEq, Eq, Structural, Clone, Copy, Debug)]
pub enum xcb_grab_status_t {
    XCB_GRAB_STATUS_SUCCESS,
    XCB_GRAB_STATUS_ALREADY_GRABBED,
    XCB_GRAB_STATUS_INVALID_TIME,
    XCB_GRAB_STATUS_NOT_VIEWABLE,
    XCB_GRAB_STATUS_FROZEN,
}

impl xcb_grab_status_t {
    /// The value of the variant in the C enumeration.
    pub open spec fn spec_value(self) -> u32 {
        match self {
            xcb_grab_status_t::XCB_GRAB_STATUS_SUCCESS => 0,
            xcb_grab_status_t::XCB_GRAB_STATUS_ALREADY_GRABBED => 1,
            xcb_grab_status_t::XCB_GRAB_STATUS_INVALID_TIME => 2,
            xcb_grab_status_t::XCB_GRAB_STATUS_NOT_VIEWABLE => 3,
            xcb_grab_status_t::XCB_GRAB_STATUS_FROZEN => 4,
        }
    }

    /// The value of the variant in the C enumeration.
    pub fn value(&self) -> (v: u32)
        ensures
            v == self.spec_value(),
    {
        match self {
            xcb_grab_status_t::XCB_GRAB_STATUS_SUCCESS => 0,
            xcb_grab_status_t::XCB_GRAB_STATUS_ALREADY_GRABBED => 1,
            xcb_grab_status_t::XCB_GRAB_STATUS_INVALID_TIME => 2,
            xcb_grab_status_t::XCB_GRAB_STATUS_NOT_VIEWABLE => 3,
            xcb_grab_status_t::XCB_GRAB_STATUS_FROZEN => 4,
        }
    }
}

/// The C enumeration `xcb_cursor_enum_t`.
#[derive(PartialEq, Eq, Structural, Clone, Copy, Debug)]
pub enum xcb_cursor_enum_t {
    XCB_CURSOR_NONE,
}

impl xcb_cursor_enum_t {
    /// The value of the variant in the C enumeration.
    pub open spec fn spec_value(self) -> u32 {
        match self {
            xcb_cursor_enum_t::XCB_CURSOR_NONE => 0,
        }
    }

    /// The value of the variant in the C enumeration.
    pub fn value(&self) -> (v: u32)
        ensures
            v == self.spec_value(),
    {
        match self {
            xcb_cursor_enum_t::XCB_CURSOR_NONE => 0,
        }
    }
}

/// The C enumeration `xcb_button_index_t`.
#[derive(PartialEq, Eq, Structural, Clone, Copy, Debug)]
pub enum xcb_button_index_t {
    XCB_BUTTON_INDEX_ANY,
    XCB_BUTTON_INDEX_1,
    XCB_BUTTON_INDEX_2,
    XCB_BUTTON_INDEX_3,
    XCB_BUTTON_INDEX_4,
    XCB_BUTTON_INDEX_5,
}

impl xcb_button_index_t {
    /// The value of the variant in the C enumeration.
    pub open spec fn spec_value(self) -> u32 {
        match self {
            xcb_button_index_t::XCB_BUTTON_INDEX_ANY => 0,
            xcb_button_index_t::XCB_BUTTON_INDEX_1 => 1,
            xcb_button_index_t::XCB_BUTTON_INDEX_2 => 2,
            xcb_button_index_t::XCB_BUTTON_INDEX_3 => 3,
            xcb_button_index_t::XCB_BUTTON_INDEX_4 => 4,
            xcb_button_index_t::XCB_BUTTON_INDEX_5 => 5,
        }
    }

    /// The value of the variant in the C enumeration.
    pub fn value(&self) -> (v: u32)
        ensures
            v == self.spec_value(),
    {
        match self {
            xcb_button_index_t::XCB_BUTTON_INDEX_ANY => 0,
            xcb_button_index_t::XCB_BUTTON_INDEX_1 => 1,
            xcb_button_index_t::XCB_BUTTON_INDEX_2 => 2,
            xcb_button_index_t::XCB_BUTTON_INDEX_3 => 3,
            xcb_button_index_t::XCB_BUTTON_INDEX_4 => 4,
            xcb_button_index_t::XCB_BUTTON_INDEX_5 => 5,
        }
    }
}

/// The C enumeration `xcb_grab_t`.
#[derive(PartialEq, Eq, Structural, Clone, Copy, Debug)]
pub enum xcb_grab_t {
    XCB_GRAB_ANY,
}

impl xcb_grab_t {
    /// The value of the variant in the C enumeration.
    pub open spec fn spec_value(self) -> u32 {
        match self {
            xcb_grab_t::XCB_GRAB_ANY => 0,
        }
    }

    /// The value of the variant in the C enumeration.
    pub fn value(&self) -> (v: u32)
        ensures
            v == self.spec_value(),
    {
        match self {
            xcb_grab_t::XCB_GRAB_ANY => 0,
        }
    }
}

/// The C enumeration `xcb_allow_t`.
#[derive(PartialEq, Eq, Structural, Clone, Copy, Debug)]
pub enum xcb_allow_t {
    XCB_ALLOW_ASYNC_POINTER,
    XCB_ALLOW_SYNC_POINTER,
    XCB_ALLOW_REPLAY_POINTER,
    XCB_ALLOW_ASYNC_KEYBOARD,
    XCB_ALLOW_SYNC_KEYBOARD,
    XCB_ALLOW_REPLAY_KEYBOARD,
    XCB_ALLOW_ASYNC_BOTH,
    XCB_ALLOW_SYNC_BOTH,
}

impl xcb_allow_t {
    /// The value of the variant in the C enumeration.
    pub open spec fn spec_value(self) -> u32 {
        match self {
            xcb_allow_t::XCB_ALLOW_ASYNC_POINTER => 0,
            xcb_allow_t::XCB_ALLOW_SYNC_POINTER => 1,
            xcb_allow_t::XCB_ALLOW_REPLAY_POINTER => 2,
            xcb_allow_t::XCB_ALLOW_ASYNC_KEYBOARD => 3,
            xcb_allow_t::XCB_ALLOW_SYNC_KEYBOARD => 4,
            xcb_allow_t::XCB_ALLOW_REPLAY_KEYBOARD => 5,
            xcb_allow_t::XCB_ALLOW_ASYNC_BOTH => 6,
            xcb_allow_t::XCB_ALLOW_SYNC_BOTH => 7,
        }
    }

    /// The value of the variant in the C enumeration.
    pub fn value(&self) -> (v: u32)
        ensures
            v == self.spec_value(),
    {
        match self {
            xcb_allow_t::XCB_ALLOW_ASYNC_POINTER => 0,
            xcb_allow_t::XCB_ALLOW_SYNC_POINTER => 1,
            xcb_allow_t::XCB_ALLOW_REPLAY_POINTER => 2,
            xcb_allow_t::XCB_ALLOW_ASYNC_KEYBOARD => 3,
            xcb_allow_t::XCB_ALLOW_SYNC_KEYBOARD => 4,
            xcb_allow_t::XCB_ALLOW_REPLAY_KEYBOARD => 5,
            xcb_allow_t::XCB_ALLOW_ASYNC_BOTH => 6,
            xcb_allow_t::XCB_ALLOW_SYNC_BOTH => 7,
        }
    }
}

/// The C enumeration `xcb_input_focus_t`.
#[derive(PartialEq, Eq, Structural, Clone, Copy, Debug)]
pub enum xcb_input_focus_t {
    XCB_INPUT_FOCUS_NONE,
    XCB_INPUT_FOCUS_POINTER_ROOT,
    XCB_INPUT_FOCUS_PARENT,
    XCB_INPUT_FOCUS_FOLLOW_KEYBOARD,
}

impl xcb_input_focus_t {
    /// The value of the variant in the C enumeration.
    pub open spec fn spec_value(self) -> u32 {
        match self {
            xcb_input_focus_t::XCB_INPUT_FOCUS_NONE => 0,
            xcb_input_focus_t::XCB_INPUT_FOCUS_POINTER_ROOT => 1,
            xcb_input_focus_t::XCB_INPUT_FOCUS_PARENT => 2,
            xcb_input_focus_t::XCB_INPUT_FOCUS_FOLLOW_KEYBOARD => 3,
        }
    }

    /// The value of the variant in the C enumeration.
    pub fn value(&self) -> (v: u32)
        ensures
            v == self.spec_value(),
    {
        match self {
            xcb_input_focus_t::XCB_INPUT_FOCUS_NONE => 0,
            xcb_input_focus_t::XCB_INPUT_FOCUS_POINTER_ROOT => 1,
            xcb_input_focus_t::XCB_INPUT_FOCUS_PARENT => 2,
            xcb_input_focus_t::XCB_INPUT_FOCUS_FOLLOW_KEYBOARD => 3,
        }
    }
}

/// The C enumeration `xcb_font_draw_t`.
#[derive(PartialEq, Eq, Structural, Clone, Copy, Debug)]
pub enum xcb_font_draw_t {
    XCB_FONT_DRAW_LEFT_TO_RIGHT,
    XCB_FONT_DRAW_RIGHT_TO_LEFT,
}

impl xcb_font_draw_t {
    /// The value of the variant in the C enumeration.
    pub open spec fn spec_value(self) -> u32 {
        match self {
            xcb_font_draw_t::XCB_FONT_DRAW_LEFT_TO_RIGHT => 0,
            xcb_font_draw_t::XCB_FONT_DRAW_RIGHT_TO_LEFT => 1,
        }
    }

    /// The value of the variant in the C enumeration.
    pub fn value(&self) -> (v: u32)
        ensures
            v == self.spec_value(),
    {
        match self {
            xcb_font_draw_t::XCB_FONT_DRAW_LEFT_TO_RIGHT => 0,
            xcb_font_draw_t::XCB_FONT_DRAW_RIGHT_TO_LEFT => 1,
        }
    }
}

/// The C enumeration `xcb_gc_t`.
#[derive(PartialEq, Eq, Structural, Clone, Copy, Debug)]
pub enum xcb_gc_t {
    XCB_GC_FUNCTION,
    XCB_GC_PLANE_MASK,
    XCB_GC_FOREGROUND,
    XCB_GC_BACKGROUND,
    XCB_GC_LINE_WIDTH,
    XCB_GC_LINE_STYLE,
    XCB_GC_CAP_STYLE,
    XCB_GC_JOIN_STYLE,
    XCB_GC_FILL_STYLE,
    XCB_GC_FILL_RULE,
    XCB_GC_TILE,
    XCB_GC_STIPPLE,
    XCB_GC_TILE_STIPPLE_ORIGIN_X,
    XCB_GC_TILE_STIPPLE_ORIGIN_Y,
    XCB_GC_FONT,
    XCB_GC_SUBWINDOW_MODE,
    XCB_GC_GRAPHICS_EXPOSURES,
    XCB_GC_CLIP_ORIGIN_X,
    XCB_GC_CLIP_ORIGIN_Y,
    XCB_GC_CLIP_MASK,
    XCB_GC_DASH_OFFSET,
    XCB_GC_DASH_LIST,
    XCB_GC_ARC_MODE,
}

impl xcb_gc_t {
    /// The value of the variant in the C enumeration.
    pub open spec fn spec_value(self) -> u32 {
        match self {
            xcb_gc_t::XCB_GC_FUNCTION => 1,
            xcb_gc_t::XCB_GC_PLANE_MASK => 2,
            xcb_gc_t::XCB_GC_FOREGROUND => 4,
            xcb_gc_t::XCB_GC_BACKGROUND => 8,
            xcb_gc_t::XCB_GC_LINE_WIDTH => 16,
            xcb_gc_t::XCB_GC_LINE_STYLE => 32,
            xcb_gc_t::XCB_GC_CAP_STYLE => 64,
            xcb_gc_t::XCB_GC_JOIN_STYLE => 128,
            xcb_gc_t::XCB_GC_FILL_STYLE => 256,
            xcb_gc_t::XCB_GC_FILL_RULE => 512,
            xcb_gc_t::XCB_GC_TILE => 1024,
            xcb_gc_t::XCB_GC_STIPPLE => 2048,
            xcb_gc_t::XCB_GC_TILE_STIPPLE_ORIGIN_X => 4096,
            xcb_gc_t::XCB_GC_TILE_STIPPLE_ORIGIN_Y => 8192,
            xcb_gc_t::XCB_GC_FONT => 16384,
            xcb_gc_t::XCB_GC_SUBWINDOW_MODE => 32768,
            xcb_gc_t::XCB_GC_GRAPHICS_EXPOSURES => 65536,
            xcb_gc_t::XCB_GC_CLIP_ORIGIN_X => 131072,
            xcb_gc_t::XCB_GC_CLIP_ORIGIN_Y => 262144,
            xcb_gc_t::XCB_GC_CLIP_MASK => 524288,
            xcb_gc_t::XCB_GC_DASH_OFFSET => 1048576,
            xcb_gc_t::XCB_GC_DASH_LIST => 2097152,
            xcb_gc_t::XCB_GC_ARC_MODE => 4194304,
        }
    }

    /// The value of the variant in the C enumeration.
    pub fn value(&self) -> (v: u32)
        ensures
            v == self.spec_value(),
    {
        match self {
            xcb_gc_t::XCB_GC_FUNCTION => 1,
            xcb_gc_t::XCB_GC_PLANE_MASK => 2,
            xcb_gc_t::XCB_GC_FOREGROUND => 4,
            xcb_gc_t::XCB_GC_BACKGROUND => 8,
            xcb_gc_t::XCB_GC_LINE_WIDTH => 16,
            xcb_gc_t::XCB_GC_LINE_STYLE => 32,
            xcb_gc_t::XCB_GC_CAP_STYLE => 64,
            xcb_gc_t::XCB_GC_JOIN_STYLE => 128,
            xcb_gc_t::XCB_GC_FILL_STYLE => 256,
            xcb_gc_t::XCB_GC_FILL_RULE => 512,
            xcb_gc_t::XCB_GC_TILE => 1024,
            xcb_gc_t::XCB_GC_STIPPLE => 2048,
            xcb_gc_t::XCB_GC_TILE_STIPPLE_ORIGIN_X => 4096,
            xcb_gc_t::XCB_GC_TILE_STIPPLE_ORIGIN_Y => 8192,
            xcb_gc_t::XCB_GC_FONT => 16384,
            xcb_gc_t::XCB_GC_SUBWINDOW_MODE => 32768,
            xcb_gc_t::XCB_GC_GRAPHICS_EXPOSURES => 65536,
            xcb_gc_t::XCB_GC_CLIP_ORIGIN_X => 131072,
            xcb_gc_t::XCB_GC_CLIP_ORIGIN_Y => 262144,
            xcb_gc_t::XCB_GC_CLIP_MASK => 524288,
            xcb_gc_t::XCB_GC_DASH_OFFSET => 1048576,
            xcb_gc_t::XCB_GC_DASH_LIST => 2097152,
            xcb_gc_t::XCB_GC_ARC_MODE => 4194304,
        }
    }
}

/// The C enumeration `xcb_gx_t`.
#[derive(PartialEq, Eq, Structural, Clone, Copy, Debug)]
pub enum xcb_gx_t {
    XCB_GX_CLEAR,
    XCB_GX_AND,
    XCB_GX_AND_REVERSE,
    XCB_GX_COPY,
    XCB_GX_AND_INVERTED,
    XCB_GX_NOOP,
    XCB_GX_XOR,
    XCB_GX_OR,
    XCB_GX_NOR,
    XCB_GX_EQUIV,
    XCB_GX_INVERT,
    XCB_GX_OR_REVERSE,
    XCB_GX_COPY_INVERTED,
    XCB_GX_OR_INVERTED,
    XCB_GX_NAND,
    XCB_GX_SET,
}

impl xcb_gx_t {
    /// The value of the variant in the C enumeration.
    pub open spec fn spec_value(self) -> u32 {
        match self {
            xcb_gx_t::XCB_GX_CLEAR => 0,
            xcb_gx_t::XCB_GX_AND => 1,
            xcb_gx_t::XCB_GX_AND_REVERSE => 2,
            xcb_gx_t::XCB_GX_COPY => 3,
            xcb_gx_t::XCB_GX_AND_INVERTED => 4,
            xcb_gx_t::XCB_GX_NOOP => 5,
            xcb_gx_t::XCB_GX_XOR => 6,
            xcb_gx_t::XCB_GX_OR => 7,
            xcb_gx_t::XCB_GX_NOR => 8,
            xcb_gx_t::XCB_GX_EQUIV => 9,
            xcb_gx_t::XCB_GX_INVERT => 10,
            xcb_gx_t::XCB_GX_OR_REVERSE => 11,
            xcb_gx_t::XCB_GX_COPY_INVERTED => 12,
            xcb_gx_t::XCB_GX_OR_INVERTED => 13,
            xcb_gx_t::XCB_GX_NAND => 14,
            xcb_gx_t::XCB_GX_SET => 15,
        }
    }

    /// The value of the variant in the C enumeration.
    pub fn value(&self) -> (v: u32)
        ensures
            v == self.spec_value(),
    {
        match self {
            xcb_gx_t::XCB_GX_CLEAR => 0,
            xcb_gx_t::XCB_GX_AND => 1,
            xcb_gx_t::XCB_GX_AND_REVERSE => 2,
            xcb_gx_t::XCB_GX_COPY => 3,
            xcb_gx_t::XCB_GX_AND_INVERTED => 4,
            xcb_gx_t::XCB_GX_NOOP => 5,
            xcb_gx_t::XCB_GX_XOR => 6,
            xcb_gx_t::XCB_GX_OR => 7,
            xcb_gx_t::XCB_GX_NOR => 8,
            xcb_gx_t::XCB_GX_EQUIV => 9,
            xcb_gx_t::XCB_GX_INVERT => 10,
            xcb_gx_t::XCB_GX_OR_REVERSE => 11,
            xcb_gx_t::XCB_GX_COPY_INVERTED => 12,
            xcb_gx_t::XCB_GX_OR_INVERTED => 13,
            xcb_gx_t::XCB_GX_NAND => 14,
            xcb_gx_t::XCB_GX_SET => 15,
        }
    }
}

/// The C enumeration `xcb_line_style_t`.
#[derive(PartialEq, Eq, Structural, Clone, Copy, Debug)]
pub enum xcb_line_style_t {
    XCB_LINE_STYLE_SOLID,
    XCB_LINE_STYLE_ON_OFF_DASH,
    XCB_LINE_STYLE_DOUBLE_DASH,
}

impl xcb_line_style_t {
    /// The value of the variant in the C enumeration.
    pub open spec fn spec_value(self) -> u32 {
        match self {
            xcb_line_style_t::XCB_LINE_STYLE_SOLID => 0,
            xcb_line_style_t::XCB_LINE_STYLE_ON_OFF_DASH => 1,
            xcb_line_style_t::XCB_LINE_STYLE_DOUBLE_DASH => 2,
        }
    }

    /// The value of the variant in the C enumeration.
    pub fn value(&self) -> (v: u32)
        ensures
            v == self.spec_value(),
    {
        match self {
            xcb_line_style_t::XCB_LINE_STYLE_SOLID => 0,
            xcb_line_style_t::XCB_LINE_STYLE_ON_OFF_DASH => 1,
            xcb_line_style_t::XCB_LINE_STYLE_DOUBLE_DASH => 2,
        }
    }
}

/// The C enumeration `xcb_cap_style_t`.
#[derive(PartialEq, Eq, Structural, Clone, Copy, Debug)]
pub enum xcb_cap_style_t {
    XCB_CAP_STYLE_NOT_LAST,
    XCB_CAP_STYLE_BUTT,
    XCB_CAP_STYLE_ROUND,
    XCB_CAP_STYLE_PROJECTING,
}

impl xcb_cap_style_t {
    /// The value of the variant in the C enumeration.
    pub open spec fn spec_value(self) -> u32 {
        match self {
            xcb_cap_style_t::XCB_CAP_STYLE_NOT_LAST => 0,
            xcb_cap_style_t::XCB_CAP_STYLE_BUTT => 1,
            xcb_cap_style_t::XCB_CAP_STYLE_ROUND => 2,
            xcb_cap_style_t::XCB_CAP_STYLE_PROJECTING => 3,
        }
    }

    /// The value of the variant in the C enumeration.
    pub fn value(&self) -> (v: u32)
        ensures
            v == self.spec_value(),
    {
        match self {
            xcb_cap_style_t::XCB_CAP_STYLE_NOT_LAST => 0,
            xcb_cap_style_t::XCB_CAP_STYLE_BUTT => 1,
            xcb_cap_style_t::XCB_CAP_STYLE_ROUND => 2,
            xcb_cap_style_t::XCB_CAP_STYLE_PROJECTING => 3,
        }
    }
}

/// The C enumeration `xcb_join_style_t`.
#[derive(PartialEq, Eq, Structural, Clone, Copy, Debug)]
pub enum xcb_join_style_t {
    XCB_JOIN_STYLE_MITER,
    XCB_JOIN_STYLE_ROUND,
    XCB_JOIN_STYLE_BEVEL,
}

impl xcb_join_style_t {
    /// The value of the variant in the C enumeration.
    pub open spec fn spec_value(self) -> u32 {
        match self {
            xcb_join_style_t::XCB_JOIN_STYLE_MITER => 0,
            xcb_join_style_t::XCB_JOIN_STYLE_ROUND => 1,
            xcb_join_style_t::XCB_JOIN_STYLE_BEVEL => 2,
        }
    }

    /// The value of the variant in the C enumeration.
    pub fn value(&self) -> (v: u32)
        ensures
            v == self.spec_value(),
    {
        match self {
            xcb_join_style_t::XCB_JOIN_STYLE_MITER => 0,
            xcb_join_style_t::XCB_JOIN_STYLE_ROUND => 1,
            xcb_join_style_t::XCB_JOIN_STYLE_BEVEL => 2,
        }
    }
}

/// The C enumeration `xcb_fill_style_t`.
#[derive(PartialEq, Eq, Structural, Clone, Copy, Debug)]
pub enum xcb_fill_style_t {
    XCB_FILL_STYLE_SOLID,
    XCB_FILL_STYLE_TILED,
    XCB_FILL_STYLE_STIPPLED,
    XCB_FILL_STYLE_OPAQUE_STIPPLED,
}

impl xcb_fill_style_t {
    /// The value of the variant in the C enumeration.
    pub open spec fn spec_value(self) -> u32 {
        match self {
            xcb_fill_style_t::XCB_FILL_STYLE_SOLID => 0,
            xcb_fill_style_t::XCB_FILL_STYLE_TILED => 1,
            xcb_fill_style_t::XCB_FILL_STYLE_STIPPLED => 2,
            xcb_fill_style_t::XCB_FILL_STYLE_OPAQUE_STIPPLED => 3,
        }
    }

    /// The value of the variant in the C enumeration.
    pub fn value(&self) -> (v: u32)
        ensures
            v == self.spec_value(),
    {
        match self {
            xcb_fill_style_t::XCB_FILL_STYLE_SOLID => 0,
            xcb_fill_style_t::XCB_FILL_STYLE_TILED => 1,
            xcb_fill_style_t::XCB_FILL_STYLE_STIPPLED => 2,
            xcb_fill_style_t::XCB_FILL_STYLE_OPAQUE_STIPPLED => 3,
        }
    }
}

/// The C enumeration `xcb_fill_rule_t`.
#[derive(PartialEq, Eq, Structural, Clone, Copy, Debug)]
pub enum xcb_fill_rule_t {
    XCB_FILL_RULE_EVEN_ODD,
    XCB_FILL_RULE_WINDING,
}

impl xcb_fill_rule_t {
    /// The value of the variant in the C enumeration.
    pub open spec fn spec_value(self) -> u32 {
        match self {
            xcb_fill_rule_t::XCB_FILL_RULE_EVEN_ODD => 0,
            xcb_fill_rule_t::XCB_FILL_RULE_WINDING => 1,
        }
    }

    /// The value of the variant in the C enumeration.
    pub fn value(&self) -> (v: u32)
        ensures
            v == self.spec_value(),
    {
        match self {
            xcb_fill_rule_t::XCB_FILL_RULE_EVEN_ODD => 0,
            xcb_fill_rule_t::XCB_FILL_RULE_WINDING => 1,
        }
    }
}

/// The C enumeration `xcb_subwindow_mode_t`.
#[derive(PartialEq, Eq, Structural, Clone, Copy, Debug)]
pub enum xcb_subwindow_mode_t {
    XCB_SUBWINDOW_MODE_CLIP_BY_CHILDREN,
    XCB_SUBWINDOW_MODE_INCLUDE_INFERIORS,
}

impl xcb_subwindow_mode_t {
    /// The value of the variant in the C enumeration.
    pub open spec fn spec_value(self) -> u32 {
        match self {
            xcb_subwindow_mode_t::XCB_SUBWINDOW_MODE_CLIP_BY_CHILDREN => 0,
            xcb_subwindow_mode_t::XCB_SUBWINDOW_MODE_INCLUDE_INFERIORS => 1,
        }
    }

    /// The value of the variant in the C enumeration.
    pub fn value(&self) -> (v: u32)
        ensures
            v == self.spec_value(),
    {
        match self {
            xcb_subwindow_mode_t::XCB_SUBWINDOW_MODE_CLIP_BY_CHILDREN => 0,
            xcb_subwindow_mode_t::XCB_SUBWINDOW_MODE_INCLUDE_INFERIORS => 1,
        }
    }
}

/// The C enumeration `xcb_arc_mode_t`.
#[derive(PartialEq, Eq, Structural, Clone, Copy, Debug)]
pub enum xcb_arc_mode_t {
    XCB_ARC_MODE_CHORD,
    XCB_ARC_MODE_PIE_SLICE,
}

impl xcb_arc_mode_t {
    /// The value of the variant in the C enumeration.
    pub open spec fn spec_value(self) -> u32 {
        match self {
            xcb_arc_mode_t::XCB_ARC_MODE_CHORD => 0,
            xcb_arc_mode_t::XCB_ARC_MODE_PIE_SLICE => 1,
        }
    }

    /// The value of the variant in the C enumeration.
    pub fn value(&self) -> (v: u32)
        ensures
            v == self.spec_value(),
    {
        match self {
            xcb_arc_mode_t::XCB_ARC_MODE_CHORD => 0,
            xcb_arc_mode_t::XCB_ARC_MODE_PIE_SLICE => 1,
        }
    }
}

/// The C enumeration `xcb_clip_ordering_t`.
#[derive(PartialEq, Eq, Structural, Clone, Copy, Debug)]
pub enum xcb_clip_ordering_t {
    XCB_CLIP_ORDERING_UNSORTED,
    XCB_CLIP_ORDERING_Y_SORTED,
    XCB_CLIP_ORDERING_YX_SORTED,
    XCB_CLIP_ORDERING_YX_BANDED,
}

impl xcb_clip_ordering_t {
    /// The value of the variant in the C enumeration.
    pub open spec fn spec_value(self) -> u32 {
        match self {
            xcb_clip_ordering_t::XCB_CLIP_ORDERING_UNSORTED => 0,
            xcb_clip_ordering_t::XCB_CLIP_ORDERING_Y_SORTED => 1,
            xcb_clip_ordering_t::XCB_CLIP_ORDERING_YX_SORTED => 2,
            xcb_clip_ordering_t::XCB_CLIP_ORDERING_YX_BANDED => 3,
        }
    }

    /// The value of the variant in the C enumeration.
    pub fn value(&self) -> (v: u32)
        ensures
            v == self.spec_value(),
    {
        match self {
            xcb_clip_ordering_t::XCB_CLIP_ORDERING_UNSORTED => 0,
            xcb_clip_ordering_t::XCB_CLIP_ORDERING_Y_SORTED => 1,
            xcb_clip_ordering_t::XCB_CLIP_ORDERING_YX_SORTED => 2,
            xcb_clip_ordering_t::XCB_CLIP_ORDERING_YX_BANDED => 3,
        }
    }
}

/// The C enumeration `xcb_coord_mode_t`.
#[derive(PartialEq, Eq, Structural, Clone, Copy, Debug)]
pub enum xcb_coord_mode_t {
    XCB_COORD_MODE_ORIGIN,
    XCB_COORD_MODE_PREVIOUS,
}

impl xcb_coord_mode_t {
    /// The value of the variant in the C enumeration.
    pub open spec fn spec_value(self) -> u32 {
        match self {
            xcb_coord_mode_t::XCB_COORD_MODE_ORIGIN => 0,
            xcb_coord_mode_t::XCB_COORD_MODE_PREVIOUS => 1,
        }
    }

    /// The value of the variant in the C enumeration.
    pub fn value(&self) -> (v: u32)
        ensures
            v == self.spec_value(),
    {
        match self {
            xcb_coord_mode_t::XCB_COORD_MODE_ORIGIN => 0,
            xcb_coord_mode_t::XCB_COORD_MODE_PREVIOUS => 1,
        }
    }
}

/// The C enumeration `xcb_poly_shape_t`.
#[derive(PartialEq, Eq, Structural, Clone, Copy, Debug)]
pub enum xcb_poly_shape_t {
    XCB_POLY_SHAPE_COMPLEX,
    XCB_POLY_SHAPE_NONCONVEX,
    XCB_POLY_SHAPE_CONVEX,
}

impl xcb_poly_shape_t {
    /// The value of the variant in the C enumeration.
    pub open spec fn spec_value(self) -> u32 {
        match self {
            xcb_poly_shape_t::XCB_POLY_SHAPE_COMPLEX => 0,
            xcb_poly_shape_t::XCB_POLY_SHAPE_NONCONVEX => 1,
            xcb_poly_shape_t::XCB_POLY_SHAPE_CONVEX => 2,
        }
    }

    /// The value of the variant in the C enumeration.
    pub fn value(&self) -> (v: u32)
        ensures
            v == self.spec_value(),
    {
        match self {
            xcb_poly_shape_t::XCB_POLY_SHAPE_COMPLEX => 0,
            xcb_poly_shape_t::XCB_POLY_SHAPE_NONCONVEX => 1,
            xcb_poly_shape_t::XCB_POLY_SHAPE_CONVEX => 2,
        }
    }
}

/// The C enumeration `xcb_image_format_t`.
#[derive(PartialEq, Eq, Structural, Clone, Copy, Debug)]
pub enum xcb_image_format_t {
    XCB_IMAGE_FORMAT_XY_BITMAP,
    XCB_IMAGE_FORMAT_XY_PIXMAP,
    XCB_IMAGE_FORMAT_Z_PIXMAP,
}

impl xcb_image_format_t {
    /// The value of the variant in the C enumeration.
    pub open spec fn spec_value(self) -> u32 {
        match self {
            xcb_image_format_t::XCB_IMAGE_FORMAT_XY_BITMAP => 0,
            xcb_image_format_t::XCB_IMAGE_FORMAT_XY_PIXMAP => 1,
            xcb_image_format_t::XCB_IMAGE_FORMAT_Z_PIXMAP => 2,
        }
    }

    /// The value of the variant in the C enumeration.
    pub fn value(&self) -> (v: u32)
        ensures
            v == self.spec_value(),
    {
        match self {
            xcb_image_format_t::XCB_IMAGE_FORMAT_XY_BITMAP => 0,
            xcb_image_format_t::XCB_IMAGE_FORMAT_XY_PIXMAP => 1,
            xcb_image_format_t::XCB_IMAGE_FORMAT_Z_PIXMAP => 2,
        }
    }
}

/// The C enumeration `xcb_colormap_alloc_t`.
#[derive(PartialEq, Eq, Structural, Clone, Copy, Debug)]
pub enum xcb_colormap_alloc_t {
    XCB_COLORMAP_ALLOC_NONE,
    XCB_COLORMAP_ALLOC_ALL,
}

impl xcb_colormap_alloc_t {
    /// The value of the variant in the C enumeration.
    pub open spec fn spec_value(self) -> u32 {
        match self {
            xcb_colormap_alloc_t::XCB_COLORMAP_ALLOC_NONE => 0,
            xcb_colormap_alloc_t::XCB_COLORMAP_ALLOC_ALL => 1,
        }
    }

    /// The value of the variant in the C enumeration.
    pub fn value(&self) -> (v: u32)
        ensures
            v == self.spec_value(),
    {
        match self {
            xcb_colormap_alloc_t::XCB_COLORMAP_ALLOC_NONE => 0,
            xcb_colormap_alloc_t::XCB_COLORMAP_ALLOC_ALL => 1,
        }
    }
}

/// The C enumeration `xcb_color_flag_t`.
#[derive(PartialEq, Eq, Structural, Clone, Copy, Debug)]
pub enum xcb_color_flag_t {
    XCB_COLOR_FLAG_RED,
    XCB_COLOR_FLAG_GREEN,
    XCB_COLOR_FLAG_BLUE,
}

impl xcb_color_flag_t {
    /// The value of the variant in the C enumeration.
    pub open spec fn spec_value(self) -> u32 {
        match self {
            xcb_color_flag_t::XCB_COLOR_FLAG_RED => 1,
            xcb_color_flag_t::XCB_COLOR_FLAG_GREEN => 2,
            xcb_color_flag_t::XCB_COLOR_FLAG_BLUE => 4,
        }
    }

    /// The value of the variant in the C enumeration.
    pub fn value(&self) -> (v: u32)
        ensures
            v == self.spec_value(),
    {
        match self {
            xcb_color_flag_t::XCB_COLOR_FLAG_RED => 1,
            xcb_color_flag_t::XCB_COLOR_FLAG_GREEN => 2,
            xcb_color_flag_t::XCB_COLOR_FLAG_BLUE => 4,
        }
    }
}

/// The C enumeration `xcb_pixmap_enum_t`.
#[derive(PartialEq, Eq, Structural, Clone, Copy, Debug)]
pub enum xcb_pixmap_enum_t {
    XCB_PIXMAP_NONE,
}

impl xcb_pixmap_enum_t {
    /// The value of the variant in the C enumeration.
    pub open spec fn spec_value(self) -> u32 {
        match self {
            xcb_pixmap_enum_t::XCB_PIXMAP_NONE => 0,
        }
    }

    /// The value of the variant in the C enumeration.
    pub fn value(&self) -> (v: u32)
        ensures
            v == self.spec_value(),
    {
        match self {
            xcb_pixmap_enum_t::XCB_PIXMAP_NONE => 0,
        }
    }
}

/// The C enumeration `xcb_font_enum_t`.
#[derive(PartialEq, Eq, Structural, Clone, Copy, Debug)]
pub enum xcb_font_enum_t {
    XCB_FONT_NONE,
}

impl xcb_font_enum_t {
    /// The value of the variant in the C enumeration.
    pub open spec fn spec_value(self) -> u32 {
        match self {
            xcb_font_enum_t::XCB_FONT_NONE => 0,
        }
    }

    /// The value of the variant in the C enumeration.
    pub fn value(&self) -> (v: u32)
        ensures
            v == self.spec_value(),
    {
        match self {
            xcb_font_enum_t::XCB_FONT_NONE => 0,
        }
    }
}

/// The C enumeration `xcb_query_shape_of_t`.
#[derive(PartialEq, Eq, Structural, Clone, Copy, Debug)]
pub enum xcb_query_shape_of_t {
    XCB_QUERY_SHAPE_OF_LARGEST_CURSOR,
    XCB_QUERY_SHAPE_OF_FASTEST_TILE,
    XCB_QUERY_SHAPE_OF_FASTEST_STIPPLE,
}

impl xcb_query_shape_of_t {
    /// The value of the variant in the C enumeration.
    pub open spec fn spec_value(self) -> u32 {
        match self {
            xcb_query_shape_of_t::XCB_QUERY_SHAPE_OF_LARGEST_CURSOR => 0,
            xcb_query_shape_of_t::XCB_QUERY_SHAPE_OF_FASTEST_TILE => 1,
            xcb_query_shape_of_t::XCB_QUERY_SHAPE_OF_FASTEST_STIPPLE => 2,
        }
    }

    /// The value of the variant in the C enumeration.
    pub fn value(&self) -> (v: u32)
        ensures
            v == self.spec_value(),
    {
        match self {
            xcb_query_shape_of_t::XCB_QUERY_SHAPE_OF_LARGEST_CURSOR => 0,
            xcb_query_shape_of_t::XCB_QUERY_SHAPE_OF_FASTEST_TILE => 1,
            xcb_query_shape_of_t::XCB_QUERY_SHAPE_OF_FASTEST_STIPPLE => 2,
        }
    }
}

/// The C enumeration `xcb_kb_t`.
#[derive(PartialEq, Eq, Structural, Clone, Copy, Debug)]
pub enum xcb_kb_t {
    XCB_KB_KEY_CLICK_PERCENT,
    XCB_KB_BELL_PERCENT,
    XCB_KB_BELL_PITCH,
    XCB_KB_BELL_DURATION,
    XCB_KB_LED,
    XCB_KB_LED_MODE,
    XCB_KB_KEY,
    XCB_KB_AUTO_REPEAT_MODE,
}

impl xcb_kb_t {
    /// The value of the variant in the C enumeration.
    pub open spec fn spec_value(self) -> u32 {
        match self {
            xcb_kb_t::XCB_KB_KEY_CLICK_PERCENT => 1,
            xcb_kb_t::XCB_KB_BELL_PERCENT => 2,
            xcb_kb_t::XCB_KB_BELL_PITCH => 4,
            xcb_kb_t::XCB_KB_BELL_DURATION => 8,
            xcb_kb_t::XCB_KB_LED => 16,
            xcb_kb_t::XCB_KB_LED_MODE => 32,
            xcb_kb_t::XCB_KB_KEY => 64,
            xcb_kb_t::XCB_KB_AUTO_REPEAT_MODE => 128,
        }
    }

    /// The value of the variant in the C enumeration.
    pub fn value(&self) -> (v: u32)
        ensures
            v == self.spec_value(),
    {
        match self {
            xcb_kb_t::XCB_KB_KEY_CLICK_PERCENT => 1,
            xcb_kb_t::XCB_KB_BELL_PERCENT => 2,
            xcb_kb_t::XCB_KB_BELL_PITCH => 4,
            xcb_kb_t::XCB_KB_BELL_DURATION => 8,
            xcb_kb_t::XCB_KB_LED => 16,
            xcb_kb_t::XCB_KB_LED_MODE => 32,
            xcb_kb_t::XCB_KB_KEY => 64,
            xcb_kb_t::XCB_KB_AUTO_REPEAT_MODE => 128,
        }
    }
}

/// The C enumeration `xcb_led_mode_t`.
#[derive(PartialEq, Eq, Structural, Clone, Copy, Debug)]
pub enum xcb_led_mode_t {
    XCB_LED_MODE_OFF,
    XCB_LED_MODE_ON,
}

impl xcb_led_mode_t {
    /// The value of the variant in the C enumeration.
    pub open spec fn spec_value(self) -> u32 {
        match self {
            xcb_led_mode_t::XCB_LED_MODE_OFF => 0,
            xcb_led_mode_t::XCB_LED_MODE_ON => 1,
        }
    }

    /// The value of the variant in the C enumeration.
    pub fn value(&self) -> (v: u32)
        ensures
            v == self.spec_value(),
    {
        match self {
            xcb_led_mode_t::XCB_LED_MODE_OFF => 0,
            xcb_led_mode_t::XCB_LED_MODE_ON => 1,
        }
    }
}

/// The C enumeration `xcb_auto_repeat_mode_t`.
#[derive(PartialEq, Eq, Structural, Clone, Copy, Debug)]
pub enum xcb_auto_repeat_mode_t {
    XCB_AUTO_REPEAT_MODE_OFF,
    XCB_AUTO_REPEAT_MODE_ON,
    XCB_AUTO_REPEAT_MODE_DEFAULT,
}

impl xcb_auto_repeat_mode_t {
    /// The value of the variant in the C enumeration.
    pub open spec fn spec_value(self) -> u32 {
        match self {
            xcb_auto_repeat_mode_t::XCB_AUTO_REPEAT_MODE_OFF => 0,
            xcb_auto_repeat_mode_t::XCB_AUTO_REPEAT_MODE_ON => 1,
            xcb_auto_repeat_mode_t::XCB_AUTO_REPEAT_MODE_DEFAULT => 2,
        }
    }

    /// The value of the variant in the C enumeration.
    pub fn value(&self) -> (v: u32)
        ensures
            v == self.spec_value(),
    {
        match self {
            xcb_auto_repeat_mode_t::XCB_AUTO_REPEAT_MODE_OFF => 0,
            xcb_auto_repeat_mode_t::XCB_AUTO_REPEAT_MODE_ON => 1,
            xcb_auto_repeat_mode_t::XCB_AUTO_REPEAT_MODE_DEFAULT => 2,
        }
    }
}

/// The C enumeration `xcb_blanking_t`.
#[derive(PartialEq, Eq, Structural, Clone, Copy, Debug)]
pub enum xcb_blanking_t {
    XCB_BLANKING_NOT_PREFERRED,
    XCB_BLANKING_PREFERRED,
    XCB_BLANKING_DEFAULT,
}

impl xcb_blanking_t {
    /// The value of the variant in the C enumeration.
    pub open spec fn spec_value(self) -> u32 {
        match self {
            xcb_blanking_t::XCB_BLANKING_NOT_PREFERRED => 0,
            xcb_blanking_t::XCB_BLANKING_PREFERRED => 1,
            xcb_blanking_t::XCB_BLANKING_DEFAULT => 2,
        }
    }

    /// The value of the variant in the C enumeration.
    pub fn value(&self) -> (v: u32)
        ensures
            v == self.spec_value(),
    {
        match self {
            xcb_blanking_t::XCB_BLANKING_NOT_PREFERRED => 0,
            xcb_blanking_t::XCB_BLANKING_PREFERRED => 1,
            xcb_blanking_t::XCB_BLANKING_DEFAULT => 2,
        }
    }
}

/// The C enumeration `xcb_exposures_t`.
#[derive(PartialEq, Eq, Structural, Clone, Copy, Debug)]
pub enum xcb_exposures_t {
    XCB_EXPOSURES_NOT_ALLOWED,
    XCB_EXPOSURES_ALLOWED,
    XCB_EXPOSURES_DEFAULT,
}

impl xcb_exposures_t {
    /// The value of the variant in the C enumeration.
    pub open spec fn spec_value(self) -> u32 {
        match self {
            xcb_exposures_t::XCB_EXPOSURES_NOT_ALLOWED => 0,
            xcb_exposures_t::XCB_EXPOSURES_ALLOWED => 1,
            xcb_exposures_t::XCB_EXPOSURES_DEFAULT => 2,
        }
    }

    /// The value of the variant in the C enumeration.
    pub fn value(&self) -> (v: u32)
        ensures
            v == self.spec_value(),
    {
        match self {
            xcb_exposures_t::XCB_EXPOSURES_NOT_ALLOWED => 0,
            xcb_exposures_t::XCB_EXPOSURES_ALLOWED => 1,
            xcb_exposures_t::XCB_EXPOSURES_DEFAULT => 2,
        }
    }
}

/// The C enumeration `xcb_host_mode_t`.
#[derive(PartialEq, Eq, Structural, Clone, Copy, Debug)]
pub enum xcb_host_mode_t {
    XCB_HOST_MODE_INSERT,
    XCB_HOST_MODE_DELETE,
}

impl xcb_host_mode_t {
    /// The value of the variant in the C enumeration.
    pub open spec fn spec_value(self) -> u32 {
        match self {
            xcb_host_mode_t::XCB_HOST_MODE_INSERT => 0,
            xcb_host_mode_t::XCB_HOST_MODE_DELETE => 1,
        }
    }

    /// The value of the variant in the C enumeration.
    pub fn value(&self) -> (v: u32)
        ensures
            v == self.spec_value(),
    {
        match self {
            xcb_host_mode_t::XCB_HOST_MODE_INSERT => 0,
            xcb_host_mode_t::XCB_HOST_MODE_DELETE => 1,
        }
    }
}

/// The C enumeration `xcb_family_t`.
#[derive(PartialEq, Eq, Structural, Clone, Copy, Debug)]
pub enum xcb_family_t {
    XCB_FAMILY_INTERNET,
    XCB_FAMILY_DECNET,
    XCB_FAMILY_CHAOS,
    XCB_FAMILY_SERVER_INTERPRETED,
    XCB_FAMILY_INTERNET_6,
}

impl xcb_family_t {
    /// The value of the variant in the C enumeration.
    pub open spec fn spec_value(self) -> u32 {
        match self {
            xcb_family_t::XCB_FAMILY_INTERNET => 0,
            xcb_family_t::XCB_FAMILY_DECNET => 1,
            xcb_family_t::XCB_FAMILY_CHAOS => 2,
            xcb_family_t::XCB_FAMILY_SERVER_INTERPRETED => 5,
            xcb_family_t::XCB_FAMILY_INTERNET_6 => 6,
        }
    }

    /// The value of the variant in the C enumeration.
    pub fn value(&self) -> (v: u32)
        ensures
            v == self.spec_value(),
    {
        match self {
            xcb_family_t::XCB_FAMILY_INTERNET => 0,
            xcb_family_t::XCB_FAMILY_DECNET => 1,
            xcb_family_t::XCB_FAMILY_CHAOS => 2,
            xcb_family_t::XCB_FAMILY_SERVER_INTERPRETED => 5,
            xcb_family_t::XCB_FAMILY_INTERNET_6 => 6,
        }
    }
}

/// The C enumeration `xcb_access_control_t`.
#[derive(PartialEq, Eq, Structural, Clone, Copy, Debug)]
pub enum xcb_access_control_t {
    XCB_ACCESS_CONTROL_DISABLE,
    XCB_ACCESS_CONTROL_ENABLE,
}

impl xcb_access_control_t {
    /// The value of the variant in the C enumeration.
    pub open spec fn spec_value(self) -> u32 {
        match self {
            xcb_access_control_t::XCB_ACCESS_CONTROL_DISABLE => 0,
            xcb_access_control_t::XCB_ACCESS_CONTROL_ENABLE => 1,
        }
    }

    /// The value of the variant in the C enumeration.
    pub fn value(&self) -> (v: u32)
        ensures
            v == self.spec_value(),
    {
        match self {
            xcb_access_control_t::XCB_ACCESS_CONTROL_DISABLE => 0,
            xcb_access_control_t::XCB_ACCESS_CONTROL_ENABLE => 1,
        }
    }
}

/// The C enumeration `xcb_close_down_t`.
#[derive(PartialEq, Eq, Structural, Clone, Copy, Debug)]
pub enum xcb_close_down_t {
    XCB_CLOSE_DOWN_DESTROY_ALL,
    XCB_CLOSE_DOWN_RETAIN_PERMANENT,
    XCB_CLOSE_DOWN_RETAIN_TEMPORARY,
}

impl xcb_close_down_t {
    /// The value of the variant in the C enumeration.
    pub open spec fn spec_value(self) -> u32 {
        match self {
            xcb_close_down_t::XCB_CLOSE_DOWN_DESTROY_ALL => 0,
            xcb_close_down_t::XCB_CLOSE_DOWN_RETAIN_PERMANENT => 1,
            xcb_close_down_t::XCB_CLOSE_DOWN_RETAIN_TEMPORARY => 2,
        }
    }

    /// The value of the variant in the C enumeration.
    pub fn value(&self) -> (v: u32)
        ensures
            v == self.spec_value(),
    {
        match self {
            xcb_close_down_t::XCB_CLOSE_DOWN_DESTROY_ALL => 0,
            xcb_close_down_t::XCB_CLOSE_DOWN_RETAIN_PERMANENT => 1,
            xcb_close_down_t::XCB_CLOSE_DOWN_RETAIN_TEMPORARY => 2,
        }
    }
}

/// The C enumeration `xcb_kill_t`.
#[derive(PartialEq, Eq, Structural, Clone, Copy, Debug)]
pub enum xcb_kill_t {
    XCB_KILL_ALL_TEMPORARY,
}

impl xcb_kill_t {
    /// The value of the variant in the C enumeration.
    pub open spec fn spec_value(self) -> u32 {
        match self {
            xcb_kill_t::XCB_KILL_ALL_TEMPORARY => 0,
        }
    }

    /// The value of the variant in the C enumeration.
    pub fn value(&self) -> (v: u32)
        ensures
            v == self.spec_value(),
    {
        match self {
            xcb_kill_t::XCB_KILL_ALL_TEMPORARY => 0,
        }
    }
}

/// The C enumeration `xcb_screen_saver_t`.
#[derive(PartialEq, Eq, Structural, Clone, Copy, Debug)]
pub enum xcb_screen_saver_t {
    XCB_SCREEN_SAVER_RESET,
    XCB_SCREEN_SAVER_ACTIVE,
}

impl xcb_screen_saver_t {
    /// The value of the variant in the C enumeration.
    pub open spec fn spec_value(self) -> u32 {
        match self {
            xcb_screen_saver_t::XCB_SCREEN_SAVER_RESET => 0,
            xcb_screen_saver_t::XCB_SCREEN_SAVER_ACTIVE => 1,
        }
    }

    /// The value of the variant in the C enumeration.
    pub fn value(&self) -> (v: u32)
        ensures
            v == self.spec_value(),
    {
        match self {
            xcb_screen_saver_t::XCB_SCREEN_SAVER_RESET => 0,
            xcb_screen_saver_t::XCB_SCREEN_SAVER_ACTIVE => 1,
        }
    }
}

/// The C enumeration `xcb_mapping_status_t`.
#[derive(PartialEq, Eq, Structural, Clone, Copy, Debug)]
pub enum xcb_mapping_status_t {
    XCB_MAPPING_STATUS_SUCCESS,
    XCB_MAPPING_STATUS_BUSY,
    XCB_MAPPING_STATUS_FAILURE,
}

impl xcb_mapping_status_t {
    /// The value of the variant in the C enumeration.
    pub open spec fn spec_value(self) -> u32 {
        match self {
            xcb_mapping_status_t::XCB_MAPPING_STATUS_SUCCESS => 0,
            xcb_mapping_status_t::XCB_MAPPING_STATUS_BUSY => 1,
            xcb_mapping_status_t::XCB_MAPPING_STATUS_FAILURE => 2,
        }
    }

    /// The value of the variant in the C enumeration.
    pub fn value(&self) -> (v: u32)
        ensures
            v == self.spec_value(),
    {
        match self {
            xcb_mapping_status_t::XCB_MAPPING_STATUS_SUCCESS => 0,
            xcb_mapping_status_t::XCB_MAPPING_STATUS_BUSY => 1,
            xcb_mapping_status_t::XCB_MAPPING_STATUS_FAILURE => 2,
        }
    }
}

/// The C enumeration `xcb_map_index_t`.
#[derive(PartialEq, Eq, Structural, Clone, Copy, Debug)]
pub enum xcb_map_index_t {
    XCB_MAP_INDEX_SHIFT,
    XCB_MAP_INDEX_LOCK,
    XCB_MAP_INDEX_CONTROL,
    XCB_MAP_INDEX_1,
    XCB_MAP_INDEX_2,
    XCB_MAP_INDEX_3,
    XCB_MAP_INDEX_4,
    XCB_MAP_INDEX_5,
}

impl xcb_map_index_t {
    /// The value of the variant in the C enumeration.
    pub open spec fn spec_value(self) -> u32 {
        match self {
            xcb_map_index_t::XCB_MAP_INDEX_SHIFT => 0,
            xcb_map_index_t::XCB_MAP_INDEX_LOCK => 1,
            xcb_map_index_t::XCB_MAP_INDEX_CONTROL => 2,
            xcb_map_index_t::XCB_MAP_INDEX_1 => 3,
            xcb_map_index_t::XCB_MAP_INDEX_2 => 4,
            xcb_map_index_t::XCB_MAP_INDEX_3 => 5,
            xcb_map_index_t::XCB_MAP_INDEX_4 => 6,
            xcb_map_index_t::XCB_MAP_INDEX_5 => 7,
        }
    }

    /// The value of the variant in the C enumeration.
    pub fn value(&self) -> (v: u32)
        ensures
            v == self.spec_value(),
    {
        match self {
            xcb_map_index_t::XCB_MAP_INDEX_SHIFT => 0,
            xcb_map_index_t::XCB_MAP_INDEX_LOCK => 1,
            xcb_map_index_t::XCB_MAP_INDEX_CONTROL => 2,
            xcb_map_index_t::XCB_MAP_INDEX_1 => 3,
            xcb_map_index_t::XCB_MAP_INDEX_2 => 4,
            xcb_map_index_t::XCB_MAP_INDEX_3 => 5,
            xcb_map_index_t::XCB_MAP_INDEX_4 => 6,
            xcb_map_index_t::XCB_MAP_INDEX_5 => 7,
        }
    }
}

} // verus!
