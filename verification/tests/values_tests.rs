use vulkust::android_config::{AAssetMode, Density, Id, Orientation, Priority, UiModeNight};
use vulkust::xcb::enums::{xcb_atom_enum_t, xcb_button_index_t, xcb_cw_t, xcb_event_mask_t, xcb_prop_mode_t};

#[test]
fn android_values() {
    assert_eq!(Orientation::Land.value(), 2);
    assert_eq!(Density::High.value(), 240);
    assert_eq!(Density::NoDensity.value(), 0xffff);
    assert_eq!(Id::UiMode.value(), 0x1000);
    assert_eq!(UiModeNight::Yes.value(), 2);
    assert_eq!(AAssetMode::BUFFER.value(), 3);
    assert_eq!(Priority::Fatal.value(), 7);
}

#[test]
fn xcb_values() {
    assert_eq!(xcb_event_mask_t::XCB_EVENT_MASK_RESIZE_REDIRECT.value(), 262144);
    assert_eq!(xcb_cw_t::XCB_CW_EVENT_MASK.value(), 2048);
    assert_eq!(xcb_button_index_t::XCB_BUTTON_INDEX_3.value(), 3);
    assert_eq!(xcb_prop_mode_t::XCB_PROP_MODE_REPLACE.value(), 0);
    assert_eq!(xcb_atom_enum_t::XCB_ATOM_STRING.value(), 31);
    assert_eq!(xcb_atom_enum_t::XCB_ATOM_WM_NAME.value(), 39);
}
