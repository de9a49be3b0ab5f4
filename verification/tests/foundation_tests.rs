use vulkust::objc_dispatch::{msg_send_entry, MsgSendEntry, TargetArch};
use vulkust::foundation::NSDictionaryBuilder;

#[test]
fn builder_keeps_entries_in_order() {
    let b: NSDictionaryBuilder<String, u64> = NSDictionaryBuilder::new();
    assert!(b.keys.is_empty() && b.values.is_empty());
    let b = b.add_with_str("MTKTextureLoaderOptionSRGB", 1).add("Other".to_string(), 2);
    assert_eq!(b.keys, vec!["MTKTextureLoaderOptionSRGB".to_string(), "Other".to_string()]);
    assert_eq!(b.values, vec![1, 2]);
}

#[test]
fn builder_with_any_key_type() {
    let b = NSDictionaryBuilder::new().add(7u32, 'a').add(9u32, 'b');
    assert_eq!(b.keys, vec![7, 9]);
    assert_eq!(b.values, vec!['a', 'b']);
}

#[test]
fn objc_entry_points() {
    assert_eq!(msg_send_entry(TargetArch::X86_64, 16, false), MsgSendEntry::Plain);
    assert_eq!(msg_send_entry(TargetArch::X86_64, 17, false), MsgSendEntry::Stret);
    assert_eq!(msg_send_entry(TargetArch::X86_64, 32, true), MsgSendEntry::Stret);
    assert_eq!(msg_send_entry(TargetArch::Aarch64, 1000, false), MsgSendEntry::Plain);
    assert_eq!(msg_send_entry(TargetArch::Arm, 4, false), MsgSendEntry::Plain);
    assert_eq!(msg_send_entry(TargetArch::Arm, 8, true), MsgSendEntry::Plain);
    assert_eq!(msg_send_entry(TargetArch::Arm, 8, false), MsgSendEntry::Stret);
}
