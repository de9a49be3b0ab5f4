use vstd::prelude::*;

verus! {

/// The processor families the Objective-C runtime is called on.
#[derive(PartialEq, Eq, Structural, Clone, Copy, Debug)]
pub enum TargetArch {
    X86_64,
    Aarch64,
    Arm,
}

/// The entry points of the Objective-C runtime that send a message: the
/// plain one, and the one for results that are returned through memory.
#[derive(PartialEq, Eq, Structural, Clone, Copy, Debug)]
pub enum MsgSendEntry {
    Plain,
    Stret,
}

/// The entry point that sends a message whose result takes `result_size`
/// bytes on `arch`; `result_is_wide_scalar` tells whether the result is an
/// `i64`, `u64` or `f64`. On x86-64 results of up to 16 bytes come back in
/// registers; on 32-bit ARM those of up to 4 bytes and the 64-bit scalars
/// do; on AArch64 every result does.
pub open spec fn spec_msg_send_entry(arch: TargetArch, result_size: usize, result_is_wide_scalar: bool) -> MsgSendEntry {
    match arch {
        TargetArch::X86_64 => if result_size <= 16 {
            MsgSendEntry::Plain
        } else {
            MsgSendEntry::Stret
        },
        TargetArch::Aarch64 => MsgSendEntry::Plain,
        TargetArch::Arm => if result_size <= 4 || result_is_wide_scalar {
            MsgSendEntry::Plain
        } else {
            MsgSendEntry::Stret
        },
    }
}

/// The entry point that sends a message whose result takes `result_size`
/// bytes on `arch`.
pub fn msg_send_entry(arch: TargetArch, result_size: usize, result_is_wide_scalar: bool) -> (e: MsgSendEntry)
    ensures
        e == spec_msg_send_entry(arch, result_size, result_is_wide_scalar),
{
    match arch {
        TargetArch::X86_64 => if result_size <= 16 {
            MsgSendEntry::Plain
        } else {
            MsgSendEntry::Stret
        },
        TargetArch::Aarch64 => MsgSendEntry::Plain,
        TargetArch::Arm => if result_size <= 4 || result_is_wide_scalar {
            MsgSendEntry::Plain
        } else {
            MsgSendEntry::Stret
        },
    }
}

} // verus!
