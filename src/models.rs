use vstd::prelude::*;

verus! {

/// The USB vendor id of the keyboards.
pub const UHK_VENDOR_ID: u16 = 0x1D50;

/// The USB identities of one keyboard model.
#[derive(Debug, Clone, Copy, PartialEq, Eq, Structural)]
pub struct UhkDeviceProduct {
    pub vendor_id: u16,
    pub keyboard_pid: u16,
    pub bootloader_pid: u16,
    pub buspal_pid: u16,
}

impl UhkDeviceProduct {
    /// The UHK 60 v2.
    pub fn uhk_60_v2() -> (r: UhkDeviceProduct)
        ensures
            r == (UhkDeviceProduct {
                vendor_id: UHK_VENDOR_ID,
                keyboard_pid: 0x6124,
                bootloader_pid: 0x6123,
                buspal_pid: 0x6121,
            }),
    {
        UhkDeviceProduct {
            vendor_id: UHK_VENDOR_ID,
            keyboard_pid: 0x6124,
            bootloader_pid: 0x6123,
            buspal_pid: 0x6121,
        }
    }
}

/// Whether a HID interface is the command interface of a keyboard: the
/// vendor is ours and it is interface 0.
pub fn is_uhk_interface(vendor_id: u16, interface_number: i32) -> (r: bool)
    ensures
        r == (vendor_id == UHK_VENDOR_ID && interface_number == 0),
{
    vendor_id == UHK_VENDOR_ID && interface_number == 0
}

} // verus!
