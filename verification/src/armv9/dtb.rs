//! Boot-time configuration from the device tree on armv9: the memory
//! regions and devices the tree describes, and which driver serves each
//! device.
use vstd::prelude::*;
use vstd::string::StringSliceAdditionalSpecFns;
use crate::karnal::{KError, error_code};
use crate::text::str_eq;

verus! {

/// A memory region of the tree.
#[derive(Debug, Copy, Clone, PartialEq, Eq, Structural)]
pub struct DtbMemoryRegion {
    pub base_address: u64,
    pub size: u64,
}

/// A device of the tree.
#[derive(Debug, Copy, Clone)]
pub struct DtbDeviceInfo {
    /// The node name, such as `uart0`.
    pub name: &'static str,
    /// The compatible string, such as `arm,pl011`.
    pub compatible: &'static str,
    /// The base of its register window, if it has one.
    pub base_address: Option<u64>,
    /// The size of its register window, if it has one.
    pub size: Option<u64>,
    /// Its interrupt line, if it has one.
    pub interrupt: Option<u32>,
}

/// What the tree describes.
#[derive(Debug)]
pub struct ParsedDtbInfo {
    pub memory_regions: Vec<DtbMemoryRegion>,
    pub device_infos: Vec<DtbDeviceInfo>,
}

/// Reads the tree of `dtb_size` bytes at address `dtb_ptr`. A null address
/// or an empty tree is `InvalidArgument`; the reader reports one gigabyte
/// of RAM at 0x4000_0000, a PL011 UART `uart0` at 0x0900_0000 (4 KiB,
/// interrupt 33) and a global timer `timer0` (interrupt 27).
pub fn parse_dtb_from_ptr(dtb_ptr: usize, dtb_size: usize) -> (r: Result<ParsedDtbInfo, KError>)
    ensures
        (dtb_ptr == 0 || dtb_size == 0) ==> r == Err::<ParsedDtbInfo, KError>(KError::InvalidArgument),
        (dtb_ptr != 0 && dtb_size != 0) ==> (r matches Ok(info)
            && info.memory_regions@ == seq![DtbMemoryRegion { base_address: 0x4000_0000, size: 0x4000_0000 }]
            && info.device_infos@.len() == 2
            && info.device_infos@[0].name == "uart0"
            && info.device_infos@[0].compatible == "arm,pl011"
            && info.device_infos@[0].base_address == Some(0x0900_0000u64)
            && info.device_infos@[0].size == Some(0x1000u64)
            && info.device_infos@[0].interrupt == Some(33u32)
            && info.device_infos@[1].name == "timer0"
            && info.device_infos@[1].compatible == "arm,cortex-a15-global-timer"
            && info.device_infos@[1].base_address is None
            && info.device_infos@[1].size is None
            && info.device_infos@[1].interrupt == Some(27u32)),
{
    if dtb_ptr == 0 || dtb_size == 0 {
        return Err(KError::InvalidArgument);
    }
    let mut memory_regions: Vec<DtbMemoryRegion> = Vec::new();
    memory_regions.push(DtbMemoryRegion { base_address: 0x4000_0000, size: 0x4000_0000 });
    let mut device_infos: Vec<DtbDeviceInfo> = Vec::new();
    device_infos.push(DtbDeviceInfo {
        name: "uart0",
        compatible: "arm,pl011",
        base_address: Some(0x0900_0000),
        size: Some(0x1000),
        interrupt: Some(33),
    });
    device_infos.push(DtbDeviceInfo {
        name: "timer0",
        compatible: "arm,cortex-a15-global-timer",
        base_address: None,
        size: None,
        interrupt: Some(27),
    });
    assert(memory_regions@ =~= seq![DtbMemoryRegion { base_address: 0x4000_0000, size: 0x4000_0000 }]);
    Ok(ParsedDtbInfo { memory_regions, device_infos })
}

/// The drivers that can serve a device.
#[derive(Debug, Copy, Clone, PartialEq, Eq, Structural)]
pub enum DriverMatch {
    /// The PL011 UART driver (`arm,pl011`).
    Pl011Uart,
    /// The ARM global timer driver (`arm,cortex-a15-global-timer`).
    GlobalTimer,
    /// No driver.
    Unsupported,
}

/// The driver for compatible string `compatible`.
pub fn match_driver(compatible: &str) -> (r: DriverMatch)
    ensures
        compatible.spec_bytes() == "arm,pl011".spec_bytes() ==> r == DriverMatch::Pl011Uart,
        compatible.spec_bytes() != "arm,pl011".spec_bytes()
            && compatible.spec_bytes() == "arm,cortex-a15-global-timer".spec_bytes() ==> r == DriverMatch::GlobalTimer,
        compatible.spec_bytes() != "arm,pl011".spec_bytes()
            && compatible.spec_bytes() != "arm,cortex-a15-global-timer".spec_bytes() ==> r == DriverMatch::Unsupported,
{
    if str_eq(compatible, "arm,pl011") {
        DriverMatch::Pl011Uart
    } else if str_eq(compatible, "arm,cortex-a15-global-timer") {
        DriverMatch::GlobalTimer
    } else {
        DriverMatch::Unsupported
    }
}

/// Configures the kernel from what the tree describes. No driver instance
/// exists yet for any matched device, so nothing is registered and the
/// configuration succeeds.
pub fn initialize_karnal64_from_dtb(dtb_info: &ParsedDtbInfo) -> (r: Result<(), KError>)
    ensures
        r is Ok,
{
    let mut i: usize = 0;
    while i < dtb_info.device_infos.len()
        invariant
            i <= dtb_info.device_infos@.len(),
        decreases dtb_info.device_infos@.len() - i,
    {
        let _driver = match_driver(dtb_info.device_infos[i].compatible);
        i = i + 1;
    }
    Ok(())
}

/// Boot entry: reads the tree at physical address `dtb_physical_address`
/// (identity mapped, at most `dtb_max_size` bytes) and configures the
/// kernel; 0 on success, else the error's code.
pub fn initialize_dtb_and_karnal64(dtb_physical_address: u64, dtb_max_size: usize) -> (r: i64)
    requires
        dtb_physical_address <= usize::MAX,
    ensures
        (dtb_physical_address == 0 || dtb_max_size == 0) ==> r == error_code(KError::InvalidArgument),
        (dtb_physical_address != 0 && dtb_max_size != 0) ==> r == 0,
{
    let dtb_ptr = dtb_physical_address as usize;
    match parse_dtb_from_ptr(dtb_ptr, dtb_max_size) {
        Ok(dtb_info) => match initialize_karnal64_from_dtb(&dtb_info) {
            Ok(()) => 0,
            Err(err) => err.code(),
        },
        Err(err) => err.code(),
    }
}

} // verus!
