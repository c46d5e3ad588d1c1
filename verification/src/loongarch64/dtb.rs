//! Boot-time discovery from the flattened device tree on loongarch64: the
//! memory region, the processors and the NS16550A UART. The tree reader
//! here knows a fixed set of nodes and properties.
use vstd::prelude::*;
use vstd::string::StringSliceAdditionalSpecFns;
use crate::karnal::{KError, KResourceStatus, KseekFrom};
use crate::text::{occurs_in, str_contains, str_eq};

verus! {

/// The little-endian `u64` at byte `o` of `b`.
pub open spec fn le_u64_at(b: Seq<u8>, o: int) -> u64 {
    (b[o] as u64) | ((b[o + 1] as u64) << 8u64) | ((b[o + 2] as u64) << 16u64) | ((b[o + 3] as u64) << 24u64)
        | ((b[o + 4] as u64) << 32u64) | ((b[o + 5] as u64) << 40u64) | ((b[o + 6] as u64) << 48u64)
        | ((b[o + 7] as u64) << 56u64)
}

/// The little-endian `u32` at byte `o` of `b`.
pub open spec fn le_u32_at(b: Seq<u8>, o: int) -> u32 {
    (b[o] as u32) | ((b[o + 1] as u32) << 8u32) | ((b[o + 2] as u32) << 16u32) | ((b[o + 3] as u32) << 24u32)
}

/// `b` read as little-endian `u64` words.
pub open spec fn le_u64_words(b: Seq<u8>) -> Seq<u64> {
    Seq::new(b.len() / 8, |k: int| le_u64_at(b, 8 * k))
}

/// `b` read as little-endian `u32` words.
pub open spec fn le_u32_words(b: Seq<u8>) -> Seq<u32> {
    Seq::new(b.len() / 4, |k: int| le_u32_at(b, 4 * k))
}

/// The value this tree reader holds for property `prop` (of any node).
pub open spec fn property_value(prop: Seq<u8>) -> Option<Seq<u8>> {
    if prop == "reg".spec_bytes() {
        Some(seq![0u8, 0, 0, 0, 0x10, 0, 0, 0])
    } else if prop == "interrupts".spec_bytes() {
        Some(seq![0u8, 0, 0, 4])
    } else {
        None
    }
}

/// A device-tree node.
#[derive(Debug, Copy, Clone)]
pub struct DtbNode<'a> {
    pub name: &'a str,
}

impl<'a> DtbNode<'a> {
    /// The node itself when its name contains `compatible_string`.
    pub fn find_compatible(&self, compatible_string: &str) -> (r: Option<DtbNode<'a>>)
        ensures
            r is Some <==> occurs_in(self.name.spec_bytes(), compatible_string.spec_bytes()),
            r matches Some(n) ==> n.name == self.name,
    {
        if str_contains(self.name, compatible_string) {
            Some(DtbNode { name: self.name })
        } else {
            None
        }
    }

    /// The raw bytes of property `prop_name`.
    pub fn get_property_bytes(&self, prop_name: &str) -> (r: Option<Vec<u8>>)
        ensures
            r matches Some(v) ==> property_value(prop_name.spec_bytes()) == Some(v@),
            r is None ==> property_value(prop_name.spec_bytes()) is None,
    {
        if str_eq(prop_name, "reg") {
            let v: Vec<u8> = vec![0u8, 0, 0, 0, 0x10, 0, 0, 0];
            assert(v@ =~= seq![0u8, 0, 0, 0, 0x10, 0, 0, 0]);
            Some(v)
        } else if str_eq(prop_name, "interrupts") {
            let v: Vec<u8> = vec![0u8, 0, 0, 4];
            assert(v@ =~= seq![0u8, 0, 0, 4]);
            Some(v)
        } else {
            None
        }
    }

    /// Property `prop_name` as little-endian `u64` words, when its length is
    /// a multiple of eight.
    pub fn get_property_u64_array(&self, prop_name: &str) -> (r: Option<Vec<u64>>)
        ensures
            r matches Some(w) ==> (property_value(prop_name.spec_bytes()) matches Some(b)
                && b.len() % 8 == 0 && w@ == le_u64_words(b)),
            r is None ==> (property_value(prop_name.spec_bytes()) matches Some(b) ==> b.len() % 8 != 0),
    {
        let bytes = match self.get_property_bytes(prop_name) {
            Some(b) => b,
            None => return None,
        };
        if bytes.len() % 8 != 0 {
            return None;
        }
        let n = bytes.len() / 8;
        let mut words: Vec<u64> = Vec::new();
        let mut k: usize = 0;
        while k < n
            invariant
                n == bytes@.len() / 8,
                bytes@.len() % 8 == 0,
                bytes@.len() <= usize::MAX,
                k <= n,
                words@.len() == k,
                forall|j: int| 0 <= j < k ==> #[trigger] words@[j] == le_u64_at(bytes@, 8 * j),
            decreases n - k,
        {
            assert(8 * k + 7 < bytes@.len()) by (nonlinear_arith)
                requires
                    k < n,
                    n == bytes@.len() / 8,
                    bytes@.len() % 8 == 0;
            let o = 8 * k;
            let w = (bytes[o] as u64) | ((bytes[o + 1] as u64) << 8u64) | ((bytes[o + 2] as u64) << 16u64)
                | ((bytes[o + 3] as u64) << 24u64) | ((bytes[o + 4] as u64) << 32u64)
                | ((bytes[o + 5] as u64) << 40u64) | ((bytes[o + 6] as u64) << 48u64)
                | ((bytes[o + 7] as u64) << 56u64);
            words.push(w);
            k = k + 1;
        }
        assert(words@ =~= le_u64_words(bytes@));
        Some(words)
    }

    /// Property `prop_name` as little-endian `u32` words, when its length is
    /// a multiple of four.
    pub fn get_property_u32_array(&self, prop_name: &str) -> (r: Option<Vec<u32>>)
        ensures
            r matches Some(w) ==> (property_value(prop_name.spec_bytes()) matches Some(b)
                && b.len() % 4 == 0 && w@ == le_u32_words(b)),
            r is None ==> (property_value(prop_name.spec_bytes()) matches Some(b) ==> b.len() % 4 != 0),
    {
        let bytes = match self.get_property_bytes(prop_name) {
            Some(b) => b,
            None => return None,
        };
        if bytes.len() % 4 != 0 {
            return None;
        }
        let n = bytes.len() / 4;
        let mut words: Vec<u32> = Vec::new();
        let mut k: usize = 0;
        while k < n
            invariant
                n == bytes@.len() / 4,
                bytes@.len() % 4 == 0,
                bytes@.len() <= usize::MAX,
                k <= n,
                words@.len() == k,
                forall|j: int| 0 <= j < k ==> #[trigger] words@[j] == le_u32_at(bytes@, 4 * j),
            decreases n - k,
        {
            assert(4 * k + 3 < bytes@.len()) by (nonlinear_arith)
                requires
                    k < n,
                    n == bytes@.len() / 4,
                    bytes@.len() % 4 == 0;
            let o = 4 * k;
            let w = (bytes[o] as u32) | ((bytes[o + 1] as u32) << 8u32) | ((bytes[o + 2] as u32) << 16u32)
                | ((bytes[o + 3] as u32) << 24u32);
            words.push(w);
            k = k + 1;
        }
        assert(words@ =~= le_u32_words(bytes@));
        Some(words)
    }

    /// The node at `path`: this reader knows `/cpus` and `/memory`.
    pub fn find_node(&self, path: &str) -> (r: Option<DtbNode<'static>>)
        ensures
            path.spec_bytes() == "/cpus".spec_bytes() ==> (r matches Some(n) && n.name == "cpus"),
            path.spec_bytes() != "/cpus".spec_bytes() && path.spec_bytes() == "/memory".spec_bytes()
                ==> (r matches Some(n) && n.name == "memory"),
            path.spec_bytes() != "/cpus".spec_bytes() && path.spec_bytes() != "/memory".spec_bytes() ==> r is None,
    {
        if str_eq(path, "/cpus") {
            Some(DtbNode { name: "cpus" })
        } else if str_eq(path, "/memory") {
            Some(DtbNode { name: "memory" })
        } else {
            None
        }
    }

    /// The node's children; this reader lists none.
    pub fn children(&self) -> (r: Vec<DtbNode<'a>>)
        ensures
            r@.len() == 0,
    {
        Vec::new()
    }
}

/// The kernel's virtual address of physical address `phys_addr`, under a
/// fixed physical-to-virtual offset.
pub fn phys_to_virt(phys_addr: u64, phys_virt_offset: u64) -> (r: usize)
    requires
        phys_addr + phys_virt_offset <= u64::MAX,
    ensures
        r == (phys_addr + phys_virt_offset) as usize,
{
    (phys_addr + phys_virt_offset) as usize
}

/// A parsed device tree.
#[derive(Debug, Copy, Clone)]
pub struct DeviceTree {
    /// The root node, `/`.
    pub root: DtbNode<'static>,
}

impl DeviceTree {
    /// Opens the tree mapped at `dtb_virt_addr`; the null address is
    /// `InvalidArgument`.
    pub fn parse(dtb_virt_addr: usize) -> (r: Result<Self, KError>)
        ensures
            dtb_virt_addr == 0 ==> r == Err::<Self, KError>(KError::InvalidArgument),
            dtb_virt_addr != 0 ==> (r matches Ok(t) && t.root.name == "/"),
    {
        if dtb_virt_addr == 0 {
            return Err(KError::InvalidArgument);
        }
        Ok(DeviceTree { root: DtbNode { name: "/" } })
    }

    /// A node whose name contains `compatible_string`, searched from the root.
    pub fn find_compatible(&self, compatible_string: &str) -> (r: Option<DtbNode<'static>>)
        ensures
            r is Some <==> occurs_in(self.root.name.spec_bytes(), compatible_string.spec_bytes()),
            r matches Some(n) ==> n.name == self.root.name,
    {
        self.root.find_compatible(compatible_string)
    }

    /// The node at `path`, searched from the root.
    pub fn find_node(&self, path: &str) -> (r: Option<DtbNode<'static>>)
        ensures
            path.spec_bytes() == "/cpus".spec_bytes() ==> (r matches Some(n) && n.name == "cpus"),
            path.spec_bytes() != "/cpus".spec_bytes() && path.spec_bytes() == "/memory".spec_bytes()
                ==> (r matches Some(n) && n.name == "memory"),
            path.spec_bytes() != "/cpus".spec_bytes() && path.spec_bytes() != "/memory".spec_bytes() ==> r is None,
    {
        self.root.find_node(path)
    }
}

/// A UART found in the tree.
#[derive(Debug, Copy, Clone, PartialEq, Eq)]
pub struct UartDevice {
    /// Physical address of its registers.
    pub phys_addr: u64,
    /// Size of its register window.
    pub size: u64,
    /// Kernel virtual address of its registers.
    pub virt_addr: usize,
    /// Its interrupt line, when the tree names one.
    pub irq: Option<u32>,
}

/// What boot-time discovery found.
#[derive(Debug, Copy, Clone, PartialEq, Eq)]
pub struct DtbInitReport {
    /// The first memory region (base, size) handed to the memory manager.
    pub memory_region: Option<(u64, u64)>,
    /// The number of processors.
    pub cpu_count: usize,
    /// The NS16550A UART, to be registered as `karnal://device/uart0`.
    pub uart: Option<UartDevice>,
}

/// Records a physical memory region with the memory manager, which accepts
/// every region.
fn add_physical_memory_region(base: u64, size: u64) -> (r: Result<(), KError>)
    ensures
        r is Ok,
{
    Ok(())
}

/// Hands the processor count to the task manager, which accepts any count.
fn init_cpus_from_info(cpu_count: usize) -> (r: Result<(), KError>)
    ensures
        r is Ok,
{
    Ok(())
}

/// Discovers memory, processors and the UART from the device tree at
/// physical address `dtb_phys_addr`, mapped at `phys_virt_offset` from it.
/// A tree at virtual address 0 is `InvalidArgument`. A memory node or UART
/// counts only when its `reg` property holds an (address, size) pair; the
/// `reg` property this reader holds is one word, and the root's name does
/// not contain `ns16550a`, so nothing more than the empty report results.
pub fn init_from_dtb(dtb_phys_addr: u64, phys_virt_offset: u64) -> (r: Result<DtbInitReport, KError>)
    requires
        dtb_phys_addr + phys_virt_offset <= u64::MAX,
    ensures
        (dtb_phys_addr + phys_virt_offset) as usize == 0 ==> r == Err::<DtbInitReport, KError>(KError::InvalidArgument),
        (dtb_phys_addr + phys_virt_offset) as usize != 0 ==> r == Ok::<DtbInitReport, KError>(
            DtbInitReport { memory_region: None, cpu_count: 0, uart: None }),
{
    let dtb_virt_addr = phys_to_virt(dtb_phys_addr, phys_virt_offset);
    let device_tree = match DeviceTree::parse(dtb_virt_addr) {
        Ok(t) => t,
        Err(e) => return Err(e),
    };
    proof {
        reveal_strlit("reg");
        reveal_strlit("/memory");
        reveal_strlit("/cpus");
        reveal_strlit("/");
        reveal_strlit("ns16550a");
    }
    let mut memory_region: Option<(u64, u64)> = None;
    if let Some(memory_node) = device_tree.find_node("/memory") {
        if let Some(reg_prop) = memory_node.get_property_u64_array("reg") {
            if reg_prop.len() >= 2 {
                let base_addr = reg_prop[0];
                let size = reg_prop[1];
                match add_physical_memory_region(base_addr, size) {
                    Ok(()) => {},
                    Err(e) => return Err(e),
                }
                memory_region = Some((base_addr, size));
            }
        }
    }
    let mut cpu_count: usize = 0;
    if let Some(cpus_node) = device_tree.find_node("/cpus") {
        cpu_count = cpus_node.children().len();
        match init_cpus_from_info(cpu_count) {
            Ok(()) => {},
            Err(e) => return Err(e),
        }
    }
    let mut uart: Option<UartDevice> = None;
    if let Some(uart_node) = device_tree.find_compatible("ns16550a") {
        if let Some(reg_prop) = uart_node.get_property_u64_array("reg") {
            if reg_prop.len() >= 2 {
                let uart_phys_addr = reg_prop[0];
                let uart_size = reg_prop[1];
                if uart_phys_addr <= u64::MAX - phys_virt_offset {
                    let uart_virt_addr = phys_to_virt(uart_phys_addr, phys_virt_offset);
                    let mut irq: Option<u32> = None;
                    if let Some(irq_prop) = uart_node.get_property_u32_array("interrupts") {
                        if irq_prop.len() > 0 {
                            irq = Some(irq_prop[0]);
                        }
                    }
                    uart = Some(UartDevice { phys_addr: uart_phys_addr, size: uart_size, virt_addr: uart_virt_addr, irq });
                }
            }
        }
    }
    Ok(DtbInitReport { memory_region, cpu_count, uart })
}

/// NS16550A receive buffer register offset (read).
pub const UART_RBR: usize = 0x00;
/// NS16550A transmit holding register offset (write).
pub const UART_THR: usize = 0x00;
/// NS16550A line status register offset.
pub const UART_LSR: usize = 0x14;
/// Line status: a received byte is waiting.
pub const LSR_RX_DATA_READY: u8 = 0x01;
/// Line status: the transmit holding register is empty.
pub const LSR_TX_HOLDING_EMPTY: u8 = 0x20;

/// The memory-mapped NS16550A UART found in the tree.
#[derive(Debug, Copy, Clone, PartialEq, Eq, Structural)]
pub struct MmioUartProvider {
    /// Kernel virtual address of its registers.
    pub base_address: usize,
}

impl MmioUartProvider {
    /// The UART whose registers are at `base_address`.
    pub fn new(base_address: usize) -> (r: Self)
        ensures
            r.base_address == base_address,
    {
        MmioUartProvider { base_address }
    }

    /// The address of the register at `offset`.
    pub fn register_address(&self, offset: usize) -> (r: usize)
        requires
            self.base_address + offset <= usize::MAX,
        ensures
            r == self.base_address + offset,
    {
        self.base_address + offset
    }

    /// Whether line status `lsr` says a received byte is waiting.
    pub fn rx_ready(&self, lsr: u8) -> (r: bool)
        ensures
            r == (lsr & LSR_RX_DATA_READY != 0),
    {
        lsr & LSR_RX_DATA_READY != 0
    }

    /// Whether line status `lsr` says another byte can be sent.
    pub fn tx_ready(&self, lsr: u8) -> (r: bool)
        ensures
            r == (lsr & LSR_TX_HOLDING_EMPTY != 0),
    {
        lsr & LSR_TX_HOLDING_EMPTY != 0
    }

    /// The UART takes no control requests.
    pub fn control(&self, request: u64, arg: u64) -> (r: Result<i64, KError>)
        ensures
            r == Err::<i64, KError>(KError::NotSupported),
    {
        Err(KError::NotSupported)
    }

    /// The UART cannot seek.
    pub fn seek(&self, position: KseekFrom) -> (r: Result<u64, KError>)
        ensures
            r == Err::<u64, KError>(KError::NotSupported),
    {
        Err(KError::NotSupported)
    }

    /// The UART reports no status.
    pub fn get_status(&self) -> (r: Result<KResourceStatus, KError>)
        ensures
            r == Err::<KResourceStatus, KError>(KError::NotSupported),
    {
        Err(KError::NotSupported)
    }
}

} // verus!
