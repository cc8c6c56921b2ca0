//! Model of the USB serial-interface-engine register file and of the
//! software state that the interrupt handler shares with the task level.
//!
//! Every register of the controller that the driver touches is represented
//! here as a plain value: the control/status register, the interrupt enable
//! and status registers, the per-endpoint configuration, control/status and
//! transfer-count registers, the device address register and the 1024-byte
//! endpoint packet SRAM.  The driver logic is written, and verified, against
//! this model; the runtime layer mirrors it onto the memory-mapped hardware
//! with volatile accesses.

use vstd::prelude::*;

verus! {

/// Number of endpoints the controller offers: one control endpoint plus
/// seven configurable ones.
pub const MAX_EP_COUNT: usize = 8;

/// Largest packet a full-speed endpoint can carry.
pub const MAX_PACKET_SIZE: usize = 64;

/// Size of the shared endpoint packet SRAM in bytes.
pub const EP_SRAM_SIZE: usize = 1024;

/// Control/status register: power management, the DP pull-up that makes the
/// device visible to the host, and the two self-clearing reset controls.
#[derive(Clone, Copy, Debug, PartialEq, Eq, Structural)]
pub struct ControlStatus {
    /// Power-down mode.
    pub pdwn: bool,
    /// Low-power mode.
    pub lpmode: bool,
    /// DP pull-up enable; asserting it makes the device visible on the bus.
    pub dppuen: bool,
    /// DP wake-up enable.
    pub dpwken: bool,
    /// SRAM/DATA-toggle reset control; pulsed, never left set.
    pub sramrstc: bool,
    /// Force reset of the USB function.
    pub fres: bool,
}

impl ControlStatus {
    /// The value every field holds after power-on.
    pub open spec fn all_clear(self) -> bool {
        !self.pdwn && !self.lpmode && !self.dppuen && !self.dpwken && !self.sramrstc
            && !self.fres
    }
}

/// Interrupt-enable register: the global gate plus one enable per source.
#[derive(Clone, Copy, Debug, PartialEq, Eq, Structural)]
pub struct InterruptEnable {
    /// Global interrupt gate.
    pub ugie: bool,
    /// Start-of-frame interrupt.
    pub sofie: bool,
    /// Bus-reset interrupt.
    pub urstie: bool,
    /// Resume interrupt.
    pub rsmie: bool,
    /// Suspend interrupt.
    pub suspie: bool,
    /// Endpoint 0 interrupt.
    pub ep0ie: bool,
    /// Endpoint 1 interrupt.
    pub ep1ie: bool,
    /// Endpoint 2 interrupt.
    pub ep2ie: bool,
    /// Endpoint 3 interrupt.
    pub ep3ie: bool,
}

impl InterruptEnable {
    /// The mask the driver programs: every source it services is enabled.
    pub open spec fn service_mask(self) -> bool {
        self.ugie && self.sofie && self.urstie && self.rsmie && self.suspie && self.ep0ie
    }

    /// All sources masked.
    pub open spec fn all_masked(self) -> bool {
        !self.ugie && !self.sofie && !self.urstie && !self.rsmie && !self.suspie
            && !self.ep0ie && !self.ep1ie && !self.ep2ie && !self.ep3ie
    }
}

/// Interrupt-status register; each bit is set by hardware and cleared by
/// software writing one to it.
#[derive(Clone, Copy, Debug, PartialEq, Eq, Structural)]
pub struct InterruptStatus {
    /// Bus reset seen.
    pub urstif: bool,
    /// Start of frame seen.
    pub sofif: bool,
    /// Suspend condition seen.
    pub suspif: bool,
    /// Resume signalling seen.
    pub rsmif: bool,
    /// Endpoint 0 transaction complete.
    pub ep0if: bool,
    /// Endpoint 1 transaction complete.
    pub ep1if: bool,
    /// Endpoint 2 transaction complete.
    pub ep2if: bool,
    /// Endpoint 3 transaction complete.
    pub ep3if: bool,
}

impl InterruptStatus {
    /// No source pending.
    pub open spec fn all_clear(self) -> bool {
        !self.urstif && !self.sofif && !self.suspif && !self.rsmif && !self.ep0if
            && !self.ep1if && !self.ep2if && !self.ep3if
    }
}

/// Per-endpoint configuration register: buffer placement, length, address,
/// transfer type, direction and the enable bit.
#[derive(Clone, Copy, Debug, PartialEq, Eq, Structural)]
pub struct EpConfig {
    /// Endpoint enable.
    pub enabled: bool,
    /// Transfer-type bit: set for isochronous, clear for control, bulk and
    /// interrupt transfers.
    pub isochronous: bool,
    /// Direction bit: set for IN (device to host).
    pub dir_in: bool,
    /// Endpoint address field.
    pub address: u8,
    /// Buffer length field.  Endpoint 0 counts bytes; endpoints 1 to 7
    /// count 4-byte words.
    pub length: u8,
    /// Buffer offset inside the packet SRAM.
    pub buf_offset: u16,
}

impl EpConfig {
    /// Power-on value.
    pub open spec fn reset_value() -> EpConfig {
        EpConfig {
            enabled: false,
            isochronous: false,
            dir_in: false,
            address: 0,
            length: 0,
            buf_offset: 0,
        }
    }
}

/// Per-endpoint control/status register: the not-acknowledge bits that hand
/// buffer ownership between firmware and hardware, and the stall bits.
#[derive(Clone, Copy, Debug, PartialEq, Eq, Structural)]
pub struct EpControl {
    /// Transmit not-acknowledge: set while firmware owns the IN buffer.
    pub naktx: bool,
    /// Receive not-acknowledge: set once firmware has consumed the OUT
    /// buffer, until hardware refills it.
    pub nakrx: bool,
    /// Transmit stall.
    pub stltx: bool,
    /// Receive stall.
    pub stlrx: bool,
}

impl EpControl {
    /// Power-on value.
    pub open spec fn reset_value() -> EpControl {
        EpControl { naktx: false, nakrx: false, stltx: false, stlrx: false }
    }
}

/// Per-endpoint transfer-count register.
#[derive(Clone, Copy, Debug, PartialEq, Eq, Structural)]
pub struct EpTransfer {
    /// Bytes queued for the next IN transaction.
    pub tx_count: u8,
    /// Bytes the last OUT transaction delivered.
    pub rx_count: u16,
}

impl EpTransfer {
    /// Power-on value.
    pub open spec fn reset_value() -> EpTransfer {
        EpTransfer { tx_count: 0, rx_count: 0 }
    }
}

/// The flags the interrupt handler leaves for the bus event loop: one per
/// interrupt source, set in interrupt context and cleared by the consumer.
#[derive(Clone, Copy, Debug, PartialEq, Eq, Structural)]
pub struct EventFlags {
    /// A bus reset was seen.
    pub reset: bool,
    /// A suspend condition was seen.
    pub suspend: bool,
    /// Resume signalling was seen.
    pub resume: bool,
    /// A start-of-frame token was seen.
    pub sof: bool,
    /// Endpoint 0 completed a transaction.
    pub ep0: bool,
    /// Endpoint 1 completed a transaction.
    pub ep1: bool,
    /// Endpoint 2 completed a transaction.
    pub ep2: bool,
    /// Endpoint 3 completed a transaction.
    pub ep3: bool,
}

impl EventFlags {
    /// No flag raised.
    pub open spec fn none_set(self) -> bool {
        !self.reset && !self.suspend && !self.resume && !self.sof && !self.ep0 && !self.ep1
            && !self.ep2 && !self.ep3
    }

    /// Whether any endpoint data-ready flag is raised.
    pub open spec fn any_endpoint(self) -> bool {
        self.ep0 || self.ep1 || self.ep2 || self.ep3
    }
}

/// One-shot, overwrite-safe wake notification.  Raising it twice before the
/// waiter runs coalesces into a single wake; the waiter consumes it and must
/// then re-examine the condition it cares about.
#[derive(Clone, Copy, Debug, PartialEq, Eq, Structural)]
pub struct WakeSignal {
    /// Whether a wake is pending.
    pub pending: bool,
}

/// The device-configuration latch: records that the host has issued
/// SET_CONFIGURATION, and carries its own wake signal for endpoint tasks
/// parked until then.
#[derive(Clone, Copy, Debug, PartialEq, Eq, Structural)]
pub struct ConfigLatch {
    /// True from the moment a SET_CONFIGURATION request is decoded until the
    /// next bus reset.
    pub configured: bool,
    /// Wake signal for tasks waiting on the latch.
    pub signal: WakeSignal,
}

/// The complete state the driver works on: the controller's register file,
/// the packet SRAM, and the software state shared between interrupt and task
/// context (event flags, the bus wake signal and the configuration latch).
///
/// The counter `data_toggle_resets` stands for the hardware's response to a
/// pulse of the SRAM/DATA-toggle reset control: each pulse rewinds every
/// endpoint's DATA0/DATA1 sequence once.  The register bit itself is always
/// left clear.
pub struct UsbController {
    /// Control/status register.
    pub csr: ControlStatus,
    /// Interrupt-enable register.
    pub ier: InterruptEnable,
    /// Interrupt-status register.
    pub isr: InterruptStatus,
    /// Device address register (7 bits).
    pub devar: u8,
    /// Per-endpoint configuration registers, indexed by endpoint number.
    pub ep_config: Vec<EpConfig>,
    /// Per-endpoint control/status registers.
    pub ep_control: Vec<EpControl>,
    /// Per-endpoint transfer-count registers.
    pub ep_transfer: Vec<EpTransfer>,
    /// The shared 1024-byte endpoint packet SRAM.
    pub sram: Vec<u8>,
    /// How many SRAM/DATA-toggle reset pulses have been applied.
    pub data_toggle_resets: u64,
    /// Interrupt-to-task event flags.
    pub flags: EventFlags,
    /// Wake signal for the bus event loop.
    pub wake: WakeSignal,
    /// Device-configuration latch.
    pub latch: ConfigLatch,
}

impl UsbController {
    /// Well-formedness: the register banks cover all eight endpoints and the
    /// SRAM has its full size.
    pub open spec fn wf(self) -> bool {
        &&& self.ep_config.len() == MAX_EP_COUNT
        &&& self.ep_control.len() == MAX_EP_COUNT
        &&& self.ep_transfer.len() == MAX_EP_COUNT
        &&& self.sram.len() == EP_SRAM_SIZE
    }

    /// Everything except the endpoint register banks and the SRAM, as a
    /// tuple; convenient for stating that an operation leaves the rest of
    /// the controller alone.
    pub open spec fn scalar_state(self) -> (ControlStatus, InterruptEnable, InterruptStatus,
        u8, u64, EventFlags, WakeSignal, ConfigLatch) {
        (self.csr, self.ier, self.isr, self.devar, self.data_toggle_resets, self.flags,
            self.wake, self.latch)
    }

    /// Build a controller in its power-on state: every register clear, the
    /// SRAM zeroed, no flags raised, the latch open.
    pub fn new() -> (r: UsbController)
        ensures
            r.wf(),
            r.csr.all_clear(),
            r.ier.all_masked(),
            r.isr.all_clear(),
            r.devar == 0,
            forall|i: int| 0 <= i < MAX_EP_COUNT ==> r.ep_config@[i] == EpConfig::reset_value(),
            forall|i: int| 0 <= i < MAX_EP_COUNT ==> r.ep_control@[i] == EpControl::reset_value(),
            forall|i: int| 0 <= i < MAX_EP_COUNT ==> r.ep_transfer@[i] == EpTransfer::reset_value(),
            forall|i: int| 0 <= i < EP_SRAM_SIZE ==> r.sram@[i] == 0u8,
            r.data_toggle_resets == 0,
            r.flags.none_set(),
            !r.wake.pending,
            !r.latch.configured,
            !r.latch.signal.pending,
    {
        let mut ep_config: Vec<EpConfig> = Vec::new();
        let mut ep_control: Vec<EpControl> = Vec::new();
        let mut ep_transfer: Vec<EpTransfer> = Vec::new();
        let mut sram: Vec<u8> = Vec::new();
        let mut i: usize = 0;
        while i < MAX_EP_COUNT
            invariant
                i <= MAX_EP_COUNT,
                ep_config.len() == i,
                ep_control.len() == i,
                ep_transfer.len() == i,
                forall|j: int| 0 <= j < i ==> ep_config@[j] == EpConfig::reset_value(),
                forall|j: int| 0 <= j < i ==> ep_control@[j] == EpControl::reset_value(),
                forall|j: int| 0 <= j < i ==> ep_transfer@[j] == EpTransfer::reset_value(),
            decreases MAX_EP_COUNT - i,
        {
            ep_config.push(EpConfig {
                enabled: false,
                isochronous: false,
                dir_in: false,
                address: 0,
                length: 0,
                buf_offset: 0,
            });
            ep_control.push(EpControl { naktx: false, nakrx: false, stltx: false, stlrx: false });
            ep_transfer.push(EpTransfer { tx_count: 0, rx_count: 0 });
            i = i + 1;
        }
        let mut k: usize = 0;
        while k < EP_SRAM_SIZE
            invariant
                k <= EP_SRAM_SIZE,
                sram.len() == k,
                forall|j: int| 0 <= j < k ==> sram@[j] == 0u8,
            decreases EP_SRAM_SIZE - k,
        {
            sram.push(0u8);
            k = k + 1;
        }
        UsbController {
            csr: ControlStatus {
                pdwn: false,
                lpmode: false,
                dppuen: false,
                dpwken: false,
                sramrstc: false,
                fres: false,
            },
            ier: InterruptEnable {
                ugie: false,
                sofie: false,
                urstie: false,
                rsmie: false,
                suspie: false,
                ep0ie: false,
                ep1ie: false,
                ep2ie: false,
                ep3ie: false,
            },
            isr: InterruptStatus {
                urstif: false,
                sofif: false,
                suspif: false,
                rsmif: false,
                ep0if: false,
                ep1if: false,
                ep2if: false,
                ep3if: false,
            },
            devar: 0,
            ep_config,
            ep_control,
            ep_transfer,
            sram,
            data_toggle_resets: 0,
            flags: EventFlags {
                reset: false,
                suspend: false,
                resume: false,
                sof: false,
                ep0: false,
                ep1: false,
                ep2: false,
                ep3: false,
            },
            wake: WakeSignal { pending: false },
            latch: ConfigLatch { configured: false, signal: WakeSignal { pending: false } },
        }
    }
}

/// The byte at position `pos` (0 to 3) of a 32-bit packet-SRAM word.
///
/// The packet memory wants word-wide accesses; the runtime layer extracts
/// each byte through this.
pub fn sram_byte_of_word(word: u32, pos: u8) -> (r: u8)
    requires
        pos < 4,
    ensures
        r == ((word >> (8 * pos as u32)) & 0xFF) as u8,
{
    ((word >> (8 * pos as u32)) & 0xFF) as u8
}

/// A 32-bit packet-SRAM word with its byte at position `pos` (0 to 3)
/// replaced.
///
/// The runtime layer merges single bytes into word-wide writes through
/// this.
pub fn sram_word_with_byte(word: u32, pos: u8, byte: u8) -> (r: u32)
    requires
        pos < 4,
    ensures
        r == (word & !(0xFFu32 << (8 * pos as u32))) | ((byte as u32) << (8 * pos as u32)),
{
    (word & !(0xFFu32 << (8 * pos as u32))) | ((byte as u32) << (8 * pos as u32))
}

} // verus!
