//! USB full-speed device-controller driver.
//!
//! The controller offers one bidirectional control endpoint and seven
//! configurable endpoints backed by a shared 1024-byte packet SRAM.  The
//! driver splits into an endpoint allocator, a minimal interrupt-handler
//! fast path, a bus event loop, the endpoint-0 control pipe and per-endpoint
//! packet I/O, all written against the register model in [`model`].
//!
//! The driver's suspension points (waiting on the wake signal, bounded
//! polling with yields) are expressed here as plain functions over the
//! model: each either acts on the pending condition or reports, through
//! its result, that the caller must suspend and re-check.  The runtime
//! layer owns the actual waiting.

use vstd::prelude::*;

pub mod map;
pub mod model;

use core::marker::PhantomData;

use crate::gpio::mode;
use crate::gpio::Pin;
use map::{get_endpoint_buffer_addr, get_ep0_setup_addr, spec_buffer_addr, EP0_RX_OFFSET,
    EP0_SETUP_OFFSET, EP0_TX_OFFSET};
use model::{ConfigLatch, ControlStatus, EpConfig, EpControl, EpTransfer, EventFlags,
    InterruptEnable, InterruptStatus, UsbController, WakeSignal};

verus! {

/// Direction of a USB endpoint, seen from the host.
#[derive(Clone, Copy, Debug, PartialEq, Eq, Structural)]
pub enum Direction {
    /// Host to device.
    Out,
    /// Device to host.
    In,
}

/// Transfer type of a USB endpoint.
#[derive(Clone, Copy, Debug, PartialEq, Eq, Structural)]
pub enum EndpointType {
    /// Control transfers (endpoint 0).
    Control,
    /// Isochronous transfers.
    Isochronous,
    /// Bulk transfers.
    Bulk,
    /// Interrupt transfers.
    Interrupt,
}

/// A USB endpoint address: a number from 0 to 7 plus a direction.
#[derive(Clone, Copy, Debug, PartialEq, Eq, Structural)]
pub struct EndpointAddress {
    /// The endpoint number, 0 to 7.
    pub number: u8,
    /// The direction the address names.
    pub direction: Direction,
}

impl EndpointAddress {
    /// Build an address from an endpoint number and a direction.
    pub fn from_parts(number: u8, direction: Direction) -> (r: EndpointAddress)
        ensures
            r.number == number,
            r.direction == direction,
    {
        EndpointAddress { number, direction }
    }

    /// The endpoint number.
    pub fn index(&self) -> (r: u8)
        ensures
            r == self.number,
    {
        self.number
    }

    /// Whether the address names the IN (device-to-host) direction.
    pub fn is_in(&self) -> (r: bool)
        ensures
            r == (self.direction == Direction::In),
    {
        match self.direction {
            Direction::In => true,
            Direction::Out => false,
        }
    }
}

/// Everything negotiated about an endpoint at allocation time; immutable
/// afterwards.
#[derive(Clone, Copy, Debug, PartialEq, Eq, Structural)]
pub struct EndpointInfo {
    /// The endpoint's address.
    pub addr: EndpointAddress,
    /// The endpoint's transfer type.
    pub ep_type: EndpointType,
    /// Negotiated maximum packet size, at most 64 bytes.
    pub max_packet_size: u16,
    /// Polling interval in milliseconds, for interrupt endpoints.
    pub interval_ms: u8,
}

/// A discrete bus event, as returned by one call of the event loop.
#[derive(Clone, Copy, Debug, PartialEq, Eq, Structural)]
pub enum Event {
    /// The device became visible to the host (bus reset handled, or the
    /// one-time power announcement at start-up).
    PowerDetected,
    /// The host resumed the bus.
    Resume,
    /// The host suspended the bus; also the quiet "nothing to do" outcome.
    Suspend,
}

/// The requested or defaulted endpoint address is already in use.
#[derive(Clone, Copy, Debug, PartialEq, Eq, Structural)]
pub struct EndpointAllocError;

/// A transfer could not be carried out.
#[derive(Clone, Copy, Debug, PartialEq, Eq, Structural)]
pub enum EndpointError {
    /// The caller's buffer exceeds what the endpoint can carry.
    BufferOverflow,
    /// The endpoint is not enabled.
    Disabled,
}

/// The controller does not implement the requested capability.
#[derive(Clone, Copy, Debug, PartialEq, Eq, Structural)]
pub struct Unsupported;

/// Marker for the IN (device-to-host) side of an endpoint.
pub struct In;

/// Marker for the OUT (host-to-device) side of an endpoint.
pub struct Out;

/// USB peripheral handle.
pub struct Usb {
    _private: (),
}

impl Usb {
    /// Claim the USB peripheral.
    pub fn new() -> Self {
        Usb { _private: () }
    }
}

/// USB driver configuration.
///
/// This controller has no VBUS sensing; both fields are accepted for
/// interface compatibility and ignored.
#[derive(Clone, Copy, Debug, PartialEq, Eq, Structural)]
pub struct Config {
    /// Enable VBUS detection.
    pub vbus_detection: bool,
    /// Enable the VBUS detect interrupt.
    pub enable_vbus_detect: bool,
}

impl Default for Config {
    fn default() -> (r: Self)
        ensures
            !r.vbus_detection,
            !r.enable_vbus_detect,
    {
        Config { vbus_detection: false, enable_vbus_detect: false }
    }
}

/// The DM (data minus) pin in its USB alternate function.
pub type UsbDm<const PORT: u8, const PIN: u8> = Pin<PORT, PIN, mode::AlternateFunction<0>>;

/// The DP (data plus) pin in its USB alternate function.
pub type UsbDp<const PORT: u8, const PIN: u8> = Pin<PORT, PIN, mode::AlternateFunction<0>>;

/// The DM/DP pin pair the controller drives.
pub struct UsbPins<const DM_PORT: u8, const DM_PIN: u8, const DP_PORT: u8, const DP_PIN: u8> {
    /// Data minus.
    pub dm: UsbDm<DM_PORT, DM_PIN>,
    /// Data plus.
    pub dp: UsbDp<DP_PORT, DP_PIN>,
}

impl<const DM_PORT: u8, const DM_PIN: u8, const DP_PORT: u8, const DP_PIN: u8> UsbPins<
    DM_PORT,
    DM_PIN,
    DP_PORT,
    DP_PIN,
> {
    /// Pair up the two USB pins.
    pub fn new(dm: UsbDm<DM_PORT, DM_PIN>, dp: UsbDp<DP_PORT, DP_PIN>) -> Self {
        UsbPins { dm, dp }
    }
}


/// Copy `count` bytes out of the packet SRAM, starting at `offset`, into the
/// front of `buf`.
fn copy_from_sram(sram: &Vec<u8>, offset: usize, count: usize, buf: &mut Vec<u8>)
    requires
        offset + count <= sram.len(),
        count <= old(buf).len(),
    ensures
        final(buf).len() == old(buf).len(),
        forall|i: int| 0 <= i < count ==> final(buf)@[i] == sram@[offset + i],
        forall|i: int| count <= i < old(buf).len() ==> final(buf)@[i] == old(buf)@[i],
{
    let mut i: usize = 0;
    while i < count
        invariant
            i <= count,
            offset + count <= sram.len(),
            count <= buf.len(),
            buf.len() == old(buf).len(),
            forall|j: int| 0 <= j < i ==> buf@[j] == sram@[offset + j],
            forall|j: int| i <= j < old(buf).len() ==> buf@[j] == old(buf)@[j],
        decreases count - i,
    {
        let b = sram[offset + i];
        buf.set(i, b);
        i = i + 1;
    }
}

/// Copy the first `count` bytes of `data` into the packet SRAM at `offset`.
fn copy_to_sram(sram: &mut Vec<u8>, offset: usize, data: &[u8], count: usize)
    requires
        offset + count <= old(sram).len(),
        count <= data.len(),
    ensures
        final(sram).len() == old(sram).len(),
        forall|i: int| 0 <= i < count ==> final(sram)@[offset + i] == data@[i],
        forall|i: int|
            0 <= i < old(sram).len() && !(offset <= i < offset + count)
                ==> final(sram)@[i] == old(sram)@[i],
{
    let mut i: usize = 0;
    while i < count
        invariant
            i <= count,
            offset + count <= sram.len(),
            count <= data.len(),
            sram.len() == old(sram).len(),
            forall|j: int| 0 <= j < i ==> sram@[offset + j] == data@[j],
            forall|j: int|
                0 <= j < old(sram).len() && !(offset <= j < offset + i)
                    ==> sram@[j] == old(sram)@[j],
        decreases count - i,
    {
        let b = data[i];
        sram.set(offset + i, b);
        i = i + 1;
    }
}

/// A packet size clamped to what full speed allows.
pub open spec fn spec_clamp64(mps: u16) -> u16 {
    if mps < 64 {
        mps
    } else {
        64u16
    }
}

/// The default endpoint number for an IN endpoint of the given type, chosen
/// to match common class-driver expectations.
pub open spec fn spec_default_in_number(ep_type: EndpointType) -> u8 {
    match ep_type {
        EndpointType::Interrupt => 1u8,
        EndpointType::Bulk => 3u8,
        EndpointType::Isochronous => 5u8,
        EndpointType::Control => 0u8,
    }
}

/// The default endpoint number for an OUT endpoint of the given type.
pub open spec fn spec_default_out_number(ep_type: EndpointType) -> u8 {
    match ep_type {
        EndpointType::Bulk => 2u8,
        EndpointType::Isochronous => 4u8,
        EndpointType::Interrupt => 6u8,
        EndpointType::Control => 0u8,
    }
}

/// The address an IN allocation settles on: the requested one, or the
/// type's default.
pub open spec fn spec_chosen_in_addr(requested: Option<EndpointAddress>, ep_type: EndpointType)
    -> EndpointAddress {
    match requested {
        Some(a) => a,
        None => EndpointAddress {
            number: spec_default_in_number(ep_type),
            direction: Direction::In,
        },
    }
}

/// The address an OUT allocation settles on.
pub open spec fn spec_chosen_out_addr(requested: Option<EndpointAddress>, ep_type: EndpointType)
    -> EndpointAddress {
    match requested {
        Some(a) => a,
        None => EndpointAddress {
            number: spec_default_out_number(ep_type),
            direction: Direction::Out,
        },
    }
}

/// The allocation-bitmap bit of an endpoint number.
pub open spec fn spec_alloc_mask(number: u8) -> u16 {
    1u16 << number
}

/// The buffer length field programmed for endpoints 1 to 7: the clamped
/// packet size rounded up to the controller's 4-byte word granularity,
/// stored in words.
pub open spec fn spec_aligned_words(mps: u16) -> int {
    (spec_clamp64(mps) + 3) / 4
}

/// How configuring an endpoint changes the controller: the endpoint's
/// configuration register is programmed and its interrupt source enabled;
/// nothing else moves.  Endpoints 4 to 7 have no configuration registers
/// wired up on this controller, so configuring them changes nothing.
pub open spec fn spec_ep_configured(pre: UsbController, post: UsbController,
    addr: EndpointAddress, ep_type: EndpointType, mps: u16) -> bool {
    let n = addr.number as int;
    let is_in = addr.direction == Direction::In;
    &&& post.csr == pre.csr
    &&& post.isr == pre.isr
    &&& post.devar == pre.devar
    &&& post.ep_control@ == pre.ep_control@
    &&& post.ep_transfer@ == pre.ep_transfer@
    &&& post.sram@ == pre.sram@
    &&& post.data_toggle_resets == pre.data_toggle_resets
    &&& post.flags == pre.flags
    &&& post.wake == pre.wake
    &&& post.latch == pre.latch
    &&& if n == 0 {
        &&& post.ep_config@ == pre.ep_config@.update(0, (EpConfig {
            buf_offset: EP0_SETUP_OFFSET,
            length: spec_clamp64(mps) as u8,
            ..pre.ep_config@[0]
        }))
        &&& post.ier == (InterruptEnable { ep0ie: true, ..pre.ier })
    } else if 1 <= n <= 3 {
        &&& post.ep_config@ == pre.ep_config@.update(n, (EpConfig {
            enabled: true,
            isochronous: ep_type == EndpointType::Isochronous,
            dir_in: is_in,
            address: addr.number,
            length: spec_aligned_words(mps) as u8,
            buf_offset: spec_buffer_addr(n, is_in) as u16,
        }))
        &&& post.ier == (InterruptEnable {
            ep1ie: n == 1 || pre.ier.ep1ie,
            ep2ie: n == 2 || pre.ier.ep2ie,
            ep3ie: n == 3 || pre.ier.ep3ie,
            ..pre.ier
        })
    } else {
        &&& post.ep_config@ == pre.ep_config@
        &&& post.ier == pre.ier
    }
}

/// Program an endpoint's configuration register and enable its interrupt
/// source.
fn configure_endpoint_hardware(ctl: &mut UsbController, addr: EndpointAddress,
    ep_type: EndpointType, max_packet_size: u16)
    requires
        old(ctl).wf(),
        addr.number < 16,
    ensures
        final(ctl).wf(),
        spec_ep_configured(*old(ctl), *final(ctl), addr, ep_type, max_packet_size),
{
    let ep_num = addr.index() as usize;
    let is_in = addr.is_in();
    let clamped: u16 = if max_packet_size < 64 { max_packet_size } else { 64 };
    if ep_num == 0 {
        let mut entry = ctl.ep_config[0];
        entry.buf_offset = get_ep0_setup_addr();
        entry.length = clamped as u8;
        ctl.ep_config.set(0, entry);
        ctl.ier.ep0ie = true;
    } else if ep_num <= 3 {
        let buffer_addr = get_endpoint_buffer_addr(ep_num, is_in);
        let aligned_words = (clamped + 3) / 4;
        ctl.ep_config.set(ep_num, EpConfig {
            enabled: true,
            isochronous: matches!(ep_type, EndpointType::Isochronous),
            dir_in: is_in,
            address: addr.index(),
            length: aligned_words as u8,
            buf_offset: buffer_addr,
        });
        if ep_num == 1 {
            ctl.ier.ep1ie = true;
        } else if ep_num == 2 {
            ctl.ier.ep2ie = true;
        } else {
            ctl.ier.ep3ie = true;
        }
    }
}

/// The endpoint allocator.  A 16-bit bitmap records which endpoint
/// addresses have been claimed; a bit, once set, stays set for the life of
/// the driver, since allocation happens only at start-up.
pub struct Driver {
    allocated_eps: u16,
}

/// One side of an allocated endpoint, parameterised by its direction
/// marker.
pub struct Endpoint<D> {
    info: EndpointInfo,
    _direction: PhantomData<D>,
}

impl<D> Endpoint<D> {
    /// What was negotiated for this endpoint.
    pub closed spec fn spec_info(self) -> EndpointInfo {
        self.info
    }

    /// An endpoint as the allocator hands it out: its packet size fits a
    /// full-speed packet and its number names a real endpoint.
    pub open spec fn wf(self) -> bool {
        self.spec_info().max_packet_size <= 64 && self.spec_info().addr.number < 16
    }

    /// Everything negotiated about the endpoint.
    pub fn info(&self) -> (r: &EndpointInfo)
        ensures
            *r == self.spec_info(),
    {
        &self.info
    }

    /// Whether the endpoint may be used yet: endpoints stay unusable until
    /// the host's SET_CONFIGURATION request has been decoded.
    ///
    /// A `false` result means the caller must suspend on the latch's wake
    /// signal and ask again after waking; the latch is level-triggered, so
    /// the re-check loses no event.
    pub fn wait_enabled(&mut self, ctl: &UsbController) -> (r: bool)
        ensures
            r == ctl.latch.configured,
            *final(self) == *old(self),
    {
        ctl.latch.configured
    }
}

impl Driver {
    /// The allocation bitmap: bit `n` is set once endpoint `n` is taken.
    pub closed spec fn spec_allocated(self) -> u16 {
        self.allocated_eps
    }

    /// Bring up the controller and hand out the driver.
    ///
    /// The hardware initialisation pulses the force-reset control, raises
    /// the power-up and DP pull-up bits, clears every pending interrupt and
    /// unmasks the sources the driver services.
    pub fn new(_usb: Usb, _config: Config, ctl: &mut UsbController) -> (r: Driver)
        requires
            old(ctl).wf(),
        ensures
            final(ctl).wf(),
            r.spec_allocated() == 0,
            final(ctl).csr == (ControlStatus {
                pdwn: true,
                lpmode: true,
                dppuen: true,
                dpwken: false,
                sramrstc: old(ctl).csr.sramrstc,
                fres: false,
            }),
            final(ctl).isr.all_clear(),
            final(ctl).ier == (InterruptEnable {
                ugie: true,
                sofie: true,
                urstie: true,
                rsmie: true,
                suspie: true,
                ep0ie: true,
                ..old(ctl).ier
            }),
            final(ctl).devar == old(ctl).devar,
            final(ctl).ep_config@ == old(ctl).ep_config@,
            final(ctl).ep_control@ == old(ctl).ep_control@,
            final(ctl).ep_transfer@ == old(ctl).ep_transfer@,
            final(ctl).sram@ == old(ctl).sram@,
            final(ctl).data_toggle_resets == old(ctl).data_toggle_resets,
            final(ctl).flags == old(ctl).flags,
            final(ctl).wake == old(ctl).wake,
            final(ctl).latch == old(ctl).latch,
    {
        ctl.csr = ControlStatus {
            pdwn: true,
            lpmode: true,
            dppuen: true,
            dpwken: false,
            sramrstc: ctl.csr.sramrstc,
            fres: false,
        };
        ctl.isr = InterruptStatus {
            urstif: false,
            sofif: false,
            suspif: false,
            rsmif: false,
            ep0if: false,
            ep1if: false,
            ep2if: false,
            ep3if: false,
        };
        ctl.ier = InterruptEnable {
            ugie: true,
            sofie: true,
            urstie: true,
            rsmie: true,
            suspie: true,
            ep0ie: true,
            ..ctl.ier
        };
        Driver { allocated_eps: 0 }
    }

    /// Allocate an IN endpoint.
    ///
    /// With no requested address, a fixed default per transfer type is
    /// chosen.  The call fails, changing nothing, exactly when the chosen
    /// address is already taken; on success the address is marked taken and
    /// the endpoint's hardware configuration is written.
    pub fn alloc_endpoint_in(&mut self, ctl: &mut UsbController, ep_type: EndpointType,
        ep_addr: Option<EndpointAddress>, max_packet_size: u16, interval: u8)
        -> (r: Result<Endpoint<In>, EndpointAllocError>)
        requires
            old(ctl).wf(),
            ep_addr is Some ==> ep_addr->0.number < 16,
        ensures
            final(ctl).wf(),
            ({
                let addr = spec_chosen_in_addr(ep_addr, ep_type);
                if old(self).spec_allocated() & spec_alloc_mask(addr.number) != 0 {
                    &&& r is Err
                    &&& *final(self) == *old(self)
                    &&& *final(ctl) == *old(ctl)
                } else {
                    &&& r is Ok
                    &&& r->Ok_0.spec_info() == (EndpointInfo {
                        addr,
                        ep_type,
                        max_packet_size: spec_clamp64(max_packet_size),
                        interval_ms: interval,
                    })
                    &&& r->Ok_0.wf()
                    &&& final(self).spec_allocated()
                        == old(self).spec_allocated() | spec_alloc_mask(addr.number)
                    &&& spec_ep_configured(*old(ctl), *final(ctl), addr, ep_type,
                        max_packet_size)
                }
            }),
    {
        let addr = match ep_addr {
            Some(a) => a,
            None => {
                let number: u8 = match ep_type {
                    EndpointType::Interrupt => 1,
                    EndpointType::Bulk => 3,
                    EndpointType::Isochronous => 5,
                    EndpointType::Control => 0,
                };
                EndpointAddress::from_parts(number, Direction::In)
            },
        };
        let ep_mask: u16 = 1u16 << addr.index();
        let current_allocated = self.allocated_eps;
        if current_allocated & ep_mask != 0 {
            return Err(EndpointAllocError);
        }
        self.allocated_eps = current_allocated | ep_mask;
        configure_endpoint_hardware(ctl, addr, ep_type, max_packet_size);
        let clamped: u16 = if max_packet_size < 64 { max_packet_size } else { 64 };
        Ok(Endpoint {
            info: EndpointInfo { addr, ep_type, max_packet_size: clamped, interval_ms: interval },
            _direction: PhantomData,
        })
    }

    /// Allocate an OUT endpoint; the OUT counterpart of
    /// [`Self::alloc_endpoint_in`].
    pub fn alloc_endpoint_out(&mut self, ctl: &mut UsbController, ep_type: EndpointType,
        ep_addr: Option<EndpointAddress>, max_packet_size: u16, interval: u8)
        -> (r: Result<Endpoint<Out>, EndpointAllocError>)
        requires
            old(ctl).wf(),
            ep_addr is Some ==> ep_addr->0.number < 16,
        ensures
            final(ctl).wf(),
            ({
                let addr = spec_chosen_out_addr(ep_addr, ep_type);
                if old(self).spec_allocated() & spec_alloc_mask(addr.number) != 0 {
                    &&& r is Err
                    &&& *final(self) == *old(self)
                    &&& *final(ctl) == *old(ctl)
                } else {
                    &&& r is Ok
                    &&& r->Ok_0.spec_info() == (EndpointInfo {
                        addr,
                        ep_type,
                        max_packet_size: spec_clamp64(max_packet_size),
                        interval_ms: interval,
                    })
                    &&& r->Ok_0.wf()
                    &&& final(self).spec_allocated()
                        == old(self).spec_allocated() | spec_alloc_mask(addr.number)
                    &&& spec_ep_configured(*old(ctl), *final(ctl), addr, ep_type,
                        max_packet_size)
                }
            }),
    {
        let addr = match ep_addr {
            Some(a) => a,
            None => {
                let number: u8 = match ep_type {
                    EndpointType::Bulk => 2,
                    EndpointType::Isochronous => 4,
                    EndpointType::Interrupt => 6,
                    EndpointType::Control => 0,
                };
                EndpointAddress::from_parts(number, Direction::Out)
            },
        };
        let ep_mask: u16 = 1u16 << addr.index();
        let current_allocated = self.allocated_eps;
        if current_allocated & ep_mask != 0 {
            return Err(EndpointAllocError);
        }
        self.allocated_eps = current_allocated | ep_mask;
        configure_endpoint_hardware(ctl, addr, ep_type, max_packet_size);
        let clamped: u16 = if max_packet_size < 64 { max_packet_size } else { 64 };
        Ok(Endpoint {
            info: EndpointInfo { addr, ep_type, max_packet_size: clamped, interval_ms: interval },
            _direction: PhantomData,
        })
    }

    /// Finish allocation: configure the control endpoint and hand out the
    /// bus event loop and the control pipe.
    pub fn start(self, ctl: &mut UsbController, control_max_packet_size: u16)
        -> (r: (Bus, ControlPipe))
        requires
            old(ctl).wf(),
        ensures
            final(ctl).wf(),
            final(ctl).ep_config@ == old(ctl).ep_config@.update(0, (EpConfig {
                length: spec_clamp64(control_max_packet_size) as u8,
                ..old(ctl).ep_config@[0]
            })),
            final(ctl).ier == (InterruptEnable { ep0ie: true, ..old(ctl).ier }),
            final(ctl).csr == old(ctl).csr,
            final(ctl).isr == old(ctl).isr,
            final(ctl).devar == old(ctl).devar,
            final(ctl).ep_control@ == old(ctl).ep_control@,
            final(ctl).ep_transfer@ == old(ctl).ep_transfer@,
            final(ctl).sram@ == old(ctl).sram@,
            final(ctl).data_toggle_resets == old(ctl).data_toggle_resets,
            final(ctl).flags == old(ctl).flags,
            final(ctl).wake == old(ctl).wake,
            final(ctl).latch == old(ctl).latch,
            !r.0.spec_power_detected_sent(),
            r.1.spec_max_packet_size() == spec_clamp64(control_max_packet_size),
    {
        let ep0_size: u16 = if control_max_packet_size < 64 { control_max_packet_size } else { 64 };
        let mut entry = ctl.ep_config[0];
        entry.length = ep0_size as u8;
        ctl.ep_config.set(0, entry);
        ctl.ier.ep0ie = true;
        (Bus { power_detected_sent: false }, ControlPipe { max_packet_size: ep0_size })
    }
}

/// What one `poll` call returns, given the pending flags and whether the
/// one-time power announcement has been made: reset outranks resume, resume
/// outranks suspend, start-of-frame is silent, endpoint activity yields the
/// quiet event, and an idle wake first announces power once.
pub open spec fn spec_poll_event(flags: EventFlags, power_sent: bool) -> Event {
    if flags.reset {
        Event::PowerDetected
    } else if flags.resume {
        Event::Resume
    } else if flags.suspend {
        Event::Suspend
    } else if flags.any_endpoint() {
        Event::Suspend
    } else if !power_sent {
        Event::PowerDetected
    } else {
        Event::Suspend
    }
}

/// The flags left after one `poll` call: only the flag of the event that
/// was returned is consumed, except that a quiet wake also consumes the
/// start-of-frame and endpoint flags it inspected.
pub open spec fn spec_poll_flags(flags: EventFlags) -> EventFlags {
    if flags.reset {
        EventFlags { reset: false, ..flags }
    } else if flags.resume {
        EventFlags { resume: false, ..flags }
    } else if flags.suspend {
        EventFlags { suspend: false, ..flags }
    } else {
        EventFlags { sof: false, ep0: false, ep1: false, ep2: false, ep3: false, ..flags }
    }
}

/// Whether the one-time power announcement has been made after one `poll`
/// call.
pub open spec fn spec_poll_power_sent(flags: EventFlags, power_sent: bool) -> bool {
    if flags.reset || flags.resume || flags.suspend || flags.any_endpoint() {
        power_sent
    } else {
        true
    }
}

/// The bus event loop.
pub struct Bus {
    power_detected_sent: bool,
}

impl Bus {
    /// Whether the one-time power announcement has been made.
    pub closed spec fn spec_power_detected_sent(self) -> bool {
        self.power_detected_sent
    }

    /// Drain the event flags in priority order and return one discrete bus
    /// event, consuming the wake signal.
    ///
    /// The caller suspends on the wake signal before calling; the pending
    /// wake stands for that wake-up.  A bus reset runs the reset slow path
    /// here: every control bit except the DP pull-up is cleared, the
    /// serviced interrupt sources are re-enabled, all pending interrupt
    /// status is dropped and the device-configuration latch reopens for the
    /// new enumeration cycle.  The timing-critical DATA-toggle reset is not
    /// repeated here; the interrupt handler has already applied it.
    pub fn poll(&mut self, ctl: &mut UsbController) -> (r: Event)
        requires
            old(ctl).wf(),
            old(ctl).wake.pending,
        ensures
            final(ctl).wf(),
            r == spec_poll_event(old(ctl).flags, old(self).spec_power_detected_sent()),
            final(ctl).flags == spec_poll_flags(old(ctl).flags),
            final(self).spec_power_detected_sent() == spec_poll_power_sent(old(ctl).flags,
                old(self).spec_power_detected_sent()),
            !final(ctl).wake.pending,
            old(ctl).flags.reset ==> {
                &&& final(ctl).csr == (ControlStatus {
                    pdwn: false,
                    lpmode: false,
                    dppuen: old(ctl).csr.dppuen,
                    dpwken: false,
                    sramrstc: false,
                    fres: false,
                })
                &&& final(ctl).ier == (InterruptEnable {
                    ugie: true,
                    sofie: true,
                    urstie: true,
                    rsmie: true,
                    suspie: true,
                    ep0ie: true,
                    ..old(ctl).ier
                })
                &&& final(ctl).isr.all_clear()
                &&& !final(ctl).latch.configured
                &&& !final(ctl).latch.signal.pending
            },
            !old(ctl).flags.reset ==> {
                &&& final(ctl).csr == old(ctl).csr
                &&& final(ctl).ier == old(ctl).ier
                &&& final(ctl).isr == old(ctl).isr
                &&& final(ctl).latch == old(ctl).latch
            },
            final(ctl).devar == old(ctl).devar,
            final(ctl).ep_config@ == old(ctl).ep_config@,
            final(ctl).ep_control@ == old(ctl).ep_control@,
            final(ctl).ep_transfer@ == old(ctl).ep_transfer@,
            final(ctl).sram@ == old(ctl).sram@,
            final(ctl).data_toggle_resets == old(ctl).data_toggle_resets,
    {
        ctl.wake.pending = false;
        if ctl.flags.reset {
            ctl.flags.reset = false;
            ctl.csr = ControlStatus {
                pdwn: false,
                lpmode: false,
                dppuen: ctl.csr.dppuen,
                dpwken: false,
                sramrstc: false,
                fres: false,
            };
            ctl.ier = InterruptEnable {
                ugie: true,
                sofie: true,
                urstie: true,
                rsmie: true,
                suspie: true,
                ep0ie: true,
                ..ctl.ier
            };
            ctl.isr = InterruptStatus {
                urstif: false,
                sofif: false,
                suspif: false,
                rsmif: false,
                ep0if: false,
                ep1if: false,
                ep2if: false,
                ep3if: false,
            };
            ctl.latch = ConfigLatch { configured: false, signal: WakeSignal { pending: false } };
            return Event::PowerDetected;
        }
        if ctl.flags.resume {
            ctl.flags.resume = false;
            return Event::Resume;
        }
        if ctl.flags.suspend {
            ctl.flags.suspend = false;
            return Event::Suspend;
        }
        if ctl.flags.sof {
            ctl.flags.sof = false;
        }
        let mut endpoint_event = false;
        if ctl.flags.ep0 {
            ctl.flags.ep0 = false;
            endpoint_event = true;
        }
        if ctl.flags.ep1 {
            ctl.flags.ep1 = false;
            endpoint_event = true;
        }
        if ctl.flags.ep2 {
            ctl.flags.ep2 = false;
            endpoint_event = true;
        }
        if ctl.flags.ep3 {
            ctl.flags.ep3 = false;
            endpoint_event = true;
        }
        if endpoint_event {
            return Event::Suspend;
        }
        if !self.power_detected_sent {
            self.power_detected_sent = true;
            return Event::PowerDetected;
        }
        Event::Suspend
    }

    /// Stall or unstall both directions of an endpoint.  Endpoints 4 to 7
    /// have no control/status register wired up, so the call leaves them
    /// untouched.
    pub fn endpoint_set_stalled(&mut self, ctl: &mut UsbController, ep_addr: EndpointAddress,
        stalled: bool)
        requires
            old(ctl).wf(),
        ensures
            final(ctl).wf(),
            *final(self) == *old(self),
            ({
                let n = ep_addr.number as int;
                if 0 <= n <= 3 {
                    &&& final(ctl).ep_control@ == old(ctl).ep_control@.update(n, (EpControl {
                        stltx: stalled,
                        stlrx: stalled,
                        ..old(ctl).ep_control@[n]
                    }))
                    &&& final(ctl).csr == old(ctl).csr
                    &&& final(ctl).ier == old(ctl).ier
                    &&& final(ctl).isr == old(ctl).isr
                    &&& final(ctl).devar == old(ctl).devar
                    &&& final(ctl).ep_config@ == old(ctl).ep_config@
                    &&& final(ctl).ep_transfer@ == old(ctl).ep_transfer@
                    &&& final(ctl).sram@ == old(ctl).sram@
                    &&& final(ctl).data_toggle_resets == old(ctl).data_toggle_resets
                    &&& final(ctl).flags == old(ctl).flags
                    &&& final(ctl).wake == old(ctl).wake
                    &&& final(ctl).latch == old(ctl).latch
                } else {
                    *final(ctl) == *old(ctl)
                }
            }),
    {
        let ep_num = ep_addr.index() as usize;
        if ep_num <= 3 {
            let mut c = ctl.ep_control[ep_num];
            c.stltx = stalled;
            c.stlrx = stalled;
            ctl.ep_control.set(ep_num, c);
        }
    }

    /// Whether either direction of an endpoint is stalled.
    pub fn endpoint_is_stalled(&mut self, ctl: &UsbController, ep_addr: EndpointAddress)
        -> (r: bool)
        requires
            ctl.wf(),
        ensures
            *final(self) == *old(self),
            ({
                let n = ep_addr.number as int;
                if 0 <= n <= 3 {
                    r == (ctl.ep_control@[n].stltx || ctl.ep_control@[n].stlrx)
                } else {
                    r == false
                }
            }),
    {
        let ep_num = ep_addr.index() as usize;
        if ep_num <= 3 {
            let c = ctl.ep_control[ep_num];
            c.stltx || c.stlrx
        } else {
            false
        }
    }

    /// Enable or disable an endpoint.  Endpoints 4 to 7 have no
    /// configuration register wired up, so the call leaves them untouched.
    pub fn endpoint_set_enabled(&mut self, ctl: &mut UsbController, ep_addr: EndpointAddress,
        enabled: bool)
        requires
            old(ctl).wf(),
        ensures
            final(ctl).wf(),
            *final(self) == *old(self),
            ({
                let n = ep_addr.number as int;
                if 0 <= n <= 3 {
                    &&& final(ctl).ep_config@ == old(ctl).ep_config@.update(n, (EpConfig {
                        enabled: enabled,
                        ..old(ctl).ep_config@[n]
                    }))
                    &&& final(ctl).csr == old(ctl).csr
                    &&& final(ctl).ier == old(ctl).ier
                    &&& final(ctl).isr == old(ctl).isr
                    &&& final(ctl).devar == old(ctl).devar
                    &&& final(ctl).ep_control@ == old(ctl).ep_control@
                    &&& final(ctl).ep_transfer@ == old(ctl).ep_transfer@
                    &&& final(ctl).sram@ == old(ctl).sram@
                    &&& final(ctl).data_toggle_resets == old(ctl).data_toggle_resets
                    &&& final(ctl).flags == old(ctl).flags
                    &&& final(ctl).wake == old(ctl).wake
                    &&& final(ctl).latch == old(ctl).latch
                } else {
                    *final(ctl) == *old(ctl)
                }
            }),
    {
        let ep_num = ep_addr.index() as usize;
        if ep_num <= 3 {
            let mut c = ctl.ep_config[ep_num];
            c.enabled = enabled;
            ctl.ep_config.set(ep_num, c);
        }
    }

    /// Bring the device onto the bus: re-assert the DP pull-up, apply the
    /// SRAM/DATA-toggle reset once more (covering the case where `enable`
    /// runs before the first bus reset) and restore the interrupt-enable
    /// mask.
    pub fn enable(&mut self, ctl: &mut UsbController)
        requires
            old(ctl).wf(),
            old(ctl).data_toggle_resets < u64::MAX,
        ensures
            final(ctl).wf(),
            *final(self) == *old(self),
            final(ctl).csr == (ControlStatus { dppuen: true, sramrstc: false, ..old(ctl).csr }),
            final(ctl).data_toggle_resets == old(ctl).data_toggle_resets + 1,
            final(ctl).ier == (InterruptEnable {
                ugie: true,
                sofie: true,
                urstie: true,
                rsmie: true,
                suspie: true,
                ep0ie: true,
                ..old(ctl).ier
            }),
            final(ctl).isr == old(ctl).isr,
            final(ctl).devar == old(ctl).devar,
            final(ctl).ep_config@ == old(ctl).ep_config@,
            final(ctl).ep_control@ == old(ctl).ep_control@,
            final(ctl).ep_transfer@ == old(ctl).ep_transfer@,
            final(ctl).sram@ == old(ctl).sram@,
            final(ctl).flags == old(ctl).flags,
            final(ctl).wake == old(ctl).wake,
            final(ctl).latch == old(ctl).latch,
    {
        ctl.csr.dppuen = true;
        ctl.csr.sramrstc = true;
        ctl.csr.sramrstc = false;
        ctl.data_toggle_resets = ctl.data_toggle_resets + 1;
        ctl.ier = InterruptEnable {
            ugie: true,
            sofie: true,
            urstie: true,
            rsmie: true,
            suspie: true,
            ep0ie: true,
            ..ctl.ier
        };
    }

    /// Take the device off the bus: drop the DP pull-up and mask every
    /// interrupt source.
    pub fn disable(&mut self, ctl: &mut UsbController)
        requires
            old(ctl).wf(),
        ensures
            final(ctl).wf(),
            *final(self) == *old(self),
            final(ctl).csr == (ControlStatus { dppuen: false, ..old(ctl).csr }),
            final(ctl).ier.all_masked(),
            final(ctl).isr == old(ctl).isr,
            final(ctl).devar == old(ctl).devar,
            final(ctl).ep_config@ == old(ctl).ep_config@,
            final(ctl).ep_control@ == old(ctl).ep_control@,
            final(ctl).ep_transfer@ == old(ctl).ep_transfer@,
            final(ctl).sram@ == old(ctl).sram@,
            final(ctl).data_toggle_resets == old(ctl).data_toggle_resets,
            final(ctl).flags == old(ctl).flags,
            final(ctl).wake == old(ctl).wake,
            final(ctl).latch == old(ctl).latch,
    {
        ctl.csr.dppuen = false;
        ctl.ier = InterruptEnable {
            ugie: false,
            sofie: false,
            urstie: false,
            rsmie: false,
            suspie: false,
            ep0ie: false,
            ep1ie: false,
            ep2ie: false,
            ep3ie: false,
        };
    }

    /// Remote wake-up is not implemented by this controller; the call
    /// always fails.
    pub fn remote_wakeup(&mut self) -> (r: Result<(), Unsupported>)
        ensures
            r is Err,
            *final(self) == *old(self),
    {
        Err(Unsupported)
    }
}

/// Whether an 8-byte SETUP packet is a standard SET_CONFIGURATION device
/// request: request type 0x00 and request code 0x09.
pub open spec fn spec_is_set_configuration(packet: Seq<u8>) -> bool {
    packet[0] == 0u8 && packet[1] == 9u8
}

/// The state of the device-configuration latch after a SETUP packet has
/// been decoded: a SET_CONFIGURATION request closes it, anything else
/// leaves it alone.  Decoding the same packet again changes nothing.
pub open spec fn spec_latch_after_setup(configured: bool, packet: Seq<u8>) -> bool {
    configured || spec_is_set_configuration(packet)
}

/// The endpoint-0 control pipe, walking each control transfer through its
/// SETUP, DATA and STATUS phases against the fixed endpoint-0 SRAM
/// regions.
pub struct ControlPipe {
    max_packet_size: u16,
}

impl ControlPipe {
    /// The control endpoint's negotiated packet size.
    pub closed spec fn spec_max_packet_size(self) -> u16 {
        self.max_packet_size
    }

    /// The maximum packet size of the control endpoint.
    pub fn max_packet_size(&self) -> (r: usize)
        ensures
            r == self.spec_max_packet_size() as usize,
    {
        self.max_packet_size as usize
    }

    /// Take the pending SETUP packet out of its fixed 8-byte SRAM region.
    ///
    /// The caller waits, under a generous timeout, for endpoint-0 activity
    /// before calling.  With no endpoint-0 interrupt pending (no host is
    /// attached) the call returns an all-zero packet and changes nothing;
    /// that is the timeout outcome, never an unbounded hang.  Otherwise it
    /// returns the eight SETUP bytes, acknowledges the interrupt, and, on
    /// a SET_CONFIGURATION request, closes the device-configuration latch
    /// and wakes every endpoint task parked on it; a latch already closed
    /// stays closed, so repeated SET_CONFIGURATION packets are harmless.
    pub fn setup(&mut self, ctl: &mut UsbController) -> (r: [u8; 8])
        requires
            old(ctl).wf(),
        ensures
            final(ctl).wf(),
            *final(self) == *old(self),
            !old(ctl).isr.ep0if ==> {
                &&& forall|i: int| 0 <= i < 8 ==> r@[i] == 0u8
                &&& *final(ctl) == *old(ctl)
            },
            old(ctl).isr.ep0if ==> {
                &&& r@ == old(ctl).sram@.subrange(0, 8)
                &&& final(ctl).isr == (InterruptStatus { ep0if: false, ..old(ctl).isr })
                &&& final(ctl).latch.configured == spec_latch_after_setup(
                    old(ctl).latch.configured, old(ctl).sram@.subrange(0, 8))
                &&& final(ctl).latch.signal.pending == (old(ctl).latch.signal.pending
                    || (spec_is_set_configuration(old(ctl).sram@.subrange(0, 8))
                        && !old(ctl).latch.configured))
                &&& final(ctl).csr == old(ctl).csr
                &&& final(ctl).ier == old(ctl).ier
                &&& final(ctl).devar == old(ctl).devar
                &&& final(ctl).ep_config@ == old(ctl).ep_config@
                &&& final(ctl).ep_control@ == old(ctl).ep_control@
                &&& final(ctl).ep_transfer@ == old(ctl).ep_transfer@
                &&& final(ctl).sram@ == old(ctl).sram@
                &&& final(ctl).data_toggle_resets == old(ctl).data_toggle_resets
                &&& final(ctl).flags == old(ctl).flags
                &&& final(ctl).wake == old(ctl).wake
            },
    {
        if !ctl.isr.ep0if {
            return [0u8, 0, 0, 0, 0, 0, 0, 0];
        }
        let b0 = ctl.sram[0];
        let b1 = ctl.sram[1];
        let b2 = ctl.sram[2];
        let b3 = ctl.sram[3];
        let b4 = ctl.sram[4];
        let b5 = ctl.sram[5];
        let b6 = ctl.sram[6];
        let b7 = ctl.sram[7];
        if b0 == 0x00 && b1 == 0x09 {
            if !ctl.latch.configured {
                ctl.latch.configured = true;
                ctl.latch.signal.pending = true;
            }
        }
        ctl.isr.ep0if = false;
        let packet = [b0, b1, b2, b3, b4, b5, b6, b7];
        proof {
            assert(packet@ =~= old(ctl).sram@.subrange(0, 8));
        }
        packet
    }

    /// Read the DATA-OUT phase's bytes from the endpoint-0 receive region
    /// into the front of `buf`.
    ///
    /// The caller polls, yielding, while the receive side reports
    /// not-acknowledge or stall; a call in that state returns zero bytes
    /// and changes nothing, which is also the outcome when the retry
    /// budget runs out.  Otherwise as many bytes as the transfer delivered
    /// (and the buffer and the 64-byte region hold) are copied out, and
    /// the receive not-acknowledge bit is set to mark the buffer consumed
    /// -- for a zero-length packet too.
    pub fn data_out(&mut self, ctl: &mut UsbController, buf: &mut Vec<u8>, _first: bool,
        _last: bool) -> (r: Result<usize, EndpointError>)
        requires
            old(ctl).wf(),
        ensures
            final(ctl).wf(),
            *final(self) == *old(self),
            final(buf).len() == old(buf).len(),
            (old(ctl).ep_control@[0].nakrx || old(ctl).ep_control@[0].stlrx) ==> {
                &&& r == Result::<usize, EndpointError>::Ok(0usize)
                &&& *final(ctl) == *old(ctl)
                &&& final(buf)@ == old(buf)@
            },
            !(old(ctl).ep_control@[0].nakrx || old(ctl).ep_control@[0].stlrx) ==> ({
                let avail = if old(buf).len() <= 64 {
                    old(buf).len() as int
                } else {
                    64
                };
                let cnt = if avail <= old(ctl).ep_transfer@[0].rx_count {
                    avail
                } else {
                    old(ctl).ep_transfer@[0].rx_count as int
                };
                &&& r == Result::<usize, EndpointError>::Ok(cnt as usize)
                &&& forall|i: int|
                    0 <= i < cnt ==> final(buf)@[i] == old(ctl).sram@[EP0_RX_OFFSET + i]
                &&& forall|i: int|
                    cnt <= i < old(buf).len() ==> final(buf)@[i] == old(buf)@[i]
                &&& final(ctl).ep_control@ == old(ctl).ep_control@.update(0, (EpControl {
                    nakrx: true,
                    ..old(ctl).ep_control@[0]
                }))
                &&& final(ctl).csr == old(ctl).csr
                &&& final(ctl).ier == old(ctl).ier
                &&& final(ctl).isr == old(ctl).isr
                &&& final(ctl).devar == old(ctl).devar
                &&& final(ctl).ep_config@ == old(ctl).ep_config@
                &&& final(ctl).ep_transfer@ == old(ctl).ep_transfer@
                &&& final(ctl).sram@ == old(ctl).sram@
                &&& final(ctl).data_toggle_resets == old(ctl).data_toggle_resets
                &&& final(ctl).flags == old(ctl).flags
                &&& final(ctl).wake == old(ctl).wake
                &&& final(ctl).latch == old(ctl).latch
            }),
    {
        let c0 = ctl.ep_control[0];
        if c0.nakrx || c0.stlrx {
            return Ok(0);
        }
        let data_len = ctl.ep_transfer[0].rx_count as usize;
        let avail = if buf.len() <= 64 { buf.len() } else { 64 };
        let actual_len = if avail <= data_len { avail } else { data_len };
        copy_from_sram(&ctl.sram, EP0_RX_OFFSET as usize, actual_len, buf);
        let mut c = ctl.ep_control[0];
        c.nakrx = true;
        ctl.ep_control.set(0, c);
        Ok(actual_len)
    }

    /// Queue the DATA-IN phase's bytes in the endpoint-0 transmit region.
    ///
    /// The caller polls, yielding, until the transmit side reports
    /// not-acknowledge (the buffer is firmware's); a call before that,
    /// the exhausted retry budget's outcome, degrades to a benign success
    /// that sends nothing and changes nothing.  Otherwise up to 64 bytes
    /// are copied in, the transmit count is programmed, and clearing the
    /// transmit not-acknowledge bit starts the transmission -- an empty
    /// slice queues the zero-length packet that ends a transfer or
    /// acknowledges a status stage.
    pub fn data_in(&mut self, ctl: &mut UsbController, data: &[u8], _first: bool, _last: bool)
        -> (r: Result<(), EndpointError>)
        requires
            old(ctl).wf(),
        ensures
            final(ctl).wf(),
            *final(self) == *old(self),
            !old(ctl).ep_control@[0].naktx ==> {
                &&& r is Ok
                &&& *final(ctl) == *old(ctl)
            },
            old(ctl).ep_control@[0].naktx ==> ({
                let cnt = if data@.len() <= 64 {
                    data@.len() as int
                } else {
                    64
                };
                &&& r is Ok
                &&& forall|i: int|
                    0 <= i < cnt ==> final(ctl).sram@[EP0_TX_OFFSET + i] == data@[i]
                &&& forall|i: int|
                    0 <= i < 1024 && !(EP0_TX_OFFSET <= i < EP0_TX_OFFSET + cnt)
                        ==> final(ctl).sram@[i] == old(ctl).sram@[i]
                &&& final(ctl).ep_transfer@ == old(ctl).ep_transfer@.update(0, (EpTransfer {
                    tx_count: cnt as u8,
                    ..old(ctl).ep_transfer@[0]
                }))
                &&& final(ctl).ep_control@ == old(ctl).ep_control@.update(0, (EpControl {
                    naktx: false,
                    ..old(ctl).ep_control@[0]
                }))
                &&& final(ctl).csr == old(ctl).csr
                &&& final(ctl).ier == old(ctl).ier
                &&& final(ctl).isr == old(ctl).isr
                &&& final(ctl).devar == old(ctl).devar
                &&& final(ctl).ep_config@ == old(ctl).ep_config@
                &&& final(ctl).data_toggle_resets == old(ctl).data_toggle_resets
                &&& final(ctl).flags == old(ctl).flags
                &&& final(ctl).wake == old(ctl).wake
                &&& final(ctl).latch == old(ctl).latch
            }),
    {
        let c0 = ctl.ep_control[0];
        if !c0.naktx {
            return Ok(());
        }
        let data_len = if data.len() <= 64 { data.len() } else { 64 };
        copy_to_sram(&mut ctl.sram, EP0_TX_OFFSET as usize, data, data_len);
        let mut t = ctl.ep_transfer[0];
        t.tx_count = data_len as u8;
        ctl.ep_transfer.set(0, t);
        let mut c = ctl.ep_control[0];
        c.naktx = false;
        ctl.ep_control.set(0, c);
        Ok(())
    }

    /// Acknowledge the STATUS phase: clear the endpoint-0 receive stall
    /// bit.
    pub fn accept(&mut self, ctl: &mut UsbController)
        requires
            old(ctl).wf(),
        ensures
            final(ctl).wf(),
            *final(self) == *old(self),
            final(ctl).ep_control@ == old(ctl).ep_control@.update(0, (EpControl {
                stlrx: false,
                ..old(ctl).ep_control@[0]
            })),
            final(ctl).csr == old(ctl).csr,
            final(ctl).ier == old(ctl).ier,
            final(ctl).isr == old(ctl).isr,
            final(ctl).devar == old(ctl).devar,
            final(ctl).ep_config@ == old(ctl).ep_config@,
            final(ctl).ep_transfer@ == old(ctl).ep_transfer@,
            final(ctl).sram@ == old(ctl).sram@,
            final(ctl).data_toggle_resets == old(ctl).data_toggle_resets,
            final(ctl).flags == old(ctl).flags,
            final(ctl).wake == old(ctl).wake,
            final(ctl).latch == old(ctl).latch,
    {
        let mut c = ctl.ep_control[0];
        c.stlrx = false;
        ctl.ep_control.set(0, c);
    }

    /// Refuse the request: raise the endpoint-0 receive stall bit, which
    /// answers the host with a protocol stall.
    pub fn reject(&mut self, ctl: &mut UsbController)
        requires
            old(ctl).wf(),
        ensures
            final(ctl).wf(),
            *final(self) == *old(self),
            final(ctl).ep_control@ == old(ctl).ep_control@.update(0, (EpControl {
                stlrx: true,
                ..old(ctl).ep_control@[0]
            })),
            final(ctl).csr == old(ctl).csr,
            final(ctl).ier == old(ctl).ier,
            final(ctl).isr == old(ctl).isr,
            final(ctl).devar == old(ctl).devar,
            final(ctl).ep_config@ == old(ctl).ep_config@,
            final(ctl).ep_transfer@ == old(ctl).ep_transfer@,
            final(ctl).sram@ == old(ctl).sram@,
            final(ctl).data_toggle_resets == old(ctl).data_toggle_resets,
            final(ctl).flags == old(ctl).flags,
            final(ctl).wake == old(ctl).wake,
            final(ctl).latch == old(ctl).latch,
    {
        let mut c = ctl.ep_control[0];
        c.stlrx = true;
        ctl.ep_control.set(0, c);
    }

    /// Complete a SET_ADDRESS request: write the 7-bit device address
    /// register.  The controller itself applies the address from the next
    /// successful IN transaction on, per USB semantics.
    pub fn accept_set_address(&mut self, ctl: &mut UsbController, addr: u8)
        requires
            old(ctl).wf(),
        ensures
            final(ctl).wf(),
            *final(self) == *old(self),
            final(ctl).devar == addr % 128,
            final(ctl).csr == old(ctl).csr,
            final(ctl).ier == old(ctl).ier,
            final(ctl).isr == old(ctl).isr,
            final(ctl).ep_config@ == old(ctl).ep_config@,
            final(ctl).ep_control@ == old(ctl).ep_control@,
            final(ctl).ep_transfer@ == old(ctl).ep_transfer@,
            final(ctl).sram@ == old(ctl).sram@,
            final(ctl).data_toggle_resets == old(ctl).data_toggle_resets,
            final(ctl).flags == old(ctl).flags,
            final(ctl).wake == old(ctl).wake,
            final(ctl).latch == old(ctl).latch,
    {
        ctl.devar = addr % 128;
    }
}

impl Endpoint<Out> {
    /// Read one packet from the endpoint's SRAM region into the front of
    /// `buf`.
    ///
    /// A buffer longer than the negotiated maximum packet size is refused
    /// outright, and nothing is touched.  While the endpoint reports
    /// not-acknowledge or stall, or is one of the endpoints without wired
    /// registers, there is nothing to read: the call returns zero bytes
    /// and changes nothing, and the caller suspends on the wake signal and
    /// retries.  Otherwise the transfer count bounds the copy and the
    /// receive not-acknowledge bit is set to mark the buffer consumed.
    pub fn read(&mut self, ctl: &mut UsbController, buf: &mut Vec<u8>) -> (r: Result<
        usize,
        EndpointError,
    >)
        requires
            old(ctl).wf(),
            old(self).wf(),
        ensures
            final(ctl).wf(),
            *final(self) == *old(self),
            final(buf).len() == old(buf).len(),
            ({
                let n = old(self).spec_info().addr.number as int;
                let ready = n <= 3 && !old(ctl).ep_control@[n].nakrx
                    && !old(ctl).ep_control@[n].stlrx;
                if old(buf).len() > old(self).spec_info().max_packet_size {
                    &&& r == Result::<usize, EndpointError>::Err(EndpointError::BufferOverflow)
                    &&& *final(ctl) == *old(ctl)
                    &&& final(buf)@ == old(buf)@
                } else if !ready {
                    &&& r == Result::<usize, EndpointError>::Ok(0usize)
                    &&& *final(ctl) == *old(ctl)
                    &&& final(buf)@ == old(buf)@
                } else {
                    let cnt = if old(buf).len() <= old(ctl).ep_transfer@[n].rx_count {
                        old(buf).len() as int
                    } else {
                        old(ctl).ep_transfer@[n].rx_count as int
                    };
                    &&& r == Result::<usize, EndpointError>::Ok(cnt as usize)
                    &&& forall|i: int|
                        0 <= i < cnt
                            ==> final(buf)@[i] == old(ctl).sram@[spec_buffer_addr(n, false) + i]
                    &&& forall|i: int|
                        cnt <= i < old(buf).len() ==> final(buf)@[i] == old(buf)@[i]
                    &&& final(ctl).ep_control@ == old(ctl).ep_control@.update(n, (EpControl {
                        nakrx: true,
                        ..old(ctl).ep_control@[n]
                    }))
                    &&& final(ctl).csr == old(ctl).csr
                    &&& final(ctl).ier == old(ctl).ier
                    &&& final(ctl).isr == old(ctl).isr
                    &&& final(ctl).devar == old(ctl).devar
                    &&& final(ctl).ep_config@ == old(ctl).ep_config@
                    &&& final(ctl).ep_transfer@ == old(ctl).ep_transfer@
                    &&& final(ctl).sram@ == old(ctl).sram@
                    &&& final(ctl).data_toggle_resets == old(ctl).data_toggle_resets
                    &&& final(ctl).flags == old(ctl).flags
                    &&& final(ctl).wake == old(ctl).wake
                    &&& final(ctl).latch == old(ctl).latch
                }
            }),
    {
        if buf.len() > self.info.max_packet_size as usize {
            return Err(EndpointError::BufferOverflow);
        }
        let ep_num = self.info.addr.index() as usize;
        let has_data = if ep_num <= 3 {
            let c = ctl.ep_control[ep_num];
            !c.nakrx && !c.stlrx
        } else {
            false
        };
        if !has_data {
            return Ok(0);
        }
        let buffer_addr = get_endpoint_buffer_addr(ep_num, false) as usize;
        let data_len = ctl.ep_transfer[ep_num].rx_count as usize;
        let actual_len = if buf.len() <= data_len { buf.len() } else { data_len };
        copy_from_sram(&ctl.sram, buffer_addr, actual_len, buf);
        let mut c = ctl.ep_control[ep_num];
        c.nakrx = true;
        ctl.ep_control.set(ep_num, c);
        Ok(actual_len)
    }
}

impl Endpoint<In> {
    /// Queue one packet in the endpoint's SRAM region for transmission.
    ///
    /// A buffer longer than the negotiated maximum packet size is refused
    /// outright, and nothing is touched; so is an endpoint without wired
    /// registers.  Otherwise the bytes are copied in, the transfer count
    /// is programmed, and clearing the transmit not-acknowledge bit starts
    /// the transmission.  The transfer completes asynchronously: the
    /// caller suspends on the wake signal and re-checks, since the signal
    /// is shared and carries no payload.
    pub fn write(&mut self, ctl: &mut UsbController, buf: &[u8]) -> (r: Result<
        (),
        EndpointError,
    >)
        requires
            old(ctl).wf(),
            old(self).wf(),
        ensures
            final(ctl).wf(),
            *final(self) == *old(self),
            ({
                let n = old(self).spec_info().addr.number as int;
                if buf@.len() > old(self).spec_info().max_packet_size {
                    &&& r == Result::<(), EndpointError>::Err(EndpointError::BufferOverflow)
                    &&& *final(ctl) == *old(ctl)
                } else if n > 3 {
                    &&& r == Result::<(), EndpointError>::Err(EndpointError::BufferOverflow)
                    &&& *final(ctl) == *old(ctl)
                } else {
                    &&& r is Ok
                    &&& forall|i: int|
                        0 <= i < buf@.len()
                            ==> final(ctl).sram@[spec_buffer_addr(n, true) + i] == buf@[i]
                    &&& forall|i: int|
                        0 <= i < 1024 && !(spec_buffer_addr(n, true) <= i < spec_buffer_addr(
                            n, true) + buf@.len()) ==> final(ctl).sram@[i] == old(ctl).sram@[i]
                    &&& final(ctl).ep_transfer@ == old(ctl).ep_transfer@.update(n, (EpTransfer {
                        tx_count: buf@.len() as u8,
                        ..old(ctl).ep_transfer@[n]
                    }))
                    &&& final(ctl).ep_control@ == old(ctl).ep_control@.update(n, (EpControl {
                        naktx: false,
                        ..old(ctl).ep_control@[n]
                    }))
                    &&& final(ctl).csr == old(ctl).csr
                    &&& final(ctl).ier == old(ctl).ier
                    &&& final(ctl).isr == old(ctl).isr
                    &&& final(ctl).devar == old(ctl).devar
                    &&& final(ctl).ep_config@ == old(ctl).ep_config@
                    &&& final(ctl).data_toggle_resets == old(ctl).data_toggle_resets
                    &&& final(ctl).flags == old(ctl).flags
                    &&& final(ctl).wake == old(ctl).wake
                    &&& final(ctl).latch == old(ctl).latch
                }
            }),
    {
        if buf.len() > self.info.max_packet_size as usize {
            return Err(EndpointError::BufferOverflow);
        }
        let ep_num = self.info.addr.index() as usize;
        if ep_num > 3 {
            return Err(EndpointError::BufferOverflow);
        }
        let buffer_addr = get_endpoint_buffer_addr(ep_num, true) as usize;
        copy_to_sram(&mut ctl.sram, buffer_addr, buf, buf.len());
        let mut t = ctl.ep_transfer[ep_num];
        t.tx_count = buf.len() as u8;
        ctl.ep_transfer.set(ep_num, t);
        let mut c = ctl.ep_control[ep_num];
        c.naktx = false;
        ctl.ep_control.set(ep_num, c);
        Ok(())
    }
}

/// The event flags after the interrupt handler has transcribed the pending
/// interrupt sources: each pending source raises its flag, flags already
/// raised stay raised.
pub open spec fn spec_flags_after_irq(isr: InterruptStatus, flags: EventFlags) -> EventFlags {
    EventFlags {
        reset: flags.reset || isr.urstif,
        suspend: flags.suspend || isr.suspif,
        resume: flags.resume || isr.rsmif,
        sof: flags.sof || isr.sofif,
        ep0: flags.ep0 || isr.ep0if,
        ep1: flags.ep1 || isr.ep1if,
        ep2: flags.ep2 || isr.ep2if,
        ep3: flags.ep3 || isr.ep3if,
    }
}

/// The interrupt handler's fast path, run at interrupt priority on every
/// controller interrupt.
///
/// Each pending source is transcribed into its event flag and its status
/// bit cleared.  A bus reset additionally pulses the SRAM/DATA-toggle
/// reset control, exactly once, right here: deferring it to the task level
/// would race the host's immediately following SETUP transaction.  If
/// anything was pending, the wake signal fires exactly once, however many
/// sources coalesced into this invocation.  The handler takes no lock and
/// never suspends.
pub fn on_usb_interrupt(ctl: &mut UsbController)
    requires
        old(ctl).wf(),
        old(ctl).data_toggle_resets < u64::MAX,
    ensures
        final(ctl).wf(),
        final(ctl).flags == spec_flags_after_irq(old(ctl).isr, old(ctl).flags),
        final(ctl).isr.all_clear(),
        final(ctl).wake.pending == (old(ctl).wake.pending || !old(ctl).isr.all_clear()),
        final(ctl).data_toggle_resets == old(ctl).data_toggle_resets
            + (if old(ctl).isr.urstif { 1int } else { 0int }),
        old(ctl).isr.urstif ==> final(ctl).csr == (ControlStatus {
            sramrstc: false,
            ..old(ctl).csr
        }),
        !old(ctl).isr.urstif ==> final(ctl).csr == old(ctl).csr,
        final(ctl).ier == old(ctl).ier,
        final(ctl).devar == old(ctl).devar,
        final(ctl).ep_config@ == old(ctl).ep_config@,
        final(ctl).ep_control@ == old(ctl).ep_control@,
        final(ctl).ep_transfer@ == old(ctl).ep_transfer@,
        final(ctl).sram@ == old(ctl).sram@,
        final(ctl).latch == old(ctl).latch,
{
    let isr = ctl.isr;
    let pending = isr.urstif || isr.suspif || isr.rsmif || isr.sofif || isr.ep0if || isr.ep1if
        || isr.ep2if || isr.ep3if;
    ctl.flags = EventFlags {
        reset: ctl.flags.reset || isr.urstif,
        suspend: ctl.flags.suspend || isr.suspif,
        resume: ctl.flags.resume || isr.rsmif,
        sof: ctl.flags.sof || isr.sofif,
        ep0: ctl.flags.ep0 || isr.ep0if,
        ep1: ctl.flags.ep1 || isr.ep1if,
        ep2: ctl.flags.ep2 || isr.ep2if,
        ep3: ctl.flags.ep3 || isr.ep3if,
    };
    ctl.isr = InterruptStatus {
        urstif: false,
        sofif: false,
        suspif: false,
        rsmif: false,
        ep0if: false,
        ep1if: false,
        ep2if: false,
        ep3if: false,
    };
    if isr.urstif {
        ctl.csr.sramrstc = true;
        ctl.csr.sramrstc = false;
        ctl.data_toggle_resets = ctl.data_toggle_resets + 1;
    }
    if pending {
        ctl.wake.pending = true;
    }
}

/// Bring up the controller with its bus pins and hand out the driver; the
/// pins are already in their USB alternate function by construction.
pub fn init_usb_with_pins<const DM_PORT: u8, const DM_PIN: u8, const DP_PORT: u8,
    const DP_PIN: u8>(_usb_peripheral: Usb,
    pins: UsbPins<DM_PORT, DM_PIN, DP_PORT, DP_PIN>, config: Config, ctl: &mut UsbController)
    -> (r: Driver)
    requires
        old(ctl).wf(),
    ensures
        final(ctl).wf(),
        r.spec_allocated() == 0,
{
    let _pins = pins;
    Driver::new(Usb::new(), config, ctl)
}

/// Allocation exclusivity: marking an endpoint taken makes a second
/// allocation of the same address fail (its bit reads back set), and never
/// disturbs any other endpoint's bit, so allocations of distinct addresses
/// succeed independently.
pub proof fn lemma_allocation_exclusivity(bits: u16, i: u8, j: u8)
    requires
        i < 16,
        j < 16,
        i != j,
    ensures
        (bits | spec_alloc_mask(i)) & spec_alloc_mask(i) != 0,
        ((bits | spec_alloc_mask(i)) & spec_alloc_mask(j)) == (bits & spec_alloc_mask(j)),
{
    assert((bits | (1u16 << i)) & (1u16 << i) != 0 && ((bits | (1u16 << i)) & (1u16 << j)) == (
    bits & (1u16 << j))) by (bit_vector)
        requires
            i < 16,
            j < 16,
            i != j,
    ;
}

/// Configuration gating is idempotent: decoding a SET_CONFIGURATION packet
/// closes the latch, and decoding any packet again, the same one included,
/// leaves a closed latch closed and an open latch open.
pub proof fn lemma_set_configuration_idempotent(configured: bool, packet: Seq<u8>)
    ensures
        spec_latch_after_setup(spec_latch_after_setup(configured, packet), packet)
            == spec_latch_after_setup(configured, packet),
        spec_is_set_configuration(packet) ==> spec_latch_after_setup(configured, packet),
        !spec_is_set_configuration(packet)
            ==> spec_latch_after_setup(configured, packet) == configured,
{
}

/// Event priority: with reset, suspend and endpoint-0 activity all pending
/// at once, one `poll` returns the reset-derived device-visible event and
/// consumes only the reset flag; the next `poll`, after a fresh wake,
/// returns the suspend event, not a repeat of the reset.
pub proof fn lemma_event_priority(flags: EventFlags, power_sent: bool)
    requires
        flags.reset,
        flags.suspend,
        flags.ep0,
        !flags.resume,
    ensures
        spec_poll_event(flags, power_sent) == Event::PowerDetected,
        spec_poll_flags(flags) == (EventFlags { reset: false, ..flags }),
        spec_poll_event(spec_poll_flags(flags), spec_poll_power_sent(flags, power_sent))
            == Event::Suspend,
        !spec_poll_flags(spec_poll_flags(flags)).suspend,
        spec_poll_flags(spec_poll_flags(flags)).ep0,
{
}

} // verus!
