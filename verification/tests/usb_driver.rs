//! Tests for the USB device-controller driver: allocation, the interrupt
//! fast path, the bus event loop, the control pipe and endpoint I/O.

use ht32_hal::usb::map::{get_endpoint_buffer_addr, get_ep0_setup_addr};
use ht32_hal::usb::model::{sram_byte_of_word, sram_word_with_byte, UsbController};
use ht32_hal::usb::{
    on_usb_interrupt, Config, Direction, Driver, EndpointAddress, EndpointType, Event, Usb,
};

fn fresh_driver(ctl: &mut UsbController) -> Driver {
    Driver::new(Usb::new(), Config::default(), ctl)
}

#[test]
fn sram_regions_do_not_overlap() {
    // Endpoint 0's three fixed regions.
    let fixed: [(u16, u16); 3] = [(0x000, 8), (0x008, 64), (0x048, 64)];
    for i in 0..fixed.len() {
        for j in 0..fixed.len() {
            if i != j {
                let (a, la) = fixed[i];
                let (b, lb) = fixed[j];
                assert!(a + la <= b || b + lb <= a);
            }
        }
    }
    // Regions of endpoints 1 to 7, against each other and endpoint 0's.
    for n in 1..8usize {
        let start = get_endpoint_buffer_addr(n, false);
        assert_eq!(get_endpoint_buffer_addr(n, true), start);
        for &(b, lb) in fixed.iter() {
            assert!(b + lb <= start || start + 137 <= b);
        }
        for m in 1..8usize {
            if n != m {
                let other = get_endpoint_buffer_addr(m, false);
                assert!(start + 137 <= other || other + 137 <= start);
            }
        }
    }
    assert_eq!(get_ep0_setup_addr(), 0);
}

#[test]
fn allocating_the_same_address_twice_fails() {
    let mut ctl = UsbController::new();
    let mut driver = fresh_driver(&mut ctl);
    let addr = EndpointAddress::from_parts(3, Direction::In);
    let first = driver.alloc_endpoint_in(&mut ctl, EndpointType::Bulk, Some(addr), 64, 0);
    assert!(first.is_ok());
    let second = driver.alloc_endpoint_in(&mut ctl, EndpointType::Bulk, Some(addr), 64, 0);
    assert!(second.is_err());
    // The same endpoint number is also refused through the other
    // direction's defaulting path.
    let defaulted = driver.alloc_endpoint_in(&mut ctl, EndpointType::Bulk, None, 64, 0);
    assert!(defaulted.is_err());
}

#[test]
fn eight_distinct_addresses_all_succeed() {
    let mut ctl = UsbController::new();
    let mut driver = fresh_driver(&mut ctl);
    for n in 0..8u8 {
        let addr = EndpointAddress::from_parts(n, Direction::Out);
        let r = driver.alloc_endpoint_out(&mut ctl, EndpointType::Bulk, Some(addr), 64, 0);
        assert!(r.is_ok(), "endpoint {} should allocate", n);
    }
    // Everything is taken now.
    let again = driver.alloc_endpoint_out(
        &mut ctl,
        EndpointType::Bulk,
        Some(EndpointAddress::from_parts(5, Direction::Out)),
        64,
        0,
    );
    assert!(again.is_err());
}

#[test]
fn default_addresses_follow_the_type() {
    let mut ctl = UsbController::new();
    let mut driver = fresh_driver(&mut ctl);
    let ep_in = driver
        .alloc_endpoint_in(&mut ctl, EndpointType::Bulk, None, 64, 0)
        .unwrap();
    assert_eq!(ep_in.info().addr.number, 3);
    assert_eq!(ep_in.info().addr.direction, Direction::In);
    let ep_out = driver
        .alloc_endpoint_out(&mut ctl, EndpointType::Bulk, None, 64, 0)
        .unwrap();
    assert_eq!(ep_out.info().addr.number, 2);
    assert_eq!(ep_out.info().addr.direction, Direction::Out);
    let intr_in = driver
        .alloc_endpoint_in(&mut ctl, EndpointType::Interrupt, None, 16, 10)
        .unwrap();
    assert_eq!(intr_in.info().addr.number, 1);
    assert_eq!(intr_in.info().interval_ms, 10);
}

#[test]
fn scenario_control_and_bulk_pair() {
    // Allocate control (0), one bulk-IN (3) and one bulk-OUT (2): three
    // non-overlapping regions and three configuration writes.
    let mut ctl = UsbController::new();
    let mut driver = fresh_driver(&mut ctl);
    let control = driver
        .alloc_endpoint_out(
            &mut ctl,
            EndpointType::Control,
            Some(EndpointAddress::from_parts(0, Direction::Out)),
            64,
            0,
        )
        .unwrap();
    let bulk_in = driver
        .alloc_endpoint_in(
            &mut ctl,
            EndpointType::Bulk,
            Some(EndpointAddress::from_parts(3, Direction::In)),
            64,
            0,
        )
        .unwrap();
    let bulk_out = driver
        .alloc_endpoint_out(
            &mut ctl,
            EndpointType::Bulk,
            Some(EndpointAddress::from_parts(2, Direction::Out)),
            64,
            0,
        )
        .unwrap();
    assert_eq!(control.info().addr.number, 0);
    assert_eq!(bulk_in.info().addr.number, 3);
    assert_eq!(bulk_out.info().addr.number, 2);

    // The three configuration registers took the writes.
    assert_eq!(ctl.ep_config[0].buf_offset, 0);
    assert_eq!(ctl.ep_config[0].length, 64);
    assert!(ctl.ep_config[3].enabled);
    assert!(ctl.ep_config[3].dir_in);
    assert_eq!(ctl.ep_config[3].address, 3);
    assert!(ctl.ep_config[2].enabled);
    assert!(!ctl.ep_config[2].dir_in);
    assert_eq!(ctl.ep_config[2].address, 2);

    // And their regions are pairwise disjoint.
    let r0 = (0u16, 136u16); // endpoint 0's whole fixed area
    let r3 = (ctl.ep_config[3].buf_offset, 137u16);
    let r2 = (ctl.ep_config[2].buf_offset, 137u16);
    let regions = [r0, r3, r2];
    for i in 0..regions.len() {
        for j in 0..regions.len() {
            if i != j {
                let (a, la) = regions[i];
                let (b, lb) = regions[j];
                assert!(a + la <= b || b + lb <= a);
            }
        }
    }
}

#[test]
fn scenario_reset_flag_through_poll() {
    // Simulate the interrupt handler seeing a bus reset, then poll.
    let mut ctl = UsbController::new();
    let driver = fresh_driver(&mut ctl);
    let (mut bus, _pipe) = driver.start(&mut ctl, 64);

    // The host configured the device in a previous cycle.
    ctl.latch.configured = true;

    ctl.isr.urstif = true;
    on_usb_interrupt(&mut ctl);
    assert!(ctl.flags.reset);
    assert!(ctl.wake.pending);
    assert_eq!(ctl.data_toggle_resets, 1); // the timing-critical pulse ran here

    let event = bus.poll(&mut ctl);
    assert_eq!(event, Event::PowerDetected); // the device-visible event
    assert!(!ctl.flags.reset); // the flag was consumed
    assert!(!ctl.latch.configured); // a new enumeration cycle begins
    assert_eq!(ctl.data_toggle_resets, 1); // the pulse is not repeated
}

#[test]
fn event_priority_across_two_polls() {
    let mut ctl = UsbController::new();
    let driver = fresh_driver(&mut ctl);
    let (mut bus, _pipe) = driver.start(&mut ctl, 64);

    ctl.isr.urstif = true;
    ctl.isr.suspif = true;
    ctl.isr.ep0if = true;
    on_usb_interrupt(&mut ctl);
    assert!(ctl.flags.reset && ctl.flags.suspend && ctl.flags.ep0);

    let first = bus.poll(&mut ctl);
    assert_eq!(first, Event::PowerDetected);
    assert!(!ctl.flags.reset);
    assert!(ctl.flags.suspend, "only the reset flag is consumed");
    assert!(ctl.flags.ep0);

    // Re-wake, as the level-triggered discipline requires.
    ctl.wake.pending = true;
    let second = bus.poll(&mut ctl);
    assert_eq!(second, Event::Suspend);
    assert!(!ctl.flags.suspend);
    assert!(ctl.flags.ep0, "the endpoint flag still waits its turn");
}

#[test]
fn quiet_poll_announces_power_once() {
    let mut ctl = UsbController::new();
    let driver = fresh_driver(&mut ctl);
    let (mut bus, _pipe) = driver.start(&mut ctl, 64);

    ctl.wake.pending = true;
    assert_eq!(bus.poll(&mut ctl), Event::PowerDetected);
    ctl.wake.pending = true;
    assert_eq!(bus.poll(&mut ctl), Event::Suspend);
}

#[test]
fn endpoint_flags_coalesce_into_one_quiet_event() {
    let mut ctl = UsbController::new();
    let driver = fresh_driver(&mut ctl);
    let (mut bus, _pipe) = driver.start(&mut ctl, 64);

    ctl.isr.ep1if = true;
    ctl.isr.ep2if = true;
    ctl.isr.sofif = true;
    on_usb_interrupt(&mut ctl);
    assert!(ctl.wake.pending);

    assert_eq!(bus.poll(&mut ctl), Event::Suspend);
    assert!(!ctl.flags.sof && !ctl.flags.ep1 && !ctl.flags.ep2);
}

#[test]
fn interrupt_handler_clears_hardware_status() {
    let mut ctl = UsbController::new();
    ctl.isr.rsmif = true;
    ctl.isr.ep3if = true;
    on_usb_interrupt(&mut ctl);
    assert!(!ctl.isr.rsmif && !ctl.isr.ep3if);
    assert!(ctl.flags.resume && ctl.flags.ep3);
    assert_eq!(ctl.data_toggle_resets, 0); // no reset, no pulse
}

#[test]
fn interrupt_handler_without_sources_stays_quiet() {
    let mut ctl = UsbController::new();
    on_usb_interrupt(&mut ctl);
    assert!(!ctl.wake.pending);
}

#[test]
fn stall_and_enable_bits() {
    let mut ctl = UsbController::new();
    let driver = fresh_driver(&mut ctl);
    let (mut bus, _pipe) = driver.start(&mut ctl, 64);

    let addr = EndpointAddress::from_parts(2, Direction::Out);
    assert!(!bus.endpoint_is_stalled(&ctl, addr));
    bus.endpoint_set_stalled(&mut ctl, addr, true);
    assert!(ctl.ep_control[2].stltx && ctl.ep_control[2].stlrx);
    assert!(bus.endpoint_is_stalled(&ctl, addr));
    bus.endpoint_set_stalled(&mut ctl, addr, false);
    assert!(!bus.endpoint_is_stalled(&ctl, addr));

    bus.endpoint_set_enabled(&mut ctl, addr, true);
    assert!(ctl.ep_config[2].enabled);
    bus.endpoint_set_enabled(&mut ctl, addr, false);
    assert!(!ctl.ep_config[2].enabled);

    // Endpoints without wired registers are reported unstalled.
    let high = EndpointAddress::from_parts(6, Direction::Out);
    bus.endpoint_set_stalled(&mut ctl, high, true);
    assert!(!bus.endpoint_is_stalled(&ctl, high));
}

#[test]
fn enable_pulses_the_data_toggle_and_disable_masks() {
    let mut ctl = UsbController::new();
    let driver = fresh_driver(&mut ctl);
    let (mut bus, _pipe) = driver.start(&mut ctl, 64);

    bus.enable(&mut ctl);
    assert!(ctl.csr.dppuen);
    assert!(!ctl.csr.sramrstc);
    assert_eq!(ctl.data_toggle_resets, 1);
    assert!(ctl.ier.ugie && ctl.ier.ep0ie);

    bus.disable(&mut ctl);
    assert!(!ctl.csr.dppuen);
    assert!(!ctl.ier.ugie && !ctl.ier.sofie && !ctl.ier.ep0ie);

    assert!(bus.remote_wakeup().is_err());
}

#[test]
fn driver_new_programs_the_controller() {
    let mut ctl = UsbController::new();
    ctl.isr.sofif = true;
    let driver = fresh_driver(&mut ctl);
    assert!(ctl.csr.dppuen, "the pull-up comes up during initialisation");
    assert!(ctl.csr.pdwn && ctl.csr.lpmode && !ctl.csr.dpwken);
    assert!(!ctl.isr.sofif, "pending interrupts are dropped");
    assert!(ctl.ier.ugie && ctl.ier.urstie && ctl.ier.ep0ie);
    let (_bus, pipe) = driver.start(&mut ctl, 32);
    assert_eq!(pipe.max_packet_size(), 32);
    assert_eq!(ctl.ep_config[0].length, 32);
}

#[test]
fn sram_word_packing() {
    // The packet memory is accessed a word at a time; single bytes are
    // extracted and merged positionally.
    assert_eq!(sram_byte_of_word(0x1122_3344, 0), 0x44);
    assert_eq!(sram_byte_of_word(0x1122_3344, 2), 0x22);
    assert_eq!(sram_byte_of_word(0x1122_3344, 3), 0x11);
    assert_eq!(sram_word_with_byte(0x1122_3344, 1, 0xAB), 0x1122_AB44);
    assert_eq!(sram_word_with_byte(0x1122_3344, 3, 0x00), 0x0022_3344);
}
