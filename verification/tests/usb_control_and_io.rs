//! Tests for the endpoint-0 control pipe and per-endpoint packet I/O:
//! configuration gating, buffer bounds and the SRAM data paths.

use ht32_hal::usb::map::get_endpoint_buffer_addr;
use ht32_hal::usb::model::UsbController;
use ht32_hal::usb::{
    Config, Direction, Driver, EndpointAddress, EndpointError, EndpointType, Usb,
};

fn fresh_driver(ctl: &mut UsbController) -> Driver {
    Driver::new(Usb::new(), Config::default(), ctl)
}

#[test]
fn scenario_set_configuration_releases_waiters() {
    // A SET_CONFIGURATION packet (value 1) arrives through setup().
    let mut ctl = UsbController::new();
    let mut driver = fresh_driver(&mut ctl);
    let mut ep_in = driver
        .alloc_endpoint_in(&mut ctl, EndpointType::Bulk, None, 64, 0)
        .unwrap();
    let (_bus, mut pipe) = driver.start(&mut ctl, 64);

    assert!(!ep_in.wait_enabled(&ctl), "nothing is enabled before the latch closes");

    let packet_bytes = [0x00u8, 0x09, 0x01, 0x00, 0x00, 0x00, 0x00, 0x00];
    for (i, b) in packet_bytes.iter().enumerate() {
        ctl.sram[i] = *b;
    }
    ctl.isr.ep0if = true;
    let packet = pipe.setup(&mut ctl);
    assert_eq!(packet, packet_bytes);
    assert!(ctl.latch.configured, "the latch closed");
    assert!(ctl.latch.signal.pending, "waiters are released");
    assert!(!ctl.isr.ep0if, "the interrupt was acknowledged");

    assert!(ep_in.wait_enabled(&ctl), "the endpoint is enabled now");

    // A repeated SET_CONFIGURATION changes nothing.
    ctl.latch.signal.pending = false;
    ctl.isr.ep0if = true;
    let packet2 = pipe.setup(&mut ctl);
    assert_eq!(packet2, packet_bytes);
    assert!(ctl.latch.configured);
    assert!(!ctl.latch.signal.pending, "no fresh wake for an already-closed latch");
    assert!(ep_in.wait_enabled(&ctl));
}

#[test]
fn setup_without_activity_returns_zeros() {
    let mut ctl = UsbController::new();
    let driver = fresh_driver(&mut ctl);
    let (_bus, mut pipe) = driver.start(&mut ctl, 64);
    let packet = pipe.setup(&mut ctl);
    assert_eq!(packet, [0u8; 8]);
    assert!(!ctl.latch.configured);
}

#[test]
fn setup_ignores_other_requests() {
    let mut ctl = UsbController::new();
    let driver = fresh_driver(&mut ctl);
    let (_bus, mut pipe) = driver.start(&mut ctl, 64);
    // A GET_DESCRIPTOR-shaped packet: request type 0x80, request 0x06.
    let bytes = [0x80u8, 0x06, 0x00, 0x01, 0x00, 0x00, 0x12, 0x00];
    for (i, b) in bytes.iter().enumerate() {
        ctl.sram[i] = *b;
    }
    ctl.isr.ep0if = true;
    let packet = pipe.setup(&mut ctl);
    assert_eq!(packet, bytes);
    assert!(!ctl.latch.configured, "only SET_CONFIGURATION closes the latch");
}

#[test]
fn control_data_out_reads_the_rx_region() {
    let mut ctl = UsbController::new();
    let driver = fresh_driver(&mut ctl);
    let (_bus, mut pipe) = driver.start(&mut ctl, 64);

    // Hardware delivered five bytes into the endpoint-0 receive region.
    let rx = 0x48usize;
    for i in 0..5 {
        ctl.sram[rx + i] = (0x30 + i) as u8;
    }
    ctl.ep_transfer[0].rx_count = 5;

    let mut buf = vec![0u8; 8];
    let n = pipe.data_out(&mut ctl, &mut buf, true, true).unwrap();
    assert_eq!(n, 5);
    assert_eq!(&buf[..5], &[0x30, 0x31, 0x32, 0x33, 0x34]);
    assert!(ctl.ep_control[0].nakrx, "the buffer is marked consumed");

    // With the receive side not ready, nothing is read and nothing moves.
    let mut buf2 = vec![0u8; 8];
    let n2 = pipe.data_out(&mut ctl, &mut buf2, true, true).unwrap();
    assert_eq!(n2, 0);
    assert_eq!(buf2, vec![0u8; 8]);

    // A ready zero-length packet is still consumed: the receive
    // not-acknowledge bit goes back to hardware.
    ctl.ep_control[0].nakrx = false;
    ctl.ep_transfer[0].rx_count = 0;
    let mut buf3 = vec![0u8; 8];
    assert_eq!(pipe.data_out(&mut ctl, &mut buf3, true, true).unwrap(), 0);
    assert!(ctl.ep_control[0].nakrx, "the zero-length packet was handed back");
}

#[test]
fn control_data_in_fills_the_tx_region() {
    let mut ctl = UsbController::new();
    let driver = fresh_driver(&mut ctl);
    let (_bus, mut pipe) = driver.start(&mut ctl, 64);

    // The transmit buffer belongs to firmware.
    ctl.ep_control[0].naktx = true;
    let data = [0xAAu8, 0xBB, 0xCC];
    pipe.data_in(&mut ctl, &data, true, true).unwrap();
    let tx = 0x08usize;
    assert_eq!(&ctl.sram[tx..tx + 3], &data);
    assert_eq!(ctl.ep_transfer[0].tx_count, 3);
    assert!(!ctl.ep_control[0].naktx, "clearing not-acknowledge starts the transfer");

    // Before the hardware hands the buffer back, the exhausted retry
    // budget degrades to a benign success that changes nothing.
    let other = [0x11u8, 0x22];
    assert!(pipe.data_in(&mut ctl, &other, true, true).is_ok());
    assert_eq!(&ctl.sram[tx..tx + 3], &data, "nothing was written");
    assert_eq!(ctl.ep_transfer[0].tx_count, 3);
    assert!(!ctl.ep_control[0].naktx);

    // With the buffer back in firmware hands, an empty slice queues the
    // zero-length packet: count zero, transmission started.
    ctl.ep_control[0].naktx = true;
    assert!(pipe.data_in(&mut ctl, &[], true, true).is_ok());
    assert_eq!(ctl.ep_transfer[0].tx_count, 0);
    assert!(!ctl.ep_control[0].naktx, "the zero-length packet was queued");
    assert_eq!(&ctl.sram[tx..tx + 3], &data, "no byte of the region moved");
}

#[test]
fn accept_reject_and_set_address() {
    let mut ctl = UsbController::new();
    let driver = fresh_driver(&mut ctl);
    let (_bus, mut pipe) = driver.start(&mut ctl, 64);

    pipe.reject(&mut ctl);
    assert!(ctl.ep_control[0].stlrx);
    pipe.accept(&mut ctl);
    assert!(!ctl.ep_control[0].stlrx);

    pipe.accept_set_address(&mut ctl, 23);
    assert_eq!(ctl.devar, 23);
    // The register holds seven bits.
    pipe.accept_set_address(&mut ctl, 130);
    assert_eq!(ctl.devar, 2);
}

#[test]
fn oversized_buffers_are_refused_without_touching_sram() {
    let mut ctl = UsbController::new();
    let mut driver = fresh_driver(&mut ctl);
    let mut ep_in = driver
        .alloc_endpoint_in(&mut ctl, EndpointType::Bulk, None, 32, 0)
        .unwrap();
    let mut ep_out = driver
        .alloc_endpoint_out(&mut ctl, EndpointType::Bulk, None, 32, 0)
        .unwrap();

    let sram_before: Vec<u8> = ctl.sram.clone();
    let controls_before = ctl.ep_control.clone();

    // 33 bytes against a negotiated 32-byte packet size.
    let big = vec![0x55u8; 33];
    assert_eq!(
        ep_in.write(&mut ctl, &big),
        Err(EndpointError::BufferOverflow)
    );
    let mut big_buf = vec![0u8; 33];
    assert_eq!(
        ep_out.read(&mut ctl, &mut big_buf),
        Err(EndpointError::BufferOverflow)
    );

    assert_eq!(ctl.sram, sram_before, "no SRAM byte moved");
    assert_eq!(ctl.ep_control, controls_before);
}

#[test]
fn endpoint_write_round_trip() {
    let mut ctl = UsbController::new();
    let mut driver = fresh_driver(&mut ctl);
    let mut ep_in = driver
        .alloc_endpoint_in(&mut ctl, EndpointType::Bulk, None, 64, 0)
        .unwrap();
    assert_eq!(ep_in.info().addr.number, 3);

    ctl.ep_control[3].naktx = true;
    let data: Vec<u8> = (0..10u8).collect();
    ep_in.write(&mut ctl, &data).unwrap();

    let base = get_endpoint_buffer_addr(3, true) as usize;
    assert_eq!(&ctl.sram[base..base + 10], &data[..]);
    assert_eq!(ctl.ep_transfer[3].tx_count, 10);
    assert!(!ctl.ep_control[3].naktx);
}

#[test]
fn endpoint_read_round_trip() {
    let mut ctl = UsbController::new();
    let mut driver = fresh_driver(&mut ctl);
    let mut ep_out = driver
        .alloc_endpoint_out(&mut ctl, EndpointType::Bulk, None, 64, 0)
        .unwrap();
    assert_eq!(ep_out.info().addr.number, 2);

    // Hardware delivered six bytes into endpoint 2's region.
    let base = get_endpoint_buffer_addr(2, false) as usize;
    for i in 0..6 {
        ctl.sram[base + i] = (0x60 + i) as u8;
    }
    ctl.ep_transfer[2].rx_count = 6;

    let mut buf = vec![0u8; 64];
    let n = ep_out.read(&mut ctl, &mut buf).unwrap();
    assert_eq!(n, 6);
    assert_eq!(&buf[..6], &[0x60, 0x61, 0x62, 0x63, 0x64, 0x65]);
    assert!(ctl.ep_control[2].nakrx, "the buffer is marked consumed");

    // A second read sees nothing until hardware refills.
    let mut buf2 = vec![0u8; 64];
    assert_eq!(ep_out.read(&mut ctl, &mut buf2).unwrap(), 0);
}

#[test]
fn unwired_endpoints_never_carry_data() {
    let mut ctl = UsbController::new();
    let mut driver = fresh_driver(&mut ctl);
    // Endpoint 5 allocates (the bitmap covers it) but has no wired
    // registers.
    let mut iso_in = driver
        .alloc_endpoint_in(&mut ctl, EndpointType::Isochronous, None, 64, 1)
        .unwrap();
    assert_eq!(iso_in.info().addr.number, 5);
    let data = [1u8, 2, 3];
    assert_eq!(
        iso_in.write(&mut ctl, &data),
        Err(EndpointError::BufferOverflow)
    );

    let mut iso_out = driver
        .alloc_endpoint_out(&mut ctl, EndpointType::Isochronous, None, 64, 1)
        .unwrap();
    assert_eq!(iso_out.info().addr.number, 4);
    let mut buf = vec![0u8; 8];
    assert_eq!(iso_out.read(&mut ctl, &mut buf).unwrap(), 0);
}

#[test]
fn packet_sizes_clamp_to_full_speed() {
    let mut ctl = UsbController::new();
    let mut driver = fresh_driver(&mut ctl);
    let ep = driver
        .alloc_endpoint_in(&mut ctl, EndpointType::Bulk, None, 512, 0)
        .unwrap();
    assert_eq!(ep.info().max_packet_size, 64);
    // The configuration register stores the rounded word count.
    assert_eq!(ctl.ep_config[3].length, 16);
}
