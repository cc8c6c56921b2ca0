//! The fixed partition of the 1024-byte endpoint packet SRAM.
//!
//! Endpoint 0 owns three regions at the bottom of the memory: an 8-byte
//! SETUP buffer, a 64-byte transmit buffer and a 64-byte receive buffer.
//! The remaining 960 bytes are split into seven equal regions, one per
//! configurable endpoint.  The partition is a pure function of the endpoint
//! number and direction; no two endpoints ever share bytes.

use vstd::prelude::*;

verus! {

/// Offset of the endpoint-0 SETUP buffer.
pub const EP0_SETUP_OFFSET: u16 = 0x000;

/// Offset of the endpoint-0 transmit (device-to-host) buffer.
pub const EP0_TX_OFFSET: u16 = 0x008;

/// Offset of the endpoint-0 receive (host-to-device) buffer.
pub const EP0_RX_OFFSET: u16 = 0x048;

/// Bytes reserved for endpoint 0 in total: 8 + 64 + 64.
pub const EP0_TOTAL_SIZE: u16 = 136;

/// Length of the endpoint-0 SETUP buffer.
pub const EP0_SETUP_LEN: u16 = 8;

/// Length of each endpoint-0 data buffer.
pub const EP0_DATA_LEN: u16 = 64;

/// Bytes granted to each of endpoints 1 to 7: (1024 - 136) / 7.
pub const EP_REGION_SIZE: u16 = 137;

/// Start of the region owned by a configurable endpoint (1 to 7).
pub open spec fn spec_region_start(ep_num: int) -> int {
    EP0_TOTAL_SIZE + (ep_num - 1) * EP_REGION_SIZE
}

/// The buffer offset an endpoint uses for the given direction: endpoint 0
/// splits into its transmit and receive buffers, every other endpoint uses
/// its whole region for either direction.
pub open spec fn spec_buffer_addr(ep_num: int, is_in: bool) -> int {
    if ep_num == 0 {
        if is_in {
            EP0_TX_OFFSET as int
        } else {
            EP0_RX_OFFSET as int
        }
    } else {
        spec_region_start(ep_num)
    }
}

/// Get the buffer offset for an endpoint and direction.
///
/// Endpoint numbers above 7 do not exist on this controller; passing one is
/// a programming error and is excluded by contract (it cannot happen through
/// the public allocation interface).
pub fn get_endpoint_buffer_addr(ep_num: usize, is_in: bool) -> (r: u16)
    requires
        ep_num < 8,
    ensures
        r == spec_buffer_addr(ep_num as int, is_in),
        r + 64 <= 1024,
{
    if ep_num == 0 {
        if is_in {
            EP0_TX_OFFSET
        } else {
            EP0_RX_OFFSET
        }
    } else {
        EP0_TOTAL_SIZE + ((ep_num - 1) as u16) * EP_REGION_SIZE
    }
}

/// Get the offset of the endpoint-0 SETUP buffer.
pub fn get_ep0_setup_addr() -> (r: u16)
    ensures
        r == EP0_SETUP_OFFSET,
{
    EP0_SETUP_OFFSET
}

/// Two half-open byte ranges do not share a byte.
pub open spec fn disjoint(start_a: int, len_a: int, start_b: int, len_b: int) -> bool {
    start_a + len_a <= start_b || start_b + len_b <= start_a
}

/// The regions of two distinct configurable endpoints are disjoint, both
/// are disjoint from each of endpoint 0's three fixed regions, and every
/// region's packet area (the first 64 bytes, all a full-speed packet can
/// use) lies inside the 1024-byte SRAM.
pub proof fn lemma_sram_regions_disjoint(n: int, m: int)
    requires
        1 <= n <= 7,
        1 <= m <= 7,
        n != m,
    ensures
        disjoint(spec_region_start(n), EP_REGION_SIZE as int, spec_region_start(m),
            EP_REGION_SIZE as int),
        disjoint(spec_region_start(n), EP_REGION_SIZE as int, EP0_SETUP_OFFSET as int,
            EP0_SETUP_LEN as int),
        disjoint(spec_region_start(n), EP_REGION_SIZE as int, EP0_TX_OFFSET as int,
            EP0_DATA_LEN as int),
        disjoint(spec_region_start(n), EP_REGION_SIZE as int, EP0_RX_OFFSET as int,
            EP0_DATA_LEN as int),
        spec_region_start(n) + 64 <= 1024,
{
}

/// Endpoint 0's own three regions are pairwise disjoint and sit below the
/// configurable endpoints' space.
pub proof fn lemma_ep0_regions_disjoint()
    ensures
        disjoint(EP0_SETUP_OFFSET as int, EP0_SETUP_LEN as int, EP0_TX_OFFSET as int,
            EP0_DATA_LEN as int),
        disjoint(EP0_SETUP_OFFSET as int, EP0_SETUP_LEN as int, EP0_RX_OFFSET as int,
            EP0_DATA_LEN as int),
        disjoint(EP0_TX_OFFSET as int, EP0_DATA_LEN as int, EP0_RX_OFFSET as int,
            EP0_DATA_LEN as int),
        EP0_RX_OFFSET + EP0_DATA_LEN <= EP0_TOTAL_SIZE,
{
}

} // verus!
