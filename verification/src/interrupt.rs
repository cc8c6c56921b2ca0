//! Interrupt identities and handler plumbing.
//!
//! Each peripheral interrupt gets a marker type, and handlers are tied to
//! them through [`InterruptHandler`] and [`Binding`].  The vector table,
//! the controller's mask registers and the wakers live in the runtime
//! layer.

use vstd::prelude::*;

use core::marker::PhantomData;

verus! {

/// A handler for the interrupt marked by `T`.
pub trait InterruptHandler<T> {
    /// Handle the interrupt.
    fn on_interrupt(&mut self);
}

/// Evidence that a handler `H` is bound to the interrupt marked by `T`.
pub struct Binding<T, H> {
    _phantom: PhantomData<(T, H)>,
}

impl<T, H> Binding<T, H> {
    /// Record the binding.
    pub fn new() -> Self {
        Binding { _phantom: PhantomData }
    }
}

/// External interrupt lines 0 and 1.
pub struct Exti0_1;

/// External interrupt lines 2 and 3.
pub struct Exti2_3;

/// External interrupt lines 4 to 15.
pub struct Exti4_15;

/// The first general-purpose timer's interrupt.
pub struct Gptm0;

/// The second general-purpose timer's interrupt.
pub struct Gptm1;

/// The first UART's interrupt.
pub struct Usart0;

/// The second UART's interrupt.
pub struct Usart1;

/// The USB device controller's interrupt.
pub struct UsbInterrupt;

} // verus!
