//! The port-indexed table of I/O handlers.
use vstd::prelude::*;

verus! {

/// A device behind one or more I/O ports. Each access is handed the port number,
/// so that one handler may serve a span of ports.
///
/// `reads_*` and `took_*` say what a device promises of its accesses. By default it
/// promises nothing: any value may come back, and a write leaves no trace to state.
/// A verified device overrides them.
pub trait IoHandler {
    /// Whether `r` is a value that a read of port `port` may return.
    open spec fn reads_u8(&self, port: u16, r: u8) -> bool {
        true
    }

    /// Whether `r` is a value that a read of port `port` may return.
    open spec fn reads_u16(&self, port: u16, r: u16) -> bool {
        true
    }

    /// Whether `r` is a value that a read of port `port` may return.
    open spec fn reads_u32(&self, port: u16, r: u32) -> bool {
        true
    }

    /// Whether `r` is a value that a read of port `port` may return.
    open spec fn reads_u64(&self, port: u16, r: u64) -> bool {
        true
    }

    /// Whether the device has been handed `value` for port `port`.
    open spec fn took_u8(&self, port: u16, value: u8) -> bool {
        true
    }

    /// Whether the device has been handed `value` for port `port`.
    open spec fn took_u16(&self, port: u16, value: u16) -> bool {
        true
    }

    /// Whether the device has been handed `value` for port `port`.
    open spec fn took_u32(&self, port: u16, value: u32) -> bool {
        true
    }

    /// Whether the device has been handed `value` for port `port`.
    open spec fn took_u64(&self, port: u16, value: u64) -> bool {
        true
    }

    fn read_u8(&self, port: u16) -> (r: u8)
        ensures
            self.reads_u8(port, r),
    ;

    fn read_u16(&self, port: u16) -> (r: u16)
        ensures
            self.reads_u16(port, r),
    ;

    fn read_u32(&self, port: u16) -> (r: u32)
        ensures
            self.reads_u32(port, r),
    ;

    fn read_u64(&self, port: u16) -> (r: u64)
        ensures
            self.reads_u64(port, r),
    ;

    fn write_u8(&self, port: u16, value: u8)
        ensures
            self.took_u8(port, value),
    ;

    fn write_u16(&self, port: u16, value: u16)
        ensures
            self.took_u16(port, value),
    ;

    fn write_u32(&self, port: u16, value: u32)
        ensures
            self.took_u32(port, value),
    ;

    fn write_u64(&self, port: u16, value: u64)
        ensures
            self.took_u64(port, value),
    ;
}

/// A port that always reads as the low bits of `value` and ignores writes, as an
/// unconnected or hard-wired port does.
pub struct FixedPort {
    pub value: u64,
}

impl IoHandler for FixedPort {
    open spec fn reads_u8(&self, port: u16, r: u8) -> bool {
        r == (self.value & 0xFF) as u8
    }

    open spec fn reads_u16(&self, port: u16, r: u16) -> bool {
        r == (self.value & 0xFFFF) as u16
    }

    open spec fn reads_u32(&self, port: u16, r: u32) -> bool {
        r == (self.value & 0xFFFF_FFFF) as u32
    }

    open spec fn reads_u64(&self, port: u16, r: u64) -> bool {
        r == self.value
    }

    fn read_u8(&self, port: u16) -> (r: u8) {
        (self.value & 0xFF) as u8
    }

    fn read_u16(&self, port: u16) -> (r: u16) {
        (self.value & 0xFFFF) as u16
    }

    fn read_u32(&self, port: u16) -> (r: u32) {
        (self.value & 0xFFFF_FFFF) as u32
    }

    fn read_u64(&self, port: u16) -> (r: u64) {
        self.value
    }

    fn write_u8(&self, port: u16, value: u8) {
    }

    fn write_u16(&self, port: u16, value: u16) {
    }

    fn write_u32(&self, port: u16, value: u32) {
    }

    fn write_u64(&self, port: u16, value: u64) {
    }
}

/// The I/O bus: the handler at index `p` serves port `p`.
pub struct IoBus<H: IoHandler> {
    pub io_handlers: Vec<H>,
}

impl<H: IoHandler> IoBus<H> {
    /// A bus with no ports.
    pub fn new() -> (r: Self)
        ensures
            r.io_handlers@.len() == 0,
    {
        IoBus { io_handlers: Vec::new() }
    }

    /// Installs `handler` at the next port number.
    pub fn add_handler(&mut self, handler: H)
        ensures
            final(self).io_handlers@ == old(self).io_handlers@.push(handler),
    {
        self.io_handlers.push(handler);
    }

    /// The number of ports that have a handler.
    pub fn port_count(&self) -> (r: usize)
        ensures
            r == self.io_handlers@.len(),
    {
        self.io_handlers.len()
    }

    /// Reads port `port` through the handler installed there, which is handed the port.
    pub fn read_u8(&self, port: u16) -> (r: u8)
        requires
            (port as int) < self.io_handlers@.len(),
        ensures
            self.io_handlers@[port as int].reads_u8(port, r),
    {
        self.io_handlers[port as usize].read_u8(port)
    }

    /// Reads port `port` through the handler installed there, which is handed the port.
    pub fn read_u16(&self, port: u16) -> (r: u16)
        requires
            (port as int) < self.io_handlers@.len(),
        ensures
            self.io_handlers@[port as int].reads_u16(port, r),
    {
        self.io_handlers[port as usize].read_u16(port)
    }

    /// Reads port `port` through the handler installed there, which is handed the port.
    pub fn read_u32(&self, port: u16) -> (r: u32)
        requires
            (port as int) < self.io_handlers@.len(),
        ensures
            self.io_handlers@[port as int].reads_u32(port, r),
    {
        self.io_handlers[port as usize].read_u32(port)
    }

    /// Reads port `port` through the handler installed there, which is handed the port.
    pub fn read_u64(&self, port: u16) -> (r: u64)
        requires
            (port as int) < self.io_handlers@.len(),
        ensures
            self.io_handlers@[port as int].reads_u64(port, r),
    {
        self.io_handlers[port as usize].read_u64(port)
    }

    /// Hands `value` to the handler installed at `port`, together with the port.
    pub fn write_u8(&mut self, port: u16, value: u8)
        requires
            (port as int) < old(self).io_handlers@.len(),
        ensures
            final(self).io_handlers@ == old(self).io_handlers@,
            old(self).io_handlers@[port as int].took_u8(port, value),
    {
        self.io_handlers[port as usize].write_u8(port, value);
    }

    /// Hands `value` to the handler installed at `port`, together with the port.
    pub fn write_u16(&mut self, port: u16, value: u16)
        requires
            (port as int) < old(self).io_handlers@.len(),
        ensures
            final(self).io_handlers@ == old(self).io_handlers@,
            old(self).io_handlers@[port as int].took_u16(port, value),
    {
        self.io_handlers[port as usize].write_u16(port, value);
    }

    /// Hands `value` to the handler installed at `port`, together with the port.
    pub fn write_u32(&mut self, port: u16, value: u32)
        requires
            (port as int) < old(self).io_handlers@.len(),
        ensures
            final(self).io_handlers@ == old(self).io_handlers@,
            old(self).io_handlers@[port as int].took_u32(port, value),
    {
        self.io_handlers[port as usize].write_u32(port, value);
    }

    /// Hands `value` to the handler installed at `port`, together with the port.
    pub fn write_u64(&mut self, port: u16, value: u64)
        requires
            (port as int) < old(self).io_handlers@.len(),
        ensures
            final(self).io_handlers@ == old(self).io_handlers@,
            old(self).io_handlers@[port as int].took_u64(port, value),
    {
        self.io_handlers[port as usize].write_u64(port, value);
    }
}

} // verus!
