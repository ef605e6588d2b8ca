//! The 8250/16550A UART: the port facts gathered at probe time, the TTY port that owns
//! the receive flip buffer and the transmit FIFO, those two buffers, and the transmit
//! queue of the console write backend.
//!
//! Register accesses are made by the caller; the buffers and queues are kept here.
use vstd::prelude::*;

verus! {

pub const UART_RX: usize = 0;
pub const UART_TX: usize = 0;
pub const UART_IER: usize = 1;
pub const UART_IIR: usize = 2;
pub const UART_FCR: usize = 2;
pub const UART_MCR: usize = 4;
pub const UART_LSR: usize = 5;
pub const UART_IER_RDI: usize = 1;
pub const UART_IER_THRI: usize = 2;
pub const UART_IER_RLSI: usize = 4;
pub const UART_IIR_NO_INT: usize = 1;
pub const UART_IIR_ID: usize = 0x0e;
pub const UART_IIR_THRI: usize = 0x02;
pub const UART_IIR_RDI: usize = 0x04;
pub const UART_IIR_RLSI: usize = 0x06;
pub const UART_IIR_RX_TIMEOUT: usize = 0x0c;
pub const UART_MCR_OUT2: usize = 8;
pub const UART_LSR_DR: usize = 1;
pub const UART_LSR_THRE: usize = 32;
pub const UART_TX_LOAD_SIZE: usize = 8;
pub const UART_TX_QUEUE_SIZE: usize = 512;
pub const TTY_FLIP_BUFFER_SIZE: usize = 64;
pub const TTY_XMIT_FIFO_SIZE: usize = 64;

/// The byte value of a line feed.
pub const LINE_FEED: u8 = 10;

/// The byte value of a carriage return.
pub const CARRIAGE_RETURN: u8 = 13;

/// Whether an interrupt identification names a receive interrupt: data available,
/// line status, or a receive timeout.
pub fn is_uart_rx_interrupt(interrupt_id: usize) -> (r: bool)
    ensures
        r == (interrupt_id == UART_IIR_RDI || interrupt_id == UART_IIR_RLSI || interrupt_id
            == UART_IIR_RX_TIMEOUT),
{
    interrupt_id == UART_IIR_RDI || interrupt_id == UART_IIR_RLSI || interrupt_id
        == UART_IIR_RX_TIMEOUT
}

/// Register widths that the port supports: 1, 2 or 4 bytes.
pub fn uart_reg_io_width_supported(width: u32) -> (r: bool)
    ensures
        r == (width == 1 || width == 2 || width == 4),
{
    width == 1 || width == 2 || width == 4
}

/// The byte offset of register `reg` for a port whose registers are spaced by
/// `2^reg_shift` bytes; `None` when the shift is not below the word size.
pub fn uart_register_offset(reg_shift: u32, reg: usize) -> (r: Option<usize>)
    ensures
        reg_shift >= usize::BITS ==> r is None,
        reg_shift < usize::BITS ==> r == Some(reg << reg_shift),
{
    if reg_shift >= usize::BITS {
        return None;
    }
    Some(reg << reg_shift)
}

/// What the probe learned of the UART.
#[derive(Clone, Copy, PartialEq, Eq, Structural, Debug)]
pub struct Uart8250Port {
    pub node_id: usize,
    pub device_ref: usize,
    pub mapbase: usize,
    pub mapsize: usize,
    pub membase: usize,
    pub ioremapped: bool,
    pub vm_ioremap: bool,
    pub io_page_protection: bool,
    pub reg_shift: u32,
    pub reg_io_width: u32,
    pub clock_frequency: u32,
    pub irq_source: u32,
    pub logical_irq: usize,
    pub irq_resource_ready: bool,
    pub irq_parent_plic: bool,
    pub irq_mapping_ready: bool,
    pub irq_handler_registered: bool,
    pub irq_handler_hardirq_context_required: bool,
    pub irq_handler_dispatch_ready: bool,
    pub interrupt_output_deferred: bool,
    pub interrupt_driven_ready: bool,
    pub interrupt_trigger_ready: bool,
    pub thre_interrupt_enabled: bool,
    pub thre_interrupt_handled: bool,
    pub thre_interrupt_loopback: bool,
    pub line: usize,
    pub registered: bool,
}

impl Uart8250Port {
    /// A port that nothing is known of; `usize::MAX` names no node, device, interrupt
    /// or line.
    pub fn empty() -> (r: Self)
        ensures
            !r.registered,
            r.line == usize::MAX,
            r.device_ref == usize::MAX,
            r.membase == 0,
    {
        Uart8250Port {
            node_id: usize::MAX,
            device_ref: usize::MAX,
            mapbase: 0,
            mapsize: 0,
            membase: 0,
            ioremapped: false,
            vm_ioremap: false,
            io_page_protection: false,
            reg_shift: 0,
            reg_io_width: 0,
            clock_frequency: 0,
            irq_source: 0,
            logical_irq: usize::MAX,
            irq_resource_ready: false,
            irq_parent_plic: false,
            irq_mapping_ready: false,
            irq_handler_registered: false,
            irq_handler_hardirq_context_required: false,
            irq_handler_dispatch_ready: false,
            interrupt_output_deferred: false,
            interrupt_driven_ready: false,
            interrupt_trigger_ready: false,
            thre_interrupt_enabled: false,
            thre_interrupt_handled: false,
            thre_interrupt_loopback: false,
            line: usize::MAX,
            registered: false,
        }
    }
}

/// The TTY port of the UART line.
#[derive(Clone, Copy, PartialEq, Eq, Structural, Debug)]
pub struct TtyPort {
    pub ready: bool,
    pub initialized: bool,
    pub online: bool,
    pub device_ref: usize,
    pub line: usize,
    pub bound_to_uart8250: bool,
    pub owns_flip_buffer: bool,
    pub owns_xmit_fifo: bool,
    pub no_mmio_access: bool,
    pub no_irq_dispatch: bool,
    pub no_console_registry_policy: bool,
    pub uart_startup_drives_runtime_enable: bool,
}

impl TtyPort {
    pub open spec fn spec_empty() -> Self {
        TtyPort {
            ready: false,
            initialized: false,
            online: false,
            device_ref: usize::MAX,
            line: usize::MAX,
            bound_to_uart8250: false,
            owns_flip_buffer: false,
            owns_xmit_fifo: false,
            no_mmio_access: true,
            no_irq_dispatch: true,
            no_console_registry_policy: true,
            uart_startup_drives_runtime_enable: false,
        }
    }

    pub fn empty() -> (r: Self)
        ensures
            r == Self::spec_empty(),
    {
        TtyPort {
            ready: false,
            initialized: false,
            online: false,
            device_ref: usize::MAX,
            line: usize::MAX,
            bound_to_uart8250: false,
            owns_flip_buffer: false,
            owns_xmit_fifo: false,
            no_mmio_access: true,
            no_irq_dispatch: true,
            no_console_registry_policy: true,
            uart_startup_drives_runtime_enable: false,
        }
    }

    /// The TTY port of a registered UART line; an empty one for anything else.
    pub fn from_port(port: Uart8250Port) -> (r: Self)
        ensures
            !port.registered || port.line == usize::MAX ==> r == Self::spec_empty(),
            port.registered && port.line != usize::MAX ==> r == (TtyPort {
                ready: true,
                initialized: false,
                online: false,
                device_ref: port.device_ref,
                line: port.line,
                bound_to_uart8250: true,
                owns_flip_buffer: true,
                owns_xmit_fifo: true,
                no_mmio_access: true,
                no_irq_dispatch: true,
                no_console_registry_policy: true,
                uart_startup_drives_runtime_enable: true,
            }),
    {
        if !port.registered || port.line == usize::MAX {
            return Self::empty();
        }
        TtyPort {
            ready: true,
            initialized: false,
            online: false,
            device_ref: port.device_ref,
            line: port.line,
            bound_to_uart8250: true,
            owns_flip_buffer: true,
            owns_xmit_fifo: true,
            no_mmio_access: true,
            no_irq_dispatch: true,
            no_console_registry_policy: true,
            uart_startup_drives_runtime_enable: true,
        }
    }

    /// The port belongs to `port` and holds every fact its role needs.
    pub fn facts_ready(self, port: Uart8250Port) -> (r: bool)
        ensures
            r == (self.ready && port.registered && self.device_ref == port.device_ref && self.line
                == port.line && self.bound_to_uart8250 && self.owns_flip_buffer
                && self.owns_xmit_fifo && self.no_mmio_access && self.no_irq_dispatch
                && self.no_console_registry_policy && self.uart_startup_drives_runtime_enable),
    {
        self.ready && port.registered && self.device_ref == port.device_ref && self.line == port.line
            && self.bound_to_uart8250 && self.owns_flip_buffer && self.owns_xmit_fifo
            && self.no_mmio_access && self.no_irq_dispatch && self.no_console_registry_policy
            && self.uart_startup_drives_runtime_enable
    }

    /// Initializes and brings the port online for the UART's startup, once.
    pub fn enable_for_uart_startup(&mut self) -> (r: bool)
        ensures
            r == (old(self).ready && !old(self).initialized && !old(self).online),
            r ==> *final(self) == (TtyPort { initialized: true, online: true, ..*old(self) }),
            !r ==> *final(self) == *old(self),
    {
        if !self.ready || self.initialized || self.online {
            return false;
        }
        self.initialized = true;
        self.online = true;
        true
    }
}

/// The length of the first line of `s`, its line feed included; 0 when `s` holds no
/// complete line.
pub open spec fn first_line_len(s: Seq<u8>) -> int {
    if exists|i: int| is_first_line_feed(s, i) {
        (choose|i: int| is_first_line_feed(s, i)) + 1
    } else {
        0
    }
}

/// `s[i]` is the first line feed of `s`.
pub open spec fn is_first_line_feed(s: Seq<u8>, i: int) -> bool {
    &&& 0 <= i < s.len()
    &&& s[i] == LINE_FEED
    &&& forall|j: int| 0 <= j < i ==> s[j] != LINE_FEED
}

/// The receive flip buffer: received bytes are staged as pending, pushed to become
/// readable, and read in order. `buffer[read_offset..read_ready_len]` is readable and
/// the `pending_len` bytes after it are pending.
pub struct TtyFlipBuffer {
    pub ready: bool,
    pub bound_to_tty_port: bool,
    pub rx_staging_only: bool,
    pub push_is_observation_boundary: bool,
    pub n_tty_read_deferred: bool,
    pub buffer: Vec<u8>,
    pub pending_len: usize,
    pub read_ready_len: usize,
    pub read_offset: usize,
    pub read_count: usize,
    pub push_count: usize,
    pub total_inserted: usize,
    pub last_pushed_len: usize,
    pub last_read_len: usize,
    pub last_byte: u8,
    pub overflowed: bool,
}

/// `x + 1`, or `usize::MAX` where that does not fit.
pub open spec fn sat_inc(x: usize) -> usize {
    if x == usize::MAX {
        x
    } else {
        (x + 1) as usize
    }
}

fn zeroed(n: usize) -> (r: Vec<u8>)
    ensures
        r@ == Seq::new(n as nat, |i: int| 0u8),
{
    let mut r: Vec<u8> = Vec::new();
    while r.len() < n
        invariant
            r@.len() <= n,
            forall|i: int| 0 <= i < r@.len() ==> r@[i] == 0,
        decreases n - r@.len(),
    {
        r.push(0);
    }
    assert(r@ =~= Seq::new(n as nat, |i: int| 0u8));
    r
}

impl TtyFlipBuffer {
    pub open spec fn wf(&self) -> bool {
        &&& self.buffer@.len() == TTY_FLIP_BUFFER_SIZE
        &&& self.read_offset <= self.read_ready_len
        &&& self.read_ready_len + self.pending_len <= TTY_FLIP_BUFFER_SIZE
    }

    /// The bytes that a read returns, in order.
    pub open spec fn readable(&self) -> Seq<u8> {
        self.buffer@.subrange(self.read_offset as int, self.read_ready_len as int)
    }

    /// The bytes inserted but not pushed yet, in order.
    pub open spec fn pending(&self) -> Seq<u8> {
        self.buffer@.subrange(
            self.read_ready_len as int,
            (self.read_ready_len + self.pending_len) as int,
        )
    }

    /// The flags and counters, all but the data.
    pub open spec fn same_flags(&self, other: &Self) -> bool {
        &&& self.ready == other.ready
        &&& self.bound_to_tty_port == other.bound_to_tty_port
        &&& self.rx_staging_only == other.rx_staging_only
        &&& self.push_is_observation_boundary == other.push_is_observation_boundary
        &&& self.n_tty_read_deferred == other.n_tty_read_deferred
    }

    fn with_ready(ready: bool) -> (r: Self)
        ensures
            r.wf(),
            r.ready == ready && r.bound_to_tty_port == ready && r.rx_staging_only == ready
                && r.push_is_observation_boundary == ready && r.n_tty_read_deferred,
            r.readable().len() == 0 && r.pending().len() == 0,
            r.read_offset == 0 && r.read_ready_len == 0 && r.pending_len == 0,
            r.read_count == 0 && r.push_count == 0 && r.total_inserted == 0,
            r.last_pushed_len == 0 && r.last_read_len == 0 && r.last_byte == 0 && !r.overflowed,
    {
        TtyFlipBuffer {
            ready,
            bound_to_tty_port: ready,
            rx_staging_only: ready,
            push_is_observation_boundary: ready,
            n_tty_read_deferred: true,
            buffer: zeroed(TTY_FLIP_BUFFER_SIZE),
            pending_len: 0,
            read_ready_len: 0,
            read_offset: 0,
            read_count: 0,
            push_count: 0,
            total_inserted: 0,
            last_pushed_len: 0,
            last_read_len: 0,
            last_byte: 0,
            overflowed: false,
        }
    }

    /// A flip buffer that is not ready.
    pub fn empty() -> (r: Self)
        ensures
            r.wf(),
            !r.ready,
            r.readable().len() == 0 && r.pending().len() == 0,
    {
        Self::with_ready(false)
    }

    /// The flip buffer of a TTY port; ready when the port is ready and owns it.
    pub fn from_tty_port(tty_port: TtyPort) -> (r: Self)
        ensures
            r.wf(),
            r.ready == (tty_port.ready && tty_port.owns_flip_buffer),
            r.readable().len() == 0 && r.pending().len() == 0,
            r.total_inserted == 0 && r.push_count == 0 && r.read_count == 0 && !r.overflowed,
    {
        Self::with_ready(tty_port.ready && tty_port.owns_flip_buffer)
    }

    pub fn facts_ready(&self, tty_port: TtyPort) -> (r: bool)
        ensures
            r == (self.ready && tty_port.ready && tty_port.owns_flip_buffer && self.bound_to_tty_port
                && self.rx_staging_only && self.push_is_observation_boundary
                && self.n_tty_read_deferred),
    {
        self.ready && tty_port.ready && tty_port.owns_flip_buffer && self.bound_to_tty_port
            && self.rx_staging_only && self.push_is_observation_boundary && self.n_tty_read_deferred
    }

    /// Moves the unread bytes to the front once nothing is pending.
    fn compact_ready_prefix(&mut self)
        requires
            old(self).wf(),
        ensures
            final(self).wf(),
            final(self).readable() == old(self).readable(),
            final(self).pending() == old(self).pending(),
            final(self).pending_len == old(self).pending_len,
            old(self).read_offset == 0 || old(self).pending_len != 0 ==> final(self).read_offset
                == old(self).read_offset && final(self).read_ready_len == old(self).read_ready_len
                && final(self).buffer@ == old(self).buffer@,
            !(old(self).read_offset == 0 || old(self).pending_len != 0) ==> final(self).read_offset
                == 0 && final(self).read_ready_len == old(self).read_ready_len - old(self).read_offset,
            final(self).same_flags(old(self)),
            final(self).read_count == old(self).read_count,
            final(self).push_count == old(self).push_count,
            final(self).total_inserted == old(self).total_inserted,
            final(self).last_pushed_len == old(self).last_pushed_len,
            final(self).last_read_len == old(self).last_read_len,
            final(self).last_byte == old(self).last_byte,
            final(self).overflowed == old(self).overflowed,
    {
        if self.read_offset == 0 || self.pending_len != 0 {
            return;
        }
        let unread = self.read_ready_len - self.read_offset;
        let off = self.read_offset;
        let ghost old_buf = self.buffer@;
        let mut buf: Vec<u8> = Vec::new();
        std::mem::swap(&mut buf, &mut self.buffer);
        let mut k: usize = 0;
        while k < unread
            invariant
                buf@.len() == TTY_FLIP_BUFFER_SIZE,
                old_buf.len() == TTY_FLIP_BUFFER_SIZE,
                off > 0,
                off + unread <= TTY_FLIP_BUFFER_SIZE,
                k <= unread,
                forall|i: int| 0 <= i < k ==> buf@[i] == old_buf[off + i],
                forall|i: int| k <= i < TTY_FLIP_BUFFER_SIZE ==> buf@[i] == old_buf[i],
            decreases unread - k,
        {
            let b = buf[off + k];
            buf.set(k, b);
            k += 1;
        }
        std::mem::swap(&mut buf, &mut self.buffer);
        self.read_ready_len = unread;
        self.read_offset = 0;
        assert(self.readable() =~= old_buf.subrange(off as int, (off + unread) as int));
        assert(self.pending() =~= Seq::<u8>::empty());
    }

    /// The room left for pending bytes once the readable bytes are compacted.
    pub open spec fn room(&self) -> int {
        if self.read_offset != 0 && self.pending_len == 0 {
            TTY_FLIP_BUFFER_SIZE - (self.read_ready_len - self.read_offset)
        } else {
            TTY_FLIP_BUFFER_SIZE - (self.read_ready_len + self.pending_len)
        }
    }

    /// Stages one received byte as pending; refused (and the overflow recorded) when
    /// the buffer is not ready or full.
    pub fn insert_char(&mut self, byte: u8) -> (r: bool)
        requires
            old(self).wf(),
        ensures
            final(self).wf(),
            r == (old(self).ready && old(self).room() > 0),
            final(self).readable() == old(self).readable(),
            r ==> final(self).pending() == old(self).pending().push(byte),
            !r ==> final(self).pending() == old(self).pending(),
            r ==> final(self).total_inserted == sat_inc(old(self).total_inserted)
                && final(self).last_byte == byte && final(self).overflowed == old(self).overflowed,
            !r ==> final(self).overflowed && final(self).total_inserted == old(self).total_inserted
                && final(self).last_byte == old(self).last_byte,
            final(self).same_flags(old(self)),
            final(self).read_count == old(self).read_count,
            final(self).push_count == old(self).push_count,
            final(self).last_pushed_len == old(self).last_pushed_len,
            final(self).last_read_len == old(self).last_read_len,
    {
        if !self.ready {
            self.overflowed = true;
            return false;
        }
        self.compact_ready_prefix();
        let write_index = self.read_ready_len + self.pending_len;
        if write_index >= TTY_FLIP_BUFFER_SIZE {
            self.overflowed = true;
            return false;
        }
        let ghost before = self.buffer@;
        self.buffer.set(write_index, byte);
        self.pending_len = self.pending_len + 1;
        self.total_inserted = if self.total_inserted == usize::MAX {
            usize::MAX
        } else {
            self.total_inserted + 1
        };
        self.last_byte = byte;
        proof {
            assert(self.readable() =~= before.subrange(
                self.read_offset as int,
                self.read_ready_len as int,
            ));
            assert(self.pending() =~= before.subrange(
                self.read_ready_len as int,
                write_index as int,
            ).push(byte));
        }
        true
    }

    /// Makes the pending bytes readable.
    pub fn push(&mut self) -> (r: bool)
        requires
            old(self).wf(),
        ensures
            final(self).wf(),
            r == (old(self).ready && old(self).pending_len != 0),
            r ==> final(self).readable() == old(self).readable() + old(self).pending()
                && final(self).pending().len() == 0 && final(self).last_pushed_len == old(self).pending_len && final(self).push_count == sat_inc(old(self).push_count),
            !r ==> final(self).readable() == old(self).readable() && final(self).pending() == old(self).pending() && final(self).push_count == old(self).push_count,
            final(self).same_flags(old(self)),
            final(self).buffer@ == old(self).buffer@,
            final(self).read_offset == old(self).read_offset,
            final(self).total_inserted == old(self).total_inserted,
    {
        if !self.ready || self.pending_len == 0 {
            return false;
        }
        self.last_pushed_len = self.pending_len;
        self.push_count = if self.push_count == usize::MAX {
            usize::MAX
        } else {
            self.push_count + 1
        };
        self.read_ready_len = self.read_ready_len + self.pending_len;
        self.pending_len = 0;
        assert(self.readable() =~= old(self).readable() + old(self).pending());
        assert(self.pending() =~= Seq::<u8>::empty());
        true
    }

    /// Copies the first `len` readable bytes into `buffer` and consumes them.
    fn consume_into(&mut self, buffer: &mut Vec<u8>, len: usize)
        requires
            old(self).wf(),
            0 < len <= old(buffer)@.len(),
            len <= old(self).readable().len(),
        ensures
            final(self).wf(),
            final(buffer)@ == old(self).readable().take(len as int) + old(buffer)@.skip(len as int),
            final(self).readable() == old(self).readable().skip(len as int),
            final(self).buffer@ == old(self).buffer@,
            final(self).pending_len == old(self).pending_len,
            old(self).read_offset + len < old(self).read_ready_len ==> final(self).read_offset
                == old(self).read_offset + len && final(self).read_ready_len == old(self).read_ready_len,
            old(self).read_offset + len == old(self).read_ready_len ==> final(self).read_offset
                == 0 && final(self).read_ready_len == 0,
            final(self).last_read_len == len,
            final(self).read_count == sat_inc(old(self).read_count),
            final(self).same_flags(old(self)),
            final(self).push_count == old(self).push_count,
            final(self).total_inserted == old(self).total_inserted,
            final(self).last_pushed_len == old(self).last_pushed_len,
            final(self).last_byte == old(self).last_byte,
            final(self).overflowed == old(self).overflowed,
    {
        let off = self.read_offset;
        let ghost old_out = buffer@;
        let mut k: usize = 0;
        while k < len
            invariant
                self.buffer@.len() == TTY_FLIP_BUFFER_SIZE,
                off + len <= TTY_FLIP_BUFFER_SIZE,
                buffer@.len() == old_out.len(),
                len <= old_out.len(),
                k <= len,
                forall|i: int| 0 <= i < k ==> buffer@[i] == self.buffer@[off + i],
                forall|i: int| k <= i < old_out.len() ==> buffer@[i] == old_out[i],
            decreases len - k,
        {
            let b = self.buffer[off + k];
            buffer.set(k, b);
            k += 1;
        }
        let end = off + len;
        self.read_offset = end;
        self.last_read_len = len;
        self.read_count = if self.read_count == usize::MAX {
            usize::MAX
        } else {
            self.read_count + 1
        };
        if self.read_offset == self.read_ready_len {
            self.read_ready_len = 0;
            self.read_offset = 0;
        }
        assert(buffer@ =~= old(self).readable().take(len as int) + old_out.skip(len as int));
        assert(self.readable() =~= old(self).readable().skip(len as int));
    }

    /// Reads readable bytes into `buffer`, as many as fit. `None` when not ready.
    pub fn read_ready_data(&mut self, buffer: &mut Vec<u8>) -> (r: Option<usize>)
        requires
            old(self).wf(),
        ensures
            final(self).wf(),
            !old(self).ready ==> r is None && final(buffer)@ == old(buffer)@,
            old(self).ready ==> r == Some(
                vstd::math::min(old(buffer)@.len() as int, old(self).readable().len() as int) as usize,
            ),
            r matches Some(n) ==> final(buffer)@ == old(self).readable().take(n as int) + old(buffer)@.skip(n as int) && final(self).readable() == old(self).readable().skip(n as int),
            r matches Some(n) ==> (n == 0 ==> final(self).read_offset == old(self).read_offset
                && final(self).read_ready_len == old(self).read_ready_len),
            r matches Some(n) ==> (n > 0 && old(self).read_offset + n < old(self).read_ready_len
                ==> final(self).read_offset == old(self).read_offset + n
                && final(self).read_ready_len == old(self).read_ready_len),
            r matches Some(n) ==> (n > 0 && old(self).read_offset + n == old(self).read_ready_len
                ==> final(self).read_offset == 0 && final(self).read_ready_len == 0),
            r is None ==> final(self).read_offset == old(self).read_offset
                && final(self).read_ready_len == old(self).read_ready_len,
            final(self).buffer@ == old(self).buffer@,
            final(self).pending_len == old(self).pending_len,
            final(self).same_flags(old(self)),
    {
        if !self.ready {
            return None;
        }
        if buffer.len() == 0 || self.read_offset >= self.read_ready_len {
            assert(buffer@ =~= old(self).readable().take(0) + buffer@.skip(0));
            assert(self.readable() =~= self.readable().skip(0));
            return Some(0);
        }
        let available = self.read_ready_len - self.read_offset;
        let len = if buffer.len() < available { buffer.len() } else { available };
        self.consume_into(buffer, len);
        Some(len)
    }

    /// The length of the first complete line among the readable bytes, 0 when there is
    /// none; `None` when not ready.
    pub fn canonical_readable_len(&self) -> (r: Option<usize>)
        requires
            self.wf(),
        ensures
            !self.ready ==> r is None,
            self.ready ==> r == Some(first_line_len(self.readable()) as usize),
    {
        if !self.ready {
            return None;
        }
        if self.read_offset >= self.read_ready_len {
            return Some(0);
        }
        let ghost s = self.readable();
        let mut i: usize = self.read_offset;
        while i < self.read_ready_len
            invariant
                self.wf(),
                self.ready,
                s == self.readable(),
                self.read_offset <= i <= self.read_ready_len,
                forall|j: int| 0 <= j < i - self.read_offset ==> s[j] != LINE_FEED,
            decreases self.read_ready_len - i,
        {
            if self.buffer[i] == LINE_FEED {
                proof {
                    let k = i - self.read_offset;
                    assert(is_first_line_feed(s, k));
                    let c = choose|c: int| is_first_line_feed(s, c);
                    if c < k {
                        assert(s[c] != LINE_FEED);
                    } else if c > k {
                        assert(s[k] != LINE_FEED);
                    }
                }
                return Some(i - self.read_offset + 1);
            }
            i += 1;
        }
        proof {
            if exists|c: int| is_first_line_feed(s, c) {
                let c = choose|c: int| is_first_line_feed(s, c);
                assert(s[c] != LINE_FEED);
            }
        }
        Some(0)
    }

    /// Reads into `buffer`; in canonical mode only up to the end of the first complete
    /// line, and nothing while no line is complete.
    pub fn read_ready_data_with_mode(&mut self, buffer: &mut Vec<u8>, canonical: bool) -> (r: Option<usize>)
        requires
            old(self).wf(),
        ensures
            final(self).wf(),
            !old(self).ready ==> r is None && final(buffer)@ == old(buffer)@,
            old(self).ready && !canonical ==> r == Some(
                vstd::math::min(old(buffer)@.len() as int, old(self).readable().len() as int) as usize,
            ),
            old(self).ready && canonical ==> r == Some(
                vstd::math::min(old(buffer)@.len() as int, first_line_len(old(self).readable()))
                    as usize,
            ),
            r matches Some(n) ==> final(buffer)@ == old(self).readable().take(n as int) + old(buffer)@.skip(n as int) && final(self).readable() == old(self).readable().skip(n as int),
            final(self).buffer@ == old(self).buffer@,
            final(self).pending_len == old(self).pending_len,
            final(self).same_flags(old(self)),
    {
        if !canonical {
            return self.read_ready_data(buffer);
        }
        if !self.ready {
            return None;
        }
        if buffer.len() == 0 {
            assert(buffer@ =~= old(self).readable().take(0) + buffer@.skip(0));
            assert(self.readable() =~= self.readable().skip(0));
            return Some(0);
        }
        let readable = match self.canonical_readable_len() {
            Some(n) => n,
            None => {
                return None;
            },
        };
        if readable == 0 {
            assert(buffer@ =~= old(self).readable().take(0) + buffer@.skip(0));
            assert(self.readable() =~= self.readable().skip(0));
            return Some(0);
        }
        proof {
            let s = self.readable();
            let c = choose|c: int| is_first_line_feed(s, c);
            assert(c < s.len());
        }
        let len = if buffer.len() < readable { buffer.len() } else { readable };
        self.consume_into(buffer, len);
        Some(len)
    }

    /// Whether readable bytes wait; `None` when not ready.
    pub fn read_ready_available(&self) -> (r: Option<bool>)
        requires
            self.wf(),
        ensures
            !self.ready ==> r is None,
            self.ready ==> r == Some(self.readable().len() > 0),
    {
        if !self.ready {
            return None;
        }
        Some(self.read_offset < self.read_ready_len)
    }

    /// Whether a read would return something: in canonical mode, a complete line.
    pub fn read_ready_available_with_mode(&self, canonical: bool) -> (r: Option<bool>)
        requires
            self.wf(),
        ensures
            !self.ready ==> r is None,
            self.ready && !canonical ==> r == Some(self.readable().len() > 0),
            self.ready && canonical ==> r == Some(first_line_len(self.readable()) != 0),
    {
        if !canonical {
            return self.read_ready_available();
        }
        match self.canonical_readable_len() {
            Some(n) => Some(n != 0),
            None => None,
        }
    }

    /// Drops every readable and pending byte.
    pub fn clear_ready_data(&mut self) -> (r: bool)
        requires
            old(self).wf(),
        ensures
            final(self).wf(),
            r == old(self).ready,
            r ==> final(self).readable().len() == 0 && final(self).pending().len() == 0
                && final(self).last_read_len == 0,
            !r ==> final(self).readable() == old(self).readable() && final(self).pending() == old(self).pending(),
            final(self).same_flags(old(self)),
    {
        if !self.ready {
            return false;
        }
        self.buffer = zeroed(TTY_FLIP_BUFFER_SIZE);
        self.pending_len = 0;
        self.read_ready_len = 0;
        self.read_offset = 0;
        self.last_read_len = 0;
        true
    }

    /// Makes `bytes` the readable data of an empty buffer.
    pub fn seed_ready_data_fixture(&mut self, bytes: &[u8]) -> (r: bool)
        requires
            old(self).wf(),
        ensures
            final(self).wf(),
            r == (old(self).ready && bytes@.len() != 0 && bytes@.len() <= TTY_FLIP_BUFFER_SIZE
                && old(self).pending_len == 0 && old(self).read_ready_len == 0),
            r ==> final(self).readable() == bytes@ && final(self).pending().len() == 0
                && final(self).last_byte == bytes@.last(),
            !r ==> final(self).readable() == old(self).readable() && final(self).pending() == old(self).pending(),
            final(self).same_flags(old(self)),
    {
        if !self.ready || bytes.len() == 0 || bytes.len() > TTY_FLIP_BUFFER_SIZE
            || self.pending_len != 0 || self.read_ready_len != 0 {
            return false;
        }
        let mut b = zeroed(TTY_FLIP_BUFFER_SIZE);
        let mut k: usize = 0;
        while k < bytes.len()
            invariant
                b@.len() == TTY_FLIP_BUFFER_SIZE,
                bytes@.len() <= TTY_FLIP_BUFFER_SIZE,
                k <= bytes@.len(),
                forall|i: int| 0 <= i < k ==> b@[i] == bytes@[i],
            decreases bytes@.len() - k,
        {
            b.set(k, bytes[k]);
            k += 1;
        }
        self.buffer = b;
        self.pending_len = 0;
        self.read_ready_len = bytes.len();
        self.read_offset = 0;
        self.last_read_len = 0;
        self.last_byte = bytes[bytes.len() - 1];
        assert(self.readable() =~= bytes@);
        assert(self.pending() =~= Seq::<u8>::empty());
        true
    }
}

/// The bytes of a ring of `buf.len()` slots that starts at `head` and holds `count`.
pub open spec fn ring_view(buf: Seq<u8>, head: int, count: int) -> Seq<u8> {
    Seq::new(count as nat, |i: int| buf[(head + i) % (buf.len() as int)])
}

/// The transmit FIFO of the TTY port: a ring of `TTY_XMIT_FIFO_SIZE` bytes.
pub struct TtyXmitFifo {
    pub ready: bool,
    pub bound_to_tty_port: bool,
    pub ordinary_tty_write_path: bool,
    pub distinct_from_printk_console_tx: bool,
    pub runtime_tx_integration_deferred: bool,
    pub runtime_tx_integrated: bool,
    pub buffer: Vec<u8>,
    pub head: usize,
    pub tail: usize,
    pub queued: usize,
    pub enqueue_count: usize,
    pub dequeue_count: usize,
    pub last_enqueued: u8,
    pub last_dequeued: u8,
    pub overflowed: bool,
    pub underflowed: bool,
}

impl TtyXmitFifo {
    pub open spec fn wf(&self) -> bool {
        &&& self.buffer@.len() == TTY_XMIT_FIFO_SIZE
        &&& self.head < TTY_XMIT_FIFO_SIZE
        &&& self.queued <= TTY_XMIT_FIFO_SIZE
        &&& self.tail == (self.head + self.queued) % (TTY_XMIT_FIFO_SIZE as int)
    }

    /// The queued bytes, oldest first.
    pub open spec fn view(&self) -> Seq<u8> {
        ring_view(self.buffer@, self.head as int, self.queued as int)
    }

    fn with_ready(ready: bool) -> (r: Self)
        ensures
            r.wf(),
            r.ready == ready && r.bound_to_tty_port == ready && r.ordinary_tty_write_path == ready,
            r.distinct_from_printk_console_tx && r.runtime_tx_integration_deferred,
            !r.runtime_tx_integrated,
            r@.len() == 0,
            r.enqueue_count == 0 && r.dequeue_count == 0 && !r.overflowed && !r.underflowed,
    {
        let r = TtyXmitFifo {
            ready,
            bound_to_tty_port: ready,
            ordinary_tty_write_path: ready,
            distinct_from_printk_console_tx: true,
            runtime_tx_integration_deferred: true,
            runtime_tx_integrated: false,
            buffer: zeroed(TTY_XMIT_FIFO_SIZE),
            head: 0,
            tail: 0,
            queued: 0,
            enqueue_count: 0,
            dequeue_count: 0,
            last_enqueued: 0,
            last_dequeued: 0,
            overflowed: false,
            underflowed: false,
        };
        assert(r@ =~= Seq::<u8>::empty());
        r
    }

    /// A FIFO that is not ready.
    pub fn empty() -> (r: Self)
        ensures
            r.wf(),
            !r.ready,
            r@.len() == 0,
    {
        Self::with_ready(false)
    }

    /// The FIFO of a TTY port; ready when the port is ready and owns it.
    pub fn from_tty_port(tty_port: TtyPort) -> (r: Self)
        ensures
            r.wf(),
            r.ready == (tty_port.ready && tty_port.owns_xmit_fifo),
            r@.len() == 0,
    {
        Self::with_ready(tty_port.ready && tty_port.owns_xmit_fifo)
    }

    pub fn facts_ready(&self, tty_port: TtyPort) -> (r: bool)
        ensures
            r == (self.ready && tty_port.ready && tty_port.owns_xmit_fifo && self.bound_to_tty_port
                && self.ordinary_tty_write_path && self.distinct_from_printk_console_tx),
    {
        self.ready && tty_port.ready && tty_port.owns_xmit_fifo && self.bound_to_tty_port
            && self.ordinary_tty_write_path && self.distinct_from_printk_console_tx
    }

    /// Appends a byte; refused (and the overflow recorded) when not ready or full.
    pub fn enqueue(&mut self, byte: u8) -> (r: bool)
        requires
            old(self).wf(),
        ensures
            final(self).wf(),
            r == (old(self).ready && old(self).queued < TTY_XMIT_FIFO_SIZE),
            r ==> final(self)@ == old(self)@.push(byte) && final(self).last_enqueued == byte
                && final(self).enqueue_count == sat_inc(old(self).enqueue_count),
            !r ==> final(self)@ == old(self)@ && final(self).overflowed,
            final(self).ready == old(self).ready,
    {
        if !self.ready || self.queued == TTY_XMIT_FIFO_SIZE {
            self.overflowed = true;
            return false;
        }
        let ghost before = self@;
        let ghost old_buf = self.buffer@;
        let t = self.tail;
        self.buffer.set(t, byte);
        self.tail = (self.tail + 1) % TTY_XMIT_FIFO_SIZE;
        self.queued = self.queued + 1;
        self.enqueue_count = if self.enqueue_count == usize::MAX {
            usize::MAX
        } else {
            self.enqueue_count + 1
        };
        self.last_enqueued = byte;
        proof {
            assert forall|i: int| 0 <= i < before.len() implies self@[i] == before[i] by {
                let n = TTY_XMIT_FIFO_SIZE as int;
                let h = self.head as int;
                assert((h + i) % n != t as int) by {
                    vstd::arithmetic::div_mod::lemma_mod_bound(h + i, n);
                    if (h + i) % n == t as int {
                        vstd::arithmetic::div_mod::lemma_fundamental_div_mod(h + i, n);
                        vstd::arithmetic::div_mod::lemma_fundamental_div_mod(h + before.len(), n);
                        assert(false) by (nonlinear_arith)
                            requires
                                0 <= h < n,
                                0 <= i < before.len(),
                                before.len() < n,
                                h + i == n * ((h + i) / n) + (h + i) % n,
                                h + before.len() == n * ((h + before.len()) / n) + t as int,
                                (h + i) % n == t as int,
                                0 <= t < n,
                        ;
                    }
                }
            }
            assert(self@ =~= before.push(byte));
        }
        true
    }

    /// Takes the oldest byte; `None` (and the underflow recorded) when not ready or empty.
    pub fn dequeue_for_tx(&mut self) -> (r: Option<u8>)
        requires
            old(self).wf(),
        ensures
            final(self).wf(),
            !old(self).ready || old(self).queued == 0 ==> r is None && final(self)@ == old(self)@
                && final(self).underflowed,
            old(self).ready && old(self).queued != 0 ==> r == Some(old(self)@[0])
                && final(self)@ == old(self)@.drop_first() && final(self).last_dequeued == old(self)@[0]
                && final(self).dequeue_count == sat_inc(old(self).dequeue_count),
            final(self).ready == old(self).ready,
    {
        if !self.ready || self.queued == 0 {
            self.underflowed = true;
            return None;
        }
        let ghost before = self@;
        let byte = self.buffer[self.head];
        assert(before[0] == byte) by {
            vstd::arithmetic::div_mod::lemma_small_mod(self.head as nat, TTY_XMIT_FIFO_SIZE as nat);
        }
        let ghost h0 = self.head as int;
        self.head = (self.head + 1) % TTY_XMIT_FIFO_SIZE;
        self.queued = self.queued - 1;
        self.dequeue_count = if self.dequeue_count == usize::MAX {
            usize::MAX
        } else {
            self.dequeue_count + 1
        };
        self.last_dequeued = byte;
        proof {
            let n = TTY_XMIT_FIFO_SIZE as int;
            assert forall|i: int| 0 <= i < self.queued implies self@[i] == before[i + 1] by {
                vstd::arithmetic::div_mod::lemma_add_mod_noop(h0 + 1, i, n);
                vstd::arithmetic::div_mod::lemma_mod_twice(h0 + 1, n);
                vstd::arithmetic::div_mod::lemma_add_mod_noop((h0 + 1) % n, i, n);
            }
            assert(self@ =~= before.drop_first());
            vstd::arithmetic::div_mod::lemma_add_mod_noop(h0 + 1, self.queued as int, n);
            vstd::arithmetic::div_mod::lemma_mod_twice(h0 + 1, n);
        }
        Some(byte)
    }

    /// Marks the FIFO as driven by the runtime transmit path.
    pub fn mark_runtime_tx_integrated(&mut self)
        ensures
            !final(self).runtime_tx_integration_deferred,
            final(self).runtime_tx_integrated,
            final(self)@ == old(self)@,
            final(self).ready == old(self).ready,
            final(self).buffer@ == old(self).buffer@ && final(self).head == old(self).head
                && final(self).tail == old(self).tail && final(self).queued == old(self).queued,
    {
        self.runtime_tx_integration_deferred = false;
        self.runtime_tx_integrated = true;
    }

    /// A round trip of one byte through an empty FIFO: enqueued and dequeued again, it
    /// comes back unchanged.
    pub fn probe_round_trip(&mut self, byte: u8) -> (r: bool)
        requires
            old(self).wf(),
        ensures
            final(self).wf(),
            old(self).ready && old(self)@.len() == 0 ==> r,
            r ==> final(self)@ == old(self)@,
    {
        assert(old(self)@.len() == old(self).queued);
        if !self.enqueue(byte) {
            return false;
        }
        assert(self@.len() == self.queued);
        if self.queued != 1 {
            return false;
        }
        match self.dequeue_for_tx() {
            Some(b) => b == byte,
            None => false,
        }
    }
}

/// Writing `b` at the slot after the last of a ring appends it.
pub proof fn lemma_ring_append(old_buf: Seq<u8>, head: int, count: int, b: u8)
    requires
        old_buf.len() > 0,
        0 <= head < old_buf.len(),
        0 <= count < old_buf.len(),
    ensures
        ring_view(old_buf.update((head + count) % (old_buf.len() as int), b), head, count + 1)
            == ring_view(old_buf, head, count).push(b),
{
    let n = old_buf.len() as int;
    let t = (head + count) % n;
    let new_buf = old_buf.update(t, b);
    let before = ring_view(old_buf, head, count);
    let after = ring_view(new_buf, head, count + 1);
    vstd::arithmetic::div_mod::lemma_mod_bound(head + count, n);
    assert forall|i: int| 0 <= i < count implies after[i] == before[i] by {
        vstd::arithmetic::div_mod::lemma_mod_bound(head + i, n);
        if (head + i) % n == t {
            vstd::arithmetic::div_mod::lemma_fundamental_div_mod(head + i, n);
            vstd::arithmetic::div_mod::lemma_fundamental_div_mod(head + count, n);
            assert(false) by (nonlinear_arith)
                requires
                    0 <= head < n,
                    0 <= i < count,
                    count < n,
                    head + i == n * ((head + i) / n) + (head + i) % n,
                    head + count == n * ((head + count) / n) + t,
                    (head + i) % n == t,
            ;
        }
    }
    assert(after =~= before.push(b));
}

/// Advancing the head of a non-empty ring drops its first byte.
pub proof fn lemma_ring_advance(buf: Seq<u8>, head: int, count: int)
    requires
        buf.len() > 0,
        0 <= head < buf.len(),
        0 < count <= buf.len(),
    ensures
        ring_view(buf, (head + 1) % (buf.len() as int), count - 1) == ring_view(buf, head, count).drop_first(),
        ring_view(buf, head, count)[0] == buf[head],
{
    let n = buf.len() as int;
    vstd::arithmetic::div_mod::lemma_small_mod(head as nat, n as nat);
    let a = ring_view(buf, (head + 1) % n, count - 1);
    let c = ring_view(buf, head, count);
    assert forall|i: int| 0 <= i < count - 1 implies #[trigger] a[i] == c[i + 1] by {
        vstd::arithmetic::div_mod::lemma_add_mod_noop(head + 1, i, n);
        vstd::arithmetic::div_mod::lemma_mod_twice(head + 1, n);
        vstd::arithmetic::div_mod::lemma_add_mod_noop((head + 1) % n, i, n);
    }
    assert(ring_view(buf, (head + 1) % n, count - 1) =~= ring_view(buf, head, count).drop_first());
}

/// `bytes` as written to a terminal: a carriage return before every line feed.
pub open spec fn crlf_expand(bytes: Seq<u8>) -> Seq<u8>
    decreases bytes.len(),
{
    if bytes.len() == 0 {
        Seq::empty()
    } else {
        let head = if bytes[0] == LINE_FEED {
            seq![CARRIAGE_RETURN, LINE_FEED]
        } else {
            seq![bytes[0]]
        };
        head + crlf_expand(bytes.drop_first())
    }
}

/// Expanding line feeds adds exactly one byte per line feed, keeps every other byte, and
/// puts a carriage return right before each line feed.
pub proof fn lemma_crlf_expand_shape(bytes: Seq<u8>)
    ensures
        crlf_expand(bytes).len() == bytes.len() + line_feed_count(bytes),
        bytes.len() > 0 && bytes[0] != LINE_FEED ==> crlf_expand(bytes)[0] == bytes[0],
        bytes.len() > 0 && bytes[0] == LINE_FEED ==> crlf_expand(bytes)[0] == CARRIAGE_RETURN
            && crlf_expand(bytes)[1] == LINE_FEED,
        !bytes.contains(LINE_FEED) ==> crlf_expand(bytes) == bytes,
    decreases bytes.len(),
{
    if bytes.len() > 0 {
        lemma_crlf_expand_shape(bytes.drop_first());
        if !bytes.contains(LINE_FEED) {
            assert(!bytes.drop_first().contains(LINE_FEED)) by {
                if bytes.drop_first().contains(LINE_FEED) {
                    let k = choose|k: int| 0 <= k < bytes.drop_first().len() && bytes.drop_first()[k] == LINE_FEED;
                    assert(bytes[k + 1] == LINE_FEED);
                }
            }
            assert(bytes[0] != LINE_FEED) by {
                if bytes[0] == LINE_FEED {
                    assert(bytes.contains(LINE_FEED));
                }
            }
            assert(seq![bytes[0]] + bytes.drop_first() =~= bytes);
        }
    }
}

/// The number of line feeds in `bytes`.
pub open spec fn line_feed_count(bytes: Seq<u8>) -> nat
    decreases bytes.len(),
{
    if bytes.len() == 0 {
        0
    } else {
        (if bytes[0] == LINE_FEED { 1nat } else { 0nat }) + line_feed_count(bytes.drop_first())
    }
}

/// The console write backend of the UART: its register addresses and, once interrupt
/// driven, a transmit queue of `UART_TX_QUEUE_SIZE` bytes drained by the interrupt.
pub struct Serial8250WriteBackend {
    pub ready: bool,
    pub device_ref: usize,
    pub membase: usize,
    pub tx_addr: usize,
    pub ier_addr: usize,
    pub iir_addr: usize,
    pub mcr_addr: usize,
    pub lsr_addr: usize,
    pub tx_offset: usize,
    pub ier_offset: usize,
    pub iir_offset: usize,
    pub mcr_offset: usize,
    pub lsr_offset: usize,
    pub reg_shift: u32,
    pub reg_io_width: u32,
    pub lsr_thre_mask: usize,
    pub uses_uart_membase: bool,
    pub uses_lsr_thr_polling: bool,
    pub uses_sbi: bool,
    pub interrupt_driven: bool,
    pub interrupt_output_deferred: bool,
    pub tx_load_size: usize,
    pub tx_queue: Vec<u8>,
    pub tx_head: usize,
    pub tx_tail: usize,
    pub tx_queued: usize,
    pub tx_queue_overflow: bool,
    pub tx_irq_kicks: usize,
    pub tx_irq_drains: usize,
    pub tx_irq_budget_hits: usize,
    pub tx_irq_empty_stop: usize,
    pub tx_irq_guarded_by_local_irq_save: bool,
    pub write_calls: usize,
    pub bytes_accepted: usize,
    pub tx_bytes_submitted: usize,
    pub crlf_insertions: usize,
    pub last_tx_byte: u8,
    pub mmio_writes_performed: bool,
    pub timed_out: bool,
}

impl Serial8250WriteBackend {
    /// The console writes the backend served.
    pub fn serial8250_write_call_count(&self) -> (r: usize)
        ensures
            r == self.write_calls,
    {
        self.write_calls
    }

    pub open spec fn wf(&self) -> bool {
        &&& self.tx_queue@.len() == UART_TX_QUEUE_SIZE
        &&& self.tx_head < UART_TX_QUEUE_SIZE
        &&& self.tx_queued <= UART_TX_QUEUE_SIZE
        &&& self.tx_tail == (self.tx_head + self.tx_queued) % (UART_TX_QUEUE_SIZE as int)
    }

    /// The queued bytes, oldest first.
    pub open spec fn queue(&self) -> Seq<u8> {
        ring_view(self.tx_queue@, self.tx_head as int, self.tx_queued as int)
    }

    /// A backend that is not ready.
    pub fn empty() -> (r: Self)
        ensures
            r.wf(),
            !r.ready && !r.interrupt_driven,
            r.queue().len() == 0,
    {
        let r = Serial8250WriteBackend {
            ready: false,
            device_ref: usize::MAX,
            membase: 0,
            tx_addr: 0,
            ier_addr: 0,
            iir_addr: 0,
            mcr_addr: 0,
            lsr_addr: 0,
            tx_offset: 0,
            ier_offset: 0,
            iir_offset: 0,
            mcr_offset: 0,
            lsr_offset: 0,
            reg_shift: 0,
            reg_io_width: 0,
            lsr_thre_mask: 0,
            uses_uart_membase: false,
            uses_lsr_thr_polling: false,
            uses_sbi: false,
            interrupt_driven: false,
            interrupt_output_deferred: false,
            tx_load_size: 0,
            tx_queue: zeroed(UART_TX_QUEUE_SIZE),
            tx_head: 0,
            tx_tail: 0,
            tx_queued: 0,
            tx_queue_overflow: false,
            tx_irq_kicks: 0,
            tx_irq_drains: 0,
            tx_irq_budget_hits: 0,
            tx_irq_empty_stop: 0,
            tx_irq_guarded_by_local_irq_save: false,
            write_calls: 0,
            bytes_accepted: 0,
            tx_bytes_submitted: 0,
            crlf_insertions: 0,
            last_tx_byte: 0,
            mmio_writes_performed: false,
            timed_out: false,
        };
        assert(r.queue() =~= Seq::<u8>::empty());
        r
    }

    /// The port facts under which a backend can be built.
    pub open spec fn port_usable(port: Uart8250Port) -> bool {
        &&& port.registered
        &&& port.ioremapped
        &&& port.vm_ioremap
        &&& port.io_page_protection
        &&& port.membase != 0
        &&& (port.reg_io_width == 1 || port.reg_io_width == 2 || port.reg_io_width == 4)
        &&& port.reg_shift <= 8
    }

    /// The polled backend of a mapped port: every register address is the port's base
    /// plus the register number shifted by the port's register shift. `None` when the
    /// port is not usable or an address does not fit.
    pub fn from_port(port: Uart8250Port) -> (r: Option<Self>)
        ensures
            !Self::port_usable(port) ==> r is None,
            Self::port_usable(port) ==> (r is Some <==> port.membase + (UART_LSR << port.reg_shift)
                <= usize::MAX),
            r matches Some(b) ==> {
                &&& b.wf()
                &&& b.ready && b.device_ref == port.device_ref && b.membase == port.membase
                &&& b.tx_offset == (UART_TX << port.reg_shift) && b.ier_offset == (UART_IER
                    << port.reg_shift) && b.iir_offset == (UART_IIR << port.reg_shift)
                    && b.mcr_offset == (UART_MCR << port.reg_shift) && b.lsr_offset == (UART_LSR
                    << port.reg_shift)
                &&& b.tx_addr == port.membase + b.tx_offset && b.ier_addr == port.membase
                    + b.ier_offset && b.iir_addr == port.membase + b.iir_offset && b.mcr_addr
                    == port.membase + b.mcr_offset && b.lsr_addr == port.membase + b.lsr_offset
                &&& b.reg_shift == port.reg_shift && b.reg_io_width == port.reg_io_width
                &&& b.lsr_thre_mask == UART_LSR_THRE
                &&& b.uses_uart_membase == (b.tx_addr == port.membase && b.lsr_addr
                    > port.membase)
                &&& b.uses_lsr_thr_polling && !b.uses_sbi && !b.interrupt_driven
                    && b.interrupt_output_deferred
                &&& b.tx_load_size == UART_TX_LOAD_SIZE
                &&& b.queue().len() == 0
            },
    {
        if !port.registered || !port.ioremapped || !port.vm_ioremap || !port.io_page_protection
            || port.membase == 0 || !uart_reg_io_width_supported(port.reg_io_width)
            || port.reg_shift > 8 {
            return None;
        }
        let shift = port.reg_shift;
        assert(UART_TX << shift <= UART_LSR << shift) by (bit_vector)
            requires
                shift <= 8,
        ;
        assert(UART_IER << shift <= UART_LSR << shift) by (bit_vector)
            requires
                shift <= 8,
        ;
        assert(UART_IIR << shift <= UART_LSR << shift) by (bit_vector)
            requires
                shift <= 8,
        ;
        assert(UART_MCR << shift <= UART_LSR << shift) by (bit_vector)
            requires
                shift <= 8,
        ;
        assert(0usize << shift == 0usize) by (bit_vector);
        assert(UART_LSR << shift > 0usize) by (bit_vector)
            requires
                shift <= 8,
        ;
        let tx_offset = UART_TX << shift;
        let ier_offset = UART_IER << shift;
        let iir_offset = UART_IIR << shift;
        let mcr_offset = UART_MCR << shift;
        let lsr_offset = UART_LSR << shift;
        let lsr_addr = match port.membase.checked_add(lsr_offset) {
            Some(a) => a,
            None => {
                return None;
            },
        };
        let tx_addr = port.membase + tx_offset;
        let ier_addr = port.membase + ier_offset;
        let iir_addr = port.membase + iir_offset;
        let mcr_addr = port.membase + mcr_offset;
        let mut b = Self::empty();
        b.ready = true;
        b.device_ref = port.device_ref;
        b.membase = port.membase;
        b.tx_addr = tx_addr;
        b.ier_addr = ier_addr;
        b.iir_addr = iir_addr;
        b.mcr_addr = mcr_addr;
        b.lsr_addr = lsr_addr;
        b.tx_offset = tx_offset;
        b.ier_offset = ier_offset;
        b.iir_offset = iir_offset;
        b.mcr_offset = mcr_offset;
        b.lsr_offset = lsr_offset;
        b.reg_shift = shift;
        b.reg_io_width = port.reg_io_width;
        b.lsr_thre_mask = UART_LSR_THRE;
        b.uses_uart_membase = tx_addr == port.membase && lsr_addr > port.membase;
        b.uses_lsr_thr_polling = true;
        b.uses_sbi = false;
        b.interrupt_driven = false;
        b.interrupt_output_deferred = true;
        b.tx_load_size = UART_TX_LOAD_SIZE;
        Some(b)
    }

    /// Switches the console from polling to interrupt-driven output, with an empty
    /// transmit queue; only once, and only for a memory-mapped UART.
    pub fn enable_interrupt_driven(&mut self) -> (r: bool)
        requires
            old(self).wf(),
        ensures
            final(self).wf(),
            r == (old(self).ready && old(self).uses_uart_membase && !old(self).uses_sbi
                && !old(self).interrupt_driven && old(self).interrupt_output_deferred),
            r ==> !final(self).uses_lsr_thr_polling && final(self).interrupt_driven
                && !final(self).interrupt_output_deferred && final(self).queue().len() == 0
                && !final(self).tx_queue_overflow && final(self).tx_irq_kicks == 0
                && final(self).tx_irq_drains == 0 && final(self).tx_irq_budget_hits == 0
                && final(self).tx_irq_empty_stop == 0
                && !final(self).tx_irq_guarded_by_local_irq_save,
            !r ==> final(self).interrupt_driven == old(self).interrupt_driven && final(self).queue()
                == old(self).queue(),
            final(self).ready == old(self).ready,
    {
        if !self.ready || !self.uses_uart_membase || self.uses_sbi || self.interrupt_driven
            || !self.interrupt_output_deferred {
            return false;
        }
        self.uses_lsr_thr_polling = false;
        self.interrupt_driven = true;
        self.interrupt_output_deferred = false;
        self.tx_head = 0;
        self.tx_tail = 0;
        self.tx_queued = 0;
        self.tx_queue_overflow = false;
        self.tx_irq_kicks = 0;
        self.tx_irq_drains = 0;
        self.tx_irq_budget_hits = 0;
        self.tx_irq_empty_stop = 0;
        self.tx_irq_guarded_by_local_irq_save = false;
        assert(self.queue() =~= Seq::<u8>::empty());
        true
    }

    /// Appends a byte to the transmit queue; refused (and the overflow recorded) when full.
    pub fn enqueue_tx_byte(&mut self, byte: u8) -> (r: bool)
        requires
            old(self).wf(),
        ensures
            final(self).wf(),
            r == (old(self).tx_queued < UART_TX_QUEUE_SIZE),
            r ==> final(self).queue() == old(self).queue().push(byte) && final(self).tx_queue_overflow
                == old(self).tx_queue_overflow,
            !r ==> final(self).queue() == old(self).queue() && final(self).tx_queue_overflow,
            final(self).ready == old(self).ready && final(self).interrupt_driven == old(self).interrupt_driven && final(self).crlf_insertions == old(self).crlf_insertions,
            final(self).tx_irq_guarded_by_local_irq_save == old(self).tx_irq_guarded_by_local_irq_save,
    {
        if self.tx_queued == UART_TX_QUEUE_SIZE {
            self.tx_queue_overflow = true;
            return false;
        }
        proof {
            lemma_ring_append(self.tx_queue@, self.tx_head as int, self.tx_queued as int, byte);
        }
        let t = self.tx_tail;
        self.tx_queue.set(t, byte);
        self.tx_tail = (self.tx_tail + 1) % UART_TX_QUEUE_SIZE;
        self.tx_queued = self.tx_queued + 1;
        proof {
            let n = UART_TX_QUEUE_SIZE as int;
            vstd::arithmetic::div_mod::lemma_add_mod_noop(
                old(self).tx_head + old(self).tx_queued,
                1,
                n,
            );
            vstd::arithmetic::div_mod::lemma_mod_twice(old(self).tx_head + old(self).tx_queued, n);
            vstd::arithmetic::div_mod::lemma_small_mod(1, n as nat);
        }
        true
    }

    /// Takes the oldest queued byte.
    pub fn pop_tx_byte(&mut self) -> (r: Option<u8>)
        requires
            old(self).wf(),
        ensures
            final(self).wf(),
            old(self).tx_queued == 0 ==> r is None && final(self).queue() == old(self).queue(),
            old(self).tx_queued != 0 ==> r == Some(old(self).queue()[0]) && final(self).queue()
                == old(self).queue().drop_first(),
            final(self).ready == old(self).ready && final(self).interrupt_driven == old(self).interrupt_driven,
    {
        if self.tx_queued == 0 {
            return None;
        }
        proof {
            lemma_ring_advance(self.tx_queue@, self.tx_head as int, self.tx_queued as int);
        }
        let byte = self.tx_queue[self.tx_head];
        self.tx_head = (self.tx_head + 1) % UART_TX_QUEUE_SIZE;
        self.tx_queued = self.tx_queued - 1;
        proof {
            let n = UART_TX_QUEUE_SIZE as int;
            let h0 = old(self).tx_head as int;
            vstd::arithmetic::div_mod::lemma_add_mod_noop(h0 + 1, self.tx_queued as int, n);
            vstd::arithmetic::div_mod::lemma_mod_twice(h0 + 1, n);
            vstd::arithmetic::div_mod::lemma_small_mod(self.tx_queued as nat, n as nat);
        }
        Some(byte)
    }

    /// Queues console bytes for interrupt-driven output, a carriage return before each
    /// line feed, under the guard of saved local interrupts. Returns whether every byte
    /// was queued; the caller then kicks the transmit interrupt if bytes are queued.
    pub fn enqueue_console_bytes(&mut self, bytes: &[u8]) -> (r: bool)
        requires
            old(self).wf(),
        ensures
            final(self).wf(),
            final(self).tx_irq_guarded_by_local_irq_save,
            old(self).tx_queued + crlf_expand(bytes@).len() <= UART_TX_QUEUE_SIZE ==> r,
            r ==> final(self).queue() == old(self).queue() + crlf_expand(bytes@)
                && final(self).crlf_insertions == sat_add(
                old(self).crlf_insertions,
                line_feed_count(bytes@) as int,
            ),
            !r ==> final(self).tx_queue_overflow,
            final(self).ready == old(self).ready && final(self).interrupt_driven == old(self).interrupt_driven,
    {
        self.tx_irq_guarded_by_local_irq_save = true;
        let mut ok = true;
        let mut i: usize = 0;
        proof {
            assert(bytes@.take(0) =~= Seq::<u8>::empty());
            assert(old(self).queue() + crlf_expand(Seq::<u8>::empty()) =~= old(self).queue());
        }
        while i < bytes.len()
            invariant
                self.wf(),
                i <= bytes@.len(),
                self.tx_irq_guarded_by_local_irq_save,
                self.ready == old(self).ready,
                self.interrupt_driven == old(self).interrupt_driven,
                ok ==> self.queue() == old(self).queue() + crlf_expand(bytes@.take(i as int)),
                ok ==> self.crlf_insertions == sat_add(
                    old(self).crlf_insertions,
                    line_feed_count(bytes@.take(i as int)) as int,
                ),
                !ok ==> self.tx_queue_overflow,
                old(self).tx_queued + crlf_expand(bytes@).len() <= UART_TX_QUEUE_SIZE ==> ok,
            decreases bytes@.len() - i,
        {
            let byte = bytes[i];
            proof {
                assert(bytes@.take(i + 1) =~= bytes@.take(i as int) + seq![byte]);
                lemma_crlf_concat(bytes@.take(i as int), seq![byte]);
                lemma_crlf_single(byte);
                assert(bytes@ =~= bytes@.take(i + 1) + bytes@.skip(i + 1));
                lemma_crlf_concat(bytes@.take(i + 1), bytes@.skip(i + 1));
            }
            if byte == LINE_FEED {
                let pushed = self.enqueue_tx_byte(CARRIAGE_RETURN);
                ok = ok && pushed;
                if ok {
                    self.crlf_insertions = if self.crlf_insertions == usize::MAX {
                        usize::MAX
                    } else {
                        self.crlf_insertions + 1
                    };
                }
            }
            let pushed = self.enqueue_tx_byte(byte);
            ok = ok && pushed;
            proof {
                if ok {
                    assert(self.queue() =~= old(self).queue() + crlf_expand(bytes@.take(i + 1)));
                }
            }
            i += 1;
        }
        proof {
            assert(bytes@.take(bytes@.len() as int) =~= bytes@);
        }
        ok
    }
}

/// `a + b`, or `usize::MAX` where that does not fit.
pub open spec fn sat_add(a: usize, b: int) -> usize {
    if a + b > usize::MAX {
        usize::MAX
    } else {
        (a + b) as usize
    }
}

/// Expanding line feeds distributes over concatenation.
pub proof fn lemma_crlf_concat(s: Seq<u8>, t: Seq<u8>)
    ensures
        crlf_expand(s + t) == crlf_expand(s) + crlf_expand(t),
        line_feed_count(s + t) == line_feed_count(s) + line_feed_count(t),
    decreases s.len(),
{
    if s.len() == 0 {
        assert(s + t =~= t);
        assert(crlf_expand(s) + crlf_expand(t) =~= crlf_expand(t));
    } else {
        lemma_crlf_concat(s.drop_first(), t);
        assert((s + t).drop_first() =~= s.drop_first() + t);
        assert((s + t)[0] == s[0]);
        let head = if s[0] == LINE_FEED {
            seq![CARRIAGE_RETURN, LINE_FEED]
        } else {
            seq![s[0]]
        };
        assert(crlf_expand(s + t) == head + crlf_expand(s.drop_first() + t));
        assert(crlf_expand(s) == head + crlf_expand(s.drop_first()));
        assert(head + (crlf_expand(s.drop_first()) + crlf_expand(t)) =~= (head + crlf_expand(
            s.drop_first(),
        )) + crlf_expand(t));
    }
}

/// Expanding one byte.
pub proof fn lemma_crlf_single(b: u8)
    ensures
        crlf_expand(seq![b]) == (if b == LINE_FEED {
            seq![CARRIAGE_RETURN, LINE_FEED]
        } else {
            seq![b]
        }),
        line_feed_count(seq![b]) == (if b == LINE_FEED { 1nat } else { 0nat }),
{
    assert(seq![b].drop_first() =~= Seq::<u8>::empty());
    let head = if b == LINE_FEED {
        seq![CARRIAGE_RETURN, LINE_FEED]
    } else {
        seq![b]
    };
    assert(crlf_expand(seq![b]) == head + crlf_expand(Seq::<u8>::empty()));
    assert(head + Seq::<u8>::empty() =~= head);
    assert(line_feed_count(seq![b]) == (if b == LINE_FEED { 1nat } else { 0nat }) + line_feed_count(
        Seq::<u8>::empty(),
    ));
}

/// The capacity of the transmit FIFO.
pub fn tty_xmit_fifo_capacity() -> (r: usize)
    ensures
        r == TTY_XMIT_FIFO_SIZE,
{
    TTY_XMIT_FIFO_SIZE
}

/// The modem-control loopback bit.
pub const UART_MCR_LOOP: usize = 16;

/// The counters of the UART interrupt path, and the register values it read last.
#[derive(Clone, Copy, PartialEq, Eq, Structural, Debug)]
pub struct UartIrqCounters {
    pub handler_calls: usize,
    pub thre_interrupt_requests: usize,
    pub thre_interrupt_handled: usize,
    pub thri_disabled_by_handler: usize,
    pub rx_interrupt_requests: usize,
    pub rx_interrupt_handled: usize,
    pub last_iir: usize,
    pub last_lsr: usize,
}

/// What the transmit side of the interrupt handler does after the registers are read.
#[derive(Clone, Copy, PartialEq, Eq, Structural, Debug)]
pub enum UartTxStep {
    /// Nothing: no transmit-holding-register interrupt, the register is not empty, or the
    /// port did not ask for one.
    Nothing,
    /// Drain queued bytes into the transmit register (interrupt-driven output).
    DrainQueue,
    /// Clear the transmit interrupt enable bit in IER.
    DisableThri,
}

/// The plan of one interrupt: whether received characters are taken in, and the transmit step.
#[derive(Clone, Copy, PartialEq, Eq, Structural, Debug)]
pub struct UartIrqPlan {
    pub handle_rx: bool,
    pub tx: UartTxStep,
}

/// The plan for an interrupt with identification `iir` and line status `lsr`.
pub open spec fn uart_irq_plan_spec(
    port: &Uart8250Port,
    runtime_online: bool,
    interrupt_driven: bool,
    iir: usize,
    lsr: usize,
) -> UartIrqPlan {
    let id = iir & UART_IIR_ID;
    if !port.registered || iir & UART_IIR_NO_INT != 0 {
        UartIrqPlan { handle_rx: false, tx: UartTxStep::Nothing }
    } else {
        UartIrqPlan {
            handle_rx: (id == UART_IIR_RDI || id == UART_IIR_RLSI || id == UART_IIR_RX_TIMEOUT)
                && runtime_online,
            tx: if id != UART_IIR_THRI || lsr & UART_LSR_THRE == 0 || !port.thre_interrupt_enabled {
                UartTxStep::Nothing
            } else if interrupt_driven {
                UartTxStep::DrainQueue
            } else {
                UartTxStep::DisableThri
            },
        }
    }
}

impl UartIrqCounters {
    pub fn new() -> (r: Self)
        ensures
            r == (UartIrqCounters {
                handler_calls: 0,
                thre_interrupt_requests: 0,
                thre_interrupt_handled: 0,
                thri_disabled_by_handler: 0,
                rx_interrupt_requests: 0,
                rx_interrupt_handled: 0,
                last_iir: UART_IIR_NO_INT,
                last_lsr: 0,
            }),
    {
        UartIrqCounters {
            handler_calls: 0,
            thre_interrupt_requests: 0,
            thre_interrupt_handled: 0,
            thri_disabled_by_handler: 0,
            rx_interrupt_requests: 0,
            rx_interrupt_handled: 0,
            last_iir: UART_IIR_NO_INT,
            last_lsr: 0,
        }
    }

    pub fn uart8250_irq_handler_call_count(&self) -> (r: usize)
        ensures
            r == self.handler_calls,
    {
        self.handler_calls
    }

    pub fn uart8250_thre_interrupt_request_count(&self) -> (r: usize)
        ensures
            r == self.thre_interrupt_requests,
    {
        self.thre_interrupt_requests
    }

    pub fn uart8250_thre_interrupt_handled_count(&self) -> (r: usize)
        ensures
            r == self.thre_interrupt_handled,
    {
        self.thre_interrupt_handled
    }

    pub fn uart8250_thri_disabled_by_handler_count(&self) -> (r: usize)
        ensures
            r == self.thri_disabled_by_handler,
    {
        self.thri_disabled_by_handler
    }

    pub fn uart8250_rx_interrupt_request_count(&self) -> (r: usize)
        ensures
            r == self.rx_interrupt_requests,
    {
        self.rx_interrupt_requests
    }

    pub fn uart8250_rx_interrupt_handled_count(&self) -> (r: usize)
        ensures
            r == self.rx_interrupt_handled,
    {
        self.rx_interrupt_handled
    }

    pub fn uart8250_last_iir(&self) -> (r: usize)
        ensures
            r == self.last_iir,
    {
        self.last_iir
    }

    pub fn uart8250_last_lsr(&self) -> (r: usize)
        ensures
            r == self.last_lsr,
    {
        self.last_lsr
    }

    /// Counts a request for a transmit interrupt that the caller made.
    pub fn note_thre_interrupt_requested(&mut self)
        ensures
            *final(self) == (UartIrqCounters {
                thre_interrupt_requests: old(self).thre_interrupt_requests.wrapping_add(1),
                ..*old(self)
            }),
    {
        self.thre_interrupt_requests = self.thre_interrupt_requests.wrapping_add(1);
    }

    /// Counts a loopback receive interrupt that the caller raised.
    pub fn note_rx_interrupt_requested(&mut self)
        ensures
            *final(self) == (UartIrqCounters {
                rx_interrupt_requests: old(self).rx_interrupt_requests.wrapping_add(1),
                ..*old(self)
            }),
    {
        self.rx_interrupt_requests = self.rx_interrupt_requests.wrapping_add(1);
    }
}

/// On a registered port with an interrupt pending (bit 0 of IIR clear), received characters
/// are taken in exactly when the port is online and the interrupt identification (IIR bits
/// 1 to 3) is received data available (0x04), receiver line status (0x06) or character
/// timeout (0x0c). The transmit path runs only for a transmitter-holding-register interrupt
/// (0x02) with LSR bit 5 set on a port that asked for it, draining when output is
/// interrupt-driven and turning the interrupt off otherwise. An unregistered port, or no
/// pending interrupt, gets nothing done.
pub proof fn lemma_uart_irq_plan(
    port: &Uart8250Port,
    runtime_online: bool,
    interrupt_driven: bool,
    iir: usize,
    lsr: usize,
)
    ensures
        ({
            let plan = uart_irq_plan_spec(port, runtime_online, interrupt_driven, iir, lsr);
            let id = iir & 0x0e;
            &&& !port.registered || iir & 1 != 0 ==> !plan.handle_rx && plan.tx == UartTxStep::Nothing
            &&& port.registered && iir & 1 == 0 ==> {
                &&& plan.handle_rx == (runtime_online && (id == 0x04 || id == 0x06 || id == 0x0c))
                &&& plan.tx == (if id == 0x02 && lsr & 0x20 != 0 && port.thre_interrupt_enabled {
                    if interrupt_driven {
                        UartTxStep::DrainQueue
                    } else {
                        UartTxStep::DisableThri
                    }
                } else {
                    UartTxStep::Nothing
                })
            }
        }),
{
}

/// The first decision of the UART interrupt handler. Every call is counted; for a registered
/// port the caller has read IIR and LSR, which are recorded, and the plan says whether
/// received characters are taken in and which transmit step follows.
pub fn uart_irq_step(
    counters: &mut UartIrqCounters,
    port: &Uart8250Port,
    runtime_online: bool,
    interrupt_driven: bool,
    iir: usize,
    lsr: usize,
) -> (r: UartIrqPlan)
    ensures
        r == uart_irq_plan_spec(port, runtime_online, interrupt_driven, iir, lsr),
        final(counters).handler_calls == old(counters).handler_calls.wrapping_add(1),
        port.registered ==> *final(counters) == (UartIrqCounters {
            handler_calls: old(counters).handler_calls.wrapping_add(1),
            last_iir: iir,
            last_lsr: lsr,
            ..*old(counters)
        }),
        !port.registered ==> *final(counters) == (UartIrqCounters {
            handler_calls: old(counters).handler_calls.wrapping_add(1),
            ..*old(counters)
        }),
{
    counters.handler_calls = counters.handler_calls.wrapping_add(1);
    if !port.registered {
        return UartIrqPlan { handle_rx: false, tx: UartTxStep::Nothing };
    }
    counters.last_iir = iir;
    counters.last_lsr = lsr;
    if iir & UART_IIR_NO_INT != 0 {
        return UartIrqPlan { handle_rx: false, tx: UartTxStep::Nothing };
    }
    let interrupt_id = iir & UART_IIR_ID;
    let handle_rx = is_uart_rx_interrupt(interrupt_id) && runtime_online;
    let tx = if interrupt_id != UART_IIR_THRI || lsr & UART_LSR_THRE == 0
        || !port.thre_interrupt_enabled {
        UartTxStep::Nothing
    } else if interrupt_driven {
        UartTxStep::DrainQueue
    } else {
        UartTxStep::DisableThri
    };
    UartIrqPlan { handle_rx, tx }
}

/// Counts the received characters taken in, where the caller's receive pass handled any.
pub fn uart_irq_rx_done(counters: &mut UartIrqCounters, handled: bool)
    ensures
        handled ==> *final(counters) == (UartIrqCounters {
            rx_interrupt_handled: old(counters).rx_interrupt_handled.wrapping_add(1),
            ..*old(counters)
        }),
        !handled ==> *final(counters) == *old(counters),
{
    if handled {
        counters.rx_interrupt_handled = counters.rx_interrupt_handled.wrapping_add(1);
    }
}

/// After the caller drained the transmit queue (`drained` when the drain went through,
/// with `tx_queued` bytes left): the transmit interrupt stays enabled while bytes remain,
/// and is counted as handled.
pub fn uart_irq_tx_drained(
    port: &mut Uart8250Port,
    counters: &mut UartIrqCounters,
    drained: bool,
    tx_queued: usize,
)
    ensures
        drained ==> *final(port) == (Uart8250Port {
            thre_interrupt_enabled: tx_queued != 0,
            thre_interrupt_handled: tx_queued == 0,
            ..*old(port)
        }) && *final(counters) == (UartIrqCounters {
            thre_interrupt_handled: old(counters).thre_interrupt_handled.wrapping_add(1),
            ..*old(counters)
        }),
        !drained ==> *final(port) == *old(port) && *final(counters) == *old(counters),
{
    if !drained {
        return;
    }
    port.thre_interrupt_enabled = tx_queued != 0;
    port.thre_interrupt_handled = tx_queued == 0;
    counters.thre_interrupt_handled = counters.thre_interrupt_handled.wrapping_add(1);
}

/// The IER value that turns the transmit interrupt off.
pub fn uart_ier_without_thri(ier: usize) -> (r: usize)
    ensures
        r == ier & !UART_IER_THRI,
{
    ier & !UART_IER_THRI
}

/// The MCR value that leaves loopback mode with the interrupt output on.
pub fn uart_mcr_leave_loopback(mcr: usize) -> (r: usize)
    ensures
        r == (mcr | UART_MCR_OUT2) & !UART_MCR_LOOP,
{
    (mcr | UART_MCR_OUT2) & !UART_MCR_LOOP
}

/// After the caller wrote the IER value without the transmit interrupt (`ier_written` when
/// the write went through): the interrupt is off and counted as handled and as disabled by
/// the handler. Returns whether the port was in loopback, which the caller then leaves (MCR
/// write, and a read of any byte the loopback left); loopback is then recorded as off.
pub fn uart_irq_thri_disabled(
    port: &mut Uart8250Port,
    counters: &mut UartIrqCounters,
    ier_written: bool,
) -> (r: bool)
    ensures
        ier_written ==> r == old(port).thre_interrupt_loopback && *final(port) == (Uart8250Port {
            thre_interrupt_enabled: false,
            thre_interrupt_handled: true,
            thre_interrupt_loopback: false,
            ..*old(port)
        }) && *final(counters) == (UartIrqCounters {
            thre_interrupt_handled: old(counters).thre_interrupt_handled.wrapping_add(1),
            thri_disabled_by_handler: old(counters).thri_disabled_by_handler.wrapping_add(1),
            ..*old(counters)
        }),
        !ier_written ==> !r && *final(port) == *old(port) && *final(counters) == *old(counters),
{
    if !ier_written {
        return false;
    }
    let loopback = port.thre_interrupt_loopback;
    port.thre_interrupt_loopback = false;
    port.thre_interrupt_enabled = false;
    port.thre_interrupt_handled = true;
    counters.thre_interrupt_handled = counters.thre_interrupt_handled.wrapping_add(1);
    counters.thri_disabled_by_handler = counters.thri_disabled_by_handler.wrapping_add(1);
    loopback
}

} // verus!
