use vstd::prelude::*;
use crate::state::{Lifecycle, State};

verus! {

/// The addresses that the linker script defines for the kernel image.
#[derive(Clone, Copy, PartialEq, Eq, Structural, Debug)]
pub struct LinkerSymbols {
    pub text_start: usize,
    pub kernel_start: usize,
    pub kernel_end: usize,
    pub global_pointer: usize,
    pub head_text_start: usize,
    pub head_text_end: usize,
    pub bss_start: usize,
    pub bss_end: usize,
    pub init_stack_start: usize,
    pub init_stack_end: usize,
}

/// The kernel image layout as the linker script laid it out.
pub struct Lds {
    pub lifecycle: Lifecycle,
    pub symbols: LinkerSymbols,
}

impl Lds {
    pub fn new(symbols: LinkerSymbols) -> (s: Self)
        ensures
            s.lifecycle@ == State::Online,
            s.symbols == symbols,
    {
        Self { lifecycle: Lifecycle::new(State::Online), symbols }
    }

    pub fn state(&self) -> (r: State)
        ensures
            r == self.lifecycle@,
    {
        self.lifecycle.state()
    }

    pub fn kernel_start(&self) -> (r: usize)
        ensures
            r == self.symbols.kernel_start,
    {
        self.symbols.kernel_start
    }

    pub fn kernel_end(&self) -> (r: usize)
        ensures
            r == self.symbols.kernel_end,
    {
        self.symbols.kernel_end
    }

    fn text_start(&self) -> (r: usize)
        ensures
            r == self.symbols.text_start,
    {
        self.symbols.text_start
    }

    pub fn global_pointer(&self) -> (r: usize)
        ensures
            r == self.symbols.global_pointer,
    {
        self.symbols.global_pointer
    }

    fn head_text_start(&self) -> (r: usize)
        ensures
            r == self.symbols.head_text_start,
    {
        self.symbols.head_text_start
    }

    fn head_text_end(&self) -> (r: usize)
        ensures
            r == self.symbols.head_text_end,
    {
        self.symbols.head_text_end
    }

    fn bss_start(&self) -> (r: usize)
        ensures
            r == self.symbols.bss_start,
    {
        self.symbols.bss_start
    }

    fn bss_end(&self) -> (r: usize)
        ensures
            r == self.symbols.bss_end,
    {
        self.symbols.bss_end
    }

    pub fn init_stack_start(&self) -> (r: usize)
        ensures
            r == self.symbols.init_stack_start,
    {
        self.symbols.init_stack_start
    }

    pub fn init_stack_end(&self) -> (r: usize)
        ensures
            r == self.symbols.init_stack_end,
    {
        self.symbols.init_stack_end
    }

    /// The layout the early entry code relies on: the image starts with the head text, the
    /// global pointer is set, and BSS and the page-aligned init stack lie inside the image.
    pub open spec fn spec_entry_layout_ready(&self) -> bool {
        let s = self.symbols;
        &&& s.text_start == s.kernel_start
        &&& s.head_text_start == s.kernel_start
        &&& s.head_text_end > s.head_text_start
        &&& s.head_text_end <= s.kernel_end
        &&& s.global_pointer != 0
        &&& s.bss_end > s.bss_start
        &&& s.bss_start >= s.kernel_start
        &&& s.bss_end <= s.kernel_end
        &&& s.init_stack_end > s.init_stack_start
        &&& s.init_stack_start >= s.kernel_start
        &&& s.init_stack_end <= s.kernel_end
        &&& s.init_stack_start % 4096 == 0
        &&& s.init_stack_end % 4096 == 0
    }

    pub fn entry_layout_ready(&self) -> (r: bool)
        ensures
            r == self.spec_entry_layout_ready(),
    {
        let kernel_start_addr = self.kernel_start();
        let kernel_end_addr = self.kernel_end();
        let head_start = self.head_text_start();
        let head_end = self.head_text_end();
        let stack_start = self.init_stack_start();
        let stack_end = self.init_stack_end();
        assert(stack_start & 0xfff == stack_start % 4096) by (bit_vector);
        assert(stack_end & 0xfff == stack_end % 4096) by (bit_vector);
        self.text_start() == kernel_start_addr && head_start == kernel_start_addr && head_end
            > head_start && head_end <= kernel_end_addr && self.global_pointer() != 0
            && self.bss_end() > self.bss_start() && self.bss_start() >= kernel_start_addr
            && self.bss_end() <= kernel_end_addr && stack_end > stack_start && stack_start
            >= kernel_start_addr && stack_end <= kernel_end_addr && stack_start & 0xfff == 0
            && stack_end & 0xfff == 0
    }
}

} // verus!
