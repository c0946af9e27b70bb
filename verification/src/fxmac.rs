//! Kernel services the network-controller driver asks its host to provide:
//! address translation, DMA-coherent page allocation, and interrupt
//! installation. The host kernel implements this trait; the driver only
//! calls through it.
use vstd::prelude::*;

verus! {

/// The kernel-side interface of the network-controller driver.
pub trait KernelFunc {
    /// Translates a virtual address into the physical address backing it.
    fn virt_to_phys(addr: usize) -> usize;

    /// Translates a physical address into the virtual address mapping it.
    fn phys_to_virt(addr: usize) -> usize;

    /// Allocates `pages` DMA-coherent pages; returns the pair of virtual and
    /// physical start address, or a zero pair when the allocator is
    /// exhausted.
    fn dma_alloc_coherent(pages: usize) -> (usize, usize);

    /// Returns `pages` DMA-coherent pages starting at `vaddr`.
    fn dma_free_coherent(vaddr: usize, pages: usize);

    /// Asks the kernel to route the interrupt line `irq` to the driver's
    /// service entry.
    fn dma_request_irq(irq: usize);
}

} // verus!
