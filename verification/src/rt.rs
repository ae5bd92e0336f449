//! Decisions of the low-level runtime: checking pointers handed to Rust and
//! planning the allocations the host asks for.

use vstd::prelude::*;
use vstd::layout::valid_layout;
use crate::fatal::Fatal;

verus! {

/// The number of words in the global argument stack shared with the host.
pub const GLOBAL_STACK_CAP: usize = 16;

/// Refuses a null pointer, given by its address.
pub fn assert_not_null(addr: usize) -> (r: Result<(), Fatal>)
    ensures
        addr == 0 ==> r == Err::<(), Fatal>(Fatal::NullPointer),
        addr != 0 ==> r is Ok,
{
    if addr == 0 {
        return Err(Fatal::NullPointer);
    }
    Ok(())
}

/// What an allocation request for the host comes to.
#[derive(Clone, Copy, Debug, PartialEq, Eq, Structural)]
pub enum Allocation {
    /// Memory of `size` bytes aligned to `align` must be taken from the
    /// allocator.
    Heap { size: usize, align: usize },
    /// Nothing is allocated; the well-aligned dangling address `align` stands
    /// for the empty block.
    Dangling { align: usize },
}

/// The alignment of a machine word, which every block handed to the host has.
pub open spec fn word_align() -> usize {
    vstd::layout::align_of::<usize>() as usize
}

/// `std::alloc::Layout::from_size_align` succeeds, as std documents, exactly
/// when `align` is a power of two and `size`, rounded up to a multiple of
/// `align`, does not exceed `isize::MAX`; this reports whether it succeeded.
#[verifier::external_body]
fn layout_fits(size: usize, align: usize) -> (ok: bool)
    ensures
        ok == valid_layout(size, align),
{
    std::alloc::Layout::from_size_align(size, align).is_ok()
}

/// Plans an allocation of `size` bytes requested by the host: an empty block
/// is the dangling word-aligned address, a block that no layout describes is
/// refused, and any other is taken from the allocator.
pub fn malloc_plan(size: usize) -> (r: Result<Allocation, Fatal>)
    ensures
        size == 0 ==> r == Ok::<Allocation, Fatal>(Allocation::Dangling { align: word_align() }),
        size > 0 && valid_layout(size, word_align()) ==> r == Ok::<Allocation, Fatal>(
            Allocation::Heap { size, align: word_align() },
        ),
        size > 0 && !valid_layout(size, word_align()) ==> r == Err::<Allocation, Fatal>(
            Fatal::InvalidMalloc,
        ),
{
    let align = core::mem::align_of::<usize>();
    vstd::layout::layout_for_type_is_valid::<usize>();
    if layout_fits(size, align) {
        if size > 0 {
            Ok(Allocation::Heap { size, align })
        } else {
            Ok(Allocation::Dangling { align })
        }
    } else {
        proof {
            if size == 0 {
                assert(isize::MAX as int % align as int <= isize::MAX as int) by (nonlinear_arith)
                    requires
                        align > 0,
                ;
                assert(valid_layout(size, align));
            }
        }
        Err(Fatal::InvalidMalloc)
    }
}

/// Plans the release of a block of `size` bytes that was handed to the host:
/// an empty block was never allocated and is left alone.
pub fn free_plan(size: usize) -> (r: Option<Allocation>)
    ensures
        size == 0 ==> r is None,
        size > 0 ==> r == Some(Allocation::Heap { size, align: word_align() }),
{
    if size == 0 {
        return None;
    }
    Some(Allocation::Heap { size, align: core::mem::align_of::<usize>() })
}

/// Referenced from generated code so that the linker keeps the allocation
/// entry points above; it does nothing.
pub fn link_mem_intrinsics() {
}

} // verus!
