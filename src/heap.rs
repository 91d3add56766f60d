//! The deterministic heap: the fixed address range it occupies, the checks
//! made when it is mapped, and the layouts that the interposed allocation
//! entry points ask of it.

use vstd::prelude::*;

use vstd::layout::valid_layout;

verus! {

/// The first address of the heap.
pub const HEAP_BASE: u64 = 0x1000_0000_0000;

/// The size of the heap: 1 GiB.
pub const HEAP_SIZE: u64 = 0x4000_0000;

/// The first address past the heap.
pub const HEAP_END: u64 = HEAP_BASE + HEAP_SIZE;

/// Whether a mapping of the heap landed where it must: the kernel returned
/// the heap's base address.
pub fn mapped_in_place(addr: u64) -> (r: bool)
    ensures
        r == (addr == HEAP_BASE),
{
    addr == HEAP_BASE
}

/// Whether the heap's range is taken, given the answer to a query for the
/// first mapping at or after its base: the query found one and it starts
/// before the heap's end.
pub fn range_taken(query_found: bool, region_start: u64) -> (r: bool)
    ensures
        r == (query_found && region_start < HEAP_END),
{
    query_found && region_start < HEAP_END
}

/// Whether `[addr, addr + size)` lies inside the heap.
pub fn in_heap(addr: u64, size: u64) -> (r: bool)
    ensures
        r == (HEAP_BASE <= addr && addr as int + size as int <= HEAP_END as int),
{
    HEAP_BASE <= addr && addr <= HEAP_END && size <= HEAP_END - addr
}

/// The message when the heap's range is taken.
pub fn occupied_message() -> (r: &'static str)
    ensures
        r@ == "deterministic heap address range 0x100000000000..0x100040000000 already occupied"@,
{
    "deterministic heap address range 0x100000000000..0x100040000000 already occupied"
}

/// Relies on `std::alloc::Layout::from_size_align`, which succeeds exactly
/// when `align` is a power of two and `size`, rounded up to a multiple of
/// `align`, does not exceed `isize::MAX`.
#[verifier::external_body]
fn layout_ok(size: usize, align: usize) -> (r: bool)
    ensures
        r == valid_layout(size, align),
{
    std::alloc::Layout::from_size_align(size, align).is_ok()
}

/// A request to the allocator: a size and an alignment that make a valid
/// layout.
#[derive(Clone, Copy, Debug, PartialEq, Eq, Structural)]
pub struct LayoutRequest {
    pub size: usize,
    pub align: usize,
}

/// The layout of `size` bytes aligned to `align`, where that is a valid
/// layout.
pub fn layout(size: usize, align: usize) -> (r: Option<LayoutRequest>)
    ensures
        r is Some <==> valid_layout(size, align),
        r matches Some(l) ==> l.size == size && l.align == align,
{
    if layout_ok(size, align) {
        Some(LayoutRequest { size, align })
    } else {
        None
    }
}

/// The size of an array of `n` items of `size` bytes, unless it overflows
/// (`calloc`, `reallocarray`).
pub fn array_size(n: usize, size: usize) -> (r: Option<usize>)
    ensures
        n as int * size as int <= usize::MAX ==> r == Some((n * size) as usize),
        n as int * size as int > usize::MAX ==> r is None,
{
    n.checked_mul(size)
}

/// Why `posix_memalign` refuses a request: it answers `EINVAL`.
#[derive(Clone, Copy, Debug, PartialEq, Eq, Structural)]
pub enum MemalignError {
    InvalidAlignment,
}

/// The layout that `posix_memalign` asks for: the alignment must be a
/// multiple of the pointer size `word` and make a valid layout with `size`.
pub fn posix_memalign_request(alignment: usize, size: usize, word: usize) -> (r: Result<
    LayoutRequest,
    MemalignError,
>)
    requires
        word > 0,
    ensures
        r is Ok <==> (alignment % word == 0 && valid_layout(size, alignment)),
        r matches Ok(l) ==> l.size == size && l.align == alignment,
        r matches Err(e) ==> e == MemalignError::InvalidAlignment,
{
    if alignment % word != 0 {
        return Err(MemalignError::InvalidAlignment);
    }
    match layout(size, alignment) {
        Some(l) => Ok(l),
        None => Err(MemalignError::InvalidAlignment),
    }
}

} // verus!
