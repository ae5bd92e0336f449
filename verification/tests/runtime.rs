use wasm_bindgen::fatal::Fatal;
use wasm_bindgen::rt::{
    assert_not_null, free_plan, link_mem_intrinsics, malloc_plan, Allocation, GLOBAL_STACK_CAP,
};

#[test]
fn null_pointer_refused() {
    assert_eq!(assert_not_null(0), Err(Fatal::NullPointer));
    assert_eq!(assert_not_null(0x1000), Ok(()));
}

#[test]
fn malloc_plans() {
    let align = std::mem::align_of::<usize>();
    assert_eq!(malloc_plan(0), Ok(Allocation::Dangling { align }));
    assert_eq!(malloc_plan(16), Ok(Allocation::Heap { size: 16, align }));
    assert_eq!(malloc_plan(1), Ok(Allocation::Heap { size: 1, align }));
    assert_eq!(malloc_plan(usize::MAX), Err(Fatal::InvalidMalloc));
    assert_eq!(malloc_plan(isize::MAX as usize), Err(Fatal::InvalidMalloc));
    let largest = isize::MAX as usize - (isize::MAX as usize % align);
    assert_eq!(malloc_plan(largest), Ok(Allocation::Heap { size: largest, align }));
}

#[test]
fn free_plans() {
    let align = std::mem::align_of::<usize>();
    assert_eq!(free_plan(0), None);
    assert_eq!(free_plan(24), Some(Allocation::Heap { size: 24, align }));
}

#[test]
fn stack_capacity_and_link() {
    assert_eq!(GLOBAL_STACK_CAP, 16);
    link_mem_intrinsics();
}
