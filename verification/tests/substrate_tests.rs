use cues_mantle::metabolism::ecs::Metabolism;
use cues_mantle::substrate::buffer::{aligned_offset, MemorySubstrate, SubstrateBuffer, LEDGER_SIZE, SUBSTRATE_SIZE};
use cues_mantle::substrate::schema::SubstrateSlot;

#[test]
fn memory_substrate_is_zeroed_and_sized() {
    let m = MemorySubstrate::new();
    assert_eq!(m.main.size, 4096);
    assert_eq!(m.ledger.size, 1024);
    assert_eq!(m.main.as_bytes().len(), SUBSTRATE_SIZE);
    assert_eq!(m.ledger.as_bytes().len(), LEDGER_SIZE);
    assert!(m.main.as_bytes().iter().all(|b| *b == 0));
    assert!(m.ledger.as_bytes().iter().all(|b| *b == 0));
    assert_eq!(m.main.ptr % 16, 0);
    assert_eq!(m.ledger.ptr % 16, 0);
    assert_ne!(m.main.ptr, 0);
    assert_ne!(m.ledger.ptr, 0);
    assert_eq!(m.main.ptr, m.main.base + m.main.offset);
    assert_eq!(m.main.base, m.main.storage.as_ptr() as usize);
    assert!(m.main.ptr + m.main.size <= m.main.base + m.main.storage.len());
    let (a, b) = (m.main.ptr, m.ledger.ptr);
    assert!(a + SUBSTRATE_SIZE <= b || b + LEDGER_SIZE <= a);
    assert_eq!(m.main.ptr, m.main.as_bytes().as_ptr() as usize);
    assert_eq!(m.ledger.ptr, m.ledger.as_bytes().as_ptr() as usize);
}

#[test]
fn substrate_buffer_of_one_byte() {
    let b = SubstrateBuffer::new(1);
    assert_eq!(b.size, 1);
    assert_eq!(b.as_bytes(), &[0u8][..]);
    assert_eq!(b.ptr % 16, 0);
    assert_eq!(b.ptr, b.as_bytes().as_ptr() as usize);
}

#[test]
fn slot_indices_follow_the_schema() {
    let slots = [
        SubstrateSlot::ClearColorR,
        SubstrateSlot::ClearColorG,
        SubstrateSlot::ClearColorB,
        SubstrateSlot::ClearColorA,
        SubstrateSlot::LogoOriginX,
        SubstrateSlot::LogoOriginY,
        SubstrateSlot::LogoScaleW,
        SubstrateSlot::LogoScaleH,
    ];
    for (i, s) in slots.iter().enumerate() {
        assert_eq!(s.index(), i);
        assert!(4 * s.index() + 4 <= SUBSTRATE_SIZE);
    }
}

#[test]
fn metabolism_is_stateless() {
    assert_eq!(Metabolism::new(), Metabolism {});
}

#[test]
fn aligned_offsets() {
    assert_eq!(aligned_offset(16), 0);
    assert_eq!(aligned_offset(17), 15);
    assert_eq!(aligned_offset(31), 1);
    assert_eq!(aligned_offset(usize::MAX - 15), 0);
}
