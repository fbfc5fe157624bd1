//! Layout of C structures.
use ss_encode::layout::{c_layout, Field};

fn of<T>() -> Field {
    Field {
        size: std::mem::size_of::<T>(),
        align: std::mem::align_of::<T>(),
    }
}

#[test]
fn members_are_padded_to_their_alignment() {
    let l = c_layout(&[of::<u8>(), of::<u32>(), of::<u8>(), of::<u64>(), of::<u16>()]);
    assert_eq!(l.offsets, vec![0, 4, 8, 16, 24]);
    assert_eq!((l.size, l.align), (32, 8));
}

#[test]
fn an_empty_structure_takes_nothing() {
    let l = c_layout(&[]);
    assert!(l.offsets.is_empty());
    assert_eq!((l.size, l.align), (0, 1));
}

#[test]
fn driver_structures_have_their_documented_layout() {
    // Device and frames contexts of the texture pool: pointers, and two flag words in between.
    let p = of::<usize>();
    let device = c_layout(&[p, p, p, p, p, p, p]);
    assert_eq!(device.size, 7 * p.size);
    assert_eq!(device.offsets[6], 6 * p.size);
    let frames = c_layout(&[p, of::<u32>(), of::<u32>(), p]);
    assert_eq!(frames.size, 3 * p.size);
    assert_eq!(frames.offsets, vec![0, p.size, p.size + 4, 2 * p.size]);
}

#[test]
fn members_never_overlap() {
    let fields = [of::<u16>(), of::<[u8; 3]>(), of::<u64>(), of::<u8>(), of::<u32>()];
    let l = c_layout(&fields);
    for i in 0..fields.len() {
        assert_eq!(l.offsets[i] % fields[i].align, 0);
        let end = l.offsets[i] + fields[i].size;
        assert!(end <= *l.offsets.get(i + 1).unwrap_or(&l.size));
    }
}
