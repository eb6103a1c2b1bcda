use kay::{Compact, CompactVec, Pair, Storage};

fn bytes(values: &[u8], cap: usize) -> CompactVec<u8> {
    let mut v = CompactVec::<u8>::with_capacity(cap);
    for x in values {
        v.push(*x);
    }
    v
}

fn words(values: &[u32], cap: usize) -> CompactVec<u32> {
    let mut v = CompactVec::<u32>::with_capacity(cap);
    for x in values {
        v.push(*x);
    }
    v
}

#[test]
fn dynamic_size_of_a_pair_is_the_sum() {
    let pair = Pair { a: bytes(&[1, 2, 3], 5), b: words(&[7], 2) };
    assert_eq!(pair.a.dynamic_size_bytes(), 5);
    assert_eq!(pair.b.dynamic_size_bytes(), 8);
    assert_eq!(pair.dynamic_size_bytes(), 13);
    assert_eq!(
        pair.total_size_bytes(),
        std::mem::size_of::<Pair<CompactVec<u8>, CompactVec<u32>>>() + 13
    );
}

#[test]
fn a_pair_is_compact_when_both_fields_are() {
    let embedded = || CompactVec::<u8>::from_backing(0, vec![1], 1);
    let free = || bytes(&[1], 1);
    assert!(Pair { a: embedded(), b: embedded() }.is_still_compact());
    assert!(!Pair { a: free(), b: embedded() }.is_still_compact());
    assert!(!Pair { a: embedded(), b: free() }.is_still_compact());
    assert!(!Pair { a: free(), b: free() }.is_still_compact());
}

#[test]
fn fields_are_laid_out_in_order() {
    let src = Pair { a: bytes(&[1, 2, 3], 5), b: words(&[7, 8], 2) };
    let mut dst = Pair { a: CompactVec::<u8>::new(), b: CompactVec::<u32>::new() };
    dst.compact_from(&src, 200);
    assert!(dst.is_still_compact());
    assert_eq!(dst.a.storage(), Storage::Embedded { offset: 200 });
    assert_eq!(dst.b.storage(), Storage::Embedded { offset: 205 });
    assert_eq!(&*dst.a, &[1u8, 2, 3][..]);
    assert_eq!(&*dst.b, &[7u32, 8][..]);
    assert_eq!(dst.a.capacity(), 5);
    assert_eq!(dst.b.capacity(), 2);
    assert_eq!(dst.dynamic_size_bytes(), 13);
}

#[test]
fn tails_of_a_pair_start_at_the_destination() {
    let src = Pair { a: words(&[1], 4), b: bytes(&[9], 1) };
    let mut dst = Pair { a: CompactVec::<u32>::new(), b: CompactVec::<u8>::new() };
    dst.compact_from(&src, 0);
    assert_eq!(dst.a.storage(), Storage::Embedded { offset: 0 });
    assert_eq!(dst.b.storage(), Storage::Embedded { offset: src.a.dynamic_size_bytes() });
    assert_eq!(dst.b.storage(), Storage::Embedded { offset: 16 });
}

#[test]
fn a_pair_with_a_plain_field() {
    let src = Pair { a: 17u64, b: words(&[1, 2, 3], 4) };
    assert_eq!(src.dynamic_size_bytes(), 16);
    assert!(!src.is_still_compact());
    let mut dst = Pair { a: 0u64, b: CompactVec::<u32>::new() };
    dst.compact_from(&src, 72);
    assert_eq!(dst.a, 17);
    assert_eq!(dst.b.storage(), Storage::Embedded { offset: 72 });
    assert_eq!(&*dst.b, &[1u32, 2, 3][..]);
    assert!(dst.is_still_compact());
}

#[test]
fn three_fields_as_nested_pairs() {
    let src = Pair { a: bytes(&[1], 2), b: Pair { a: words(&[2], 3), b: bytes(&[3, 4], 4) } };
    assert_eq!(src.dynamic_size_bytes(), 2 + 12 + 4);
    let mut dst = Pair {
        a: CompactVec::<u8>::new(),
        b: Pair { a: CompactVec::<u32>::new(), b: CompactVec::<u8>::new() },
    };
    dst.compact_from(&src, 10);
    assert_eq!(dst.a.storage(), Storage::Embedded { offset: 10 });
    assert_eq!(dst.b.a.storage(), Storage::Embedded { offset: 12 });
    assert_eq!(dst.b.b.storage(), Storage::Embedded { offset: 24 });
    assert_eq!(&*dst.b.b, &[3u8, 4][..]);
    assert!(dst.is_still_compact());
}

#[test]
fn a_pair_relocated_behind_its_header() {
    let src = Pair { a: bytes(&[5], 1), b: bytes(&[6, 7], 2) };
    let mut dst = Pair { a: CompactVec::<u8>::new(), b: CompactVec::<u8>::new() };
    dst.compact_behind_from(&src);
    let header = std::mem::size_of::<Pair<CompactVec<u8>, CompactVec<u8>>>();
    assert_eq!(dst.a.storage(), Storage::Embedded { offset: header });
    assert_eq!(dst.b.storage(), Storage::Embedded { offset: header + 1 });
    assert_eq!(header + dst.dynamic_size_bytes(), src.total_size_bytes());
}

#[test]
fn a_pair_relocated_twice_holds_the_same() {
    let src = Pair { a: bytes(&[1, 2], 2), b: words(&[3], 1) };
    let mut once = Pair { a: CompactVec::<u8>::new(), b: CompactVec::<u32>::new() };
    once.compact_from(&src, 30);
    let mut twice = Pair { a: CompactVec::<u8>::new(), b: CompactVec::<u32>::new() };
    twice.compact_from(&once, 90);
    assert_eq!(&*twice.a, &*src.a);
    assert_eq!(&*twice.b, &*src.b);
    assert_eq!(twice.dynamic_size_bytes(), src.dynamic_size_bytes());
    assert_eq!(twice.a.storage(), Storage::Embedded { offset: 90 });
    assert_eq!(twice.b.storage(), Storage::Embedded { offset: 92 });
}
