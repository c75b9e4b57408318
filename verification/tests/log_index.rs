use mlog::LogIndex;

#[test]
fn physical_is_logical_modulo_capacity() {
    let i = LogIndex { idx: 10, len: 3 };
    assert_eq!(i.logical(), 10);
    assert_eq!(i.physical(), 1);

    let j = LogIndex { idx: 5, len: 8 };
    assert_eq!(j.physical(), 5);

    let k = LogIndex { idx: 144115188075855888, len: 16 };
    assert_eq!(k.physical(), 0);

    for idx in [0u64, 1, 6, 7, 8, 13, 1_000_003] {
        for len in [1u64, 2, 7, 16, 1_000_000] {
            let i = LogIndex { idx, len };
            assert_eq!(i.physical(), idx % len);
            assert!(i.physical() <= i.logical());
            assert!(i.physical() < len);
        }
    }
}

#[test]
fn equality_ignores_capacity() {
    let a = LogIndex { idx: 5, len: 3 };
    let b = LogIndex { idx: 5, len: 100 };
    assert_eq!(a, b);

    let c = LogIndex { idx: 6, len: 3 };
    assert_ne!(a, c);
}

#[test]
fn ordering_ignores_capacity() {
    let a = LogIndex { idx: 2, len: 9 };
    let b = LogIndex { idx: 7, len: 4 };
    assert!(a < b);
    assert!(b > a);
    assert!(a <= LogIndex { idx: 2, len: 1 });
    assert!(a >= LogIndex { idx: 2, len: 77 });
}
