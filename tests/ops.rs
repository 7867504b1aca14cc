use gbmu::ops::Ops;

#[test]
fn ops_creation() {
    let ops = Ops::new();

    if let Some(op) = ops.get(2) {
        assert_eq!(op.label, "LD (BC), A");
    } else {
        panic!();
    }
}

#[test]
fn count() {
    let ops = Ops::new();
    let empty: [usize; 12] = [
        0xcb, 0xd3, 0xdb, 0xdd, 0xe3, 0xe4, 0xeb, 0xec, 0xed, 0xf4, 0xfc, 0xfd,
    ];

    for i in 0..0x200 {
        if let None = ops.get(i) {
            if !empty.contains(&i) {
                panic!("panic at: {:x}", i);
            }
        }
    }
}
