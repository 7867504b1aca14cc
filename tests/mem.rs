use gbmu::mem::Mem;

#[test]
fn init() {
    let mem = Mem::new();

    assert_eq!(mem.data.len(), 0x10000);
    for byte in mem.data {
        assert_eq!(byte, 0);
    }
}

#[test]
fn access() {
    let mut mem = Mem::new();

    assert_eq!(mem.su_get(0), 0);
    assert_eq!(mem.su_get(0xffff), 0);
    mem.su_set(0, 0x11);
    mem.su_set(0xaa, 0xaa);
    mem.su_set(0xfff, 0xbb);
    mem.su_set(0xffff, 0xff);
    assert_eq!(mem.su_get(0), 0x11);
    assert_eq!(mem.su_get(0xaa), 0xaa);
    assert_eq!(mem.su_get(0xfff), 0xbb);
    assert_eq!(mem.su_get(0xffff), 0xff);
}
