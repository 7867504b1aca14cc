use gbmu::reg::{gf, gr, grr, sf, sr, srr, Reg, Regs, CY, D, H, N, U, Z};

#[test]
fn priv_get() {
    let mut reg = Reg::new();

    reg.set_16(0xc3a5);
    assert_eq!(reg.get_16(), 0xc3a5);
    assert_eq!(reg.get_8(U), 0xc3);
    assert_eq!(reg.get_8(D), 0xa5);
    assert_eq!(reg.get_bit(Z), true);
    assert_eq!(reg.get_bit(N), false);
    assert_eq!(reg.get_bit(H), true);
    assert_eq!(reg.get_bit(CY), false);
}

#[test]
fn priv_set() {
    let mut reg = Reg::new();

    reg.set_16(0xc3a5);
    assert_eq!(reg.get_16(), 0xc3a5);
    reg.set_8(U, 0xaa);
    assert_eq!(reg.get_16(), 0xaaa5);
    reg.set_8(D, 0x55);
    assert_eq!(reg.get_16(), 0xaa55);
    reg.set_bit(Z, false);
    assert_eq!(reg.get_bit(Z), false);
    reg.set_bit(N, true);
    assert_eq!(reg.get_bit(N), true);
    reg.set_bit(H, false);
    assert_eq!(reg.get_bit(H), false);
    reg.set_bit(CY, true);
    assert_eq!(reg.get_bit(CY), true);
}

#[test]
fn regs() {
    let mut regs = Regs::new();

    assert_eq!(regs.af.get_16(), 0);
    regs.af.set_8(U, 0xff);
    assert_eq!(regs.af.get_16(), 0xff00);
    assert_eq!(regs.af.get_8(U), 0xff);
    assert_eq!(regs.af.get_bit(Z), false);
    regs.af.set_bit(Z, true);
    assert_eq!(regs.af.get_bit(Z), true);
    regs.af.set_bit(Z, false);
    assert_eq!(regs.af.get_bit(Z), false);
    assert_eq!(regs.sp.get_8(D), 0);
    regs.sp.set_8(D, 0xff);
    assert_eq!(regs.sp.get_16(), 0xff);
    assert_eq!(regs.sp.get_8(D), 0xff);
}

#[test]
fn pub_get() {
    let mut reg = Reg::new();

    reg.set_16(0xc3a5);
    assert_eq!(grr(&reg), 0xc3a5);
    assert_eq!(grr(&mut reg), 0xc3a5);
    assert_eq!(gr((&reg, U)), 0xc3);
    assert_eq!(gr((&reg, D)), 0xa5);
    assert_eq!(gf((&reg, Z)), true);
    assert_eq!(gf((&reg, N)), false);
    assert_eq!(gf((&reg, H)), true);
    assert_eq!(gf((&reg, CY)), false);
}

#[test]
fn pub_set() {
    let mut reg = Reg::new();

    srr(&mut reg, 0xc3a5);
    assert_eq!(grr(&reg), 0xc3a5);
    sr((&mut reg, U), 0xaa);
    assert_eq!(grr(&reg), 0xaaa5);
    sr((&mut reg, D), 0x55);
    assert_eq!(grr(&reg), 0xaa55);
    sf((&mut reg, Z), false);
    assert_eq!(gf((&reg, Z)), false);
    sf((&mut reg, N), true);
    assert_eq!(gf((&reg, N)), true);
    sf((&mut reg, H), false);
    assert_eq!(gf((&reg, H)), false);
    sf((&mut reg, CY), true);
    assert_eq!(gf((&reg, CY)), true);
}
