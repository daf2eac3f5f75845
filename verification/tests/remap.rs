use gba_video::remap::{fault_fixup, fault_recoverable, fix_addr, is_load_store_instr, relocation_fits, RemapBases, KB};

fn bases() -> RemapBases {
    RemapBases { reg: 0x2000_0000, palette: 0x2000_1000, vram: 0x2000_2000, oam: 0x2003_0000 }
}

#[test]
fn kb_shifts_by_ten() {
    assert_eq!(KB(1), 1024);
    assert_eq!(KB(96), 98304);
    assert_eq!(KB(0x0040_0001), 1024);
}

#[test]
fn fix_addr_relocates_each_area() {
    let b = bases();
    assert_eq!(fix_addr(0x0400_0000, &b), Some(0x2000_0000));
    assert_eq!(fix_addr(0x0400_03ff, &b), Some(0x2000_03ff));
    assert_eq!(fix_addr(0x0400_0400, &b), None);
    assert_eq!(fix_addr(0x0500_0010, &b), Some(0x2000_1010));
    assert_eq!(fix_addr(0x0601_7fff, &b), Some(0x2000_2000 + 0x1_7fff));
    assert_eq!(fix_addr(0x0601_8000, &b), None);
    assert_eq!(fix_addr(0x0700_0008, &b), Some(0x2003_0008));
    assert_eq!(fix_addr(0x0300_0000, &b), None);
}

#[test]
fn fault_fixup_rewrites_low_base_register() {
    let b = bases();
    let mut regs = [0u32; 8];
    regs[1] = 0x0600_0004;
    // STR r0, [r1, #0]: 0b01100 imm5=0 Rn=1 Rd=0
    let instr: u16 = (0b01100 << 11) | (1 << 3);
    assert!(fault_recoverable(instr, &regs, &b));
    let out = fault_fixup(instr, &regs, &b);
    let mut expect = regs;
    expect[1] = 0x2000_2004;
    assert_eq!(out, expect);
}

#[test]
fn fault_fixup_keeps_high_base_register() {
    let b = bases();
    let mut regs = [0u32; 8];
    regs[5] = 0x0500_0000;
    // LDRH r2, [r5, r3]: 0b0101101 Rm=3 Rn=5 Rd=2
    let instr: u16 = (0b0101101 << 9) | (3 << 6) | (5 << 3) | 2;
    assert!(fault_recoverable(instr, &regs, &b));
    assert_eq!(fault_fixup(instr, &regs, &b), regs);
}

#[test]
fn fault_fixup_gives_up() {
    let b = bases();
    let mut regs = [0u32; 8];
    regs[2] = 0x0600_0000;
    // ADD r0, r2, r1 is not a load or store
    let add: u16 = (0b0001100 << 9) | (1 << 6) | (2 << 3);
    assert!(!is_load_store_instr(add));
    assert!(!fault_recoverable(add, &regs, &b));
    // LDR r0, [r2, #0] with r2 outside the emulated areas
    regs[2] = 0x0800_0000;
    let ldr: u16 = (0b01101 << 11) | (2 << 3);
    assert!(is_load_store_instr(ldr));
    assert!(!fault_recoverable(ldr, &regs, &b));
}

#[test]
fn load_store_decoding() {
    // every listed encoding, with arbitrary low bits
    let five_bit: [u16; 6] = [0b01100, 0b01110, 0b10000, 0b01101, 0b01111, 0b10001];
    let seven_bit: [u16; 8] = [0b0101000, 0b0101010, 0b0101001, 0b0101100, 0b0101110, 0b0101101, 0b0101011, 0b0101111];
    for op in five_bit {
        assert!(is_load_store_instr((op << 11) | 0x5a5));
    }
    for op in seven_bit {
        assert!(is_load_store_instr((op << 9) | 0x1a5));
    }
    assert!(!is_load_store_instr(0b0100_0000_0000_0000));
    assert!(!is_load_store_instr(0xffff));
}

#[test]
fn relocation_overflow_is_detected() {
    let b = RemapBases { reg: 0xffff_0000, palette: 0, vram: 0, oam: 0 };
    assert!(!relocation_fits(0x0400_0000, &b));
    assert!(relocation_fits(0x0500_0000, &b));
    assert!(relocation_fits(0x0900_0000, &b));
    let mut regs = [0u32; 8];
    regs[0] = 0x0400_0000;
    let str_r0: u16 = 0b01100 << 11;
    assert!(!fault_recoverable(str_r0, &regs, &b));
}
