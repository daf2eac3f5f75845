use vstd::prelude::*;

verus! {

/// Start of the display I/O registers in the emulated memory map.
pub const REG_START: u32 = 0x0400_0000;
/// Length of the relocated I/O register area.
pub const REG_LEN: u32 = 1024;
/// Start of palette memory in the emulated memory map.
pub const PALETTE_START: u32 = 0x0500_0000;
/// Length of palette memory.
pub const PALETTE_LEN: u32 = 1024;
/// Start of video memory in the emulated memory map.
pub const VRAM_START: u32 = 0x0600_0000;
/// Length of video memory.
pub const VRAM_LEN: u32 = 98304;
/// Start of object attribute memory in the emulated memory map.
pub const OAM_START: u32 = 0x0700_0000;
/// Length of object attribute memory.
pub const OAM_LEN: u32 = 1024;

/// `num` kibibytes in bytes, as a 32-bit shift (bits shifted out are lost).
#[allow(non_snake_case)]
pub fn KB(num: u32) -> (r: u32)
    ensures
        r == (num * 1024) % 0x1_0000_0000,
{
    let r = num << 10;
    assert(r == (num * 1024) % 0x1_0000_0000) by (bit_vector)
        requires r == num << 10u32;
    r
}

/// Where the host placed the four emulated memory areas.
#[derive(Clone, Copy)]
pub struct RemapBases {
    pub reg: u32,
    pub palette: u32,
    pub vram: u32,
    pub oam: u32,
}

pub open spec fn in_region(addr: int, start: int, len: int) -> bool {
    start <= addr < start + len
}

/// The host address of emulated address `addr`: its offset within the
/// emulated area it falls in, added to where that area was placed; `None`
/// outside the four areas.
pub open spec fn fix_addr_spec(addr: int, bases: RemapBases) -> Option<int> {
    if in_region(addr, REG_START as int, REG_LEN as int) {
        Some(addr - REG_START + bases.reg)
    } else if in_region(addr, PALETTE_START as int, PALETTE_LEN as int) {
        Some(addr - PALETTE_START + bases.palette)
    } else if in_region(addr, VRAM_START as int, VRAM_LEN as int) {
        Some(addr - VRAM_START + bases.vram)
    } else if in_region(addr, OAM_START as int, OAM_LEN as int) {
        Some(addr - OAM_START + bases.oam)
    } else {
        None
    }
}

/// Whether relocating `addr` stays within 32 bits along the way:
/// the emulated address plus the base of its area fits.
pub open spec fn fix_addr_fits(addr: int, bases: RemapBases) -> bool {
    &&& in_region(addr, REG_START as int, REG_LEN as int) ==> addr + bases.reg <= u32::MAX
    &&& in_region(addr, PALETTE_START as int, PALETTE_LEN as int) ==> addr + bases.palette <= u32::MAX
    &&& in_region(addr, VRAM_START as int, VRAM_LEN as int) ==> addr + bases.vram <= u32::MAX
    &&& in_region(addr, OAM_START as int, OAM_LEN as int) ==> addr + bases.oam <= u32::MAX
}

/// Relocates an emulated memory address into the host buffer that stands
/// for its area; `None` for addresses outside the four areas.
pub fn fix_addr(gba_addr: u32, bases: &RemapBases) -> (r: Option<u32>)
    requires
        fix_addr_fits(gba_addr as int, *bases),
    ensures
        r == (match fix_addr_spec(gba_addr as int, *bases) {
            Some(a) => Some(a as u32),
            None => None,
        }),
{
    if gba_addr >= REG_START && gba_addr < REG_START + REG_LEN {
        Some(gba_addr + bases.reg - REG_START)
    } else if gba_addr >= PALETTE_START && gba_addr < PALETTE_START + PALETTE_LEN {
        Some(gba_addr + bases.palette - PALETTE_START)
    } else if gba_addr >= VRAM_START && gba_addr < VRAM_START + VRAM_LEN {
        Some(gba_addr + bases.vram - VRAM_START)
    } else if gba_addr >= OAM_START && gba_addr < OAM_START + OAM_LEN {
        Some(gba_addr + bases.oam - OAM_START)
    } else {
        None
    }
}

/// Whether a 16-bit Thumb instruction is one of the register- or
/// immediate-offset loads and stores (STR, STRB, STRH, LDR, LDRB, LDRH,
/// LDRSB, LDRSH) whose base register the fault handler can redirect.
pub open spec fn is_load_store(instr: u16) -> bool {
    let op5 = instr / 2048;
    let op7 = instr / 512;
    ||| op5 == 0b01100
    ||| op7 == 0b0101000
    ||| op5 == 0b01110
    ||| op7 == 0b0101010
    ||| op5 == 0b10000
    ||| op7 == 0b0101001
    ||| op5 == 0b01101
    ||| op7 == 0b0101100
    ||| op5 == 0b01111
    ||| op7 == 0b0101110
    ||| op5 == 0b10001
    ||| op7 == 0b0101101
    ||| op7 == 0b0101011
    ||| op7 == 0b0101111
}

/// The loads and stores the handler knows are exactly the Thumb encodings
/// from 0x5000 to 0x8fff: the register-offset forms (0x5000 to 0x5fff) and
/// the immediate-offset word, byte and halfword forms (0x6000 to 0x8fff).
pub proof fn law_load_store_range(instr: u16)
    ensures
        is_load_store(instr) <==> 0x5000 <= instr < 0x9000,
{
}

/// The base register of such an instruction, bits 3 to 5.
pub open spec fn base_reg(instr: u16) -> int {
    ((instr / 8) % 8) as int
}

/// Whether `instr` is one of the loads and stores the fault handler knows.
pub fn is_load_store_instr(instr: u16) -> (r: bool)
    ensures
        r == is_load_store(instr),
{
    let op5 = instr / 2048;
    let op7 = instr / 512;
    op5 == 0b01100 || op7 == 0b0101000  // STR imm5, STR reg
     || op5 == 0b01110 || op7 == 0b0101010  // STRB imm, STRB reg
     || op5 == 0b10000 || op7 == 0b0101001  // STRH imm, STRH reg
     || op5 == 0b01101 || op7 == 0b0101100  // LDR imm5, LDR reg
     || op5 == 0b01111 || op7 == 0b0101110  // LDRB imm, LDRB reg
     || op5 == 0b10001 || op7 == 0b0101101  // LDRH imm, LDRH reg
     || op7 == 0b0101011  // LDRSB reg
     || op7 == 0b0101111  // LDRSH reg
}

/// Whether relocating `addr` stays within 32 bits (see `fix_addr_fits`).
pub fn relocation_fits(addr: u32, bases: &RemapBases) -> (r: bool)
    ensures
        r == fix_addr_fits(addr as int, *bases),
{
    let base = if addr >= REG_START && addr < REG_START + REG_LEN {
        bases.reg
    } else if addr >= PALETTE_START && addr < PALETTE_START + PALETTE_LEN {
        bases.palette
    } else if addr >= VRAM_START && addr < VRAM_START + VRAM_LEN {
        bases.vram
    } else if addr >= OAM_START && addr < OAM_START + OAM_LEN {
        bases.oam
    } else {
        return true;
    };
    addr.checked_add(base).is_some()
}

/// The registers r0 to r7 after the fault on `instr` is handled: the base
/// register's address is relocated by `fix_addr`; the new address is
/// written back for r0 to r3, while r4 to r7 receive their own old value.
pub open spec fn fault_fixup_spec(instr: u16, regs: Seq<u32>, bases: RemapBases) -> Seq<u32> {
    let r = base_reg(instr);
    let a = fix_addr_spec(regs[r] as int, bases)->Some_0;
    regs.update(r, if r < 4 { a as u32 } else { regs[r] })
}

/// Whether the fault handler can recover from a fault on `instr`: the
/// instruction is a load or store it knows, and the address in its base
/// register lies in an emulated area and relocates within 32 bits.
pub open spec fn fault_recoverable_spec(instr: u16, regs: Seq<u32>, bases: RemapBases) -> bool {
    &&& is_load_store(instr)
    &&& fix_addr_fits(regs[base_reg(instr)] as int, bases)
    &&& fix_addr_spec(regs[base_reg(instr)] as int, bases) is Some
}

/// Tests what `fault_fixup` requires: a handler that finds it false cannot
/// recover and stops.
pub fn fault_recoverable(instr: u16, regs: &[u32; 8], bases: &RemapBases) -> (r: bool)
    ensures
        r == fault_recoverable_spec(instr, regs@, *bases),
{
    if !is_load_store_instr(instr) {
        return false;
    }
    let base_addr = regs[((instr / 8) % 8) as usize];
    relocation_fits(base_addr, bases) && fix_addr(base_addr, bases).is_some()
}

/// Handles a memory fault raised by a load or store into an emulated memory
/// area: decodes the instruction, relocates the address held by its base
/// register and returns the registers r0 to r7 to resume with.
pub fn fault_fixup(instr: u16, regs: &[u32; 8], bases: &RemapBases) -> (r: [u32; 8])
    requires
        fault_recoverable_spec(instr, regs@, *bases),
    ensures
        r@ == fault_fixup_spec(instr, regs@, *bases),
{
    // this register is always encoded here
    let base_reg = ((instr / 8) % 8) as usize;
    let base_addr = regs[base_reg];
    let new_base_addr = match fix_addr(base_addr, bases) {
        None => {
            proof {
                assert(false);
            }
            base_addr
        },
        Some(a) => a,
    };
    let mut out = *regs;
    if base_reg < 4 {
        out[base_reg] = new_base_addr;
    } else {
        out[base_reg] = base_addr;
    }
    assert(out@ =~= fault_fixup_spec(instr, regs@, *bases));
    out
}

/// Relocation keeps an address's offset within its emulated area: an
/// address in an area maps to that area's base plus the same offset, and an
/// address in none of the four areas has no relocation.
pub proof fn law_relocation_keeps_offset(addr: int, bases: RemapBases)
    ensures
        REG_START <= addr < REG_START + 1024 ==> fix_addr_spec(addr, bases) == Some(bases.reg + (addr - REG_START)),
        PALETTE_START <= addr < PALETTE_START + 1024 ==> fix_addr_spec(addr, bases) == Some(
            bases.palette + (addr - PALETTE_START),
        ),
        VRAM_START <= addr < VRAM_START + 98304 ==> fix_addr_spec(addr, bases) == Some(bases.vram + (addr - VRAM_START)),
        OAM_START <= addr < OAM_START + 1024 ==> fix_addr_spec(addr, bases) == Some(bases.oam + (addr - OAM_START)),
        !(REG_START <= addr < REG_START + 1024) && !(PALETTE_START <= addr < PALETTE_START + 1024) && !(VRAM_START
            <= addr < VRAM_START + 98304) && !(OAM_START <= addr < OAM_START + 1024) ==> fix_addr_spec(addr, bases)
            is None,
{
}

/// Recovering from a fault rewrites only the base register named by bits 3
/// to 5 of the instruction: r0 to r3 receive the relocated address of their
/// old value, r4 to r7 keep their value, and every other register is left
/// as it was.
pub proof fn law_fault_fixup_registers(instr: u16, regs: Seq<u32>, bases: RemapBases)
    requires
        regs.len() == 8,
        fault_recoverable_spec(instr, regs, bases),
    ensures
        fault_fixup_spec(instr, regs, bases).len() == 8,
        forall|i: int|
            0 <= i < 8 && i != ((instr / 8) % 8) as int ==> #[trigger] fault_fixup_spec(instr, regs, bases)[i] == regs[i],
        (instr / 8) % 8 < 4 ==> fault_fixup_spec(instr, regs, bases)[((instr / 8) % 8) as int] as int == fix_addr_spec(
            regs[((instr / 8) % 8) as int] as int,
            bases,
        )->Some_0,
        (instr / 8) % 8 >= 4 ==> fault_fixup_spec(instr, regs, bases)[((instr / 8) % 8) as int] == regs[((instr / 8) % 8) as int],
{
    let r = base_reg(instr);
    let a = fix_addr_spec(regs[r] as int, bases)->Some_0;
    if r < 4 {
        assert(0 <= a <= u32::MAX);
    }
}

} // verus!
