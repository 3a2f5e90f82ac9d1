use psx::bios::{Bios, Metadata, BIOS_SIZE};
use psx::cdrom::Region;
use psx::cop0::{Cop0, Exception};
use psx::cpu::{InstrCacheLines, Instruction, RegisterIndex};
use psx::interrupt::{Interrupt, InterruptState};
use psx::memory::{Byte, HalfWord, Word};

#[test]
fn interrupt_state_tracks_pending_and_mask() {
    let mut irq = InterruptState::new();
    assert_eq!(irq.status(), 0);
    assert_eq!(irq.mask(), 0);
    assert!(!irq.active());
    irq.assert_interrupt(Interrupt::VBlank);
    irq.assert_interrupt(Interrupt::CdRom);
    assert_eq!(irq.status(), 0b101);
    assert!(!irq.active());
    irq.set_mask(1 << 2);
    assert_eq!(irq.mask(), 4);
    assert!(irq.active());
    irq.ack(!(1 << 2));
    assert_eq!(irq.status(), 1);
    assert!(!irq.active());
    irq.assert_interrupt(Interrupt::PadMemCard);
    assert_eq!(irq.status(), 0x81);
}

#[test]
fn cop0_cause_reports_pending_interrupt() {
    let mut cop0 = Cop0::new();
    let mut irq = InterruptState::new();
    cop0.set_cause(0xFFFF_FFFF);
    assert_eq!(cop0.cause(irq), 0x300);
    irq.assert_interrupt(Interrupt::Dma);
    irq.set_mask(1 << 3);
    assert_eq!(cop0.cause(irq), 0x700);
    assert!(!cop0.irq_active(irq));
    cop0.set_sr(0x401);
    assert!(cop0.irq_active(irq));
    cop0.set_sr(0x400);
    assert!(!cop0.irq_active(irq));
}

#[test]
fn cop0_exception_entry_and_return() {
    let mut cop0 = Cop0::new();
    cop0.set_sr(0x0000_0003);
    let handler = cop0.enter_exeception(Exception::SysCall, 0x8000_1000, false);
    assert_eq!(handler, 0x8000_0080);
    assert_eq!(cop0.sr(), 0xC);
    assert_eq!(cop0.epc(), 0x8000_1000);
    assert_eq!(cop0.cause(InterruptState::new()), 0x20);
    cop0.return_from_exception();
    assert_eq!(cop0.sr(), 0x3);
}

#[test]
fn cop0_exception_in_delay_slot_uses_boot_vector() {
    let mut cop0 = Cop0::new();
    cop0.set_sr(0x0040_0000);
    let handler = cop0.enter_exeception(Exception::Overflow, 0x100, true);
    assert_eq!(handler, 0xBFC0_0180);
    assert_eq!(cop0.epc(), 0xFC);
    assert_eq!(cop0.cause(InterruptState::new()), 0x8000_0000 | (0xC << 2));
    let handler = cop0.enter_exeception(Exception::Break, 0, true);
    assert_eq!(handler, 0xBFC0_0180);
    assert_eq!(cop0.epc(), 0xFFFF_FFFC);
    cop0.enter_exeception(Exception::Interrupt, 0x40, false);
    assert_eq!(cop0.cause(InterruptState::new()), 0);
}

#[test]
fn cop0_cache_isolation_bit() {
    let mut cop0 = Cop0::new();
    assert!(!cop0.cache_isolated());
    cop0.set_sr(0x1_0000);
    assert!(cop0.cache_isolated());
}

#[test]
fn instruction_fields() {
    let i = Instruction(0x2508_FFFF);
    assert_eq!(i.function(), 0x09);
    assert_eq!(i.subfunction(), 0x3F);
    assert_eq!(i.cop_opcode(), 8);
    assert_eq!(i.s(), RegisterIndex(8));
    assert_eq!(i.t(), RegisterIndex(8));
    assert_eq!(i.d(), RegisterIndex(0x1F));
    assert_eq!(i.imm(), 0xFFFF);
    assert_eq!(i.imm_se(), 0xFFFF_FFFF);
    assert_eq!(i.shift(), 0x1F);
    assert_eq!(i.imm_jump(), 0x108_FFFF);
    assert!(!i.is_gte_op());
    assert!(Instruction(0x4400_0000).is_gte_op());
    assert_eq!(Instruction(0x0000_7FFF).imm_se(), 0x7FFF);
}

#[test]
fn cache_line_tag_and_valid_index() {
    let mut line = InstrCacheLines::new();
    assert_eq!(line.tag(), 0);
    line.set_tag_valid(0x8000_1234);
    assert_eq!(line.tag(), 0x1000);
    assert_eq!(line.valid_index(), 1);
    line.invalidate();
    assert_eq!(line.tag(), 0x1000);
    assert_eq!(line.valid_index(), 5);
    line.set_instruction(2, Instruction(0xDEAD_BEEF));
    assert_eq!(line.instruction(2), Instruction(0xDEAD_BEEF));
    assert_eq!(line.instruction(1), Instruction(0));
    let fresh: InstrCacheLines = Default::default();
    assert_eq!(fresh.tag(), 0);
    assert_eq!(fresh.instruction(3), Instruction(0));
}

#[test]
fn dummy_bios_pattern() {
    let bios = Bios::dummy();
    assert_eq!(bios.load::<Word>(0), 0xC410_4105);
    assert_eq!(bios.load::<Byte>(1), 0x41);
    assert_eq!(bios.load::<HalfWord>(2), 0xC410);
    assert_eq!(bios.load::<Word>((BIOS_SIZE - 4) as u32), 0xC410_4105);
    assert!(bios.metadata().known_bad);
    assert_eq!(bios.metadata().region, Region::NorthAmerica);
}

#[test]
fn dummy_bios_has_nothing_to_patch() {
    let mut bios = Bios::dummy();
    assert_eq!(bios.patch_boot_animation(), Err(()));
    assert_eq!(bios.enable_debug_uart(), Err(()));
    assert_eq!(bios.load::<Word>(0), 0xC410_4105);
}

fn metadata(hook: Option<u32>, uart: Option<Vec<(u32, u32)>>) -> Metadata {
    Metadata {
        sha256: [0; 32],
        version_major: 4,
        version_minor: 1,
        region: Region::Europ,
        known_bad: false,
        animation_jump_hook: hook,
        patch_debug_uart: uart,
    }
}

#[test]
fn bios_new_checks_size_and_metadata() {
    assert!(Bios::new(vec![0u8; 16], Some(metadata(None, None))).is_none());
    assert!(Bios::new(vec![0u8; BIOS_SIZE], None).is_none());
    assert!(Bios::new(vec![0u8; BIOS_SIZE], Some(metadata(Some(BIOS_SIZE as u32 - 3), None))).is_none());
    assert!(Bios::new(vec![0u8; BIOS_SIZE], Some(metadata(None, Some(vec![(BIOS_SIZE as u32, 1)])))).is_none());
    let bios = Bios::new(vec![7u8; BIOS_SIZE], Some(metadata(Some(BIOS_SIZE as u32 - 4), None))).unwrap();
    assert_eq!(bios.load::<Word>(0), 0x0707_0707);
    assert_eq!(bios.metadata().version_major, 4);
}

#[test]
fn bios_patches_write_words() {
    let uart = vec![(0x20, 0xAABB_CCDD), (0x24, 1), (0x20, 0x1122_3344)];
    let mut bios = Bios::new(vec![0u8; BIOS_SIZE], Some(metadata(Some(0x10), Some(uart)))).unwrap();
    assert_eq!(bios.patch_animation_jump_hook(0x1234_5678), Ok(()));
    assert_eq!(bios.load::<Word>(0x10), 0x1234_5678);
    assert_eq!(bios.load::<Byte>(0x13), 0x12);
    assert_eq!(bios.patch_boot_animation(), Ok(()));
    assert_eq!(bios.load::<Word>(0x10), 0);
    assert_eq!(bios.enable_debug_uart(), Ok(()));
    assert_eq!(bios.load::<Word>(0x20), 0x1122_3344);
    assert_eq!(bios.load::<Word>(0x24), 1);
}

fn cp0_with_status(status: u32) -> psx::registers::CP0regs {
    psx::registers::CP0regs {
        index: 0,
        random: 0,
        entry_lo0: 0,
        entry_lo1: 0,
        context: 0,
        pagemask: 0,
        wired: 0,
        reserverd0: 0,
        badvaddr: 0,
        count: 0,
        entry_hi: 0,
        compare: 0,
        status: psx::registers::CP0Status(status),
        cause: 0,
        epc: 0,
        prid: 0,
        config: 0,
        lladdr: 0,
        watch_lo: 0,
        watch_hi: 0,
        xcontext: 0,
        reserved1: 0,
        reserved2: 0,
        debug: 0,
        depc: 0,
        perfcnt: 0,
        errctl: 0,
        cachederr: 0,
        tag_lo: 0,
        tag_hi: 0,
        error_epc: 0,
        desave: 0,
    }
}

#[test]
fn status_value_sums_the_fields() {
    assert_eq!(cp0_with_status(0xFFFF_FFFF).get_status_val(), 282);
    assert_eq!(cp0_with_status(0x0000_0105).get_status_val(), 3);
    assert_eq!(cp0_with_status(0x0000_00E0).get_status_val(), 0);
    let s = psx::registers::CP0Status(0x3000_0018);
    assert_eq!(s.ksu(), 3);
    assert_eq!(s.cu(), 3);
    assert_eq!(s.im(), 0);
}
