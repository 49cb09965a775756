use riscv_csr::hart::flush_tlb;
use riscv_csr::hart::Hart;
use riscv_csr::satp::decompose_satp;
use riscv_csr::satp::make_satp;
use riscv_csr::satp::read_satp;
use riscv_csr::satp::write_satp;
use riscv_csr::satp::SatpField;
use riscv_csr::satp::SatpMode;
use riscv_csr::satp::PAGE_OFFSET_BITS;
use riscv_csr::satp::SATP_FRAME_MASK;
use riscv_csr::satp::SATP_MODE_SHIFT;

#[test]
fn satp_layout_constants() {
    assert_eq!(PAGE_OFFSET_BITS, 12);
    assert_eq!(SATP_MODE_SHIFT, 60);
    assert_eq!(SATP_FRAME_MASK, (1u64 << 52) - 1);
}

#[test]
fn satp_mode_patterns() {
    assert_eq!(SatpMode::Bare.to_u64(), 0);
    assert_eq!(SatpMode::Sv39.to_u64(), 0x8000_0000_0000_0000);
    assert_eq!(SatpMode::Sv48.to_u64(), 0x9000_0000_0000_0000);
}

#[test]
fn make_satp_sv39_has_mode_on_top_and_frame_number_below() {
    let satp = make_satp(0x80010000, SatpMode::Sv39);
    assert_eq!(satp >> 60, SatpMode::Sv39.to_u64() >> 60);
    assert_eq!(satp >> 60, 8);
    assert_eq!(satp & ((1u64 << 60) - 1), 0x80010000 >> 12);
    assert_eq!(satp, 0x8000_0000_0008_0010);
}

#[test]
fn make_satp_drops_the_bits_inside_the_page() {
    assert_eq!(make_satp(0x8001_0FFF, SatpMode::Bare), 0x8_0010);
    assert_eq!(make_satp(0, SatpMode::Sv48), 0x9000_0000_0000_0000);
}

#[test]
fn decompose_gives_back_mode_and_aligned_base() {
    let modes = [SatpMode::Bare, SatpMode::Sv39, SatpMode::Sv48];
    let bases: [usize; 6] =
        [0, 0x1000, 0x8001_0000, 0x87FF_F000, 0x00FF_FFFF_FFFF_F000, 0xFFFF_FFFF_FFFF_F000];
    for mode in modes {
        for base in bases {
            let satp = make_satp(base, mode);
            assert_eq!(decompose_satp(satp), Some((mode, base as u64)), "{mode:?} {base:#x}");
        }
    }
}

#[test]
fn composition_tells_apart_different_inputs() {
    let modes = [SatpMode::Bare, SatpMode::Sv39, SatpMode::Sv48];
    let bases: [usize; 3] = [0x8000_0000, 0x8000_1000, 0x8001_0000];
    let mut words = Vec::new();
    for mode in modes {
        for base in bases {
            words.push(make_satp(base, mode));
        }
    }
    for (i, a) in words.iter().enumerate() {
        for (j, b) in words.iter().enumerate() {
            assert_eq!(a == b, i == j);
        }
    }
}

#[test]
fn decompose_refuses_a_mode_tag_that_names_no_mode() {
    for tag in [1u64, 2, 3, 4, 5, 6, 7, 10, 11, 12, 13, 14, 15] {
        assert_eq!(decompose_satp((tag << 60) | 0x8_0010), None, "tag {tag}");
    }
}

#[test]
fn decompose_reads_only_the_frame_bits_for_the_base() {
    let satp = (8u64 << 60) | (0xABu64 << 52) | 0x8_0010;
    assert_eq!(decompose_satp(satp), Some((SatpMode::Sv39, 0x8001_0000)));
}

#[test]
fn write_satp_then_read_round_trips() {
    let mut hart = Hart::new(0);
    let satp = make_satp(0x8001_0000, SatpMode::Sv39);
    write_satp(&mut hart, satp);
    assert_eq!(read_satp(&hart), satp);
}

#[test]
fn translation_is_stale_after_a_satp_update_until_the_flush() {
    let mut hart = Hart::new(0);
    assert!(hart.translation_current());
    write_satp(&mut hart, make_satp(0x8001_0000, SatpMode::Sv39));
    assert!(!hart.translation_current());
    flush_tlb(&mut hart);
    assert!(hart.translation_current());
    assert_eq!(read_satp(&hart), 0x8000_0000_0008_0010);
    write_satp(&mut hart, make_satp(0x8002_0000, SatpMode::Sv39));
    assert!(!hart.translation_current());
    write_satp(&mut hart, make_satp(0x8001_0000, SatpMode::Sv39));
    assert!(hart.translation_current());
}
