use sifli_hal::patch::{
    can_install, install, Error, A3_CODE_START, A3_RECORD_ADDR, A3_TOTAL_SIZE, LETTER_BUF_START,
    LETTER_CODE_SIZE, LETTER_CODE_START, LETTER_ENTRY_COUNT, LETTER_MAGIC,
};
use sifli_hal::ram::Ram;
use sifli_hal::syscfg::{ChipRevision, PatchType, Syscfg};

const WINDOW_BASE: usize = 0x2040_5000;
const WINDOW_SIZE: usize = 0x3000;

fn window() -> Ram {
    Ram::new(WINDOW_BASE, WINDOW_SIZE)
}

#[test]
fn from_revid_classifies_every_byte() {
    for revid in 0..=255u8 {
        let rev = ChipRevision::from_revid(revid);
        let valid = matches!(revid, 0 | 1 | 2 | 3 | 7 | 15);
        assert_eq!(rev.is_valid(), valid);
        assert_eq!(rev.raw_value(), revid);
        assert_eq!(rev.patch_type().is_some(), valid);
        match revid {
            0..=3 => {
                assert_eq!(rev, ChipRevision::A3OrEarlier(revid));
                assert_eq!(rev.patch_type(), Some(PatchType::A3));
                assert!(!rev.is_letter_series());
            }
            7 => {
                assert_eq!(rev, ChipRevision::A4);
                assert_eq!(rev.patch_type(), Some(PatchType::LetterSeries));
                assert!(rev.is_letter_series());
            }
            15 => {
                assert_eq!(rev, ChipRevision::B4);
                assert_eq!(rev.patch_type(), Some(PatchType::LetterSeries));
                assert!(rev.is_letter_series());
            }
            _ => {
                assert_eq!(rev, ChipRevision::Invalid(revid));
                assert_eq!(rev.patch_type(), None);
                assert!(!rev.is_letter_series());
            }
        }
    }
}

#[test]
fn revision_names() {
    assert_eq!(ChipRevision::from_revid(0).name(), "Pre-A3 (ES v0.0)");
    assert_eq!(ChipRevision::from_revid(1).name(), "Pre-A3 (ES v0.1)");
    assert_eq!(ChipRevision::from_revid(2).name(), "Pre-A3 (ES v0.2)");
    assert_eq!(ChipRevision::from_revid(3).name(), "A3");
    assert_eq!(ChipRevision::A3OrEarlier(9).name(), "A3 or Earlier");
    assert_eq!(ChipRevision::from_revid(7).name(), "A4 (Letter Series)");
    assert_eq!(ChipRevision::from_revid(15).name(), "B4 (Letter Series)");
    assert_eq!(ChipRevision::from_revid(4).name(), "Invalid");
}

#[test]
fn syscfg_splits_the_id_word() {
    let sig = Syscfg::read(0x5201_0A07);
    assert_eq!(sig.sid, 0x52);
    assert_eq!(sig.cid, 0x01);
    assert_eq!(sig.pid, 0x0A);
    assert_eq!(sig.revid, 0x07);
    assert_eq!(sig.revision(), ChipRevision::A4);
    assert_eq!(sig.idr_raw(), 0x5201_0A07);
}

#[test]
fn syscfg_joins_the_fields() {
    let sig = Syscfg { revid: 0x0F, pid: 0x22, cid: 0x33, sid: 0x44 };
    assert_eq!(sig.idr_raw(), 0x4433_220F);
    assert_eq!(Syscfg::read(sig.idr_raw()), sig);
}

#[test]
fn end_to_end_a3_install() {
    let rev = ChipRevision::from_revid(0x03);
    assert_eq!(rev, ChipRevision::A3OrEarlier(3));
    assert!(rev.is_valid());
    assert_eq!(rev.patch_type(), Some(PatchType::A3));

    let list: Vec<u8> = (0..100u32).map(|i| (i as u8) ^ 0x5a).collect();
    let bin: Vec<u8> = (0..200u32).map(|i| (i * 7 + 1) as u8).collect();
    let mut ram = window();
    assert!(can_install(rev, &list, &ram));
    assert_eq!(install(rev, &list, &bin, &mut ram), Ok(()));

    for i in 0..200 {
        assert_eq!(ram.read(A3_CODE_START + i), bin[i]);
    }
    for i in 200..A3_TOTAL_SIZE {
        assert_eq!(ram.read(A3_CODE_START + i), 0);
    }
    for i in 0..100 {
        assert_eq!(ram.read(A3_RECORD_ADDR + i), list[i]);
    }
}

#[test]
fn a3_install_clears_what_the_code_region_held() {
    let rev = ChipRevision::from_revid(1);
    let mut ram = window();
    ram.fill(WINDOW_BASE, WINDOW_SIZE, 0xee);
    assert_eq!(install(rev, &[1, 2, 3], &[9, 8], &mut ram), Ok(()));
    assert_eq!(ram.read(A3_CODE_START), 9);
    assert_eq!(ram.read(A3_CODE_START + 1), 8);
    assert_eq!(ram.read(A3_CODE_START + 2), 0);
    assert_eq!(ram.read(A3_CODE_START + A3_TOTAL_SIZE - 1), 0);
    assert_eq!(ram.read(A3_RECORD_ADDR + 2), 3);
    assert_eq!(ram.read(A3_RECORD_ADDR + 3), 0xee);
    assert_eq!(ram.read(A3_RECORD_ADDR - 1), 0xee);
}

#[test]
fn letter_install_writes_header_and_code() {
    let rev = ChipRevision::from_revid(0x0F);
    let bin: Vec<u8> = (0..64u32).map(|i| (255 - i) as u8).collect();
    let mut ram = window();
    ram.fill(WINDOW_BASE, WINDOW_SIZE, 0x11);
    assert_eq!(install(rev, &[0xaa], &bin, &mut ram), Ok(()));

    let word = |ram: &Ram, addr: usize| -> u32 {
        u32::from_le_bytes([
            ram.read(addr),
            ram.read(addr + 1),
            ram.read(addr + 2),
            ram.read(addr + 3),
        ])
    };
    assert_eq!(word(&ram, LETTER_BUF_START), LETTER_MAGIC);
    assert_eq!(&ram.as_bytes()[0..4], b"PACH");
    assert_eq!(word(&ram, LETTER_BUF_START + 4), LETTER_ENTRY_COUNT);
    assert_eq!(word(&ram, LETTER_BUF_START + 8), (LETTER_CODE_START as u32) | 1);
    for i in 0..64 {
        assert_eq!(ram.read(LETTER_CODE_START + i), bin[i]);
    }
    for i in 64..LETTER_CODE_SIZE {
        assert_eq!(ram.read(LETTER_CODE_START + i), 0);
    }
}

#[test]
fn oversized_code_is_rejected_without_writes() {
    let mut ram = window();
    ram.fill(WINDOW_BASE, WINDOW_SIZE, 0x77);
    let before: Vec<u8> = ram.as_bytes().to_vec();

    let bin = vec![1u8; A3_TOTAL_SIZE + 1];
    assert_eq!(
        install(ChipRevision::from_revid(2), &[1], &bin, &mut ram),
        Err(Error::CodeTooLarge { size_bytes: A3_TOTAL_SIZE + 1, max_bytes: A3_TOTAL_SIZE })
    );
    assert_eq!(ram.as_bytes(), &before[..]);

    let bin = vec![1u8; LETTER_CODE_SIZE + 1];
    assert_eq!(
        install(ChipRevision::from_revid(7), &[1], &bin, &mut ram),
        Err(Error::CodeTooLarge { size_bytes: LETTER_CODE_SIZE + 1, max_bytes: LETTER_CODE_SIZE })
    );
    assert_eq!(ram.as_bytes(), &before[..]);
}

#[test]
fn the_two_capacities_differ() {
    assert_ne!(A3_TOTAL_SIZE, LETTER_CODE_SIZE);
    let mut ram = window();
    let bin = vec![3u8; A3_TOTAL_SIZE];
    assert_eq!(install(ChipRevision::from_revid(0), &[1], &bin, &mut ram), Ok(()));
    let bin = vec![3u8; LETTER_CODE_SIZE];
    assert_eq!(install(ChipRevision::A4, &[1], &bin, &mut ram), Ok(()));
}

#[test]
fn empty_inputs_are_rejected_before_the_revision() {
    let mut ram = window();
    let invalid = ChipRevision::from_revid(0x55);
    assert_eq!(install(invalid, &[], &[1], &mut ram), Err(Error::EmptyRecord));
    assert_eq!(install(invalid, &[], &[], &mut ram), Err(Error::EmptyRecord));
    assert_eq!(install(invalid, &[1], &[], &mut ram), Err(Error::EmptyCode));
    assert_eq!(
        install(invalid, &[1], &[1], &mut ram),
        Err(Error::InvalidRevision { revid: 0x55 })
    );
    assert!(ram.as_bytes().iter().all(|b| *b == 0));
}

#[test]
fn can_install_needs_the_whole_layout() {
    let small = Ram::new(A3_CODE_START, A3_TOTAL_SIZE);
    assert!(!can_install(ChipRevision::from_revid(3), &[1, 2], &small));
    assert!(!can_install(ChipRevision::A4, &[1, 2], &small));
    let whole = window();
    assert!(can_install(ChipRevision::from_revid(3), &[1, 2], &whole));
    assert!(can_install(ChipRevision::B4, &[1, 2], &whole));
}

#[test]
fn ram_writes_touch_only_their_range() {
    let mut ram = Ram::new(0x1000, 16);
    assert_eq!(ram.base_address(), 0x1000);
    assert_eq!(ram.len(), 16);
    ram.write_u32(0x1004, 0x0403_0201);
    ram.write_u16(0x100a, 0xbbaa);
    ram.write(0x100f, 0xff);
    assert_eq!(
        ram.as_bytes(),
        &[0, 0, 0, 0, 1, 2, 3, 4, 0, 0, 0xaa, 0xbb, 0, 0, 0, 0xff]
    );
    assert!(ram.holds(0x1000, 16));
    assert!(!ram.holds(0x1000, 17));
    assert!(!ram.holds(0xfff, 1));
    assert!(ram.holds(0x1010, 0));
}
