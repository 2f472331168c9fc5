use sifli_hal::bluetooth::rom_config::{
    set_bt_tx_power, RomControlBlock, ADDR_A3, ADDR_LETTER, A3_BLOCK_SIZE, BLOCK_SIZE,
    HCPU2LCPU_MB_CH1_BUF_START_ADDR, MAGIC,
};
use sifli_hal::bluetooth::{
    ActConfig, BleConfig, BleInitConfig, ControllerConfig, EmConfig, PatchData, RomConfig,
};
use sifli_hal::ram::Ram;
use sifli_hal::syscfg::ChipRevision;

fn word(bytes: &[u8], off: usize) -> u32 {
    u32::from_le_bytes([bytes[off], bytes[off + 1], bytes[off + 2], bytes[off + 3]])
}

#[test]
fn defaults() {
    let ctrl = ControllerConfig::default();
    assert_eq!(
        ctrl,
        ControllerConfig { lld_prog_delay: 3, xtal_enabled: false, rc_cycle: 20, sleep_enabled: false }
    );
    let rom = RomConfig::default();
    assert_eq!(rom.wdt_time, 10);
    assert_eq!(rom.wdt_clk, 32_768);
    assert!(rom.enable_lxt);
    assert_eq!(rom.act_config, Some(ActConfig::default()));
    let em = rom.em_config.unwrap();
    assert_eq!(em.is_valid, 1);
    assert_eq!(em.em_buf[0], 0x178);
    assert_eq!(em.em_buf[9], 0x133C);
    assert_eq!(em.em_buf[34], 0x5804);
    assert_eq!(&em.em_buf[35..], &[0, 0, 0, 0, 0]);
    assert_eq!(EmConfig::default().em_buf, em.em_buf);
    let act = ActConfig::standard();
    assert_eq!(act.bit_valid, 0b1_1111);
    assert_eq!((act.bt_max_acl, act.ble_max_act, act.ble_max_ral), (7, 6, 3));
    let ble = BleConfig::default();
    assert_eq!(ble.bd_addr, [0x12, 0x34, 0x56, 0x78, 0xAB, 0xCD]);
    assert_eq!(ble.controller, ctrl);
}

#[test]
fn init_config_builders() {
    let cfg = BleInitConfig::new();
    assert!(cfg.patch_a3.is_none() && cfg.patch_letter.is_none() && cfg.firmware.is_none());
    assert!(!cfg.disable_rf_cal && !cfg.skip_frequency_check);
    assert!(!cfg.ble.controller.sleep_enabled);

    let mut em = EmConfig::standard();
    em.em_buf[3] = 0x999;
    let act = ActConfig { bt_max_acl: 2, ..ActConfig::standard() };
    let cfg = BleInitConfig::default()
        .bd_addr([1, 2, 3, 4, 5, 6])
        .sleep_enabled(true)
        .disable_rf_cal(true)
        .skip_frequency_check(true)
        .em_config(em)
        .act_config(act);
    assert_eq!(cfg.ble.bd_addr, [1, 2, 3, 4, 5, 6]);
    assert!(cfg.ble.controller.sleep_enabled);
    assert_eq!(cfg.ble.controller.rc_cycle, 20);
    assert!(cfg.disable_rf_cal);
    assert!(cfg.skip_frequency_check);
    assert_eq!(cfg.rom.em_config.unwrap().em_buf[3], 0x999);
    assert_eq!(cfg.rom.act_config, Some(act));
    assert_eq!(cfg.rom.wdt_time, 10);
    let cfg = cfg.sleep_enabled(false).disable_rf_cal(false);
    assert!(!cfg.ble.controller.sleep_enabled);
    assert!(!cfg.disable_rf_cal);
    assert!(cfg.skip_frequency_check);
}

#[test]
fn patch_data_holds_both_parts() {
    const LIST: &[u8] = &[1, 2];
    const BIN: &[u8] = &[3, 4, 5];
    let p = PatchData { list: LIST, bin: BIN };
    let cfg = BleInitConfig { patch_a3: Some(p), ..BleInitConfig::new() };
    assert_eq!(cfg.patch_a3.unwrap().bin, &[3, 4, 5]);
    assert_eq!(cfg.patch_a3.unwrap().list, &[1, 2]);
}

#[test]
fn block_address_and_size_follow_the_revision() {
    assert_eq!(RomControlBlock::address(ChipRevision::from_revid(3)), ADDR_A3);
    assert_eq!(RomControlBlock::address(ChipRevision::from_revid(7)), ADDR_LETTER);
    assert_eq!(RomControlBlock::address(ChipRevision::from_revid(15)), ADDR_LETTER);
    assert_eq!(RomControlBlock::address(ChipRevision::from_revid(9)), ADDR_A3);
    assert_eq!(RomControlBlock::size(ChipRevision::from_revid(0)), A3_BLOCK_SIZE);
    assert_eq!(RomControlBlock::size(ChipRevision::B4), BLOCK_SIZE);
}

#[test]
fn letter_block_layout() {
    let config = RomConfig { wdt_time: 0x0a0b_0c0d, wdt_clk: 0x8001, ..RomConfig::default() };
    let ctrl = ControllerConfig { lld_prog_delay: 5, xtal_enabled: true, rc_cycle: 33, sleep_enabled: true };
    let mut ram = Ram::new(ADDR_LETTER - 16, BLOCK_SIZE + 32);
    ram.fill(ADDR_LETTER - 16, BLOCK_SIZE + 32, 0xcc);
    sifli_hal::bluetooth::rom_config::write(&config, &ctrl, ChipRevision::A4, &mut ram);

    let all = ram.as_bytes();
    assert!(all[..16].iter().all(|b| *b == 0xcc));
    assert!(all[16 + BLOCK_SIZE..].iter().all(|b| *b == 0xcc));
    let b = &all[16..16 + BLOCK_SIZE];

    assert_eq!(word(b, 0), MAGIC);
    assert_eq!(word(b, 4), 0);
    assert_eq!(word(b, 8), 0);
    assert_eq!(word(b, 12), 0x0a0b_0c0d);
    assert_eq!(word(b, 16), 0xFF);
    assert_eq!(word(b, 20), 0);
    assert_eq!(&b[24..28], &[0x01, 0x80, 1, 0]);
    assert_eq!(&b[28..32], &[0, 0, 0, 0]);

    // Exchange memory layout at offset 32.
    let em = EmConfig::standard();
    assert_eq!(b[32], 1);
    assert_eq!(b[33], 0);
    for (i, entry) in em.em_buf.iter().enumerate() {
        let got = u16::from_le_bytes([b[34 + 2 * i], b[35 + 2 * i]]);
        assert_eq!(got, *entry);
    }
    assert_eq!(&b[114..116], &[0, 0]);

    // Activity limits at offset 116.
    assert_eq!(word(b, 116), 0x1f);
    assert_eq!(&b[120..128], &[7, 0, 6, 3, 0, 0, 0, 0]);
    assert!(b[128..172].iter().all(|x| *x == 0));

    // Controller parameters at offset 172.
    assert_eq!(word(b, 172), (1 << 10) | (1 << 7) | (1 << 6) | (1 << 5) | (1 << 4) | (1 << 2) | (1 << 1));
    assert_eq!(word(b, 176), 0);
    assert_eq!(&b[180..196], &[3, 5, 0, 0, 1, 1, 33, 0, 0, 0, 0, 0, 0, 0, 0, 0]);
    assert!(b[196..204].iter().all(|x| *x == 0));
    assert_eq!(word(b, 204), HCPU2LCPU_MB_CH1_BUF_START_ADDR);
}

#[test]
fn letter_block_without_optional_parts() {
    let config = RomConfig { enable_lxt: false, em_config: None, act_config: None, ..RomConfig::default() };
    let ctrl = ControllerConfig::default();
    let mut ram = Ram::new(ADDR_LETTER, BLOCK_SIZE);
    ram.fill(ADDR_LETTER, BLOCK_SIZE, 0xff);
    sifli_hal::bluetooth::rom_config::write(&config, &ctrl, ChipRevision::B4, &mut ram);
    let b = ram.as_bytes();
    assert_eq!(word(b, 12), 10);
    assert_eq!(&b[24..28], &[0x00, 0x80, 0, 1]);
    assert!(b[28..172].iter().all(|x| *x == 0));
    assert_eq!(&b[180..187], &[3, 3, 0, 0, 0, 0, 20]);
}

#[test]
fn early_revisions_take_the_first_64_bytes() {
    let config = RomConfig::default();
    let ctrl = ControllerConfig::default();
    let mut ram = Ram::new(ADDR_A3, 256);
    ram.fill(ADDR_A3, 256, 0x5a);
    sifli_hal::bluetooth::rom_config::write(&config, &ctrl, ChipRevision::from_revid(3), &mut ram);
    let b = ram.as_bytes();
    assert_eq!(word(b, 0), 0x4545_7878);
    assert_eq!(word(b, 12), 10);
    assert_eq!(word(b, 16), 0xFF);
    assert_eq!(&b[24..28], &[0x00, 0x80, 1, 0]);
    assert!(b[28..64].iter().all(|x| *x == 0));
    assert!(b[64..].iter().all(|x| *x == 0x5a));
}

#[test]
fn transmit_power_word() {
    let mut ram = Ram::new(ADDR_LETTER, BLOCK_SIZE);
    sifli_hal::bluetooth::rom_config::write(&RomConfig::default(), &ControllerConfig::default(), ChipRevision::A4, &mut ram);
    let before = ram.as_bytes().to_vec();
    set_bt_tx_power(0x1122_3344, ChipRevision::A4, &mut ram);
    let after = ram.as_bytes();
    assert_eq!(&after[20..24], &[0x44, 0x33, 0x22, 0x11]);
    assert_eq!(&after[..20], &before[..20]);
    assert_eq!(&after[24..], &before[24..]);
}
