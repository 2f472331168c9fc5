//! The ROM configuration block.
//!
//! Before the co-processor is released from reset, its ROM is handed a
//! block of parameters at a fixed address of the shared memory. The block
//! has a fixed layout:
//!
//! | offset | size | field |
//! |---|---|---|
//! | 0 | 4 | magic |
//! | 12 | 4 | watchdog timeout |
//! | 16 | 4 | watchdog status |
//! | 20 | 4 | transmit power |
//! | 24 | 2 | watchdog clock |
//! | 26 | 1 | crystal enabled |
//! | 27 | 1 | RC calibration in the low-power core |
//! | 32 | 82 | exchange memory layout (letter series) |
//! | 116 | 12 | activity limits (letter series) |
//! | 172 | 24 | controller parameters (letter series) |
//! | 204 | 4 | address of the first mailbox buffer (letter series) |
//!
//! Words are stored least significant byte first; every byte that no field
//! covers is zero. Early revisions take the first 64 bytes only.

use crate::bluetooth::config::{
    ActConfig, ControllerConfig, EmConfig, RomConfig, ACT_ROM_OFFSET, EM_ROM_OFFSET,
};
use crate::endian::{byte_of, le_byte};
use crate::ram::Ram;
use crate::syscfg::ChipRevision;
use vstd::prelude::*;

verus! {

/// The block's magic word.
pub const MAGIC: u32 = 0x4545_7878;

/// Address of the block on A3 and earlier revisions.
pub const ADDR_A3: usize = 0x2040_FDC0;

/// Address of the block on the letter series.
pub const ADDR_LETTER: usize = 0x2040_2A00;

/// Address of the buffer of the first mailbox channel from the main core
/// to the co-processor.
pub const HCPU2LCPU_MB_CH1_BUF_START_ADDR: u32 = 0x2007_FE00;

/// Size of the block on the letter series.
pub const BLOCK_SIZE: usize = 208;

/// Size of the block on A3 and earlier revisions.
pub const A3_BLOCK_SIZE: usize = 0x40;

/// Offset of the transmit power word.
pub const BT_TXPWR_OFFSET: usize = 20;

/// Offset of the controller parameters.
pub const BT_CONFIG_OFFSET: usize = 172;

/// Size of the controller parameters.
pub const BT_CONFIG_SIZE: usize = 24;

/// Offset of the mailbox buffer address.
pub const IPC_ADDR_OFFSET: usize = 204;

/// Size of the exchange memory layout.
pub const EM_SIZE: usize = 82;

/// Size of the activity limits.
pub const ACT_SIZE: usize = 12;

/// The valid bits of the controller parameters that the block sets:
/// bits 1, 2, 4, 5, 6, 7 and 10.
pub const BT_BIT_VALID: u32 = 0x4F6;

/// The watchdog status that the block starts with.
pub const WDT_STATUS: u32 = 0xFF;

/// A flag as a byte.
pub open spec fn flag(b: bool) -> u8 {
    if b {
        1
    } else {
        0
    }
}

/// Byte `k` of the block's first 28 bytes.
pub open spec fn header_byte(config: RomConfig, k: int) -> u8 {
    if k < 4 {
        le_byte(MAGIC, k)
    } else if 12 <= k < 16 {
        le_byte(config.wdt_time, k - 12)
    } else if 16 <= k < 20 {
        le_byte(WDT_STATUS, k - 16)
    } else if 24 <= k < 26 {
        le_byte(config.wdt_clk as u32, k - 24)
    } else if k == 26 {
        flag(config.enable_lxt)
    } else if k == 27 {
        flag(!config.enable_lxt)
    } else {
        0
    }
}

/// Byte `k` of the controller parameters.
pub open spec fn bt_byte(ctrl: ControllerConfig, k: int) -> u8 {
    if k < 4 {
        le_byte(BT_BIT_VALID, k)
    } else if k == 8 {
        0x03
    } else if k == 9 {
        ctrl.lld_prog_delay
    } else if k == 12 {
        flag(ctrl.sleep_enabled)
    } else if k == 13 {
        flag(ctrl.xtal_enabled)
    } else if k == 14 {
        ctrl.rc_cycle
    } else {
        0
    }
}

/// Byte `k` of the exchange memory layout: the validity flag, a byte of
/// padding, then the offset table.
pub open spec fn em_byte(em: EmConfig, k: int) -> u8 {
    if k == 0 {
        em.is_valid
    } else if k == 1 {
        0
    } else {
        le_byte(em.em_buf@[(k - 2) / 2] as u32, (k - 2) % 2)
    }
}

/// Byte `k` of the activity limits.
pub open spec fn act_byte(act: ActConfig, k: int) -> u8 {
    if k < 4 {
        le_byte(act.bit_valid, k)
    } else if k == 4 {
        act.bt_max_acl
    } else if k == 5 {
        act.bt_max_sco
    } else if k == 6 {
        act.ble_max_act
    } else if k == 7 {
        act.ble_max_ral
    } else if k == 8 {
        act.ble_max_iso
    } else if k == 9 {
        act.ble_rx_desc
    } else if k == 10 {
        act.bt_rx_desc
    } else {
        act.bt_name_len
    }
}

/// Byte `k` of the block for the given parameters. The parts after the
/// first 28 bytes are filled on the letter series only, and the two
/// optional parts only where they are given.
pub open spec fn block_byte(config: RomConfig, ctrl: ControllerConfig, letter: bool, k: int) -> u8 {
    if k < 28 {
        header_byte(config, k)
    } else if !letter {
        0
    } else if EM_ROM_OFFSET <= k < EM_ROM_OFFSET + EM_SIZE {
        match config.em_config {
            Some(em) => em_byte(em, k - EM_ROM_OFFSET),
            None => 0,
        }
    } else if ACT_ROM_OFFSET <= k < ACT_ROM_OFFSET + ACT_SIZE {
        match config.act_config {
            Some(act) => act_byte(act, k - ACT_ROM_OFFSET),
            None => 0,
        }
    } else if BT_CONFIG_OFFSET <= k < BT_CONFIG_OFFSET + BT_CONFIG_SIZE {
        bt_byte(ctrl, k - BT_CONFIG_OFFSET)
    } else if IPC_ADDR_OFFSET <= k < IPC_ADDR_OFFSET + 4 {
        le_byte(HCPU2LCPU_MB_CH1_BUF_START_ADDR, k - IPC_ADDR_OFFSET)
    } else {
        0
    }
}

/// The block's address on a chip of the given revision.
pub open spec fn block_address(revision: ChipRevision) -> usize {
    if revision.letter_series() {
        ADDR_LETTER
    } else {
        ADDR_A3
    }
}

/// The block's size on a chip of the given revision.
pub open spec fn block_size(revision: ChipRevision) -> usize {
    if revision.letter_series() {
        BLOCK_SIZE
    } else {
        A3_BLOCK_SIZE
    }
}

/// The ROM configuration block.
pub struct RomControlBlock;

impl RomControlBlock {
    /// The block's address on a chip of the given revision.
    pub fn address(revision: ChipRevision) -> (r: usize)
        ensures
            r == block_address(revision),
    {
        if revision.is_letter_series() {
            ADDR_LETTER
        } else {
            ADDR_A3
        }
    }

    /// The block's size on a chip of the given revision.
    pub fn size(revision: ChipRevision) -> (r: usize)
        ensures
            r == block_size(revision),
    {
        if revision.is_letter_series() {
            BLOCK_SIZE
        } else {
            A3_BLOCK_SIZE
        }
    }
}

fn flag_byte(b: bool) -> (r: u8)
    ensures
        r == flag(b),
{
    if b {
        1
    } else {
        0
    }
}

fn header_at(config: &RomConfig, k: usize) -> (r: u8)
    requires
        k < 28,
    ensures
        r == header_byte(*config, k as int),
{
    if k < 4 {
        byte_of(MAGIC, k as u32)
    } else if 12 <= k && k < 16 {
        byte_of(config.wdt_time, (k - 12) as u32)
    } else if 16 <= k && k < 20 {
        byte_of(WDT_STATUS, (k - 16) as u32)
    } else if 24 <= k && k < 26 {
        byte_of(config.wdt_clk as u32, (k - 24) as u32)
    } else if k == 26 {
        flag_byte(config.enable_lxt)
    } else if k == 27 {
        flag_byte(!config.enable_lxt)
    } else {
        0
    }
}

fn bt_at(ctrl: &ControllerConfig, k: usize) -> (r: u8)
    requires
        k < 24,
    ensures
        r == bt_byte(*ctrl, k as int),
{
    if k < 4 {
        byte_of(BT_BIT_VALID, k as u32)
    } else if k == 8 {
        0x03
    } else if k == 9 {
        ctrl.lld_prog_delay
    } else if k == 12 {
        flag_byte(ctrl.sleep_enabled)
    } else if k == 13 {
        flag_byte(ctrl.xtal_enabled)
    } else if k == 14 {
        ctrl.rc_cycle
    } else {
        0
    }
}

fn em_at(em: &EmConfig, k: usize) -> (r: u8)
    requires
        k < 82,
    ensures
        r == em_byte(*em, k as int),
{
    if k == 0 {
        em.is_valid
    } else if k == 1 {
        0
    } else {
        let entry: u16 = em.em_buf[(k - 2) / 2];
        byte_of(entry as u32, ((k - 2) % 2) as u32)
    }
}

fn act_at(act: &ActConfig, k: usize) -> (r: u8)
    requires
        k < 12,
    ensures
        r == act_byte(*act, k as int),
{
    if k < 4 {
        byte_of(act.bit_valid, k as u32)
    } else if k == 4 {
        act.bt_max_acl
    } else if k == 5 {
        act.bt_max_sco
    } else if k == 6 {
        act.ble_max_act
    } else if k == 7 {
        act.ble_max_ral
    } else if k == 8 {
        act.ble_max_iso
    } else if k == 9 {
        act.ble_rx_desc
    } else if k == 10 {
        act.bt_rx_desc
    } else {
        act.bt_name_len
    }
}

fn block_at(config: &RomConfig, ctrl: &ControllerConfig, letter: bool, k: usize) -> (r: u8)
    requires
        k < BLOCK_SIZE,
    ensures
        r == block_byte(*config, *ctrl, letter, k as int),
{
    if k < 28 {
        header_at(config, k)
    } else if !letter {
        0
    } else if EM_ROM_OFFSET <= k && k < EM_ROM_OFFSET + EM_SIZE {
        match &config.em_config {
            Some(em) => em_at(em, k - EM_ROM_OFFSET),
            None => 0,
        }
    } else if ACT_ROM_OFFSET <= k && k < ACT_ROM_OFFSET + ACT_SIZE {
        match &config.act_config {
            Some(act) => act_at(act, k - ACT_ROM_OFFSET),
            None => 0,
        }
    } else if BT_CONFIG_OFFSET <= k && k < BT_CONFIG_OFFSET + BT_CONFIG_SIZE {
        bt_at(ctrl, k - BT_CONFIG_OFFSET)
    } else if IPC_ADDR_OFFSET <= k && k < IPC_ADDR_OFFSET + 4 {
        byte_of(HCPU2LCPU_MB_CH1_BUF_START_ADDR, (k - IPC_ADDR_OFFSET) as u32)
    } else {
        0
    }
}

/// Writes the ROM configuration block for a chip of the given revision.
///
/// Every byte of the block is set as the layout says; every byte outside
/// the block is left as it was.
pub fn write(config: &RomConfig, ctrl: &ControllerConfig, revision: ChipRevision, ram: &mut Ram)
    requires
        old(ram).covers(block_address(revision) as int, block_size(revision) as int),
    ensures
        final(ram).same_extent(old(ram)),
        forall|a: int|
            old(ram).covers(a, 1) ==> #[trigger] final(ram).byte_at(a) == (if block_address(revision)
                <= a < block_address(revision) + block_size(revision) {
                block_byte(*config, *ctrl, revision.letter_series(), a - block_address(revision))
            } else {
                old(ram).byte_at(a)
            }),
{
    let base: usize = RomControlBlock::address(revision);
    let size: usize = RomControlBlock::size(revision);
    let is_letter: bool = revision.is_letter_series();
    let ghost before = *ram;
    let mut k: usize = 0;
    while k < size
        invariant
            k <= size <= BLOCK_SIZE,
            base == block_address(revision),
            size == block_size(revision),
            is_letter == revision.letter_series(),
            ram.same_extent(&before),
            before.covers(base as int, size as int),
            forall|a: int|
                before.covers(a, 1) ==> #[trigger] ram.byte_at(a) == (if base <= a < base + k {
                    block_byte(*config, *ctrl, is_letter, a - base)
                } else {
                    before.byte_at(a)
                }),
        decreases size - k,
    {
        let value: u8 = block_at(config, ctrl, is_letter, k);
        let _len: usize = ram.len();
        ram.write(base + k, value);
        k = k + 1;
    }
}

/// Writes the transmit power word into the block of a chip of the given
/// revision, and leaves every other byte as it was.
pub fn set_bt_tx_power(tx_pwr: u32, revision: ChipRevision, ram: &mut Ram)
    requires
        old(ram).covers(block_address(revision) + BT_TXPWR_OFFSET, 4),
    ensures
        final(ram).same_extent(old(ram)),
        forall|a: int|
            old(ram).covers(a, 1) ==> #[trigger] final(ram).byte_at(a) == (if block_address(revision)
                + BT_TXPWR_OFFSET <= a < block_address(revision) + BT_TXPWR_OFFSET + 4 {
                le_byte(tx_pwr, a - block_address(revision) - BT_TXPWR_OFFSET)
            } else {
                old(ram).byte_at(a)
            }),
{
    let base: usize = RomControlBlock::address(revision);
    ram.write_u32(base + BT_TXPWR_OFFSET, tx_pwr);
}

} // verus!
