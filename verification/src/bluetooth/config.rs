//! Configuration values: ROM parameters, exchange memory layout, activity
//! limits and the controller's run-time parameters.

use vstd::prelude::*;

verus! {

/// Run-time parameters of the BLE controller.
#[derive(Debug, Clone, Copy, PartialEq, Eq, Structural)]
pub struct ControllerConfig {
    /// Programming delay of the link layer driver, in 625 us slots.
    pub lld_prog_delay: u8,
    /// Whether the external 32 kHz crystal times the controller's sleep.
    pub xtal_enabled: bool,
    /// RC oscillator cycle count for the sleep timing.
    pub rc_cycle: u8,
    /// Whether the controller sleeps between radio events.
    pub sleep_enabled: bool,
}

impl ControllerConfig {
    /// The parameters that a controller starts with.
    pub open spec fn initial() -> ControllerConfig {
        ControllerConfig { lld_prog_delay: 3, xtal_enabled: false, rc_cycle: 20, sleep_enabled: false }
    }
}

impl Default for ControllerConfig {
    fn default() -> (r: ControllerConfig)
        ensures
            r == ControllerConfig::initial(),
    {
        ControllerConfig { lld_prog_delay: 3, xtal_enabled: false, rc_cycle: 20, sleep_enabled: false }
    }
}

/// Number of entries of the exchange memory offset table.
pub const EM_MAX_NUM: usize = 40;

/// Offset of the exchange memory configuration within the ROM
/// configuration block.
pub const EM_ROM_OFFSET: usize = 32;

/// Offset of the activity configuration within the ROM configuration
/// block.
pub const ACT_ROM_OFFSET: usize = 116;

/// Layout of the BLE exchange memory.
#[derive(Debug, Clone, Copy)]
pub struct EmConfig {
    /// 1 when the table is valid, 0 to use the ROM's own.
    pub is_valid: u8,
    /// The table of buffer offsets.
    pub em_buf: [u16; 40],
}

impl EmConfig {
    /// The layout that the ROM is given unless another is set.
    pub fn standard() -> (r: EmConfig)
        ensures
            r.is_valid == 1,
            r.em_buf@.len() == EM_MAX_NUM,
            r.em_buf@[0] == 0x178,
            r.em_buf@[34] == 0x5804,
            forall|i: int| 35 <= i < 40 ==> r.em_buf@[i] == 0,
            forall|i: int, j: int| 0 <= i <= j < 35 ==> r.em_buf@[i] <= r.em_buf@[j],
    {
        EmConfig {
            is_valid: 1,
            em_buf: [
                0x178,
                0x178,
                0x740,
                0x7A0,
                0x810,
                0x880,
                0xA00,
                0xBB0,
                0xD48,
                0x133C,
                0x13A4,
                0x19BC,
                0x21BC,
                0x21BC,
                0x21BC,
                0x21BC,
                0x21BC,
                0x21BC,
                0x21BC,
                0x21BC,
                0x263C,
                0x265C,
                0x2734,
                0x2784,
                0x28D4,
                0x28E8,
                0x28FC,
                0x29EC,
                0x29FC,
                0x2BBC,
                0x2BD8,
                0x3BE8,
                0x5804,
                0x5804,
                0x5804,
                0,
                0,
                0,
                0,
                0,
            ],
        }
    }
}

/// Limits of the BLE and BT activities.
#[derive(Debug, Clone, Copy, PartialEq, Eq, Structural)]
pub struct ActConfig {
    /// One bit for each of the limits below that is valid.
    pub bit_valid: u32,
    pub bt_max_acl: u8,
    pub bt_max_sco: u8,
    pub ble_max_act: u8,
    pub ble_max_ral: u8,
    pub ble_max_iso: u8,
    pub ble_rx_desc: u8,
    pub bt_rx_desc: u8,
    pub bt_name_len: u8,
}

impl ActConfig {
    /// The limits that the ROM is given unless others are set: the first
    /// five are valid.
    pub open spec fn initial() -> ActConfig {
        ActConfig {
            bit_valid: 0x1f,
            bt_max_acl: 7,
            bt_max_sco: 0,
            ble_max_act: 6,
            ble_max_ral: 3,
            ble_max_iso: 0,
            ble_rx_desc: 0,
            bt_rx_desc: 0,
            bt_name_len: 0,
        }
    }

    /// The limits that the ROM is given unless others are set.
    pub fn standard() -> (r: ActConfig)
        ensures
            r == ActConfig::initial(),
    {
        ActConfig {
            bit_valid: 0x1f,
            bt_max_acl: 7,
            bt_max_sco: 0,
            ble_max_act: 6,
            ble_max_ral: 3,
            ble_max_iso: 0,
            ble_rx_desc: 0,
            bt_rx_desc: 0,
            bt_name_len: 0,
        }
    }
}

impl Default for ActConfig {
    fn default() -> (r: ActConfig)
        ensures
            r == ActConfig::initial(),
    {
        ActConfig::standard()
    }
}

impl Default for EmConfig {
    fn default() -> (r: EmConfig)
        ensures
            r.is_valid == 1,
            r.em_buf@.len() == EM_MAX_NUM,
    {
        EmConfig::standard()
    }
}

/// Parameters that the ROM reads when the co-processor starts.
#[derive(Debug, Clone, Copy)]
pub struct RomConfig {
    /// Watchdog timeout in seconds.
    pub wdt_time: u32,
    /// Watchdog clock in hertz.
    pub wdt_clk: u16,
    /// Whether the external low-speed crystal is used.
    pub enable_lxt: bool,
    /// Exchange memory layout; letter series only.
    pub em_config: Option<EmConfig>,
    /// Activity limits; letter series only.
    pub act_config: Option<ActConfig>,
}

impl Default for RomConfig {
    fn default() -> (r: RomConfig)
        ensures
            r.wdt_time == 10,
            r.wdt_clk == 32_768,
            r.enable_lxt,
            r.em_config is Some,
            r.act_config == Some(ActConfig::initial()),
    {
        RomConfig {
            wdt_time: 10,
            wdt_clk: 32_768,
            enable_lxt: true,
            em_config: Some(EmConfig::standard()),
            act_config: Some(ActConfig::standard()),
        }
    }
}

/// The controller's run-time parameters and its public address.
#[derive(Debug, Clone, Copy)]
pub struct BleConfig {
    /// Run-time parameters of the controller.
    pub controller: ControllerConfig,
    /// The public device address.
    pub bd_addr: [u8; 6],
}

impl BleConfig {
    /// The configuration that a controller starts with.
    pub fn new() -> (r: BleConfig)
        ensures
            r.controller == ControllerConfig::initial(),
            r.bd_addr@ == seq![0x12u8, 0x34u8, 0x56u8, 0x78u8, 0xABu8, 0xCDu8],
    {
        let r = BleConfig {
            controller: ControllerConfig {
                lld_prog_delay: 3,
                xtal_enabled: false,
                rc_cycle: 20,
                sleep_enabled: false,
            },
            bd_addr: [0x12, 0x34, 0x56, 0x78, 0xAB, 0xCD],
        };
        assert(r.bd_addr@ =~= seq![0x12u8, 0x34u8, 0x56u8, 0x78u8, 0xABu8, 0xCDu8]);
        r
    }
}

impl Default for BleConfig {
    fn default() -> (r: BleConfig)
        ensures
            r.controller == ControllerConfig::initial(),
            r.bd_addr@ == seq![0x12u8, 0x34u8, 0x56u8, 0x78u8, 0xABu8, 0xCDu8],
    {
        BleConfig::new()
    }
}

/// A patch: its entry list and its code.
#[derive(Debug, Clone, Copy)]
pub struct PatchData {
    /// The entry list.
    pub list: &'static [u8],
    /// The code.
    pub bin: &'static [u8],
}

/// Everything that starting the Bluetooth controller needs.
#[derive(Debug, Clone, Copy)]
pub struct BleInitConfig {
    /// ROM parameters.
    pub rom: RomConfig,
    /// Run-time parameters and address.
    pub ble: BleConfig,
    /// Patch for A3 and earlier revisions.
    pub patch_a3: Option<PatchData>,
    /// Patch for the letter series.
    pub patch_letter: Option<PatchData>,
    /// Firmware image, needed by A3 and earlier revisions.
    pub firmware: Option<&'static [u8]>,
    /// Whether the RF calibration is left out.
    pub disable_rf_cal: bool,
    /// Whether the bus clock check before loading the image is left out.
    pub skip_frequency_check: bool,
}

impl BleInitConfig {
    /// A configuration with the standard ROM and controller parameters, no
    /// patch, no firmware and no option set.
    pub fn new() -> (r: BleInitConfig)
        ensures
            r.rom.wdt_time == 10,
            r.rom.wdt_clk == 32_768,
            r.rom.enable_lxt,
            r.rom.em_config is Some,
            r.rom.act_config == Some(ActConfig::initial()),
            r.ble.controller == ControllerConfig::initial(),
            r.ble.bd_addr@ == seq![0x12u8, 0x34u8, 0x56u8, 0x78u8, 0xABu8, 0xCDu8],
            r.patch_a3 is None,
            r.patch_letter is None,
            r.firmware is None,
            !r.disable_rf_cal,
            !r.skip_frequency_check,
    {
        BleInitConfig {
            rom: RomConfig {
                wdt_time: 10,
                wdt_clk: 32_768,
                enable_lxt: true,
                em_config: Some(EmConfig::standard()),
                act_config: Some(ActConfig::standard()),
            },
            ble: BleConfig::new(),
            patch_a3: None,
            patch_letter: None,
            firmware: None,
            disable_rf_cal: false,
            skip_frequency_check: false,
        }
    }

    /// The configuration with the public device address set.
    pub fn bd_addr(self, addr: [u8; 6]) -> (r: BleInitConfig)
        ensures
            r == (BleInitConfig { ble: BleConfig { bd_addr: addr, ..self.ble }, ..self }),
    {
        let mut cfg = self;
        cfg.ble.bd_addr = addr;
        cfg
    }

    /// The configuration with the controller's sleep switched on or off.
    pub fn sleep_enabled(self, enabled: bool) -> (r: BleInitConfig)
        ensures
            r == (BleInitConfig {
                ble: BleConfig {
                    controller: ControllerConfig { sleep_enabled: enabled, ..self.ble.controller },
                    ..self.ble
                },
                ..self
            }),
    {
        let mut cfg = self;
        cfg.ble.controller.sleep_enabled = enabled;
        cfg
    }

    /// The configuration with the RF calibration left out or not.
    pub fn disable_rf_cal(self, disable: bool) -> (r: BleInitConfig)
        ensures
            r == (BleInitConfig { disable_rf_cal: disable, ..self }),
    {
        let mut cfg = self;
        cfg.disable_rf_cal = disable;
        cfg
    }

    /// The configuration with the bus clock check left out or not.
    pub fn skip_frequency_check(self, skip: bool) -> (r: BleInitConfig)
        ensures
            r == (BleInitConfig { skip_frequency_check: skip, ..self }),
    {
        let mut cfg = self;
        cfg.skip_frequency_check = skip;
        cfg
    }

    /// The configuration with the exchange memory layout set.
    pub fn em_config(self, config: EmConfig) -> (r: BleInitConfig)
        ensures
            r == (BleInitConfig { rom: RomConfig { em_config: Some(config), ..self.rom }, ..self }),
    {
        let mut cfg = self;
        cfg.rom.em_config = Some(config);
        cfg
    }

    /// The configuration with the activity limits set.
    pub fn act_config(self, config: ActConfig) -> (r: BleInitConfig)
        ensures
            r == (BleInitConfig { rom: RomConfig { act_config: Some(config), ..self.rom }, ..self }),
    {
        let mut cfg = self;
        cfg.rom.act_config = Some(config);
        cfg
    }
}

impl Default for BleInitConfig {
    fn default() -> (r: BleInitConfig)
        ensures
            r.patch_a3 is None,
            r.patch_letter is None,
            r.firmware is None,
            !r.disable_rf_cal,
            !r.skip_frequency_check,
            r.ble.controller == ControllerConfig::initial(),
    {
        BleInitConfig::new()
    }
}

} // verus!
