use sifli_hal::adc::{conversion_done, Adc, Channel, Sample, FIRST_CHANNEL_PIN, VBAT_CHANNEL_ID};
use sifli_hal::aud_pll::pll::{AudioPll, PllHost};
use sifli_hal::aud_pll::{AudPllFreq, SampleRate};
use sifli_hal::audprc::AudPrc;
use sifli_hal::dma::{AnyChannel, NoDma};
use sifli_hal::i2s::I2s;
use sifli_hal::lcdc::{
    access_len, bytes_per_pixel, clock_divider, line_width_bytes, poll_frame, spi_format,
    wait_single_busy, wait_status_busy, LayerFormat, LcdFormat, Lcdc, Poll, SingleAccess,
    SingleAccessType, SpiAccessLen, SpiConfig, SpiLcdFormat, SpiLineMode,
};
use sifli_hal::pdm::Pdm;
use sifli_hal::time::Hertz;
use sifli_hal::utils::{
    flag_in32, flag_in64, flag_in8, flag_mask32, flag_mask64, flag_mask8, BitFlags32, BitFlags64,
    BitFlags8, BitIter, BitIter64,
};

#[test]
fn adc_channels() {
    assert_eq!(Channel::new_pin(FIRST_CHANNEL_PIN).id, 0);
    assert_eq!(Channel::new_pin(34).id, 6);
    let vbat = Channel::new_vbat();
    assert_eq!(vbat.id, VBAT_CHANNEL_ID);
    assert_eq!(vbat.id, 7);
    assert!(vbat.needs_battery_monitor());
    assert!(!Channel::new_pin(30).needs_battery_monitor());
    assert_eq!(Sample(0x0abc).value(), 0x0abc);
}

#[test]
fn adc_config_defaults_to_the_reset_values() {
    let c = sifli_hal::adc::Config::default();
    assert_eq!((c.sample_width, c.conv_width, c.data_samp_dly), (0x8000, 0x80, 0x4));
}

#[test]
fn adc_read_takes_the_even_slot() {
    let mut adc = Adc::new_blocking(sifli_hal::adc::Config::default());
    let mut ch = Channel::new_pin(29);
    assert_eq!(adc.read(&mut ch, 0x0fed_0123), Ok(0x0123));
    assert_eq!(adc.read(&mut ch, 0xffff_ffff), Ok(0x0fff));
    assert_eq!(adc.read(&mut ch, 0xffff_f000), Ok(0));
    assert_eq!(ch.id, 1);
    assert!(conversion_done(0b100));
    assert!(!conversion_done(!0b100));
}

#[test]
fn dma_channel_numbers() {
    let ch = AnyChannel { id: 5 };
    assert_eq!(ch.id(), 5);
    assert_eq!(ch.info().num, 5);
    assert_eq!(NoDma, NoDma);
}

#[test]
fn lcdc_clock_divider() {
    assert_eq!(clock_divider(Hertz(240_000_000), Hertz(30_000_000)), 8);
    assert_eq!(clock_divider(Hertz(240_000_000), Hertz(50_000_000)), 5);
    assert_eq!(clock_divider(Hertz(48_000_000), Hertz(48_000_000)), 2);
    assert_eq!(clock_divider(Hertz(48_000_000), Hertz(100_000_000)), 2);
    assert_eq!(clock_divider(Hertz(48_000_000), Hertz(0)), 2);
    assert_eq!(clock_divider(Hertz(240_000_000), Hertz(1_000_000)), 240);
    // The divider's field has eight bits.
    assert_eq!(clock_divider(Hertz(240_000_000), Hertz(800_000)), 300u32 as u8);
    assert_eq!(clock_divider(Hertz(u32::MAX), Hertz(u32::MAX)), 2);
}

#[test]
fn lcdc_formats() {
    assert_eq!(spi_format(LcdFormat::Rgb332), SpiLcdFormat::Rgb332);
    assert_eq!(spi_format(LcdFormat::Rgb565), SpiLcdFormat::Rgb565);
    assert_eq!(spi_format(LcdFormat::Rgb888), SpiLcdFormat::Rgb888);
    assert_eq!(spi_format(LcdFormat::Rgb666), SpiLcdFormat::Rgb565);
    assert_eq!(bytes_per_pixel(LayerFormat::RGB565), 2);
    assert_eq!(bytes_per_pixel(LayerFormat::ARGB8565), 2);
    assert_eq!(bytes_per_pixel(LayerFormat::RGB888), 3);
    assert_eq!(bytes_per_pixel(LayerFormat::ARGB8888), 4);
    assert_eq!(bytes_per_pixel(LayerFormat::L8), 2);
    assert_eq!(line_width_bytes(0, 239, LayerFormat::RGB565), 480);
    assert_eq!(line_width_bytes(10, 10, LayerFormat::ARGB8888), 4);
    assert_eq!(line_width_bytes(100, 389, LayerFormat::RGB888), 870);
}

#[test]
fn lcdc_access_lengths() {
    assert_eq!(access_len(1), Ok(SpiAccessLen::Bytes1));
    assert_eq!(access_len(2), Ok(SpiAccessLen::Bytes2));
    assert_eq!(access_len(3), Ok(SpiAccessLen::Bytes3));
    assert_eq!(access_len(4), Ok(SpiAccessLen::Bytes4));
    assert_eq!(access_len(0), Err(sifli_hal::lcdc::Error::InvalidParameter));
    assert_eq!(access_len(5), Err(sifli_hal::lcdc::Error::InvalidParameter));
}

#[test]
fn lcdc_commands() {
    let mut lcdc = Lcdc::new(Hertz(240_000_000));
    assert_eq!(
        lcdc.send_cmd(0x2a, 1),
        Ok(SingleAccess { kind: SingleAccessType::Command, len: SpiAccessLen::Bytes1, data: 0x2a })
    );
    assert_eq!(
        lcdc.send_cmd_data(0x0102_0304, 4),
        Ok(SingleAccess { kind: SingleAccessType::Data, len: SpiAccessLen::Bytes4, data: 0x0102_0304 })
    );
    assert_eq!(lcdc.send_cmd(0x2a, 0), Err(sifli_hal::lcdc::Error::InvalidParameter));
    assert_eq!(lcdc.send_cmd_data(1, 5), Err(sifli_hal::lcdc::Error::InvalidParameter));
}

#[test]
fn lcdc_setup() {
    let mut lcdc = Lcdc::new(Hertz(240_000_000));
    let config = sifli_hal::lcdc::Config::default();
    assert_eq!(config.frequency, Hertz(30_000_000));
    assert_eq!(config.spi, SpiConfig::default());
    assert_eq!(config.spi.line_mode, SpiLineMode::FourLine);
    let setup = lcdc.init(&config);
    assert_eq!(setup.clk_div, 8);
    assert_eq!(setup.lcd_format, LcdFormat::Rgb565);
    assert_eq!(setup.spi_lcd_format, SpiLcdFormat::Rgb565);
    assert_eq!(setup.spi, config.spi);
}

#[test]
fn lcdc_frame_transfer() {
    let mut lcdc = Lcdc::new(Hertz(240_000_000));
    let t = lcdc.send_pixel_data(0x2000_1000, 10, 20, 249, 339, LayerFormat::RGB888);
    assert_eq!((t.x0, t.y0, t.x1, t.y1), (10, 20, 249, 339));
    assert_eq!(t.format, LayerFormat::RGB888);
    assert_eq!(t.alpha, 255);
    assert_eq!(t.line_width_bytes, 720);
    assert_eq!(t.addr, 0x2000_1000);
}

#[test]
fn lcdc_waits() {
    let timeout = Poll::Failed(sifli_hal::lcdc::Error::Timeout);
    assert_eq!(wait_single_busy(0, 0), Poll::Ready);
    assert_eq!(wait_single_busy(0, 1_000), Poll::Ready);
    assert_eq!(wait_single_busy(1 << 3, 100), Poll::Pending);
    assert_eq!(wait_single_busy(1 << 3, 101), timeout);
    assert_eq!(wait_status_busy(0, 0, 600), Poll::Ready);
    assert_eq!(wait_status_busy(1, 0, 500), Poll::Pending);
    assert_eq!(wait_status_busy(0, 1 << 3, 500), Poll::Pending);
    assert_eq!(wait_status_busy(1, 1 << 3, 501), timeout);
    assert_eq!(wait_status_busy(!1, !(1 << 3), 501), Poll::Ready);
}

#[test]
fn lcdc_frame_wait() {
    let eof = 1 << 16;
    let overflow = 1 << 17;
    let underrun = 1 << 19;
    assert_eq!(poll_frame(0, 0), Poll::Pending);
    assert_eq!(poll_frame(0, 1_000), Poll::Pending);
    assert_eq!(poll_frame(0, 1_001), Poll::Failed(sifli_hal::lcdc::Error::Timeout));
    assert_eq!(poll_frame(eof, 5_000), Poll::Ready);
    assert_eq!(
        poll_frame(eof | overflow, 0),
        Poll::Failed(sifli_hal::lcdc::Error::HardwareError(eof | overflow))
    );
    assert_eq!(
        poll_frame(underrun, 0),
        Poll::Failed(sifli_hal::lcdc::Error::HardwareError(underrun))
    );
    assert_eq!(poll_frame(!(eof | overflow | underrun), 10), Poll::Pending);
}

#[test]
fn bit_iterators_walk_the_set_bits_upwards() {
    let mut it = BitIter(0b1000_0000_0000_0000_0000_0100_0001_0001);
    let mut seen = Vec::new();
    while let Some(b) = it.next() {
        seen.push(b);
    }
    assert_eq!(seen, vec![0, 4, 10, 31]);
    assert_eq!(it.0, 0);
    assert_eq!(it.next(), None);

    let mut it = BitIter64((1 << 63) | (1 << 32) | 2);
    assert_eq!(it.next(), Some(1));
    assert_eq!(it.0, (1 << 63) | (1 << 32));
    assert_eq!(it.next(), Some(32));
    assert_eq!(it.next(), Some(63));
    assert_eq!(it.next(), None);
    assert_eq!(BitIter(0).next(), None);
}

#[test]
fn flag_masks_hold_one_bit() {
    assert_eq!(flag_mask8(0), 1);
    assert_eq!(flag_mask8(7), 0x80);
    assert_eq!(flag_mask32(0), 1);
    assert_eq!(flag_mask32(31), 0x8000_0000);
    assert_eq!(flag_mask64(32), 0x1_0000_0000);
    assert_eq!(flag_mask64(63), 0x8000_0000_0000_0000);
    for idx in 0..32 {
        assert_eq!(flag_mask32(idx).count_ones(), 1);
        assert_eq!(flag_mask32(idx).trailing_zeros(), idx as u32);
    }
}

#[test]
fn flags_are_read_from_a_value() {
    assert!(flag_in8(0b0000_0101, 0));
    assert!(!flag_in8(0b0000_0101, 1));
    assert!(flag_in8(0b0000_0101, 2));
    assert!(flag_in8(0x80, 7));
    assert!(!flag_in8(0x7f, 7));
    assert!(flag_in32(0x8000_0000, 31));
    assert!(!flag_in32(0x8000_0000, 30));
    assert!(flag_in64(1 << 40, 40));
    assert!(!flag_in64(!(1 << 40), 40));
    assert!(!flag_in64(0, 0));
}

#[test]
fn bit_flags_start_with_their_initial_value() {
    assert_eq!(BitFlags8::new(0xa5).get(), 0xa5);
    assert_eq!(BitFlags32::new(0xdead_beef).get(), 0xdead_beef);
    assert_eq!(BitFlags64::new(0x0123_4567_89ab_cdef).get(), 0x0123_4567_89ab_cdef);
    let f = BitFlags32::new(0x10);
    assert!(f.is_bit_set(4));
    assert!(!f.is_bit_set(5));
}

#[test]
fn bit_flags_set_and_clear() {
    let f = BitFlags8::new(0b0000_0101);
    assert!(f.is_bit_set(0));
    assert!(!f.is_bit_set(1));
    f.set_bit(7);
    f.clear_bit(0);
    assert_eq!(f.get(), 0b1000_0100);
    f.set_bits(0b0011_0000);
    f.clear_bits(0b1000_0000);
    assert_eq!(f.get(), 0b0011_0100);

    let f = BitFlags32::new(0);
    f.set_bit(31);
    f.set_bit(0);
    assert_eq!(f.get(), 0x8000_0001);
    assert!(f.is_bit_set(31));
    f.clear_bit(31);
    f.set_bits(0xff00);
    f.clear_bits(0x0f00);
    assert_eq!(f.get(), 0xf001);

    let f = BitFlags64::new(u64::MAX);
    f.clear_bit(63);
    assert!(!f.is_bit_set(63));
    assert!(f.is_bit_set(62));
    f.clear_bits(0xffff_ffff);
    assert_eq!(f.get(), 0x7fff_ffff_0000_0000);
    f.set_bit(5);
    f.set_bits(3);
    assert_eq!(f.get(), 0x7fff_ffff_0000_0023);
}

#[test]
fn audio_drivers_borrow_a_compatible_pll() {
    let mut host = PllHost::new([1838u16; 32], false);
    let pll = AudioPll::new(AudPllFreq::Mhz49_152, &mut host);
    let i2s = I2s::new(&pll, sifli_hal::i2s::Config { sample_rate: SampleRate::Hz48000 });
    let pdm = Pdm::new(&pll, sifli_hal::pdm::Config { sample_rate: SampleRate::Hz16000 });
    let prc = AudPrc::new(&pll, sifli_hal::audprc::Config { sample_rate: SampleRate::Hz96000 });
    assert_eq!(i2s.sample_rate(), SampleRate::Hz48000);
    assert_eq!(pdm.sample_rate(), SampleRate::Hz16000);
    assert_eq!(prc.sample_rate(), SampleRate::Hz96000);
    assert!(!pll.is_compatible(SampleRate::Hz22050));
}
