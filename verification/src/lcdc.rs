//! The display controller: what its driver decides.
//!
//! The driver's decisions are the clock divider, the encodings of the
//! formats, the length of a command and when a wait is over. Register
//! access is left to the caller, which hands in the words it read.

use crate::regs::{
    bit_of, lcdc_irq_dpi_udr_raw, lcdc_irq_eof_raw, lcdc_irq_icb_of_raw, lcdc_single_busy,
    lcdc_status_busy,
};
use crate::time::Hertz;
use vstd::prelude::*;

verus! {

/// Number of data lines of the SPI interface.
#[derive(Debug, Clone, Copy, PartialEq, Eq, Structural)]
pub enum SpiLineMode {
    FourLine,
    FourLineTwoData,
    ThreeLine,
    ThreeLineTwoData,
}

/// Polarity of the SPI clock.
#[derive(Debug, Clone, Copy, PartialEq, Eq, Structural)]
pub enum SpiClkPol {
    Normal,
    Inverted,
}

/// Level of the SPI clock while idle.
#[derive(Debug, Clone, Copy, PartialEq, Eq, Structural)]
pub enum SpiClkInit {
    Low,
    High,
}

/// Polarity of a control signal.
#[derive(Debug, Clone, Copy, PartialEq, Eq, Structural)]
pub enum Polarity {
    ActiveLow,
    ActiveHigh,
}

/// Pixel format sent to the panel.
#[derive(Debug, Clone, Copy, PartialEq, Eq, Structural)]
pub enum LcdFormat {
    Rgb332,
    Rgb565,
    Rgb666,
    Rgb888,
}

/// Pixel format of the frame buffer.
#[allow(non_camel_case_types)]
#[derive(Debug, Clone, Copy, PartialEq, Eq, Structural)]
pub enum LayerFormat {
    RGB565,
    ARGB8565,
    RGB888,
    ARGB8888,
    L8,
    A8,
}

/// Pixel format of the SPI interface.
#[derive(Debug, Clone, Copy, PartialEq, Eq, Structural)]
pub enum SpiLcdFormat {
    Rgb332,
    Rgb565,
    Rgb888,
}

/// Length of a single access.
#[derive(Debug, Clone, Copy, PartialEq, Eq, Structural)]
pub enum SpiAccessLen {
    Bytes1,
    Bytes2,
    Bytes3,
    Bytes4,
}

/// Kind of a single access.
#[derive(Debug, Clone, Copy, PartialEq, Eq, Structural)]
pub enum SingleAccessType {
    Command,
    Data,
}

/// Why a display operation failed.
#[derive(Debug, Clone, Copy, PartialEq, Eq, Structural)]
pub enum Error {
    /// The hardware stayed busy for too long.
    Timeout,
    /// A parameter is out of range.
    InvalidParameter,
    /// The hardware reported an error; the interrupt word is attached.
    HardwareError(u32),
}

/// Settings of the SPI interface to the panel.
#[derive(Debug, Clone, Copy, PartialEq, Eq, Structural)]
pub struct SpiConfig {
    pub line_mode: SpiLineMode,
    pub clk_polarity: SpiClkPol,
    pub clk_phase: SpiClkInit,
    pub cs_polarity: Polarity,
    pub vsyn_polarity: Polarity,
}

impl SpiConfig {
    /// Four lines, normal clock that idles low, active-low signals.
    pub open spec fn initial() -> SpiConfig {
        SpiConfig {
            line_mode: SpiLineMode::FourLine,
            clk_polarity: SpiClkPol::Normal,
            clk_phase: SpiClkInit::Low,
            cs_polarity: Polarity::ActiveLow,
            vsyn_polarity: Polarity::ActiveLow,
        }
    }
}

impl Default for SpiConfig {
    fn default() -> (r: SpiConfig)
        ensures
            r == SpiConfig::initial(),
    {
        SpiConfig {
            line_mode: SpiLineMode::FourLine,
            clk_polarity: SpiClkPol::Normal,
            clk_phase: SpiClkInit::Low,
            cs_polarity: Polarity::ActiveLow,
            vsyn_polarity: Polarity::ActiveLow,
        }
    }
}

/// Settings of the display controller.
#[derive(Debug, Clone, Copy, PartialEq, Eq, Structural)]
pub struct Config {
    /// Pixel format sent to the panel.
    pub pixel_format: LcdFormat,
    /// Pixel format of the frame buffer.
    pub layer_format: LayerFormat,
    /// Wanted SPI clock.
    pub frequency: Hertz,
    /// Settings of the SPI interface.
    pub spi: SpiConfig,
}

impl Default for Config {
    fn default() -> (r: Config)
        ensures
            r.pixel_format == LcdFormat::Rgb565,
            r.layer_format == LayerFormat::RGB565,
            r.frequency == Hertz(30_000_000),
            r.spi == SpiConfig::initial(),
    {
        Config {
            pixel_format: LcdFormat::Rgb565,
            layer_format: LayerFormat::RGB565,
            frequency: Hertz(30_000_000),
            spi: SpiConfig::default(),
        }
    }
}

/// The ratio of `source` to `target`, rounded up.
pub open spec fn ratio_up(source: int, target: int) -> int {
    (source + target - 1) / target
}

/// The divider that brings the source clock down to the wanted one: the
/// ratio rounded up, at least 2, and 2 where no frequency is wanted. The
/// divider's field has 8 bits; higher bits of the ratio are dropped.
pub open spec fn divider_of(source: int, target: int) -> int {
    let ratio = if target > 0 {
        ratio_up(source, target)
    } else {
        2
    };
    (if ratio < 2 {
        2
    } else {
        ratio
    }) % 256
}

/// The SPI interface's format for a panel format: the same where there is
/// one, else RGB565.
pub open spec fn spi_format_of(format: LcdFormat) -> SpiLcdFormat {
    match format {
        LcdFormat::Rgb332 => SpiLcdFormat::Rgb332,
        LcdFormat::Rgb565 => SpiLcdFormat::Rgb565,
        LcdFormat::Rgb888 => SpiLcdFormat::Rgb888,
        LcdFormat::Rgb666 => SpiLcdFormat::Rgb565,
    }
}

/// Bytes that one pixel of a frame buffer takes; 2 for the formats that
/// the controller does not fetch by pixel.
pub open spec fn bytes_per_pixel_of(format: LayerFormat) -> int {
    match format {
        LayerFormat::RGB565 => 2,
        LayerFormat::ARGB8565 => 2,
        LayerFormat::RGB888 => 3,
        LayerFormat::ARGB8888 => 4,
        LayerFormat::L8 => 2,
        LayerFormat::A8 => 2,
    }
}

/// What the controller is set up with.
#[derive(Debug, Clone, Copy, PartialEq, Eq, Structural)]
pub struct Setup {
    /// The SPI clock divider.
    pub clk_div: u8,
    /// Pixel format sent to the panel.
    pub lcd_format: LcdFormat,
    /// Pixel format of the SPI interface.
    pub spi_lcd_format: SpiLcdFormat,
    /// Settings of the SPI interface.
    pub spi: SpiConfig,
}

/// One command or parameter to send.
#[derive(Debug, Clone, Copy, PartialEq, Eq, Structural)]
pub struct SingleAccess {
    /// Command or data.
    pub kind: SingleAccessType,
    /// Number of bytes.
    pub len: SpiAccessLen,
    /// The bytes, in the low end of the word.
    pub data: u32,
}

/// What the controller is set up with for one frame transfer.
#[derive(Debug, Clone, Copy, PartialEq, Eq, Structural)]
pub struct FrameTransfer {
    /// Left column of the region.
    pub x0: u16,
    /// Top row of the region.
    pub y0: u16,
    /// Right column of the region.
    pub x1: u16,
    /// Bottom row of the region.
    pub y1: u16,
    /// Pixel format of the frame buffer.
    pub format: LayerFormat,
    /// Opacity of the layer.
    pub alpha: u8,
    /// Bytes of one line of the region.
    pub line_width_bytes: u16,
    /// Address of the frame buffer.
    pub addr: u32,
}

/// Opacity of a layer that hides what is below it.
pub const OPAQUE: u8 = 255;

/// What to do after looking at the hardware once.
#[derive(Debug, Clone, Copy, PartialEq, Eq, Structural)]
pub enum Poll {
    /// The wait is over.
    Ready,
    /// Look again.
    Pending,
    /// Give up with this error.
    Failed(Error),
}

/// Longest wait for the single access interface, in milliseconds.
pub const SINGLE_TIMEOUT_MS: u64 = 100;

/// Longest wait for the data path, in milliseconds.
pub const STATUS_TIMEOUT_MS: u64 = 500;

/// Longest wait for the end of a frame, in milliseconds.
pub const FRAME_TIMEOUT_MS: u64 = 1_000;

/// The step of a busy wait: over when not busy, failed when busy for
/// longer than the limit, else to be repeated.
pub open spec fn busy_poll(busy: bool, elapsed_ms: u64, limit_ms: u64) -> Poll {
    if !busy {
        Poll::Ready
    } else if elapsed_ms > limit_ms {
        Poll::Failed(Error::Timeout)
    } else {
        Poll::Pending
    }
}

/// The step of the wait for the end of a frame. An underrun or overflow
/// fails it, whatever else is set; then the end-of-frame flag ends it;
/// then the time limit fails it.
pub open spec fn frame_poll(irq: u32, elapsed_ms: u64) -> Poll {
    if bit_of(irq, 19) || bit_of(irq, 17) {
        Poll::Failed(Error::HardwareError(irq))
    } else if bit_of(irq, 16) {
        Poll::Ready
    } else if elapsed_ms > FRAME_TIMEOUT_MS {
        Poll::Failed(Error::Timeout)
    } else {
        Poll::Pending
    }
}

/// The access length for a number of bytes; an error outside 1 to 4.
pub open spec fn access_len_of(len_bytes: u8) -> Result<SpiAccessLen, Error> {
    if len_bytes == 1 {
        Ok(SpiAccessLen::Bytes1)
    } else if len_bytes == 2 {
        Ok(SpiAccessLen::Bytes2)
    } else if len_bytes == 3 {
        Ok(SpiAccessLen::Bytes3)
    } else if len_bytes == 4 {
        Ok(SpiAccessLen::Bytes4)
    } else {
        Err(Error::InvalidParameter)
    }
}

/// The access of the given kind that sends `data` in `len_bytes` bytes.
pub open spec fn access_of(kind: SingleAccessType, data: u32, len_bytes: u8) -> Result<
    SingleAccess,
    Error,
> {
    match access_len_of(len_bytes) {
        Ok(len) => Ok(SingleAccess { kind, len, data }),
        Err(e) => Err(e),
    }
}

/// The SPI clock divider for a source clock and a wanted clock.
pub fn clock_divider(source: Hertz, target: Hertz) -> (r: u8)
    ensures
        r == divider_of(source.0 as int, target.0 as int),
{
    let ratio: u64 = if target.0 > 0 {
        (source.0 as u64 + target.0 as u64 - 1) / (target.0 as u64)
    } else {
        2
    };
    let at_least: u64 = if ratio < 2 {
        2
    } else {
        ratio
    };
    (at_least % 256) as u8
}

/// The SPI interface's format for a panel format.
pub fn spi_format(format: LcdFormat) -> (r: SpiLcdFormat)
    ensures
        r == spi_format_of(format),
{
    match format {
        LcdFormat::Rgb332 => SpiLcdFormat::Rgb332,
        LcdFormat::Rgb565 => SpiLcdFormat::Rgb565,
        LcdFormat::Rgb888 => SpiLcdFormat::Rgb888,
        _ => SpiLcdFormat::Rgb565,
    }
}

/// The access length for a number of bytes from 1 to 4.
pub fn access_len(len_bytes: u8) -> (r: Result<SpiAccessLen, Error>)
    ensures
        r == access_len_of(len_bytes),
{
    if len_bytes == 0 || len_bytes > 4 {
        return Err(Error::InvalidParameter);
    }
    if len_bytes == 1 {
        Ok(SpiAccessLen::Bytes1)
    } else if len_bytes == 2 {
        Ok(SpiAccessLen::Bytes2)
    } else if len_bytes == 3 {
        Ok(SpiAccessLen::Bytes3)
    } else {
        Ok(SpiAccessLen::Bytes4)
    }
}

/// Bytes that one pixel of a frame buffer takes.
pub fn bytes_per_pixel(format: LayerFormat) -> (r: u16)
    ensures
        r == bytes_per_pixel_of(format),
{
    match format {
        LayerFormat::RGB565 => 2,
        LayerFormat::ARGB8565 => 2,
        LayerFormat::RGB888 => 3,
        LayerFormat::ARGB8888 => 4,
        _ => 2,
    }
}

/// Bytes of one line of the region from column `x0` to column `x1`.
pub fn line_width_bytes(x0: u16, x1: u16, format: LayerFormat) -> (r: u16)
    requires
        x0 <= x1,
        (x1 - x0 + 1) * bytes_per_pixel_of(format) <= u16::MAX,
    ensures
        r == (x1 - x0 + 1) * bytes_per_pixel_of(format),
{
    let width: u16 = x1 - x0 + 1;
    let bpp: u16 = bytes_per_pixel(format);
    assert(width * bpp <= u16::MAX) by (nonlinear_arith)
        requires
            width == x1 - x0 + 1,
            bpp == bytes_per_pixel_of(format),
            (x1 - x0 + 1) * bytes_per_pixel_of(format) <= u16::MAX,
    ;
    width * bpp
}

/// One step of the wait for the single access interface, from the word of
/// its register and the milliseconds waited so far.
pub fn wait_single_busy(lcd_single: u32, elapsed_ms: u64) -> (r: Poll)
    ensures
        r == busy_poll(bit_of(lcd_single, 3), elapsed_ms, SINGLE_TIMEOUT_MS),
{
    if !lcdc_single_busy(lcd_single) {
        Poll::Ready
    } else if elapsed_ms > SINGLE_TIMEOUT_MS {
        Poll::Failed(Error::Timeout)
    } else {
        Poll::Pending
    }
}

/// One step of the wait for the data path, from the words of the status
/// and single access registers and the milliseconds waited so far. Both
/// must be idle.
pub fn wait_status_busy(status: u32, lcd_single: u32, elapsed_ms: u64) -> (r: Poll)
    ensures
        r == busy_poll(bit_of(status, 0) || bit_of(lcd_single, 3), elapsed_ms, STATUS_TIMEOUT_MS),
{
    let busy: bool = lcdc_status_busy(status) || lcdc_single_busy(lcd_single);
    if !busy {
        Poll::Ready
    } else if elapsed_ms > STATUS_TIMEOUT_MS {
        Poll::Failed(Error::Timeout)
    } else {
        Poll::Pending
    }
}

/// One step of the wait for the end of a frame, from the word of the
/// interrupt register and the milliseconds waited so far.
pub fn poll_frame(irq: u32, elapsed_ms: u64) -> (r: Poll)
    ensures
        r == frame_poll(irq, elapsed_ms),
{
    if lcdc_irq_dpi_udr_raw(irq) || lcdc_irq_icb_of_raw(irq) {
        Poll::Failed(Error::HardwareError(irq))
    } else if lcdc_irq_eof_raw(irq) {
        Poll::Ready
    } else if elapsed_ms > FRAME_TIMEOUT_MS {
        Poll::Failed(Error::Timeout)
    } else {
        Poll::Pending
    }
}

/// The driver of the display controller.
pub struct Lcdc {
    source: Hertz,
}

impl Lcdc {
    /// The clock that feeds the controller.
    pub closed spec fn source(&self) -> Hertz {
        self.source
    }

    /// A driver of a controller that is fed by the clock `source`.
    pub fn new(source: Hertz) -> (r: Lcdc)
        ensures
            r.source() == source,
    {
        Lcdc { source }
    }

    /// What to set the controller up with for the given settings.
    pub fn init(&mut self, config: &Config) -> (r: Setup)
        ensures
            r.clk_div == divider_of(old(self).source().0 as int, config.frequency.0 as int),
            r.lcd_format == config.pixel_format,
            r.spi_lcd_format == spi_format_of(config.pixel_format),
            r.spi == config.spi,
            final(self).source() == old(self).source(),
    {
        Setup {
            clk_div: clock_divider(self.source, config.frequency),
            lcd_format: config.pixel_format,
            spi_lcd_format: spi_format(config.pixel_format),
            spi: config.spi,
        }
    }

    /// What to set the controller up with to send the frame buffer at
    /// `addr` to the region from column `x0` to `x1` and row `y0` to `y1`:
    /// canvas and layer cover the region, the layer is opaque, and a line
    /// is as many bytes as its pixels take.
    pub fn send_pixel_data(
        &mut self,
        addr: u32,
        x0: u16,
        y0: u16,
        x1: u16,
        y1: u16,
        layer_format: LayerFormat,
    ) -> (r: FrameTransfer)
        requires
            x0 <= x1,
            (x1 - x0 + 1) * bytes_per_pixel_of(layer_format) <= u16::MAX,
        ensures
            r == (FrameTransfer {
                x0,
                y0,
                x1,
                y1,
                format: layer_format,
                alpha: OPAQUE,
                line_width_bytes: ((x1 - x0 + 1) * bytes_per_pixel_of(layer_format)) as u16,
                addr,
            }),
            final(self).source() == old(self).source(),
    {
        FrameTransfer {
            x0,
            y0,
            x1,
            y1,
            format: layer_format,
            alpha: OPAQUE,
            line_width_bytes: line_width_bytes(x0, x1, layer_format),
            addr,
        }
    }

    /// The access that sends the command `cmd` of `len_bytes` bytes; from
    /// 1 to 4 bytes can be sent.
    pub fn send_cmd(&mut self, cmd: u32, len_bytes: u8) -> (r: Result<SingleAccess, Error>)
        ensures
            r == access_of(SingleAccessType::Command, cmd, len_bytes),
            r.is_ok() <==> 1 <= len_bytes <= 4,
            final(self).source() == old(self).source(),
    {
        match access_len(len_bytes) {
            Ok(len) => Ok(SingleAccess { kind: SingleAccessType::Command, len, data: cmd }),
            Err(e) => Err(e),
        }
    }

    /// The access that sends the parameter `data` of `len_bytes` bytes;
    /// from 1 to 4 bytes can be sent.
    pub fn send_cmd_data(&mut self, data: u32, len_bytes: u8) -> (r: Result<SingleAccess, Error>)
        ensures
            r == access_of(SingleAccessType::Data, data, len_bytes),
            r.is_ok() <==> 1 <= len_bytes <= 4,
            final(self).source() == old(self).source(),
    {
        match access_len(len_bytes) {
            Ok(len) => Ok(SingleAccess { kind: SingleAccessType::Data, len, data }),
            Err(e) => Err(e),
        }
    }
}

} // verus!
