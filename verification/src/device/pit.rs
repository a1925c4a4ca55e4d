//! The programmable interval timer: channel 0 as the source of the tick, and
//! sleeping by counting ticks.

use crate::platform::{byte_write, PortWrite};
use vstd::prelude::*;

verus! {

/// Frequency of the oscillator that drives the timer, in Hz.
pub const BASE_FREQUENCY: usize = 1193182;

/// Frequency that `init` programs, in Hz: one tick each millisecond.
pub const TICK_FREQUENCY: usize = 1000;

/// Data port of channel 0.
pub const CHANNEL0: u16 = 0x40;

/// Port of the mode and command register.
pub const MODE_COMMAND: u16 = 0x43;

#[derive(Debug, Clone, Copy, PartialEq, Eq, Structural)]
pub enum Channel {
    Channel0,
}

#[derive(Debug, Clone, Copy, PartialEq, Eq, Structural)]
pub enum AccessMode {
    LatchCountValue,
    LoByteOnly,
    HiByteOnly,
    LoAndHiByte,
}

#[derive(Debug, Clone, Copy, PartialEq, Eq, Structural)]
pub enum OperatingMode {
    InterruptOnTerminalCount,
    HardwareRetriggerableOneShot,
    RateGenerator,
    SquareWave,
    SoftwareTriggeredStrobe,
    HardwareTriggeredStrobe,
    RateGenerator2,
    SquareWave2,
}

/// The two-bit code of a channel.
pub open spec fn channel_code(channel: Channel) -> u8 {
    match channel {
        Channel::Channel0 => 0b00,
    }
}

/// The two-bit code of an access mode.
pub open spec fn access_mode_code(mode: AccessMode) -> u8 {
    match mode {
        AccessMode::LatchCountValue => 0b00,
        AccessMode::LoByteOnly => 0b01,
        AccessMode::HiByteOnly => 0b10,
        AccessMode::LoAndHiByte => 0b11,
    }
}

/// The three-bit code of an operating mode.
pub open spec fn operating_mode_code(mode: OperatingMode) -> u8 {
    match mode {
        OperatingMode::InterruptOnTerminalCount => 0b000,
        OperatingMode::HardwareRetriggerableOneShot => 0b001,
        OperatingMode::RateGenerator => 0b010,
        OperatingMode::SquareWave => 0b011,
        OperatingMode::SoftwareTriggeredStrobe => 0b100,
        OperatingMode::HardwareTriggeredStrobe => 0b101,
        OperatingMode::RateGenerator2 => 0b110,
        OperatingMode::SquareWave2 => 0b111,
    }
}

/// The command byte: the channel in bits 6..8, the access mode in bits 4..6,
/// the operating mode in bits 1..4, and the BCD flag in bit 0.
pub open spec fn mode_command(
    channel: Channel,
    access_mode: AccessMode,
    operating_mode: OperatingMode,
    bcd: bool,
) -> u8 {
    channel_code(channel) << 6 | access_mode_code(access_mode) << 4 | operating_mode_code(
        operating_mode,
    ) << 1 | (if bcd {
        1u8
    } else {
        0u8
    })
}

/// The two port writes that load a reload count: its low byte, then its high
/// byte, both to the data port of channel 0.
pub open spec fn reload_writes(count: u16) -> Seq<PortWrite> {
    seq![
        byte_write(CHANNEL0, (count & 0xFF) as u8),
        byte_write(CHANNEL0, ((count >> 8) & 0xFF) as u8),
    ]
}

impl Channel {
    fn code(&self) -> (code: u8)
        ensures
            code == channel_code(*self),
    {
        match self {
            Channel::Channel0 => 0b00,
        }
    }
}

impl AccessMode {
    fn code(&self) -> (code: u8)
        ensures
            code == access_mode_code(*self),
    {
        match self {
            AccessMode::LatchCountValue => 0b00,
            AccessMode::LoByteOnly => 0b01,
            AccessMode::HiByteOnly => 0b10,
            AccessMode::LoAndHiByte => 0b11,
        }
    }
}

impl OperatingMode {
    fn code(&self) -> (code: u8)
        ensures
            code == operating_mode_code(*self),
    {
        match self {
            OperatingMode::InterruptOnTerminalCount => 0b000,
            OperatingMode::HardwareRetriggerableOneShot => 0b001,
            OperatingMode::RateGenerator => 0b010,
            OperatingMode::SquareWave => 0b011,
            OperatingMode::SoftwareTriggeredStrobe => 0b100,
            OperatingMode::HardwareTriggeredStrobe => 0b101,
            OperatingMode::RateGenerator2 => 0b110,
            OperatingMode::SquareWave2 => 0b111,
        }
    }
}

/// Makes channel 0 a square wave of one tick each millisecond: the command
/// byte `0x36`, then the reload count 1193 as the bytes `0xA9` and `0x04`.
pub fn init(ports: &mut Vec<PortWrite>)
    ensures
        final(ports)@ == old(ports)@ + seq![
            byte_write(MODE_COMMAND, 0x36),
            byte_write(CHANNEL0, 0xA9),
            byte_write(CHANNEL0, 0x04),
        ],
{
    write_mode_command(
        ports,
        Channel::Channel0,
        AccessMode::LoAndHiByte,
        OperatingMode::SquareWave,
        false,
    );
    set_frequency(ports, TICK_FREQUENCY);
    proof {
        assert(0b00u8 << 6 | 0b11u8 << 4 | 0b011u8 << 1 | 0u8 == 0x36) by (bit_vector);
        assert((1193u16 & 0xFF) as u8 == 0xA9 && ((1193u16 >> 8) & 0xFF) as u8 == 0x04)
            by (bit_vector);
        assert(final(ports)@ =~= old(ports)@ + seq![
            byte_write(MODE_COMMAND, 0x36),
            byte_write(CHANNEL0, 0xA9),
            byte_write(CHANNEL0, 0x04),
        ]);
    }
}

/// The tick that a sleep ends at.
#[derive(Debug, Clone, Copy, PartialEq, Eq, Structural)]
pub struct Sleep {
    pub end: usize,
}

/// The tick that lies `ticks` after `now`; the counter wraps around at its
/// largest value.
pub open spec fn tick_after(now: usize, ticks: usize) -> usize {
    if now + ticks > usize::MAX {
        (now + ticks - usize::MAX - 1) as usize
    } else {
        (now + ticks) as usize
    }
}

/// Begins a sleep of `millis` milliseconds at tick `now`. A duration of no
/// whole millisecond, as far as it fits the tick counter, is no sleep at
/// all. The CPU is to be halted until `is_over` holds of the uptime.
pub fn sleep(now: usize, millis: u128) -> (sleep: Option<Sleep>)
    ensures
        sleep == (if millis as usize == 0 {
            None
        } else {
            Some(Sleep { end: tick_after(now, millis as usize) })
        }),
{
    let ms: usize = millis as usize;
    if ms == 0 {
        return None;
    }
    let end: usize = now.wrapping_add(ms);
    Some(Sleep { end })
}

impl Sleep {
    /// Whether the sleep ends at tick `now`: the uptime has reached the end
    /// exactly.
    pub fn is_over(&self, now: usize) -> (over: bool)
        ensures
            over == (self.end == now),
    {
        self.end == now
    }
}

/// Counter of the ticks since the timer was started. The timer interrupt
/// handler advances it; everybody else reads it.
#[derive(Debug, Clone, Copy, PartialEq, Eq, Structural)]
pub struct TickCounter {
    pub ticks: usize,
}

impl TickCounter {
    /// A counter at zero.
    pub fn new() -> (counter: Self)
        ensures
            counter.ticks == 0,
    {
        TickCounter { ticks: 0 }
    }

    /// The number of ticks so far.
    pub fn read(&self) -> (ticks: usize)
        ensures
            ticks == self.ticks,
    {
        self.ticks
    }

    /// Counts one tick.
    pub fn tick(&mut self)
        ensures
            final(self).ticks == tick_after(old(self).ticks, 1),
    {
        self.ticks = self.ticks.wrapping_add(1);
    }
}

/// Milliseconds since the timer was started.
pub fn get_pit_uptime(timer: &TickCounter) -> (uptime: usize)
    ensures
        uptime == timer.ticks,
{
    timer.read()
}

/// Latches the count of channel 0 so that it can be read: the command byte
/// that is written, after which the data port is to be read twice.
pub fn latch_count(ports: &mut Vec<PortWrite>)
    ensures
        final(ports)@ == old(ports)@.push(
            byte_write(
                MODE_COMMAND,
                mode_command(
                    Channel::Channel0,
                    AccessMode::LatchCountValue,
                    OperatingMode::InterruptOnTerminalCount,
                    false,
                ),
            ),
        ),
{
    write_mode_command(
        ports,
        Channel::Channel0,
        AccessMode::LatchCountValue,
        OperatingMode::InterruptOnTerminalCount,
        false,
    );
}

/// The count that the two bytes read from the data port after `latch_count`
/// stand for: the low byte came first.
pub fn read_count(lo: u8, hi: u8) -> (count: u16)
    ensures
        count == (lo as u16) | ((hi as u16) << 8),
{
    let lo: u16 = lo as u16;
    let hi: u16 = hi as u16;

    lo | (hi << 8)
}

/// Makes channel 0 tick `frequency` times a second, as nearly as the reload
/// count allows. The reload count `BASE_FREQUENCY / frequency` must fit 16
/// bits.
pub fn set_frequency(ports: &mut Vec<PortWrite>, frequency: usize)
    requires
        frequency > 0,
        BASE_FREQUENCY / frequency <= u16::MAX,
    ensures
        final(ports)@ == old(ports)@ + reload_writes((BASE_FREQUENCY / frequency) as u16),
{
    let frequency: usize = BASE_FREQUENCY / frequency;
    write_reload_count(ports, frequency as u16)
}

/// Loads the reload count of channel 0.
pub fn write_reload_count(ports: &mut Vec<PortWrite>, count: u16)
    ensures
        final(ports)@ == old(ports)@ + reload_writes(count),
{
    let lo: u8 = (count & 0xFF) as u8;
    let hi: u8 = ((count >> 8) & 0xFF) as u8;

    ports.push(PortWrite::byte(CHANNEL0, lo));
    ports.push(PortWrite::byte(CHANNEL0, hi));
    assert(ports@ =~= old(ports)@ + reload_writes(count));
}

/// Writes a command byte to the mode and command register.
pub fn write_mode_command(
    ports: &mut Vec<PortWrite>,
    channel: Channel,
    access_mode: AccessMode,
    operating_mode: OperatingMode,
    bcd: bool,
)
    ensures
        final(ports)@ == old(ports)@.push(
            byte_write(MODE_COMMAND, mode_command(channel, access_mode, operating_mode, bcd)),
        ),
{
    let flag: u8 = if bcd {
        1
    } else {
        0
    };
    let value: u8 = channel.code() << 6 | access_mode.code() << 4 | operating_mode.code() << 1
        | flag;

    ports.push(PortWrite::byte(MODE_COMMAND, value));
}

} // verus!
