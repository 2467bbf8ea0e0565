//! How to bring up a gs_usb channel.

use vstd::prelude::*;

use crate::wire;

verus! {

/// One CAN bit-timing segment set, in the device's raw units. The bit time is
/// `1 + (prop_seg + phase_seg1) + phase_seg2` time quanta, each `brp / fclk`
/// seconds long.
#[derive(Debug, Clone, Copy)]
pub struct GsTiming {
    pub prop_seg: u32,
    pub phase_seg1: u32,
    pub phase_seg2: u32,
    pub sjw: u32,
    pub brp: u32,
}

impl GsTiming {
    /// The bit time, in time quanta.
    pub open spec fn bit_quanta(self) -> int {
        1 + (self.prop_seg + self.phase_seg1) + self.phase_seg2
    }

    /// The timing gives `bitrate` bits per second on a device clock of `fclk` hertz.
    pub open spec fn gives_bitrate(self, fclk: int, bitrate: int) -> bool {
        fclk == bitrate * (self.brp * self.bit_quanta())
    }

    /// The bit is sampled `per_mille` thousandths into the bit time.
    pub open spec fn samples_at(self, per_mille: int) -> bool {
        1000 * (1 + self.prop_seg + self.phase_seg1) == per_mille * self.bit_quanta()
    }

    /// The 20 bytes of a bit-timing request.
    pub open spec fn wire_bytes(self) -> Seq<u8> {
        wire::le32_bytes(self.prop_seg) + wire::le32_bytes(self.phase_seg1) + wire::le32_bytes(
            self.phase_seg2,
        ) + wire::le32_bytes(self.sjw) + wire::le32_bytes(self.brp)
    }

    /// The timing as a request carries it: five little-endian words.
    pub fn to_bytes(self) -> (bytes: [u8; 20])
        ensures
            bytes@ == self.wire_bytes(),
    {
        let mut bytes: [u8; 20] = [0; 20];
        put_le32(&mut bytes, 0, self.prop_seg);
        put_le32(&mut bytes, 4, self.phase_seg1);
        put_le32(&mut bytes, 8, self.phase_seg2);
        put_le32(&mut bytes, 12, self.sjw);
        put_le32(&mut bytes, 16, self.brp);
        bytes
    }
}

/// Writes a word at `at`, least significant byte first.
fn put_le32(bytes: &mut [u8; 20], at: usize, word: u32)
    requires
        at + 4 <= 20,
    ensures
        forall|i: int|
            0 <= i < 20 ==> #[trigger] final(bytes)@[i] == if at <= i < at + 4 {
                wire::le32_bytes(word)[i - at]
            } else {
                old(bytes)@[i]
            },
{
    bytes[at] = (word % 0x100) as u8;
    bytes[at + 1] = (word / 0x100 % 0x100) as u8;
    bytes[at + 2] = (word / 0x1_0000 % 0x100) as u8;
    bytes[at + 3] = (word / 0x100_0000) as u8;
}

/// How to bring up a gs_usb channel.
///
/// Timing is given explicitly in device units rather than computed from a
/// target bit-rate: the values below are exactly what a known-good
/// configuration produced, which keeps this backend honest about what it sends
/// to the hardware.
#[derive(Debug, Clone, Copy)]
pub struct GsUsbConfig {
    /// Channel index on a multi-channel device (`can0` = 0).
    pub channel: u16,
    /// Enable CAN-FD. Requires `data` to be set.
    pub fd: bool,
    /// Nominal (arbitration) bit timing.
    pub nominal: GsTiming,
    /// Data-phase bit timing; used only when `fd` is true.
    pub data: Option<GsTiming>,
    /// Receive-only: never emit dominant bits on the bus.
    pub listen_only: bool,
    /// Internal loopback (for self-test without a bus).
    pub loopback: bool,
    /// Ask the device to stamp received frames with its hardware clock
    /// (µs, surfaced via `CanFrame::timestamp_us`). Requires firmware support;
    /// disabled if the device doesn't advertise it.
    pub hw_timestamp: bool,
}

/// The clock that the presets are made for, in hertz.
pub const PRESET_CLOCK: u32 = 80_000_000;

impl GsUsbConfig {
    /// Classic CAN, 1 Mbit, 80 MHz device clock (sample point 0.8).
    pub fn classic_1m() -> (config: Self)
        ensures
            config == (GsUsbConfig {
                channel: 0,
                fd: false,
                nominal: GsTiming {
                    prop_seg: 31,
                    phase_seg1: 32,
                    phase_seg2: 16,
                    sjw: 5,
                    brp: 1,
                },
                data: None,
                listen_only: false,
                loopback: false,
                hw_timestamp: false,
            }),
            config.nominal.gives_bitrate(PRESET_CLOCK as int, 1_000_000),
            config.nominal.samples_at(800),
    {
        Self {
            channel: 0,
            fd: false,
            nominal: GsTiming { prop_seg: 31, phase_seg1: 32, phase_seg2: 16, sjw: 5, brp: 1 },
            data: None,
            listen_only: false,
            loopback: false,
            hw_timestamp: false,
        }
    }

    /// CAN-FD, 1 Mbit nominal / 5 Mbit data, 80 MHz device clock.
    ///
    /// Matches `ip link set canX type can bitrate 1000000 sample-point 0.8
    /// dbitrate 5000000 dsample-point 0.75 sjw 5 dsjw 3 fd on`.
    pub fn fd_1m_5m() -> (config: Self)
        ensures
            config == (GsUsbConfig {
                channel: 0,
                fd: true,
                nominal: GsTiming {
                    prop_seg: 31,
                    phase_seg1: 32,
                    phase_seg2: 16,
                    sjw: 5,
                    brp: 1,
                },
                data: Some(
                    GsTiming { prop_seg: 5, phase_seg1: 6, phase_seg2: 4, sjw: 3, brp: 1 },
                ),
                listen_only: false,
                loopback: false,
                hw_timestamp: false,
            }),
            config.nominal.gives_bitrate(PRESET_CLOCK as int, 1_000_000),
            config.nominal.samples_at(800),
            config.data->0.gives_bitrate(PRESET_CLOCK as int, 5_000_000),
            config.data->0.samples_at(750),
    {
        Self {
            channel: 0,
            fd: true,
            nominal: GsTiming { prop_seg: 31, phase_seg1: 32, phase_seg2: 16, sjw: 5, brp: 1 },
            data: Some(GsTiming { prop_seg: 5, phase_seg1: 6, phase_seg2: 4, sjw: 3, brp: 1 }),
            listen_only: false,
            loopback: false,
            hw_timestamp: false,
        }
    }

    /// Select which channel of a multi-channel adapter to use (`can0` = 0).
    pub fn with_channel(self, channel: u16) -> (config: Self)
        ensures
            config == (GsUsbConfig { channel, ..self }),
    {
        GsUsbConfig { channel, ..self }
    }

    /// Request device hardware timestamps on received frames (if the
    /// firmware supports them).
    pub fn with_hw_timestamp(self, on: bool) -> (config: Self)
        ensures
            config == (GsUsbConfig { hw_timestamp: on, ..self }),
    {
        GsUsbConfig { hw_timestamp: on, ..self }
    }
}

/// A timing is sent as its five fields, prop_seg, phase_seg1, phase_seg2, sjw and
/// brp, each in four bytes with the low one first.
pub proof fn law_timing_by_its_bytes(timing: GsTiming, field: int)
    requires
        0 <= field < 5,
    ensures
        timing.wire_bytes().len() == 20,
        ({
            let word: u32 = seq![
                timing.prop_seg,
                timing.phase_seg1,
                timing.phase_seg2,
                timing.sjw,
                timing.brp,
            ][field];
            &&& timing.wire_bytes()[4 * field] == word & 0xFF
            &&& timing.wire_bytes()[4 * field + 1] == (word >> 8) & 0xFF
            &&& timing.wire_bytes()[4 * field + 2] == (word >> 16) & 0xFF
            &&& timing.wire_bytes()[4 * field + 3] == word >> 24
        }),
{
    let words = seq![
        timing.prop_seg,
        timing.phase_seg1,
        timing.phase_seg2,
        timing.sjw,
        timing.brp,
    ];
    wire::law_written_least_significant_first(words[field]);
}

/// A bit lasts one quantum, the propagation and both phase segments; it is
/// sampled before the second phase segment. At `fclk` hertz, `bitrate` bits of
/// `brp` clock ticks per quantum take a second.
pub proof fn law_bit_time(timing: GsTiming, fclk: int, bitrate: int, per_mille: int)
    ensures
        timing.gives_bitrate(fclk, bitrate) <==> fclk == bitrate * (timing.brp * (1
            + timing.prop_seg + timing.phase_seg1 + timing.phase_seg2)),
        timing.samples_at(per_mille) <==> per_mille * (1 + timing.prop_seg + timing.phase_seg1
            + timing.phase_seg2) == 1000 * (1 + timing.prop_seg + timing.phase_seg1),
        PRESET_CLOCK == 80_000_000,
{
}

} // verus!
