//! The register map of the TCA62724FMG and the bytes that cross the wire.
//!
//! The chip takes a sub-address byte followed by data bytes. Bit 7 of the
//! sub-address is the auto-increment flag, and it is active low: with the
//! flag clear, each further data byte goes to the next register, so one
//! burst can load all three PWM channels; with the flag set, the register
//! pointer stays where it is.

use vstd::prelude::*;

verus! {

/// Highest brightness level of a channel. A level has four bits, so this is
/// also the mask that takes a level out of a raw byte.
pub const BRIGHTNESS_MAX: u8 = 0x0f;

/// Brightness level at half scale.
pub const BRIGHTNESS_HALF: u8 = 0x07;

/// Low brightness preset. It holds the same level as [`BRIGHTNESS_MAX`].
pub const BRIGHTNESS_LOW: u8 = 0x0f;

/// Brightness level at which a channel is dark.
pub const BRIGHTNESS_OFF: u8 = 0x00;

/// The I2C address the chip answers to as it leaves the factory.
pub const DEFAULT_I2C_ADDRESS: u8 = 0x55;

/// Sub-address of PWM0, the blue channel, with auto-increment on: the data
/// bytes that follow load PWM0 (blue), PWM1 (green) and PWM2 (red) in turn.
pub const SUBADDR_AA_PWM0: u8 = 0x01;

/// The auto-increment flag of a sub-address. Setting it turns auto-increment
/// off.
pub const AUTO_INCREMENT_OFF: u8 = 0x80;

/// Sub-address of the settings register (0x04) with auto-increment off.
pub const SUBADDR_NAA_SETTINGS: u8 = 0x84;

/// SHDN bit of the settings register. High: the chip is active. Low: the
/// chip is in power-saving mode.
pub const BIT_SHDN: u8 = 0x01;

/// ENABLE bit of the settings register. High: the outputs follow the PWM
/// registers. Low: the outputs are off.
pub const BIT_ENABLE: u8 = 0x02;

/// The brightness level held in a raw byte: its low four bits. The high four
/// bits have no meaning and are dropped.
pub open spec fn level(raw: u8) -> u8 {
    raw & BRIGHTNESS_MAX
}

/// The burst that loads the three channels: the PWM0 sub-address with
/// auto-increment on, then the blue, green and red levels. The order is the
/// order of the chip's PWM registers.
pub open spec fn color_frame(red: u8, green: u8, blue: u8) -> Seq<u8> {
    seq![SUBADDR_AA_PWM0, level(blue), level(green), level(red)]
}

/// The value of the settings register that turns the light output on or off.
/// SHDN stays high either way, so that turning the output off leaves the chip
/// active and out of power-saving mode.
pub open spec fn settings_value(enable: bool) -> u8 {
    if enable {
        BIT_SHDN | BIT_ENABLE
    } else {
        BIT_SHDN
    }
}

/// The frame that writes the settings register.
pub open spec fn settings_frame(enable: bool) -> Seq<u8> {
    seq![SUBADDR_NAA_SETTINGS, settings_value(enable)]
}

/// Whether the first byte of a state read shows the light output enabled.
/// The chip reports its settings bits in the high nibble of that byte, and
/// the output is on when both SHDN and ENABLE are high there.
pub open spec fn status_enabled(status: u8) -> bool {
    (status >> 4) & (BIT_SHDN | BIT_ENABLE) == BIT_SHDN | BIT_ENABLE
}

/// Builds the burst that sets the three channels.
pub fn encode_color(red: u8, green: u8, blue: u8) -> (frame: [u8; 4])
    ensures
        frame@ == color_frame(red, green, blue),
{
    let frame: [u8; 4] = [
        SUBADDR_AA_PWM0,
        blue & BRIGHTNESS_MAX,
        green & BRIGHTNESS_MAX,
        red & BRIGHTNESS_MAX,
    ];
    assert(frame@ =~= color_frame(red, green, blue));
    frame
}

/// Computes the value of the settings register for the wanted output state.
pub fn encode_settings(enable: bool) -> (value: u8)
    ensures
        value == settings_value(enable),
{
    if enable {
        BIT_SHDN | BIT_ENABLE
    } else {
        BIT_SHDN
    }
}

/// Reads the output state from the first byte of a state read.
pub fn decode_enabled(status: u8) -> (enabled: bool)
    ensures
        enabled == status_enabled(status),
{
    let both: u8 = BIT_SHDN | BIT_ENABLE;
    (status >> 4) & both == both
}

/// A level has four bits. The level of a byte is the byte's remainder modulo
/// sixteen, so it is at most [`BRIGHTNESS_MAX`]; a byte that is a level
/// already is its own level, and taking the level twice is the same as taking
/// it once.
pub proof fn lemma_level_has_four_bits(raw: u8)
    ensures
        level(raw) <= BRIGHTNESS_MAX,
        level(raw) == raw % 16,
        raw <= BRIGHTNESS_MAX ==> level(raw) == raw,
        level(level(raw)) == level(raw),
{
    assert(raw & 0x0f <= 0x0f) by (bit_vector);
    assert(raw & 0x0f == raw % 16) by (bit_vector);
    assert(raw <= 0x0f ==> raw & 0x0f == raw) by (bit_vector);
    assert((raw & 0x0f) & 0x0f == raw & 0x0f) by (bit_vector);
}

/// The burst for the three channels has four bytes: the sub-address 0x01,
/// then the low four bits of blue, of green and of red, in that order.
pub proof fn lemma_color_frame_bytes(red: u8, green: u8, blue: u8)
    ensures
        color_frame(red, green, blue).len() == 4,
        color_frame(red, green, blue) == seq![0x01u8, blue & 0x0f, green & 0x0f, red & 0x0f],
{
    assert(color_frame(red, green, blue) =~= seq![0x01u8, blue & 0x0f, green & 0x0f, red & 0x0f]);
}

/// The frame for the settings register has two bytes: the sub-address 0x84,
/// which is register 0x04 with auto-increment off, then SHDN and ENABLE to
/// turn the output on, or SHDN alone to turn it off. SHDN is high in both.
pub proof fn lemma_settings_frame_bytes(enable: bool)
    ensures
        SUBADDR_NAA_SETTINGS == 0x04 | AUTO_INCREMENT_OFF,
        settings_frame(enable).len() == 2,
        settings_frame(enable) == seq![0x84u8, if enable { 0x03u8 } else { 0x01u8 }],
        settings_value(enable) & BIT_SHDN == BIT_SHDN,
        (settings_value(enable) & BIT_ENABLE == BIT_ENABLE) == enable,
{
    assert(0x84u8 == 0x04u8 | 0x80u8) by (bit_vector);
    assert(0x01u8 | 0x02u8 == 0x03u8) by (bit_vector);
    assert(0x03u8 & 0x01u8 == 0x01u8) by (bit_vector);
    assert(0x01u8 & 0x01u8 == 0x01u8) by (bit_vector);
    assert(0x03u8 & 0x02u8 == 0x02u8) by (bit_vector);
    assert(0x01u8 & 0x02u8 == 0x00u8) by (bit_vector);
    assert(settings_frame(enable) =~= seq![0x84u8, if enable { 0x03u8 } else { 0x01u8 }]);
}

/// The low nibble of the first byte of a state read says nothing about the
/// output state, and of the high nibble only SHDN and ENABLE count: the
/// output shows as enabled exactly when bits 4 and 5 of the byte are both
/// high.
pub proof fn lemma_status_bits(status: u8)
    ensures
        status_enabled(status) == (status & 0x30 == 0x30),
        status_enabled(status) == ((status >> 4) & BIT_SHDN == BIT_SHDN && (status >> 4)
            & BIT_ENABLE == BIT_ENABLE),
{
    assert(0x01u8 | 0x02u8 == 0x03u8) by (bit_vector);
    assert(((status >> 4) & 0x03 == 0x03) == (status & 0x30 == 0x30)) by (bit_vector);
    assert(((status >> 4) & 0x03 == 0x03) == ((status >> 4) & 0x01 == 0x01 && (status >> 4) & 0x02
        == 0x02)) by (bit_vector);
}

/// What is written to the settings register reads back as written. When the
/// first byte of a state read holds, in its high nibble, the value that
/// turned the output on or off, it shows the output on or off accordingly.
pub proof fn lemma_settings_read_back(enable: bool, status: u8)
    requires
        status >> 4 == settings_value(enable),
    ensures
        status_enabled(status) == enable,
{
    assert(0x01u8 | 0x02u8 == 0x03u8) by (bit_vector);
    assert(0x03u8 & 0x03u8 == 0x03u8) by (bit_vector);
    assert(0x01u8 & 0x03u8 == 0x01u8) by (bit_vector);
}

} // verus!
