use psg::{ChipType, Error, PSG};

fn msx() -> PSG {
    PSG::new(1_789_772, 44100).unwrap()
}

#[test]
fn clock_rate_below_limit_is_accepted() {
    assert!(PSG::new(1_789_772, 44100).is_ok());
    assert!(PSG::new(2_822_399, 44100).is_ok());
    assert!(PSG::new(0, 1).is_ok());
    assert!(PSG::new(63, 1).is_ok());
}

#[test]
fn clock_rate_at_limit_is_rejected() {
    assert_eq!(PSG::new(2_822_400, 44100).err(), Some(Error::ClockRateTooHigh));
    assert_eq!(PSG::new(64, 1).err(), Some(Error::ClockRateTooHigh));
}

#[test]
fn clock_rate_above_limit_is_rejected() {
    assert_eq!(PSG::new(5_644_801, 44100).err(), Some(Error::ClockRateTooHigh));
    assert_eq!(PSG::new(u64::MAX, u32::MAX).err(), Some(Error::ClockRateTooHigh));
    assert_eq!(PSG::new(0, 0).err(), Some(Error::ClockRateTooHigh));
}

#[test]
fn clock_rate_limit_at_largest_sample_rate() {
    let limit = 64 * u64::from(u32::MAX);
    assert!(PSG::new(limit - 1, u32::MAX).is_ok());
    assert!(PSG::new(limit, u32::MAX).is_err());
}

#[test]
fn error_message() {
    assert_eq!(
        Error::ClockRateTooHigh.message(),
        "the clock rate is too high for the requested sample rate"
    );
}

#[test]
fn chip_type_defaults_to_ym() {
    let mut psg = msx();
    assert_eq!(psg.chip_type(), ChipType::YM);
    psg.set_chip_type(ChipType::AY);
    assert_eq!(psg.chip_type(), ChipType::AY);
    psg.set_chip_type(ChipType::YM);
    assert_eq!(psg.chip_type(), ChipType::YM);
}

#[test]
fn set_chip_type_changes_nothing_else() {
    let mut a = msx();
    let mut b = msx();
    a.set_register(0, 7);
    b.set_register(0, 7);
    a.set_register(7, 0);
    b.set_register(7, 0);
    a.set_register(8, 12);
    b.set_register(8, 12);
    b.set_chip_type(ChipType::AY);
    for _ in 0..500 {
        assert_eq!(a.render_tick(), b.render_tick());
    }
}

#[test]
fn untouched_chip_rests_at_the_mute_level() {
    // Level 1 is the converter's second mute entry.
    let mut psg = msx();
    for _ in 0..44100 {
        assert_eq!(psg.render_tick(), [1, 1, 1]);
    }
}

#[test]
fn tone_at_period_254() {
    let mut psg = msx();
    let channel = psg.channel_mut(0);
    channel.set_period(254);
    channel.set_amplitude(15);
    channel.set_tone_disabled(false);
    for i in 1..=10_000usize {
        let expected = if (i / 254) % 2 == 1 { 31 } else { 0 };
        assert_eq!(psg.render_tick(), [expected, 1, 1]);
    }
}

#[test]
fn noise_only_channel_follows_the_noise_bit() {
    let mut psg = msx();
    psg.set_noise_disabled(0, false);
    psg.set_amplitude(0, 15);
    psg.set_tone_disabled(0, true);
    psg.set_noise_period(1);
    let mut fibonacci: u32 = 1;
    for _ in 0..20_000 {
        psg.render_tick();
        let levels = psg.render_tick();
        let feedback = (fibonacci ^ (fibonacci >> 3)) & 1;
        fibonacci = (fibonacci >> 1) | (feedback << 16);
        assert_eq!(u32::from(levels[0]), 31 * (fibonacci & 1));
        assert_eq!(levels[1], 1);
        assert_eq!(levels[2], 1);
    }
}

#[test]
fn envelope_ping_is_shared_by_the_channels() {
    let mut psg = msx();
    psg.set_envelope_period(1000);
    psg.set_envelope_shape(0x0c);
    psg.set_envelope_enabled(0, true);
    psg.set_envelope_enabled(2, true);
    psg.set_amplitude(0, 0);
    for i in 1..=88_200usize {
        let level = ((i / 1000) % 32) as u8;
        assert_eq!(psg.render_tick(), [level, 1, level]);
    }
}

#[test]
fn registers_match_accessors() {
    let mut by_accessors = msx();
    {
        let channel = by_accessors.channel_mut(0);
        channel.set_period(254);
        channel.set_amplitude(10);
        channel.set_envelope_enabled(false);
        channel.set_tone_disabled(false);
        channel.set_noise_disabled(true);
    }
    let mut by_registers = msx();
    by_registers.set_register(0, (254u16 & 0xff) as u8);
    by_registers.set_register(1, 0);
    by_registers.set_register(7, 0b0011_1110);
    by_registers.set_register(8, 10);
    assert_eq!(by_registers.channel(0).period(), 254);
    assert_eq!(by_registers.channel(0).amplitude(), 10);
    assert!(!by_registers.channel(0).tone_disabled());
    assert!(by_registers.channel(0).noise_disabled());
    for _ in 0..10_000 {
        assert_eq!(by_accessors.render_tick(), by_registers.render_tick());
    }
}

#[test]
fn tone_period_registers() {
    let mut psg = msx();
    psg.set_register(1, 0x0a);
    psg.set_register(0, 0xbc);
    psg.set_register(3, 0xf1);
    psg.set_register(2, 0x23);
    psg.set_register(5, 0x00);
    psg.set_register(4, 0x00);
    assert_eq!(psg.channel(0).period(), 0x0abc);
    assert_eq!(psg.channel(1).period(), 0x0123);
    assert_eq!(psg.channel(2).period(), 1);
}

#[test]
fn noise_period_register() {
    let mut psg = msx();
    psg.set_register(6, 0x7f);
    assert_eq!(psg.noise_generator().period(), 31);
    psg.set_register(6, 0);
    assert_eq!(psg.noise_generator().period(), 1);
    psg.set_noise_period(12);
    assert_eq!(psg.noise_generator().period(), 12);
    psg.noise_generator_mut().set_period(40);
    assert_eq!(psg.noise_generator().period(), 8);
}

#[test]
fn mixer_register_bits() {
    let mut psg = msx();
    psg.set_mixer(0b0010_1010);
    assert!(!psg.channel(0).tone_disabled());
    assert!(psg.channel(1).tone_disabled());
    assert!(!psg.channel(2).tone_disabled());
    assert!(psg.channel(0).noise_disabled());
    assert!(!psg.channel(1).noise_disabled());
    assert!(psg.channel(2).noise_disabled());
    psg.set_register(7, 0b1100_0000);
    for index in 0..3 {
        assert!(!psg.channel(index).tone_disabled());
        assert!(!psg.channel(index).noise_disabled());
    }
    psg.set_register(7, 0b0011_1111);
    for index in 0..3 {
        assert!(psg.channel(index).tone_disabled());
        assert!(psg.channel(index).noise_disabled());
    }
}

#[test]
fn amplitude_registers() {
    let mut psg = msx();
    psg.set_register(8, 0x1f);
    psg.set_register(9, 0x07);
    psg.set_register(10, 0xf0);
    assert_eq!(psg.channel(0).amplitude_and_envelope_enabled(), 0x1f);
    assert_eq!(psg.channel(1).amplitude_and_envelope_enabled(), 0x07);
    assert_eq!(psg.channel(2).amplitude_and_envelope_enabled(), 0x10);
    assert_eq!(psg.channel(2).amplitude(), 0);
    assert!(psg.channel(2).envelope_enabled());
}

#[test]
fn envelope_registers() {
    let mut psg = msx();
    psg.set_register(12, 0x03);
    psg.set_register(11, 0xe8);
    assert_eq!(psg.envelope_generator().period(), 1000);
    psg.set_register(13, 0xfe);
    assert_eq!(psg.envelope_generator().shape(), 0x0e);
    psg.set_envelope_period(0);
    assert_eq!(psg.envelope_generator().period(), 1);
    psg.envelope_generator_mut().set_period(77);
    assert_eq!(psg.envelope_generator().period(), 77);
    psg.set_envelope_shape(0x2b);
    assert_eq!(psg.envelope_generator().shape(), 0x0b);
}

#[test]
fn shape_register_restarts_the_envelope() {
    let mut psg = msx();
    psg.set_envelope_enabled(0, true);
    psg.set_register(13, 0x0c);
    for _ in 0..10 {
        psg.render_tick();
    }
    assert_eq!(psg.render_tick()[0], 11);
    psg.set_register(13, 0x0c);
    assert_eq!(psg.render_tick()[0], 1);
}

#[test]
fn unused_registers_are_ignored() {
    let mut touched = msx();
    let mut plain = msx();
    for psg in [&mut touched, &mut plain] {
        psg.set_register(0, 3);
        psg.set_register(7, 0b0011_0110);
        psg.set_register(8, 0x1d);
        psg.set_register(11, 2);
        psg.set_register(13, 0x0a);
    }
    for register in 14..=255u8 {
        touched.set_register(register, 0xff);
        touched.set_register(register, 0x00);
    }
    for index in 0..3 {
        assert_eq!(touched.channel(index).period(), plain.channel(index).period());
        assert_eq!(
            touched.channel(index).amplitude_and_envelope_enabled(),
            plain.channel(index).amplitude_and_envelope_enabled()
        );
    }
    assert_eq!(touched.noise_generator().period(), plain.noise_generator().period());
    assert_eq!(touched.envelope_generator().period(), plain.envelope_generator().period());
    for _ in 0..2000 {
        assert_eq!(touched.render_tick(), plain.render_tick());
    }
}

#[test]
fn index_setters_match_channel_setters() {
    let mut by_index = msx();
    let mut by_channel = msx();
    for index in 0..3u8 {
        by_index.set_tone_period(index, 5000 + u16::from(index));
        by_index.set_amplitude(index, 0x1c + index);
        by_index.set_tone_disabled(index, index == 1);
        by_index.set_noise_disabled(index, index != 1);
        by_index.set_envelope_enabled(index, index == 2);
        let channel = by_channel.channel_mut(index);
        channel.set_period(5000 + u16::from(index));
        channel.set_amplitude(0x1c + index);
        channel.set_tone_disabled(index == 1);
        channel.set_noise_disabled(index != 1);
        channel.set_envelope_enabled(index == 2);
    }
    assert_eq!(by_index.channel(0).period(), 904);
    assert_eq!(by_index.channel(2).amplitude(), 14);
    for _ in 0..5000 {
        assert_eq!(by_index.render_tick(), by_channel.render_tick());
    }
}

#[test]
fn noise_and_envelope_advance_once_per_tick() {
    let mut psg = msx();
    psg.set_mixer(0b0000_0111);
    psg.set_envelope_shape(0x0c);
    for index in 0..3 {
        psg.set_envelope_enabled(index, true);
    }
    let mut noise = psg::NoiseGenerator::new();
    let mut envelope = psg::EnvelopeGenerator::new();
    envelope.set_shape(0x0c);
    for _ in 0..5000 {
        let bit = noise.render();
        let level = envelope.render() * bit;
        assert_eq!(psg.render_tick(), [level, level, level]);
    }
}

#[test]
fn levels_fit_the_converter_table() {
    let mut psg = msx();
    for i in 0..20_000u32 {
        if i % 13 == 0 {
            psg.set_register((i / 13 % 16) as u8, (i * 37 % 256) as u8);
        }
        for level in psg.render_tick() {
            assert!(level <= 31);
        }
        for index in 0..3 {
            assert!((1..=4095).contains(&psg.channel(index).period()));
            assert!(psg.channel(index).amplitude() <= 15);
        }
        assert!((1..=31).contains(&psg.noise_generator().period()));
        assert!(psg.envelope_generator().period() >= 1);
        assert!(psg.envelope_generator().shape() <= 15);
    }
}
