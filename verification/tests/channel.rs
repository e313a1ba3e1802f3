use psg::Channel;

#[test]
fn channel_starts_silent_and_disabled() {
    let channel = Channel::new();
    assert_eq!(channel.period(), 1);
    assert_eq!(channel.amplitude(), 0);
    assert!(channel.tone_disabled());
    assert!(channel.noise_disabled());
    assert!(!channel.envelope_enabled());
    assert_eq!(channel.amplitude_and_envelope_enabled(), 0);
}

#[test]
fn channel_period_is_masked_to_twelve_bits() {
    let mut channel = Channel::new();
    channel.set_period(254);
    assert_eq!(channel.period(), 254);
    channel.set_period(4095);
    assert_eq!(channel.period(), 4095);
    channel.set_period(5000);
    assert_eq!(channel.period(), 904);
    channel.set_period(0xffff);
    assert_eq!(channel.period(), 4095);
}

#[test]
fn channel_period_zero_becomes_one() {
    let mut channel = Channel::new();
    channel.set_period(100);
    channel.set_period(0);
    assert_eq!(channel.period(), 1);
    channel.set_period(4096);
    assert_eq!(channel.period(), 1);
}

#[test]
fn channel_period_bytes() {
    let mut channel = Channel::new();
    channel.set_period(0x0abc);
    assert_eq!(channel.period_msb(), 0x0a);
    assert_eq!(channel.period_lsb(), 0xbc);
    channel.set_period_msb(0xf3);
    assert_eq!(channel.period(), 0x03bc);
    channel.set_period_lsb(0x21);
    assert_eq!(channel.period(), 0x0321);
}

#[test]
fn channel_period_bytes_clamp_to_one() {
    let mut channel = Channel::new();
    channel.set_period(0x0200);
    channel.set_period_msb(0);
    assert_eq!(channel.period(), 1);
    channel.set_period(0x0034);
    channel.set_period_lsb(0);
    assert_eq!(channel.period(), 1);
    channel.set_period_msb(0x10);
    assert_eq!(channel.period(), 1);
}

#[test]
fn channel_period_from_two_bytes_equals_whole_word() {
    for raw in [0u16, 1, 254, 255, 256, 0x0fff, 0x1000, 0x1234, 0xffff] {
        let mut whole = Channel::new();
        whole.set_period(raw);
        let mut bytes = Channel::new();
        bytes.set_period_msb((raw >> 8) as u8);
        bytes.set_period_lsb((raw & 0xff) as u8);
        assert_eq!(bytes.period(), whole.period());
    }
}

#[test]
fn channel_amplitude_is_masked_to_four_bits() {
    let mut channel = Channel::new();
    channel.set_amplitude(15);
    assert_eq!(channel.amplitude(), 15);
    channel.set_amplitude(16);
    assert_eq!(channel.amplitude(), 0);
    channel.set_amplitude(0xfa);
    assert_eq!(channel.amplitude(), 10);
}

#[test]
fn channel_amplitude_register() {
    let mut channel = Channel::new();
    channel.set_amplitude_and_envelope_enabled(0x1a);
    assert_eq!(channel.amplitude(), 10);
    assert!(channel.envelope_enabled());
    assert_eq!(channel.amplitude_and_envelope_enabled(), 0x1a);
    channel.set_amplitude_and_envelope_enabled(0xef);
    assert_eq!(channel.amplitude(), 15);
    assert!(!channel.envelope_enabled());
    assert_eq!(channel.amplitude_and_envelope_enabled(), 0x0f);
    channel.set_envelope_enabled(true);
    channel.set_amplitude(3);
    assert_eq!(channel.amplitude_and_envelope_enabled(), 0x13);
}

#[test]
fn channel_flags() {
    let mut channel = Channel::new();
    channel.set_tone_disabled(false);
    assert!(!channel.tone_disabled());
    assert!(channel.noise_disabled());
    channel.set_noise_disabled(false);
    assert!(!channel.noise_disabled());
    channel.set_tone_disabled(true);
    assert!(channel.tone_disabled());
    channel.set_envelope_enabled(true);
    assert!(channel.envelope_enabled());
}

#[test]
fn channel_square_wave_at_period_one() {
    let mut channel = Channel::new();
    let bits: Vec<u8> = (0..6).map(|_| channel.render()).collect();
    assert_eq!(bits, vec![1, 0, 1, 0, 1, 0]);
}

#[test]
fn channel_square_wave_flips_once_per_period() {
    let mut channel = Channel::new();
    channel.set_period(254);
    for i in 1..=2000usize {
        let bit = channel.render();
        assert_eq!(usize::from(bit), (i / 254) % 2);
    }
}

#[test]
fn channel_level_with_both_sources_disabled_is_constant() {
    let mut channel = Channel::new();
    assert_eq!(channel.level(0, 0), 1);
    assert_eq!(channel.level(1, 31), 1);
    channel.set_amplitude(15);
    assert_eq!(channel.level(0, 0), 31);
    channel.set_amplitude(7);
    assert_eq!(channel.level(0, 9), 15);
}

#[test]
fn channel_level_needs_tone_and_noise() {
    let mut channel = Channel::new();
    channel.set_amplitude(10);
    channel.set_tone_disabled(false);
    // The oscillator starts low.
    assert_eq!(channel.level(1, 0), 0);
    channel.render();
    assert_eq!(channel.level(1, 0), 21);
    channel.set_noise_disabled(false);
    assert_eq!(channel.level(0, 0), 0);
    assert_eq!(channel.level(1, 0), 21);
    channel.set_tone_disabled(true);
    channel.render();
    assert_eq!(channel.level(1, 0), 21);
    assert_eq!(channel.level(0, 0), 0);
}

#[test]
fn channel_level_follows_envelope_when_enabled() {
    let mut channel = Channel::new();
    channel.set_amplitude(10);
    channel.set_envelope_enabled(true);
    assert_eq!(channel.level(0, 0), 0);
    assert_eq!(channel.level(0, 17), 17);
    assert_eq!(channel.level(0, 31), 31);
    channel.set_envelope_enabled(false);
    assert_eq!(channel.level(0, 17), 21);
}
