use triangle::antialiasing::{
    choose_strategy, same_strategy, Antialiasing, ScaleFactor, INFINITY, MSAA, ONE_AND_A_HALF, TWO,
};

fn scale(factor: f64) -> ScaleFactor {
    ScaleFactor { bits: factor.to_bits() }
}

fn flags(flags: wgpu::TextureFormatFeatureFlags) -> u32 {
    flags.bits()
}

#[test]
fn constants_are_the_bits_of_the_numbers() {
    assert_eq!(ONE_AND_A_HALF, 1.5f64.to_bits());
    assert_eq!(TWO, 2.0f64.to_bits());
    assert_eq!(INFINITY, f64::INFINITY.to_bits());
}

#[test]
fn scale_factors_compare_like_numbers() {
    let factors = [
        0.0,
        -0.0,
        1.0,
        1.25,
        1.499_999_999,
        1.5,
        1.500_000_001,
        1.75,
        2.0,
        2.000_000_001,
        3.0,
        1.0e300,
        f64::MIN_POSITIVE,
        f64::INFINITY,
        f64::NEG_INFINITY,
        f64::NAN,
        -f64::NAN,
        -1.0,
        -2.5,
    ];

    for factor in factors {
        assert_eq!(scale(factor).exceeds_two(), factor > 2.0, "{}", factor);
        assert_eq!(scale(factor).reaches_one_and_a_half(), factor >= 1.5, "{}", factor);
    }
}

#[test]
fn sample_counts() {
    assert_eq!(MSAA::X2.sample_count(), 2);
    assert_eq!(MSAA::X4.sample_count(), 4);
    assert_eq!(MSAA::X8.sample_count(), 8);
    assert_eq!(MSAA::X16.sample_count(), 16);
}

#[test]
fn disabled_means_no_strategy() {
    let all = flags(wgpu::TextureFormatFeatureFlags::all());

    assert_eq!(choose_strategy(Antialiasing::Disabled, scale(1.0), false, all), None);
    assert_eq!(choose_strategy(Antialiasing::Disabled, scale(1.0), true, 0), None);
}

#[test]
fn supported_strategies_are_used() {
    let cases = [
        (MSAA::X2, wgpu::TextureFormatFeatureFlags::MULTISAMPLE_X2),
        (MSAA::X4, wgpu::TextureFormatFeatureFlags::MULTISAMPLE_X4),
        (MSAA::X8, wgpu::TextureFormatFeatureFlags::MULTISAMPLE_X8),
        (MSAA::X16, wgpu::TextureFormatFeatureFlags::MULTISAMPLE_X16),
    ];

    for (msaa, flag) in cases {
        for (other, _) in cases {
            let expected = if msaa == other { other } else { MSAA::X4 };

            assert_eq!(
                choose_strategy(Antialiasing::MSAA(other), scale(1.0), false, flags(flag)),
                Some(expected),
            );
        }
    }
}

#[test]
fn unsupported_strategies_fall_back_to_four_samples() {
    for msaa in [MSAA::X2, MSAA::X4, MSAA::X8, MSAA::X16] {
        assert_eq!(
            choose_strategy(Antialiasing::MSAA(msaa), scale(3.0), true, 0),
            Some(MSAA::X4),
        );
    }
}

#[test]
fn automatic_follows_the_scale_factor() {
    let all = flags(wgpu::TextureFormatFeatureFlags::all());
    let automatic = |factor: f64, macos: bool| {
        choose_strategy(Antialiasing::Automatic, scale(factor), macos, all)
    };

    assert_eq!(automatic(1.0, false), Some(MSAA::X4));
    assert_eq!(automatic(1.5, false), Some(MSAA::X4));
    assert_eq!(automatic(2.0, false), Some(MSAA::X4));
    assert_eq!(automatic(2.1, false), None);
    assert_eq!(automatic(1.0, true), Some(MSAA::X4));
    assert_eq!(automatic(1.4, true), Some(MSAA::X4));
    assert_eq!(automatic(1.5, true), Some(MSAA::X2));
    assert_eq!(automatic(2.0, true), Some(MSAA::X2));
    assert_eq!(automatic(2.1, true), None);
    assert_eq!(automatic(f64::NAN, true), Some(MSAA::X4));
}

#[test]
fn automatic_falls_back_to_four_samples() {
    assert_eq!(choose_strategy(Antialiasing::Automatic, scale(1.5), true, 0), Some(MSAA::X4));
}

#[test]
fn strategies_compare() {
    assert!(same_strategy(None, None));
    assert!(same_strategy(Some(MSAA::X2), Some(MSAA::X2)));
    assert!(!same_strategy(Some(MSAA::X2), Some(MSAA::X4)));
    assert!(!same_strategy(None, Some(MSAA::X4)));
    assert!(!same_strategy(Some(MSAA::X4), None));
}
