use ethercat_hal::coe::ConfigurationError;
use ethercat_hal::el4732::{AnalogOutputOversample, EL4732Configuration, EL4732};

#[test]
fn oversample_factors_are_checked() {
    assert_eq!(EL4732Configuration::new(4).unwrap().oversample_factor, 4);
    assert_eq!(
        EL4732Configuration::new(7),
        Err(ConfigurationError::InvalidOversampleFactor(7))
    );
}

#[test]
fn oversampled_output_fills_every_slot() {
    let mut o = AnalogOutputOversample::new(3);
    assert_eq!(o.oversample_factor(), 3);
    o.fill(-7);
    assert_eq!(o.samples, vec![-7, -7, -7]);
    o.copy_from(&[1, 2, 3]);
    assert_eq!(o.samples, vec![1, 2, 3]);
}

#[test]
fn setting_an_output_bumps_its_cycle_count() {
    let mut dev = EL4732::new_with_oversample(2);
    dev.set_output(1, 1234);
    let ch2 = dev.rxpdo.ch2_samples.as_ref().unwrap();
    assert_eq!(ch2.samples, vec![1234, 1234]);
    dev.set_output_samples(0, &[5, 6]);
    assert_eq!(dev.rxpdo.ch1_samples.as_ref().unwrap().samples, vec![5, 6]);
    assert_eq!(dev.get_port_count(), 2);
}
