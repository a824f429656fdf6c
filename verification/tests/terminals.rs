use ethercat_hal::el2024::EL2024;
use ethercat_hal::el2809::EL2809;
use ethercat_hal::el3204::EL3204;
use ethercat_hal::el4008::EL4008;
use ethercat_hal::ep2339_0021::EP2339_0021;
use ethercat_hal::pdo_objects::{AnalogOutput, BoolPdoObject, IoError};

#[test]
fn el2024_sets_one_output() {
    let mut t = EL2024::new();
    t.set_output(2, true);
    assert_eq!(t.rxpdo.channel3, Some(BoolPdoObject { value: true }));
    assert_eq!(t.rxpdo.channel1, Some(BoolPdoObject { value: false }));
    t.set_output(9, true);
    assert_eq!(t.get_port_count(), 4);
}

#[test]
fn el2809_has_sixteen_outputs() {
    let mut t = EL2809::new();
    t.set_output(15, true);
    assert_eq!(t.rxpdo.channel16, Some(BoolPdoObject { value: true }));
    assert_eq!(t.get_port_count(), 16);
}

#[test]
fn ep2339_inputs_report_mapping_and_range() {
    let mut t = EP2339_0021::new();
    t.txpdo.channel2 = Some(BoolPdoObject { value: true });
    assert_eq!(t.get_input(1), Ok(true));
    assert_eq!(t.get_input(0), Ok(false));
    t.txpdo.channel3 = None;
    assert_eq!(t.get_input(2), Err(IoError::ChannelNotMapped { port: 2 }));
    assert_eq!(
        t.get_input(16),
        Err(IoError::PortOutOfRange { port: 16, port_count: 16 })
    );
}

#[test]
fn el3204_copies_the_rtd_channel() {
    let mut t = EL3204::new();
    if let Some(c) = t.txpdo.channel4.as_mut() {
        c.temperature = 215;
        c.error = true;
    }
    let reading = t.get_input(3).unwrap();
    assert_eq!(reading.temperature, 215);
    assert!(reading.error);
    assert!(t.get_input(4).is_err());
}

#[test]
fn el4008_writes_raw_values() {
    let mut t = EL4008::new();
    t.set_output_raw(7, 0x7FFF);
    assert_eq!(t.rxpdo.channel8, Some(AnalogOutput { value: 0x7FFF }));
    assert_eq!(t.get_maximum_output_volts(), 10);
    assert_eq!(t.get_minimum_output_volts(), 0);
}
