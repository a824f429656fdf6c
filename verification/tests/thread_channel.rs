use ethercat_hal::debugging::dump_dc_registers;
use ethercat_hal::ethercat_state::EtherCATState;
use ethercat_hal::sdo::{SdoError, SdoReadRequest, SdoResponse, SdoType, BECKHOFF_CODEWORD_INDEX, BECKHOFF_EEPROM_LOCK_CODEWORD};
use ethercat_hal::thread_channel::{
    dc_sync0_outcome, register_read_outcome, sdo_read_outcome, sdo_read_raw_outcome,
    sdo_read_request, sdo_write_outcome, typed_sdo_write_request, ChannelError, ChannelRequest,
    ChannelRequests, ChannelResponse, EtherCATThreadChannel,
};
use ethercat_hal::wago_750_354::{CouplerError, Wago750_354};
use ethercat_hal::minas_a6::HomingDirection;
use ethercat_hal::minas_a6_coe::{configure_drive, read_encoder_resolution, setup_homing, DriveConfigError};
use ethercat_hal::coe::{ConfigurableDevice, Configuration};
use ethercat_hal::el4732::{EL4732Configuration, EL4732};
use ethercat_hal::el7062_coe::EL7062Configuration;
use ethercat_hal::machine_ident::{identification_for, MachineDeviceInfo};
use ethercat_hal::thread_channel::identifications_outcome;
use std::sync::mpsc::{channel, Receiver};

fn open_channel() -> (EtherCATThreadChannel, Receiver<ChannelRequest>) {
    let (tx, rx) = channel::<ChannelRequest>();
    (EtherCATThreadChannel::new(tx), rx)
}

fn closed_channel() -> EtherCATThreadChannel {
    let (tx, rx) = channel::<ChannelRequest>();
    drop(rx);
    EtherCATThreadChannel::new(tx)
}

#[test]
fn sdo_read_outcome_takes_the_value_of_the_asked_type() {
    let answer = Ok(ChannelResponse::SdoRead(SdoResponse::U16(Ok(0x1234))));
    assert_eq!(sdo_read_outcome::<u16>(answer), Ok(0x1234));
    let answer = Ok(ChannelResponse::SdoRead(SdoResponse::U8(Ok(7))));
    assert_eq!(
        sdo_read_outcome::<u16>(answer),
        Err(ChannelError::Sdo(SdoError::ConversionNotSupported))
    );
    let answer = Ok(ChannelResponse::SdoRead(SdoResponse::I32(Err(SdoError::TransferFailed))));
    assert_eq!(sdo_read_outcome::<i32>(answer), Err(ChannelError::Sdo(SdoError::TransferFailed)));
    let answer = Ok(ChannelResponse::RegisterReadResponse(Ok(3)));
    assert_eq!(sdo_read_outcome::<u8>(answer), Err(ChannelError::UnexpectedResponse));
    assert_eq!(sdo_read_outcome::<bool>(Err(ChannelError::Timeout)), Err(ChannelError::Timeout));
}

#[test]
fn other_outcomes_take_their_own_reply() {
    assert_eq!(sdo_write_outcome(Ok(ChannelResponse::SdoWriteResponse(Ok(())))), Ok(()));
    assert_eq!(
        sdo_write_outcome(Ok(ChannelResponse::SdoWriteResponse(Err(SdoError::TransferFailed)))),
        Err(ChannelError::Sdo(SdoError::TransferFailed))
    );
    assert_eq!(
        sdo_write_outcome(Ok(ChannelResponse::EnableDCSync0Response(Ok(())))),
        Err(ChannelError::UnexpectedResponse)
    );
    assert_eq!(dc_sync0_outcome(Ok(ChannelResponse::EnableDCSync0Response(Ok(())))), Ok(()));
    assert_eq!(
        dc_sync0_outcome(Err(ChannelError::Disconnected)),
        Err(ChannelError::Disconnected)
    );
    assert_eq!(register_read_outcome(Ok(ChannelResponse::RegisterReadResponse(Ok(0xBEEF)))), Ok(0xBEEF));
    assert_eq!(
        register_read_outcome(Ok(ChannelResponse::SdoWriteResponse(Ok(())))),
        Err(ChannelError::UnexpectedResponse)
    );
    assert_eq!(
        sdo_read_raw_outcome(Ok(ChannelResponse::SdoReadRawResponse(Ok(vec![1, 2, 3])))),
        Ok(vec![1, 2, 3])
    );
}

#[test]
fn read_requests_carry_the_type_tag() {
    assert_eq!(
        sdo_read_request::<i16>(0x1001, 0x6041, 2),
        Ok(SdoReadRequest { device_address: 0x1001, index: 0x6041, sub_index: 2, type_flag: SdoType::I16 })
    );
    let write = typed_sdo_write_request(0x1001, 0x6040, 0, &0x0102_0304u32).unwrap();
    assert_eq!(write.data, [4, 3, 2, 1]);
    assert_eq!(write.type_flag, SdoType::U32);
    assert_eq!(write.sub_index, 0);
}

#[test]
fn a_read_without_listener_fails_to_send() {
    let mut ch = closed_channel();
    assert_eq!(ch.sdo_read::<u16>(0x1001, 0x6041, 0), Err(ChannelError::SendFailed));
    assert_eq!(ch.enable_dc_sync0(0x1001), Err(ChannelError::SendFailed));
    assert_eq!(ch.request_state_change(EtherCATState::Op), Ok(()));
    assert_eq!(ch.set_mut_beckhoff_eeprom_lock_active(0x1001), Ok(()));
}

#[test]
fn an_unanswered_read_times_out_after_sending_its_request() {
    let (mut ch, rx) = open_channel();
    assert_eq!(ch.sdo_read::<u32>(0x1002, BECKHOFF_CODEWORD_INDEX, 0), Err(ChannelError::Timeout));
    let sent = rx.try_recv().unwrap();
    match sent.channel_request {
        ChannelRequests::SdoReadRequest(r) => assert_eq!(
            r,
            SdoReadRequest { device_address: 0x1002, index: 0xF008, sub_index: 0, type_flag: SdoType::U32 }
        ),
        other => panic!("unexpected request {other:?}"),
    }
    assert_eq!(ch.sdo_write(0x1002, 0x6040, 0, 0x000Fu16), Err(ChannelError::Timeout));
    match rx.try_recv().unwrap().channel_request {
        ChannelRequests::SdoWriteRequest(w) => {
            assert_eq!(w.data, [0x0F, 0, 0, 0]);
            assert_eq!(w.type_flag, SdoType::U16);
        }
        other => panic!("unexpected request {other:?}"),
    }
}

#[test]
fn a_dc_dump_lists_every_register_in_order() {
    let readings = dump_dc_registers(&mut closed_channel(), 0x1003);
    assert_eq!(readings.len(), 11);
    assert_eq!(readings[0].register, 0x0980);
    assert_eq!(readings[0].label, "AssignActivate(classic)");
    assert_eq!(readings[10].register, 0x09A4);
    assert_eq!(readings[10].label, "Sync1Cycle-module-lo");
    assert!(readings.iter().all(|r| r.value == Err(ChannelError::SendFailed)));
}

#[test]
fn coupler_discovery_passes_a_failed_read_on() {
    let mut ch = closed_channel();
    assert!(matches!(
        Wago750_354::initialize_modules(&mut ch, 0x1004),
        Err(ChannelError::SendFailed)
    ));
    let mut coupler = Wago750_354::new();
    assert_eq!(
        coupler.get_pdo_offsets(0x1004, ch.clone(), true),
        Err(CouplerError::Channel(ChannelError::SendFailed))
    );
    assert!(coupler.tx_pdo_mappings.is_empty());
    coupler.init_slot_modules(ch, 0x1004);
    assert!(coupler.slots.is_empty());
}

#[test]
fn drive_configuration_stops_at_the_first_failed_transfer() {
    let mut ch = closed_channel();
    assert_eq!(configure_drive(&mut ch, 0x1005), Err(ChannelError::SendFailed));
    assert_eq!(
        read_encoder_resolution(&mut ch, 0x1005),
        Err(DriveConfigError::Channel(ChannelError::SendFailed))
    );
    assert_eq!(
        setup_homing(&mut ch, 0x1005, HomingDirection::Cw, 1000, 100, 10000),
        Err(ChannelError::SendFailed)
    );
}

#[test]
fn the_first_configuration_write_is_the_mapping_count_reset() {
    let (mut ch, rx) = open_channel();
    assert_eq!(configure_drive(&mut ch, 0x1006), Err(ChannelError::Timeout));
    match rx.try_recv().unwrap().channel_request {
        ChannelRequests::SdoWriteRequest(w) => {
            assert_eq!(w.index, 0x1600);
            assert_eq!(w.sub_index, 0);
            assert_eq!(w.data, [0, 0, 0, 0]);
            assert_eq!(w.type_flag, SdoType::U8);
        }
        other => panic!("unexpected request {other:?}"),
    }
    assert!(rx.try_recv().is_err());
}

#[test]
fn a_configuration_is_adopted_only_once_stored() {
    let mut dev = EL4732::new_with_oversample(2);
    let config = EL4732Configuration::new(4).unwrap();
    assert_eq!(
        dev.write_config(&mut closed_channel(), 0x1007, &config),
        Err(ChannelError::SendFailed)
    );
    assert_eq!(dev.get_config().oversample_factor, 1);
    assert_eq!(dev.rxpdo.ch1_samples.as_ref().unwrap().samples.len(), 2);
    let (mut ch, rx) = open_channel();
    assert_eq!(config.write_config(&mut ch, 0x1007), Err(ChannelError::Timeout));
    match rx.try_recv().unwrap().channel_request {
        ChannelRequests::SdoWriteRequest(w) => {
            assert_eq!((w.index, w.sub_index), (0x1600, 0));
            assert_eq!(w.data, [4, 0, 0, 0]);
        }
        other => panic!("unexpected request {other:?}"),
    }
    let el7062 = EL7062Configuration::default();
    let plan = el7062.config_plan();
    assert_eq!(plan[0].index, 0x8000);
    assert_eq!(plan[0].sub_index, 0x11);
}

fn info(device_address: u16, role: u16) -> MachineDeviceInfo {
    MachineDeviceInfo { role, machine_vendor: 1, machine_serial: 2, machine_id: 3, device_address }
}

#[test]
fn each_subdevice_gets_its_first_identification() {
    let infos = [info(0x1001, 7), info(0x1002, 8), info(0x1001, 9)];
    assert_eq!(identification_for(&infos, 0x1001), Some(info(0x1001, 7)));
    assert_eq!(identification_for(&infos, 0x1002), Some(info(0x1002, 8)));
    assert_eq!(identification_for(&infos, 0x1003), None);
    assert_eq!(identification_for(&[], 0x1001), None);
}

#[test]
fn identifications_come_from_their_reply() {
    let reply = Ok(ChannelResponse::MachineDeviceInfoResponse(Ok(vec![info(0x1001, 1)])));
    assert_eq!(identifications_outcome(reply), Ok(vec![info(0x1001, 1)]));
    assert_eq!(
        identifications_outcome(Ok(ChannelResponse::RegisterReadResponse(Ok(1)))),
        Err(ChannelError::UnexpectedResponse)
    );
    assert_eq!(closed_channel().read_device_identifications(), Err(ChannelError::SendFailed));
}

#[test]
fn no_modules_need_no_reads() {
    assert_eq!(Wago750_354::get_modules(&mut closed_channel(), 0x1008, 0).unwrap().len(), 0);
    assert_eq!(closed_channel().sdo_write_all(0x1008, &[]), Ok(()));
}

#[test]
fn unread_layouts_keep_the_offsets_they_had() {
    let mut coupler = Wago750_354::new();
    coupler.set_module(ethercat_hal::wago_750_354::describe_module(0, 0x1009, ethercat_hal::wago::WAGO_750_672_PRODUCT_ID));
    coupler.tx_pdo_mappings = Wago750_354::compute_pdo_offsets(24, vec![0x6000_0160], true);
    coupler.init_slot_modules(closed_channel(), 0x1009);
    assert_eq!(coupler.slots[0].tx_offset, 24);
    assert_eq!(coupler.slots[0].rx_offset, 0);
}

#[test]
fn a_count_of_zero_reads_nothing_more() {
    assert_eq!(Wago750_354::modules_for_count(&mut closed_channel(), 0x100A, Ok(0)).unwrap().len(), 0);
    assert!(matches!(
        Wago750_354::modules_for_count(&mut closed_channel(), 0x100A, Err(ChannelError::Timeout)),
        Err(ChannelError::Timeout)
    ));
    assert!(matches!(
        Wago750_354::modules_for_count(&mut closed_channel(), 0x100A, Ok(2)),
        Err(ChannelError::SendFailed)
    ));
}

#[test]
fn the_eeprom_lock_is_written_only_when_missing() {
    let mut ch = closed_channel();
    assert_eq!(ch.apply_eeprom_lock(0x100B, Err(ChannelError::Timeout)), Ok(()));
    assert_eq!(ch.apply_eeprom_lock(0x100B, Ok(BECKHOFF_EEPROM_LOCK_CODEWORD)), Ok(()));
    assert_eq!(ch.apply_eeprom_lock(0x100B, Ok(0)), Err(ChannelError::SendFailed));
    let (mut ch, rx) = open_channel();
    assert_eq!(ch.apply_eeprom_lock(0x100B, Ok(7)), Err(ChannelError::Timeout));
    match rx.try_recv().unwrap().channel_request {
        ChannelRequests::SdoWriteRequest(w) => {
            assert_eq!((w.device_address, w.index, w.sub_index), (0x100B, 0xF008, 0));
            assert_eq!(w.data, [0x78, 0x56, 0x34, 0x12]);
        }
        other => panic!("unexpected request {other:?}"),
    }
    assert!(rx.try_recv().is_err());
}
