use ethercat_hal::el1259::{EL1259Error, EL1259RxPdo, EL1259State, EL1259TxPdo, MultiTimestampEvent, EL1259};

fn event(value: bool, t: u32) -> MultiTimestampEvent {
    MultiTimestampEvent { value, dc_timestamp_ns: t }
}

#[test]
fn start_up_resets_then_releases_the_buffers() {
    let mut dev = EL1259::new();
    assert_eq!(dev.state, EL1259State::ResetOn);
    dev.output_pre_process();
    assert_eq!(dev.state, EL1259State::ResetOff);
    assert!(dev.rxpdo.mto[3].output_buffer_reset);
    dev.output_pre_process();
    assert_eq!(dev.state, EL1259State::Initialized);
    assert!(!dev.rxpdo.mto[3].output_buffer_reset);
}

#[test]
fn queued_output_events_go_out_oldest_first() {
    let mut dev = EL1259::new();
    dev.output_pre_process();
    dev.output_pre_process();
    dev.push(2, event(true, 100));
    dev.push(2, event(false, 200));
    dev.output_pre_process();
    let ch = dev.rxpdo.mto[2];
    assert_eq!(ch.number_of_output_events, 2);
    assert_eq!(ch.output_events[0], event(true, 100));
    assert_eq!(ch.output_events[1], event(false, 200));
    assert_eq!(ch.output_order_count, 1);
    assert!(dev.output_queues[2].is_empty());
}

#[test]
fn input_events_are_collected_and_popped_in_order() {
    let mut dev = EL1259::new();
    dev.txpdo.mti[1].number_of_input_events = 2;
    dev.txpdo.mti[1].input_events[0] = event(true, 5);
    dev.txpdo.mti[1].input_events[1] = event(false, 9);
    dev.input_post_process().unwrap();
    assert_eq!(dev.peek(1), Some(&event(true, 5)));
    assert_eq!(dev.pop(1), Some(event(true, 5)));
    assert_eq!(dev.pop_all(1), vec![event(false, 9)]);
    assert_eq!(dev.pop(1), None);
    assert_eq!(dev.rxpdo.mti[1].input_order_counter, 1);
}

#[test]
fn channel_faults_are_reported_by_number() {
    let mut dev = EL1259::new();
    dev.txpdo.mto[4].output_short_circuit = true;
    assert_eq!(dev.input_post_process(), Err(EL1259Error::ShortCircuit(5)));
    assert_eq!(dev.get_port_count(), 8);
}

use ethercat_hal::el1259::{EL1259MtiTxChannel, EL1259MtoRxChannel, EL1259MtoTxChannel};

#[test]
fn output_object_is_laid_out_bit_by_bit() {
    let mut ch = EL1259MtoRxChannel {
        output_buffer_reset: true,
        manual_output_state: false,
        force_order: true,
        enable_manual_operation: false,
        output_order_count: 5,
        number_of_output_events: 0,
        output_events: [event(false, 0); 10],
    };
    ch.set_events(&[event(true, 0x1122_3344), event(false, 0xAABB_CCDD)]);
    let mut image = [0u8; 50];
    image[49] = 0xFF;
    ch.write(&mut image, 8);
    assert_eq!(image[1], 0b0000_0101);
    assert_eq!(image[2], 5);
    assert_eq!(image[3], 2);
    assert_eq!(image[5], 0b0000_0001);
    assert_eq!(image[9..13], [0x44, 0x33, 0x22, 0x11]);
    assert_eq!(image[13..17], [0xDD, 0xCC, 0xBB, 0xAA]);
    assert_eq!(image[0], 0);
    assert_eq!(image[49], 0xFF);
}

#[test]
fn input_objects_are_read_bit_by_bit() {
    let mut status = EL1259MtoTxChannel {
        output_short_circuit: false,
        output_buffer_overflow: false,
        output_state: false,
        input_cycle_counter: 0,
        output_order_feedback: 0,
        events_in_output_buffer: 0,
    };
    status.read(&[0b1100_0101, 0b1100_0000, 7, 31], 0);
    assert!(status.output_short_circuit && !status.output_buffer_overflow && status.output_state);
    assert_eq!(status.input_cycle_counter, 3);
    assert_eq!(status.output_order_feedback, 7);
    assert_eq!(status.events_in_output_buffer, 31);

    let mut mti = EL1259MtiTxChannel {
        number_of_input_events: 0,
        input_state: false,
        input_buffer_overflow: false,
        input_cycle_counter: 0,
        events_in_input_buffer: 0,
        input_order_feedback: 0,
        input_events: [event(false, 9); 10],
    };
    let mut image = [0u8; 48];
    image[0] = 1;
    image[1] = 0b0000_0001;
    image[2] = 4;
    image[3] = 6;
    image[4] = 1;
    image[8..12].copy_from_slice(&1234u32.to_le_bytes());
    mti.read(&image, 0);
    assert_eq!(mti.number_of_input_events, 1);
    assert!(mti.input_state);
    assert_eq!(mti.events_in_input_buffer, 4);
    assert_eq!(mti.input_order_feedback, 6);
    assert_eq!(mti.input_events[0], event(true, 1234));
    assert_eq!(mti.input_events[1], event(false, 9));
    assert_eq!(mti.get_events(), &[event(true, 1234)]);
}

#[test]
fn channel_getters_reach_the_channel_objects() {
    let mut rx = EL1259RxPdo::default();
    rx.get_mto_mut(5).force_order = true;
    rx.get_mti_mut(2).input_order_counter = 3;
    assert!(rx.get_mto(5).force_order);
    assert!(!rx.get_mto(4).force_order);
    assert_eq!(rx.get_mti(2).input_order_counter, 3);
    assert_eq!(rx.mti[2].input_order_counter, 3);
    let mut tx = EL1259TxPdo::default();
    tx.get_mto_mut(7).output_state = true;
    tx.get_mti_mut(0).events_in_input_buffer = 4;
    assert!(tx.get_mto(7).output_state);
    assert_eq!(tx.get_mti(0).events_in_input_buffer, 4);
    assert_eq!(tx.get_mti(1).events_in_input_buffer, 0);
}
