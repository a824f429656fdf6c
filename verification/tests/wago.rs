use ethercat_hal::wago::{
    decode_i24, le_i16, Module, Wago750_460, Wago750_460Port, Wago750_531, Wago750_531OutputPort,
    Wago750_554, Wago750_672, WAGO_750_671_PRODUCT_ID, WAGO_750_672_PRODUCT_ID,
};
use ethercat_hal::wago_750_354::{
    describe_module, module_address, ModulePdoMapping, Wago750_354, WAGO_750_354_VENDOR_ID,
};

fn module_at(tx_offset: usize, rx_offset: usize) -> Module {
    Module {
        slot: 0,
        belongs_to_addr: 0x1000,
        vendor_id: WAGO_750_354_VENDOR_ID,
        product_id: 0,
        has_tx: true,
        has_rx: true,
        tx_offset,
        rx_offset,
        name: String::new(),
    }
}

/// Inputs are read little-endian, bit-addressed from the module's offset.
#[test]
fn wago_460_reads_words_at_its_bit_offset() {
    let mut module = Wago750_460::new();
    module.set_module(module_at(8, 0));
    let image = [0xAA, 0xFA, 0x00, 0x34, 0x21, 0x30, 0xF8, 0x00, 0x00, 0x00];
    module.input(&image);
    // t1 = bytes 1..3 = 0x00FA = 25.0 °C
    let t1 = module.get_input(Wago750_460Port::T1);
    assert_eq!(t1.temperature, 250);
    assert!(!t1.error);
    // t2 = 0x2134
    assert_eq!(module.get_input(Wago750_460Port::T2).temperature, 0x2134);
    assert!(module.get_input(Wago750_460Port::T2).overvoltage);
    // t3 = 0xF830 = -2000: short circuit
    let t3 = module.get_input(Wago750_460Port::T3);
    assert_eq!(t3.temperature, -2000);
    assert!(t3.undervoltage && t3.error);
    assert_eq!(module.get_input(Wago750_460Port::T4).temperature, 0);
}

/// Each output lands on its own bit and the rest of the image is untouched.
#[test]
fn wago_531_writes_single_bits() {
    let mut module = Wago750_531::new();
    module.set_module(module_at(0, 6));
    module.set_output(Wago750_531OutputPort::DO1, true);
    module.set_output(Wago750_531OutputPort::DO3, true);
    assert!(module.get_output(Wago750_531OutputPort::DO1));
    assert!(!module.get_output(Wago750_531OutputPort::DO2));
    let mut image = [0b0000_0001u8, 0b1000_0000u8];
    module.output(&mut image);
    // bits 6 and 8 set, bit 0 and 15 kept
    assert_eq!(image, [0b0100_0001, 0b1000_0001]);
}

/// Output words are masked to their significant bits and stored little-endian.
#[test]
fn wago_554_masks_and_stores_words() {
    let mut module = Wago750_554::new();
    module.set_module(module_at(0, 8));
    module.set_output_raw(0, 0x7FFF);
    module.set_output_raw(1, 0x1234);
    module.set_output_raw(2, 0xFFFF);
    let mut image = [0x55u8; 6];
    module.output(&mut image);
    assert_eq!(image, [0x55, 0xF8, 0x7F, 0x30, 0x12, 0x55]);
}

#[test]
fn signed_words_and_positions_decode() {
    assert_eq!(le_i16(0xFF, 0xFF), -1);
    assert_eq!(le_i16(0x34, 0x12), 0x1234);
    assert_eq!(decode_i24(0xFF, 0xFF, 0xFF), -1);
    assert_eq!(decode_i24(0x01, 0x00, 0x80), -0x7F_FFFF);
    assert_eq!(decode_i24(0x56, 0x34, 0x12), 0x12_3456);
}

#[test]
fn known_modules_are_described() {
    let m = describe_module(3, 0x1001, WAGO_750_671_PRODUCT_ID);
    assert_eq!(m.slot, 3);
    assert_eq!(m.belongs_to_addr, 0x1001);
    assert!(m.has_tx && m.has_rx);
    assert_eq!(m.name, "750-671");
    assert_eq!(describe_module(0, 0, WAGO_750_672_PRODUCT_ID).name, "750-672");
    let unknown = describe_module(1, 0, 0xDEAD);
    assert!(!unknown.has_tx && !unknown.has_rx);
    assert_eq!(unknown.name, "");
}

#[test]
fn module_objects_are_sixteen_apart() {
    assert_eq!(module_address(0), 0x9000);
    assert_eq!(module_address(2), 0x9020);
}

#[test]
fn mapping_entries_give_their_slot() {
    assert_eq!(Wago750_354::calculate_module_index(0x6000_0108, true), 0);
    assert_eq!(Wago750_354::calculate_module_index(0x6010_0110, true), 1);
    assert_eq!(Wago750_354::calculate_module_index(0x7030_0108, false), 3);
}

/// Mapping entries are sorted before the scan, so their order in the input
/// does not matter; each slot gets the offset of its first entry.
#[test]
fn pdo_offsets_follow_sorted_mappings() {
    let mappings = vec![0x6010_0110u32, 0x6000_0108, 0x6010_0208, 0x6020_0101];
    let offsets = Wago750_354::compute_pdo_offsets(16, mappings, true);
    assert_eq!(
        offsets,
        vec![
            ModulePdoMapping { offset: 16, module_i: 0 },
            ModulePdoMapping { offset: 24, module_i: 1 },
            ModulePdoMapping { offset: 48, module_i: 2 },
        ]
    );
}

#[test]
fn modules_get_the_offsets_of_their_slots() {
    let mut coupler = Wago750_354::new();
    let mut first = describe_module(0, 0x1000, WAGO_750_671_PRODUCT_ID);
    first.slot = 0;
    let second = describe_module(1, 0x1000, WAGO_750_672_PRODUCT_ID);
    coupler.set_module(first);
    coupler.set_module(second);
    coupler.tx_pdo_mappings =
        Wago750_354::compute_pdo_offsets(0, vec![0x6000_0160, 0x6010_0160], true);
    coupler.rx_pdo_mappings =
        Wago750_354::compute_pdo_offsets(8, vec![0x7000_0160, 0x7010_0160], false);
    coupler.assign_module_offsets();
    assert_eq!(coupler.slots[0].tx_offset, 0);
    assert_eq!(coupler.slots[1].tx_offset, 0x60);
    assert_eq!(coupler.slots[0].rx_offset, 8);
    assert_eq!(coupler.slots[1].rx_offset, 0x68);
}

use ethercat_hal::wago::{stepper_txpdo_from_bytes, Wago750_671, WAGO_STEPPER_MAILBOX_BIT};
use ethercat_hal::wago_750_354::modules_from_reads;
use ethercat_hal::sdo::SdoError;

#[test]
fn stepper_input_bytes_decode() {
    let tx = stepper_txpdo_from_bytes(&[0x11, 0, 0x18, 0xFC, 0, 0, 1, 2, 3, 0x33, 0x22, 0x44]);
    assert_eq!(tx.status_byte0, 0x11);
    assert_eq!(tx.actual_velocity, -1000);
    assert_eq!((tx.position_l, tx.position_m, tx.position_h), (1, 2, 3));
    assert_eq!(tx.status_byte3, 0x33);
    assert_eq!(tx.status_byte1, 0x44);
}

/// Each queued mailbox command flips the toggle bit that travels with it.
#[test]
fn mailbox_commands_toggle() {
    let mut s = Wago750_671::new(example_bits());
    s.queue_mailbox_command(0x40, 1, 2, 3, 4, true);
    assert_eq!(s.mailbox_pending, Some([0x40, 0x80, 1, 2, 3, 4]));
    s.queue_mailbox_command(0x41, 0, 0, 0, 0, false);
    assert_eq!(s.mailbox_pending, Some([0x41, 0x00, 0, 0, 0, 0]));
    s.apply_mailbox_bytes([0x41, 0x80, 0x10, 0x20, 0x30, 0x40]);
    assert_eq!(s.rxpdo.velocity, i16::from_le_bytes([0x41, 0x80]));
    assert_eq!(s.rxpdo.acceleration, 0x2010);
    assert_eq!(s.rxpdo.target_position_m, 0x40);
    s.set_mailbox_bit(true);
    assert_eq!(s.rxpdo.control_byte0 & WAGO_STEPPER_MAILBOX_BIT, WAGO_STEPPER_MAILBOX_BIT);
    s.set_mailbox_bit(false);
    assert_eq!(s.rxpdo.control_byte0, 0);
    let bytes = s.rxpdo.to_bytes();
    assert_eq!(bytes.len(), 12);
}

#[test]
fn modules_are_initialized_from_their_reads() {
    let none = modules_from_reads(0x1000, Ok(0), Err(SdoError::TransferFailed)).unwrap();
    assert!(none.is_empty());
    assert_eq!(
        modules_from_reads(0x1000, Err(SdoError::TransferFailed), Ok(vec![])),
        Err(SdoError::TransferFailed)
    );
    let modules =
        modules_from_reads::<SdoError>(0x1000, Ok(2), Ok(vec![WAGO_750_672_PRODUCT_ID, 0x1234])).unwrap();
    assert_eq!(modules.len(), 2);
    assert_eq!(modules[0].name, "750-672");
    assert_eq!(modules[1].slot, 1);
    assert!(!modules[1].has_tx);
}

use ethercat_hal::wago_750_354::mapped_bits;

#[test]
fn coupler_bits_add_up_entry_lengths() {
    assert_eq!(mapped_bits(&[0x6000_0108, 0x6000_0210, 0x6000_0301]), 8 + 16 + 1);
    assert_eq!(mapped_bits(&[]), 0);
}

#[test]
fn stepper_output_lands_at_the_module_offset() {
    let mut s = Wago750_672::new(example_bits());
    let mut m = describe_module(0, 0x1000, WAGO_750_672_PRODUCT_ID);
    m.rx_offset = 16;
    s.set_module(m);
    s.rxpdo.control_byte = 0x01;
    s.rxpdo.velocity = -2;
    s.rxpdo.acceleration = 0x1234;
    s.rxpdo.control_byte1 = 0xC1;
    let mut image = [0u8; 16];
    s.output(&mut image);
    assert_eq!(&image[2..14], &[0x01, 0, 0xFE, 0xFF, 0x34, 0x12, 0, 0, 0, 0, 0, 0xC1]);
    assert_eq!(image[0], 0);
    assert_eq!(image[14], 0);
}

use ethercat_hal::wago::{InitState, StepperBits, Wago750_671InputPort};

/// A bit layout for exercising the sequences: one bit per flag.
fn example_bits() -> StepperBits {
    StepperBits {
        c1_enable: 0x01,
        c1_stop2_n: 0x02,
        c1_start: 0x04,
        c1_speed_control: 0x08,
        c2_error_quit: 0x80,
        c3_reset_quit: 0x80,
        s1_ready: 0x01,
        s1_start_ack: 0x04,
        s2_error: 0x80,
        s3_reset: 0x80,
        s3_inputs: [0x01, 0x02, 0x04, 0x08, 0x10, 0x20],
    }
}

/// Twelve input bytes with the given status bytes and mailbox toggle byte.
fn stepper_image(s1: u8, s2: u8, s3: u8, byte3: u8) -> [u8; 12] {
    let mut b = [0u8; 12];
    b[3] = byte3;
    b[9] = s3;
    b[10] = s2;
    b[11] = s1;
    b
}

#[test]
fn stepper_672_enables_step_by_step() {
    let mut s = Wago750_672::new(example_bits());
    s.state = InitState::Enable;
    s.input(&stepper_image(0x00, 0, 0, 0));
    assert_eq!(s.state, InitState::Enable);
    assert_eq!(s.rxpdo.control_byte1, 0x03);
    s.input(&stepper_image(0x03, 0, 0, 0));
    assert_eq!(s.state, InitState::SetMode);
    s.input(&stepper_image(0x0B, 0, 0, 0));
    assert_eq!(s.state, InitState::StartPulseStart);
    assert!(s.initialized);
    s.input(&stepper_image(0x0F, 0, 0, 0));
    assert_eq!(s.state, InitState::StartPulseEnd);
    assert_eq!(s.rxpdo.control_byte1, 0x0F);
    s.input(&stepper_image(0x0B, 0, 0, 0));
    assert_eq!(s.state, InitState::Running);
    s.input(&stepper_image(0x0B, 0, 0, 0x00));
    assert_eq!(s.rxpdo.control_byte2, 0x80);
    assert_eq!(s.rxpdo.control_byte3, 0x80);
    s.input(&stepper_image(0x0B, 0x80, 0, 0));
    assert_eq!(s.state, InitState::ErrorQuit);
    s.input(&stepper_image(0x0B, 0x80, 0, 0));
    assert_eq!(s.state, InitState::Enable);
    assert_eq!(s.get_input(2), Some(false));
    s.input(&stepper_image(0, 0, 0x04, 0));
    assert_eq!(s.get_input(2), Some(true));
    assert_eq!(s.get_input(6), None);
}

#[test]
fn stepper_671_runs_and_recovers_from_errors() {
    let mut s = Wago750_671::new(example_bits());
    s.input(&stepper_image(0x01, 0x80, 0x80, 0));
    assert_eq!(s.state, InitState::Off);
    assert_eq!(s.rxpdo.control_byte1, 0);
    s.state = InitState::Enable;
    s.input(&stepper_image(0x01, 0, 0, 0));
    assert_eq!(s.state, InitState::SetMode);
    assert_eq!(s.rxpdo.control_byte1, 0x03);
    s.input(&stepper_image(0x09, 0, 0, 0));
    assert_eq!(s.state, InitState::Running);
    assert!(s.initialized);
    assert_eq!(s.rxpdo.control_byte1, 0x0B);
    s.input(&stepper_image(0x09, 0x80, 0, 0));
    assert_eq!(s.state, InitState::ErrorQuit);
    s.input(&stepper_image(0x09, 0x80, 0, 0));
    assert_eq!(s.state, InitState::ErrorQuit);
    assert_eq!(s.rxpdo.control_byte2 & 0x80, 0x80);
    s.input(&stepper_image(0x09, 0, 0, 0));
    assert_eq!(s.state, InitState::Enable);
    assert!(!s.initialized);
    assert_eq!(s.rxpdo.control_byte2 & 0x80, 0);
    s.input(&stepper_image(0, 0, 0x02, 0));
    assert!(s.get_input(Wago750_671InputPort::DI2));
    assert!(!s.get_input(Wago750_671InputPort::DI1));
}

#[test]
fn stepper_671_mailbox_command_goes_out_once_and_is_acknowledged() {
    let mut s = Wago750_671::new(example_bits());
    s.state = InitState::Running;
    s.initialized = true;
    s.queue_mailbox_command(0x40, 1, 2, 3, 4, true);
    s.input(&stepper_image(0x09, 0, 0, 0x00));
    assert!(s.mailbox_in_flight);
    assert_eq!(s.rxpdo.control_byte0 & WAGO_STEPPER_MAILBOX_BIT, WAGO_STEPPER_MAILBOX_BIT);
    assert_eq!(s.rxpdo.velocity, i16::from_le_bytes([0x40, 0x80]));
    assert_eq!(s.state, InitState::Running);
    s.input(&stepper_image(0x09, 0, 0, 0x80));
    assert!(!s.mailbox_in_flight);
    assert_eq!(s.mailbox_pending, None);
    assert_eq!(s.rxpdo.control_byte0 & WAGO_STEPPER_MAILBOX_BIT, 0);
    assert_eq!(s.state, InitState::Running);
    assert!(s.initialized);
    assert!(!s.mailbox_return_to_speed_mode);
}
