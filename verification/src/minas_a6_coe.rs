//! CoE configuration of the MINAS A6B: the SDO writes that set up its process
//! data, positioning windows, input pins, homing and encoder reset.
use vstd::prelude::*;
use crate::minas_a6::{encoder_resolution_of, get_data_mapping, set_data_mapping, spec_get_data_mapping, spec_set_data_mapping, EncoderResolution, HomingDirection, Reg};
use crate::thread_channel::{spec_plan_run, spec_plan_sent, spec_sdo_read_request, ChannelError, ChannelRequests, EtherCATThreadChannel};
use crate::sdo::{assign_pdos, spec_list_plan, spec_mapping_word, write_pdo_mapping, PdoMapping, SdoValue, SdoWrite};

verus! {

/// One write of `value` to `index:sub_index`.
pub open spec fn spec_write(index: u16, sub_index: u8, value: SdoValue) -> SdoWrite {
    SdoWrite { index, sub_index, value }
}

/// The mapping entries as the values written to a mapping object.
pub open spec fn spec_mapping_values(m: Seq<PdoMapping>) -> Seq<SdoValue> {
    m.map_values(|e: PdoMapping| SdoValue::U32(spec_mapping_word(e.object_index, e.sub_index, e.bit_length)))
}

/// The drive's output (`0x1600`) and input (`0x1A00`) mappings, their
/// assignment to the sync managers, then the positioning option, position
/// window and time, following window and time, absolute encoder and a torque
/// limit of 50.0 %.
pub open spec fn spec_configure_plan(rx: Seq<PdoMapping>, tx: Seq<PdoMapping>) -> Seq<SdoWrite> {
    spec_list_plan(Reg::RX_PDO, spec_mapping_values(rx))
        + spec_list_plan(Reg::TX_PDO, spec_mapping_values(tx))
        + spec_list_plan(Reg::RX_PDO_ASSIGN_ADDRESS, seq![SdoValue::U16(Reg::RX_PDO)])
        + spec_list_plan(Reg::TX_PDO_ASSIGN_ADDRESS, seq![SdoValue::U16(Reg::TX_PDO)])
        + seq![
            spec_write(Reg::POSITIONING_OPTION, 0, SdoValue::U16(0)),
            spec_write(Reg::POSITION_WINDOW, 0, SdoValue::U32(10_000)),
            spec_write(Reg::POSITION_WINDOW_TIME, 0, SdoValue::U16(0)),
            spec_write(Reg::FOLLOWING_WINDOW, 0, SdoValue::U32(100)),
            spec_write(Reg::FOLLOWING_WINDOW_TIME, 0, SdoValue::U16(1)),
            spec_write(Reg::ENCODER_SETTING, 0, SdoValue::I16(0)),
            spec_write(Reg::MAX_TORQUE, 0, SdoValue::U16(500)),
        ]
}

/// The writes that configure the drive before the OP transition, in order.
pub fn configure_plan() -> (r: Vec<SdoWrite>)
    ensures
        r@ == spec_configure_plan(spec_set_data_mapping(), spec_get_data_mapping()),
{
    let rx = set_data_mapping();
    let tx = get_data_mapping();
    let mut plan = write_pdo_mapping(Reg::RX_PDO, &rx);
    let mut part = write_pdo_mapping(Reg::TX_PDO, &tx);
    plan.append(&mut part);
    let mut part = assign_pdos(Reg::RX_PDO_ASSIGN_ADDRESS, &[Reg::RX_PDO]);
    assert(seq![Reg::RX_PDO].map_values(|p: u16| SdoValue::U16(p)) =~= seq![SdoValue::U16(Reg::RX_PDO)]);
    plan.append(&mut part);
    let mut part = assign_pdos(Reg::TX_PDO_ASSIGN_ADDRESS, &[Reg::TX_PDO]);
    assert(seq![Reg::TX_PDO].map_values(|p: u16| SdoValue::U16(p)) =~= seq![SdoValue::U16(Reg::TX_PDO)]);
    plan.append(&mut part);
    plan.push(SdoWrite { index: Reg::POSITIONING_OPTION, sub_index: 0, value: SdoValue::U16(0) });
    plan.push(SdoWrite { index: Reg::POSITION_WINDOW, sub_index: 0, value: SdoValue::U32(10_000) });
    plan.push(SdoWrite { index: Reg::POSITION_WINDOW_TIME, sub_index: 0, value: SdoValue::U16(0) });
    plan.push(SdoWrite { index: Reg::FOLLOWING_WINDOW, sub_index: 0, value: SdoValue::U32(100) });
    plan.push(SdoWrite { index: Reg::FOLLOWING_WINDOW_TIME, sub_index: 0, value: SdoValue::U16(1) });
    plan.push(SdoWrite { index: Reg::ENCODER_SETTING, sub_index: 0, value: SdoValue::I16(0) });
    plan.push(SdoWrite { index: Reg::MAX_TORQUE, sub_index: 0, value: SdoValue::U16(500) });
    assert(plan@ =~= spec_configure_plan(rx@, tx@));
    plan
}

/// Functions of the eight digital inputs SI1..SI8, written to `0x3400..0x3407`.
pub open spec fn spec_pin_functions() -> Seq<u32> {
    seq![0x00323232u32, 0x00818181, 0x00828282, 0x00272727, 0x00222222, 0x00212121, 0x00303030, 0x00313131]
}

/// The input pin functions as signed words, then the write that persists them
/// to the drive's EEPROM.
pub open spec fn spec_input_pin_plan() -> Seq<SdoWrite> {
    Seq::new(8, |i: int| spec_write(
        (Reg::CONTROL_INPUT_SI_FUNCTION_ASSIGNMENT + i) as u16,
        0,
        SdoValue::I32(spec_pin_functions()[i] as i32),
    )).push(spec_write(Reg::EEPROM, 1, SdoValue::U32(0x65766173)))
}

/// The writes that assign the functions of the drive's digital inputs and
/// store them in its EEPROM.
pub fn input_pin_functions_plan() -> (r: Vec<SdoWrite>)
    ensures
        r@ == spec_input_pin_plan(),
{
    let values: [u32; 8] = [0x00323232, 0x00818181, 0x00828282, 0x00272727, 0x00222222, 0x00212121, 0x00303030, 0x00313131];
    assert(values@ =~= spec_pin_functions());
    let mut plan: Vec<SdoWrite> = Vec::new();
    let mut i: usize = 0;
    while i < 8
        invariant
            i <= 8,
            values@ == spec_pin_functions(),
            plan@ =~= Seq::new(i as nat, |k: int| spec_write(
                (Reg::CONTROL_INPUT_SI_FUNCTION_ASSIGNMENT + k) as u16,
                0,
                SdoValue::I32(spec_pin_functions()[k] as i32),
            )),
        decreases 8 - i,
    {
        plan.push(SdoWrite {
            index: Reg::CONTROL_INPUT_SI_FUNCTION_ASSIGNMENT + i as u16,
            sub_index: 0,
            value: SdoValue::I32(values[i] as i32),
        });
        i += 1;
    }
    plan.push(SdoWrite { index: Reg::EEPROM, sub_index: 1, value: SdoValue::U32(0x65766173) });
    assert(plan@ =~= spec_input_pin_plan());
    plan
}

/// The homing writes: the homing mode of the direction, the fast and slow
/// search speeds and the acceleration (in encoder increments per second and
/// per second squared), and a zero home offset.
pub open spec fn spec_homing_plan(direction: HomingDirection, high_speed: u32, slow_speed: u32, acceleration: u32) -> Seq<SdoWrite> {
    let mode: u8 = match direction {
        HomingDirection::Ccw => 21u8,
        HomingDirection::Cw => 19u8,
    };
    seq![
        spec_write(Reg::HOMING_MODE, 0, SdoValue::U8(mode)),
        spec_write(Reg::HOMING_SPEED, 1, SdoValue::U32(high_speed)),
        spec_write(Reg::HOMING_SPEED, 2, SdoValue::U32(slow_speed)),
        spec_write(Reg::HOMING_ACC, 0, SdoValue::U32(acceleration)),
        spec_write(Reg::HOMING_OFFSET, 0, SdoValue::I32(0)),
    ]
}

/// The writes that set up homing with the given speeds and acceleration.
pub fn homing_plan(direction: HomingDirection, high_speed: u32, slow_speed: u32, acceleration: u32) -> (r: Vec<SdoWrite>)
    ensures
        r@ == spec_homing_plan(direction, high_speed, slow_speed, acceleration),
{
    let mode = direction.mode_code();
    let r = vec![
        SdoWrite { index: Reg::HOMING_MODE, sub_index: 0, value: SdoValue::U8(mode) },
        SdoWrite { index: Reg::HOMING_SPEED, sub_index: 1, value: SdoValue::U32(high_speed) },
        SdoWrite { index: Reg::HOMING_SPEED, sub_index: 2, value: SdoValue::U32(slow_speed) },
        SdoWrite { index: Reg::HOMING_ACC, sub_index: 0, value: SdoValue::U32(acceleration) },
        SdoWrite { index: Reg::HOMING_OFFSET, sub_index: 0, value: SdoValue::I32(0) },
    ];
    assert(r@ =~= spec_homing_plan(direction, high_speed, slow_speed, acceleration));
    r
}

/// The writes that start a multi-turn encoder reset: the clear code `0x31`,
/// then bit 9 of the clear trigger.
pub fn start_encoder_multi_turn_reset_plan() -> (r: Vec<SdoWrite>)
    ensures
        r@ == seq![
            spec_write(Reg::ENCODER_MULTI_TURN_DATA_CLEAR, 0, SdoValue::U16(0x31)),
            spec_write(Reg::ENCODER_MULTI_TURN_DATA_CLEAR_TRIGGER, 1, SdoValue::U32(0x200)),
        ],
{
    let r = vec![
        SdoWrite { index: Reg::ENCODER_MULTI_TURN_DATA_CLEAR, sub_index: 0, value: SdoValue::U16(0x31) },
        SdoWrite { index: Reg::ENCODER_MULTI_TURN_DATA_CLEAR_TRIGGER, sub_index: 1, value: SdoValue::U32(0x200) },
    ];
    assert(r@ =~= seq![
        spec_write(Reg::ENCODER_MULTI_TURN_DATA_CLEAR, 0, SdoValue::U16(0x31)),
        spec_write(Reg::ENCODER_MULTI_TURN_DATA_CLEAR_TRIGGER, 1, SdoValue::U32(0x200)),
    ]);
    r
}

/// The write that clears the reset trigger once the reset cycle is over.
pub fn finish_encoder_multi_turn_reset_plan() -> (r: SdoWrite)
    ensures
        r == spec_write(Reg::ENCODER_MULTI_TURN_DATA_CLEAR_TRIGGER, 1, SdoValue::U32(0)),
{
    SdoWrite { index: Reg::ENCODER_MULTI_TURN_DATA_CLEAR_TRIGGER, sub_index: 1, value: SdoValue::U32(0) }
}

/// Whether the encoder reset is over: the clear register reads zero again.
pub fn encoder_multi_turn_reset_done(clear_register: u16) -> (r: bool)
    ensures
        r == (clear_register == 0),
{
    clear_register == 0
}

/// The write that clears the drive's alarm (object `0x2280`).
pub fn clear_alarm_plan() -> (r: SdoWrite)
    ensures
        r == spec_write(0x2280, 0, SdoValue::U16(1)),
{
    SdoWrite { index: 0x2280, sub_index: 0, value: SdoValue::U16(1) }
}

/// Why configuring the drive over the channel stopped.
#[derive(Debug, Clone, Copy, PartialEq, Eq, Structural)]
pub enum DriveConfigError {
    /// A read or write over the channel failed.
    Channel(ChannelError),
    /// The encoder resolution gave zero revolutions.
    ZeroRevolutions,
}

/// Maps and assigns the drive's process data and sets its positioning
/// windows: the writes of [`configure_plan`], in order, up to the first that
/// fails.
pub fn configure_drive(ch: &mut EtherCATThreadChannel, addr: u16) -> (r: Result<(), ChannelError>)
    ensures
        spec_plan_run(spec_configure_plan(spec_set_data_mapping(), spec_get_data_mapping()).len(), r),
        spec_plan_sent(
            addr,
            spec_configure_plan(spec_set_data_mapping(), spec_get_data_mapping()),
            old(ch).requests(),
            final(ch).requests(),
            r,
        ),
{
    let plan = configure_plan();
    ch.sdo_write_all(addr, plan.as_slice())
}

/// Reads the encoder resolution (`0x608F`, increments at sub-index 1,
/// revolutions at 2); a zero revolution count is refused.
pub fn read_encoder_resolution(ch: &mut EtherCATThreadChannel, addr: u16) -> (r: Result<EncoderResolution, DriveConfigError>)
    ensures
        r matches Ok(e) ==> e.revolutions != 0,
        ({
            let first = ChannelRequests::SdoReadRequest(spec_sdo_read_request::<u32>(addr, Reg::ENCODER_RESOLUTION, 1));
            let second = ChannelRequests::SdoReadRequest(spec_sdo_read_request::<u32>(addr, Reg::ENCODER_RESOLUTION, 2));
            final(ch).requests() == old(ch).requests().push(first)
                || final(ch).requests() == old(ch).requests().push(first).push(second)
        }),
        r is Ok ==> final(ch).requests().len() == old(ch).requests().len() + 2,
{
    let increments = match ch.sdo_read::<u32>(addr, Reg::ENCODER_RESOLUTION, 1) {
        Ok(v) => v,
        Err(e) => return Err(DriveConfigError::Channel(e)),
    };
    let revolutions = match ch.sdo_read::<u32>(addr, Reg::ENCODER_RESOLUTION, 2) {
        Ok(v) => v,
        Err(e) => return Err(DriveConfigError::Channel(e)),
    };
    match encoder_resolution_of(increments, revolutions) {
        Some(res) => Ok(res),
        None => Err(DriveConfigError::ZeroRevolutions),
    }
}

/// Writes the homing parameters of [`homing_plan`]: the direction's homing
/// mode, the fast and slow search speeds and the acceleration, already in
/// encoder increments, and a zero home offset.
pub fn setup_homing(
    ch: &mut EtherCATThreadChannel,
    addr: u16,
    direction: HomingDirection,
    high_speed: u32,
    slow_speed: u32,
    acceleration: u32,
) -> (r: Result<(), ChannelError>)
    ensures
        spec_plan_run(spec_homing_plan(direction, high_speed, slow_speed, acceleration).len(), r),
        spec_plan_sent(addr, spec_homing_plan(direction, high_speed, slow_speed, acceleration), old(ch).requests(), final(ch).requests(), r),
{
    let plan = homing_plan(direction, high_speed, slow_speed, acceleration);
    ch.sdo_write_all(addr, plan.as_slice())
}

} // verus!
