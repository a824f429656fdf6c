//! The EL7062 two-channel stepper terminal driven as a CiA 402 servo in CSP.
use vstd::prelude::*;
use crate::el7062_pdo::{CSP_MODE, EL7062TxPdo, EL7062RxPdo, DrvControlWord, DrvTargetPosition, spec_txpdo_assignment, spec_rxpdo_assignment};
use crate::el7062_coe::{EL7062Configuration, spec_default_el7062_configuration};
use crate::coe::{ConfigurableDevice, Configuration};
use crate::thread_channel::{spec_plan_run, spec_plan_sent, ChannelError, EtherCATThreadChannel};
use crate::text::{spec_hex4, spec_join, spec_views, spec_decimal_int, spec_decimal_nat, spec_bool_text, push_hex4, join_strings, push_decimal_i128, push_decimal_u128, push_bool};

verus! {

pub const EL7062_VENDOR_ID: u32 = 0x0000_0002;
pub const EL7062_PRODUCT_ID: u32 = 0x1b96_3052;
pub const EL7062_REVISION_A: u32 = 0x0010_0000;

/// CiA 402 control word commands.
pub const CONTROL_WORD_DISABLE_VOLTAGE: u16 = 0x0000;
pub const CONTROL_WORD_SHUTDOWN: u16 = 0x0006;
pub const CONTROL_WORD_SWITCH_ON: u16 = 0x0007;
pub const CONTROL_WORD_ENABLE_OPERATION: u16 = 0x000F;
pub const CONTROL_WORD_FAULT_RESET: u16 = 0x0080;

/// CiA 402 status word bits as the EL7062 exposes them.
pub const STATUS_READY_TO_SWITCH_ON: u16 = 0x0001;
pub const STATUS_SWITCHED_ON: u16 = 0x0002;
pub const STATUS_OPERATION_ENABLED: u16 = 0x0004;
pub const STATUS_FAULT: u16 = 0x0008;
/// Bits 4 and 5 are reserved on the EL7062 and may be either 0 or 1.
pub const STATUS_SWITCH_ON_DISABLED: u16 = 0x0040;
/// Set while any drive warning is active (low DC link, current or temperature limit).
pub const STATUS_WARNING: u16 = 0x0080;
/// Toggles every master cycle the drive processes.
pub const STATUS_TXPDO_TOGGLE: u16 = 0x0400;
/// Set while an internal limit is active.
pub const STATUS_INTERNAL_LIMIT_ACTIVE: u16 = 0x0800;
pub const STATUS_DRIVE_FOLLOWS_COMMAND: u16 = 0x1000;
/// Set in every other cycle; serves as a liveness signal.
pub const STATUS_INPUT_CYCLE_COUNTER: u16 = 0x2000;

/// Default minimum DC link voltage in mV; below it the output stage refuses
/// to switch on and the drive raises the warning bit.
pub const EL7062_MIN_DC_LINK_MV: u16 = 6800;

/// The CiA 402 drive states relevant for the EL7062 (its control word has no
/// quick-stop bit, so the quick-stop states are not modelled).
#[derive(Debug, Clone, Copy, PartialEq, Eq, Structural)]
pub enum CiA402ChannelState {
    /// No valid status read back yet.
    Start,
    SwitchOnDisabled,
    ReadyToSwitchOn,
    SwitchedOn,
    OperationEnabled,
    Fault,
}

impl Default for CiA402ChannelState {
    fn default() -> (r: Self)
        ensures
            r == CiA402ChannelState::Start,
    {
        CiA402ChannelState::Start
    }
}

/// The state a status word reports; the fault bit wins, then the enable
/// ladder from the top.
pub open spec fn spec_state_of(status_word: u16) -> CiA402ChannelState {
    if status_word & STATUS_FAULT != 0 {
        CiA402ChannelState::Fault
    } else if status_word & STATUS_OPERATION_ENABLED != 0 {
        CiA402ChannelState::OperationEnabled
    } else if status_word & STATUS_SWITCHED_ON != 0 {
        CiA402ChannelState::SwitchedOn
    } else if status_word & STATUS_READY_TO_SWITCH_ON != 0 {
        CiA402ChannelState::ReadyToSwitchOn
    } else {
        CiA402ChannelState::SwitchOnDisabled
    }
}

impl CiA402ChannelState {
    /// The state a status word reports.
    pub fn from_status_word(status_word: u16) -> (r: Self)
        ensures
            r == spec_state_of(status_word),
    {
        if status_word & STATUS_FAULT != 0 {
            return Self::Fault;
        }
        if status_word & STATUS_OPERATION_ENABLED != 0 {
            return Self::OperationEnabled;
        }
        if status_word & STATUS_SWITCHED_ON != 0 {
            return Self::SwitchedOn;
        }
        if status_word & STATUS_READY_TO_SWITCH_ON != 0 {
            return Self::ReadyToSwitchOn;
        }
        Self::SwitchOnDisabled
    }

    /// Whether the drive reports operation enabled.
    pub fn is_operation_enabled(self) -> (r: bool)
        ensures
            r == (self == CiA402ChannelState::OperationEnabled),
    {
        matches!(self, Self::OperationEnabled)
    }

    /// Whether the drive reports a fault.
    pub fn is_fault(self) -> (r: bool)
        ensures
            r == (self == CiA402ChannelState::Fault),
    {
        matches!(self, Self::Fault)
    }
}

/// The control word that drives a channel one step along the CiA 402 ladder:
/// towards operation enabled when enabled, towards switch-on-disabled when not.
/// In fault, the fault reset is held while one is pending, else the voltage is
/// kept off.
pub open spec fn spec_control_word(state: CiA402ChannelState, enable: bool, fault_reset_pending: bool) -> u16 {
    match state {
        CiA402ChannelState::Fault => if fault_reset_pending {
            CONTROL_WORD_FAULT_RESET
        } else {
            CONTROL_WORD_DISABLE_VOLTAGE
        },
        CiA402ChannelState::Start | CiA402ChannelState::SwitchOnDisabled => if enable {
            CONTROL_WORD_SHUTDOWN
        } else {
            CONTROL_WORD_DISABLE_VOLTAGE
        },
        CiA402ChannelState::ReadyToSwitchOn => if enable {
            CONTROL_WORD_SWITCH_ON
        } else {
            CONTROL_WORD_DISABLE_VOLTAGE
        },
        CiA402ChannelState::SwitchedOn => if enable {
            CONTROL_WORD_ENABLE_OPERATION
        } else {
            CONTROL_WORD_SHUTDOWN
        },
        CiA402ChannelState::OperationEnabled => if enable {
            CONTROL_WORD_ENABLE_OPERATION
        } else {
            CONTROL_WORD_SWITCH_ON
        },
    }
}

/// The state a CiA 402 drive moves to when it receives a control word (the
/// device-side transitions of the standard's state machine, without quick stop).
pub open spec fn spec_drive_response(state: CiA402ChannelState, control_word: u16) -> CiA402ChannelState {
    if state == CiA402ChannelState::Fault {
        if control_word == CONTROL_WORD_FAULT_RESET {
            CiA402ChannelState::SwitchOnDisabled
        } else {
            CiA402ChannelState::Fault
        }
    } else if control_word == CONTROL_WORD_DISABLE_VOLTAGE {
        CiA402ChannelState::SwitchOnDisabled
    } else if control_word == CONTROL_WORD_SHUTDOWN {
        CiA402ChannelState::ReadyToSwitchOn
    } else if control_word == CONTROL_WORD_SWITCH_ON {
        if state == CiA402ChannelState::Start || state == CiA402ChannelState::SwitchOnDisabled {
            state
        } else {
            CiA402ChannelState::SwitchedOn
        }
    } else if control_word == CONTROL_WORD_ENABLE_OPERATION {
        if state == CiA402ChannelState::SwitchedOn || state == CiA402ChannelState::OperationEnabled {
            CiA402ChannelState::OperationEnabled
        } else {
            state
        }
    } else {
        state
    }
}

/// Rank of a state on the enable ladder.
pub open spec fn spec_ladder_rank(state: CiA402ChannelState) -> int {
    match state {
        CiA402ChannelState::Start => 0,
        CiA402ChannelState::SwitchOnDisabled => 0,
        CiA402ChannelState::ReadyToSwitchOn => 1,
        CiA402ChannelState::SwitchedOn => 2,
        CiA402ChannelState::OperationEnabled => 3,
        CiA402ChannelState::Fault => -1,
    }
}

/// Enabling drives a healthy channel one rung up the ladder per cycle and then
/// holds operation enabled; disabling drives it one rung down per cycle until
/// the power stage is off.
pub proof fn lemma_enable_and_disable_ladders(state: CiA402ChannelState, pending: bool)
    requires
        state != CiA402ChannelState::Fault,
    ensures
        spec_ladder_rank(spec_drive_response(state, spec_control_word(state, true, pending)))
            == if spec_ladder_rank(state) < 3 { spec_ladder_rank(state) + 1 } else { 3 },
        spec_ladder_rank(spec_drive_response(state, spec_control_word(state, false, pending)))
            == if spec_ladder_rank(state) > 0 { spec_ladder_rank(state) - 1 } else { 0 },
{
}

/// In fault, the drive leaves the fault state exactly when a reset is pending,
/// whether the channel is enabled or not.
pub proof fn lemma_fault_reset_is_the_only_way_out(enable: bool, pending: bool)
    ensures
        (spec_drive_response(
            CiA402ChannelState::Fault,
            spec_control_word(CiA402ChannelState::Fault, enable, pending),
        ) == CiA402ChannelState::Fault) == !pending,
{
}

/// Abstract state of a [`PositionWrapperU32I128`].
pub struct PositionState {
    pub position: int,
    pub last_raw: u32,
    pub initialized: bool,
}

/// The step between two raw samples, a jump of more than half the range being
/// read as a wrap-around.
pub open spec fn spec_position_step(last_raw: u32, raw: u32) -> int {
    let delta = raw as int - last_raw as int;
    if delta > 0x8000_0000 {
        delta - 0x1_0000_0000
    } else if delta < -0x8000_0000 {
        delta + 0x1_0000_0000
    } else {
        delta
    }
}

/// The state after feeding one raw sample; the first sample sets the position.
pub open spec fn spec_position_update(s: PositionState, raw: u32) -> PositionState {
    if !s.initialized {
        PositionState { position: raw as int, last_raw: raw, initialized: true }
    } else {
        PositionState {
            position: s.position + spec_position_step(s.last_raw, raw),
            last_raw: raw,
            initialized: true,
        }
    }
}

/// Whether one more sample keeps the position inside `i128`.
pub open spec fn spec_position_update_fits(s: PositionState, raw: u32) -> bool {
    let p = spec_position_update(s, raw).position;
    i128::MIN <= p && p <= i128::MAX
}

/// Unwraps the raw `u32` feedback position of a channel into a continuous `i128`.
///
/// The EL7062 wraps its position at `2^32` without overflow flags, so a jump of
/// more than half the range between two samples is taken as a wrap.
#[derive(Debug, Clone, Copy)]
pub struct PositionWrapperU32I128 {
    position: i128,
    last_raw: u32,
    initialized: bool,
}

impl View for PositionWrapperU32I128 {
    type V = PositionState;

    closed spec fn view(&self) -> PositionState {
        PositionState { position: self.position as int, last_raw: self.last_raw, initialized: self.initialized }
    }
}

impl Default for PositionWrapperU32I128 {
    fn default() -> (r: Self)
        ensures
            r@ == (PositionState { position: 0, last_raw: 0, initialized: false }),
    {
        Self::new()
    }
}

impl PositionWrapperU32I128 {
    /// A wrapper that has seen no sample yet.
    pub fn new() -> (r: Self)
        ensures
            r@ == (PositionState { position: 0, last_raw: 0, initialized: false }),
    {
        Self { position: 0, last_raw: 0, initialized: false }
    }

    /// Feeds one raw sample.
    pub fn update(&mut self, raw: u32)
        requires
            spec_position_update_fits(old(self)@, raw),
        ensures
            final(self)@ == spec_position_update(old(self)@, raw),
    {
        if !self.initialized {
            self.position = raw as i128;
            self.last_raw = raw;
            self.initialized = true;
            return;
        }
        let delta = (raw as i128) - (self.last_raw as i128);
        let absolute_max_step: i128 = 0x8000_0000;
        let adjusted = if delta > absolute_max_step {
            delta - 0x1_0000_0000
        } else if delta < -absolute_max_step {
            delta + 0x1_0000_0000
        } else {
            delta
        };
        self.position = self.position + adjusted;
        self.last_raw = raw;
    }

    /// The unwrapped position.
    pub fn current(&self) -> (r: i128)
        ensures
            r == self@.position,
    {
        self.position
    }
}

/// The unwrapped position stays congruent to the last raw sample modulo `2^32`;
/// each step is the raw difference taken modulo `2^32`, and no single step is
/// longer than half the range.
pub proof fn lemma_position_tracks_raw(s: PositionState, raw: u32)
    requires
        s.initialized ==> s.position % 0x1_0000_0000 == s.last_raw as int,
    ensures
        spec_position_update(s, raw).position % 0x1_0000_0000 == raw as int,
        (spec_position_step(s.last_raw, raw) - (raw as int - s.last_raw as int)) % 0x1_0000_0000 == 0,
        -0x8000_0000 <= spec_position_step(s.last_raw, raw) <= 0x8000_0000,
{
    let m = 0x1_0000_0000int;
    vstd::arithmetic::div_mod::lemma_mod_self_0(m);
    vstd::arithmetic::div_mod::lemma_mod_multiples_basic(-1, m);
    assert(-1 * m == -m);
    vstd::arithmetic::div_mod::lemma_small_mod(0nat, m as nat);
    if s.initialized {
        let step = spec_position_step(s.last_raw, raw);
        let delta = raw as int - s.last_raw as int;
        assert(step == delta || step == delta - m || step == delta + m);
        vstd::arithmetic::div_mod::lemma_add_mod_noop(s.position, step, m);
        vstd::arithmetic::div_mod::lemma_add_mod_noop(s.position, delta, m);
        vstd::arithmetic::div_mod::lemma_mod_add_multiples_vanish(delta, m);
        vstd::arithmetic::div_mod::lemma_mod_sub_multiples_vanish(delta, m);
        vstd::arithmetic::div_mod::lemma_small_mod(raw as nat, m as nat);
        vstd::arithmetic::div_mod::lemma_add_mod_noop(s.last_raw as int, delta, m);
    } else {
        vstd::arithmetic::div_mod::lemma_small_mod(raw as nat, m as nat);
    }
}

/// A one-element list holding `name` when `set`, else empty.
pub open spec fn spec_opt_part(set: bool, name: Seq<char>) -> Seq<Seq<char>> {
    if set {
        seq![name]
    } else {
        seq![]
    }
}

/// Names of the status word bits that are set, most important first.
pub open spec fn spec_status_parts(status_word: u16) -> Seq<Seq<char>> {
    spec_opt_part(status_word & STATUS_FAULT != 0, "FAULT"@)
        + spec_opt_part(status_word & STATUS_OPERATION_ENABLED != 0, "operation_enabled"@)
        + spec_opt_part(status_word & STATUS_SWITCHED_ON != 0, "switched_on"@)
        + spec_opt_part(status_word & STATUS_READY_TO_SWITCH_ON != 0, "ready_to_switch_on"@)
        + spec_opt_part(status_word & STATUS_SWITCH_ON_DISABLED != 0, "switch_on_disabled"@)
        + spec_opt_part(status_word & STATUS_WARNING != 0, "WARNING"@)
        + spec_opt_part(status_word & STATUS_TXPDO_TOGGLE != 0, "txpdo_toggle"@)
        + spec_opt_part(status_word & STATUS_INTERNAL_LIMIT_ACTIVE != 0, "internal_limit"@)
        + spec_opt_part(status_word & STATUS_DRIVE_FOLLOWS_COMMAND != 0, "drive_follows"@)
        + spec_opt_part(status_word & STATUS_INPUT_CYCLE_COUNTER != 0, "input_cycle_counter"@)
}

/// `0xHHHH [names of the set bits joined by " | "]`, with a note when no
/// named bit is set.
pub open spec fn spec_describe_status_word(status_word: u16) -> Seq<char> {
    let parts = spec_status_parts(status_word);
    "0x"@ + spec_hex4(status_word) + " ["@ + (if parts.len() == 0 {
        "(no bits set: switch-on-disabled)"@
    } else {
        spec_join(parts, " | "@)
    }) + "]"@
}

fn push_part(parts: &mut Vec<String>, set: bool, name: &str)
    ensures
        spec_views(final(parts)@) == spec_views(old(parts)@) + spec_opt_part(set, name@),
{
    if set {
        parts.push(String::from_str(name));
    }
    assert(spec_views(parts@) =~= spec_views(old(parts)@) + spec_opt_part(set, name@));
}

/// Human-readable decoding of a status word, e.g. `0x00A1 [ready_to_switch_on | WARNING]`.
///
/// A state stuck at ready-to-switch-on together with the warning bit is the
/// classic signature of a missing motor supply.
#[verifier::rlimit(30)]
pub fn describe_status_word(status_word: u16) -> (r: String)
    ensures
        r@ == spec_describe_status_word(status_word),
{
    let mut parts: Vec<String> = Vec::new();
    push_part(&mut parts, status_word & STATUS_FAULT != 0, "FAULT");
    push_part(&mut parts, status_word & STATUS_OPERATION_ENABLED != 0, "operation_enabled");
    push_part(&mut parts, status_word & STATUS_SWITCHED_ON != 0, "switched_on");
    push_part(&mut parts, status_word & STATUS_READY_TO_SWITCH_ON != 0, "ready_to_switch_on");
    push_part(&mut parts, status_word & STATUS_SWITCH_ON_DISABLED != 0, "switch_on_disabled");
    push_part(&mut parts, status_word & STATUS_WARNING != 0, "WARNING");
    push_part(&mut parts, status_word & STATUS_TXPDO_TOGGLE != 0, "txpdo_toggle");
    push_part(&mut parts, status_word & STATUS_INTERNAL_LIMIT_ACTIVE != 0, "internal_limit");
    push_part(&mut parts, status_word & STATUS_DRIVE_FOLLOWS_COMMAND != 0, "drive_follows");
    push_part(&mut parts, status_word & STATUS_INPUT_CYCLE_COUNTER != 0, "input_cycle_counter");
    assert(spec_views(parts@) =~= spec_status_parts(status_word));
    let mut r = String::from_str("0x");
    push_hex4(&mut r, status_word);
    r.append(" [");
    if parts.len() == 0 {
        r.append("(no bits set: switch-on-disabled)");
    } else {
        let joined = join_strings(&parts, " | ");
        r.append(joined.as_str());
    }
    r.append("]");
    r
}

/// The reason a channel that is not operation enabled gives for its state.
pub open spec fn spec_state_reason(state: CiA402ChannelState) -> Seq<char> {
    match state {
        CiA402ChannelState::Fault => "drive reports a CiA 402 FAULT; issue a fault reset"@,
        CiA402ChannelState::SwitchOnDisabled => "drive is in 'switch on disabled' (power stage off)"@,
        CiA402ChannelState::ReadyToSwitchOn => "switch-on ladder stuck at "@ + "ReadyToSwitchOn"@
            + " (switch-on was not accepted)"@,
        CiA402ChannelState::SwitchedOn => "switch-on ladder stuck at "@ + "SwitchedOn"@
            + " (switch-on was not accepted)"@,
        _ => "no status word read back yet"@,
    }
}

/// The verdict on the DC link telemetry.
pub open spec fn spec_dc_link_reason(dc_link: Option<u16>) -> Seq<char> {
    match dc_link {
        Some(mv) => if mv < EL7062_MIN_DC_LINK_MV {
            "DC link only "@ + spec_decimal_nat(mv as nat) + " mV (needs >= "@ + spec_decimal_nat(
                EL7062_MIN_DC_LINK_MV as nat,
            )
                + " mV): the 24/48 V MOTOR supply is missing, tripped, or not wired - the output stage refuses to switch on"@
        } else {
            "DC link OK ("@ + spec_decimal_nat(mv as nat) + " mV)"@
        },
        None => "no DC link telemetry in TxPDO (add the info-data PDO)"@,
    }
}

/// The complaint about a mode display other than CSP, if any.
pub open spec fn spec_mode_reason(mode: Option<u8>) -> Seq<Seq<char>> {
    match mode {
        Some(m) => if m != CSP_MODE {
            seq!["mode display = "@ + spec_decimal_nat(m as nat) + ", expected CSP = "@ + spec_decimal_nat(
                CSP_MODE as nat,
            )]
        } else {
            seq![]
        },
        None => seq![],
    }
}

/// Why a channel is not (yet) operation enabled, from its status word, DC link
/// telemetry and mode display.
pub open spec fn spec_diagnostic_reasons(status_word: u16, dc_link: Option<u16>, mode: Option<u8>) -> Seq<Seq<char>> {
    seq![spec_state_reason(spec_state_of(status_word))]
        + spec_opt_part(status_word & STATUS_WARNING != 0, "status word warning bit SET"@)
        + seq![spec_dc_link_reason(dc_link)]
        + spec_mode_reason(mode)
        + spec_opt_part(
        status_word & STATUS_INTERNAL_LIMIT_ACTIVE != 0,
        "internal limit active (end-of-travel/stall detection)"@,
    ) + seq![spec_describe_status_word(status_word)]
}

/// The one-line diagnostic of a channel.
pub open spec fn spec_enable_diagnostic(
    status_word: u16,
    dc_link: Option<u16>,
    mode: Option<u8>,
    actual: int,
    target: int,
) -> Seq<char> {
    if spec_state_of(status_word) == CiA402ChannelState::OperationEnabled {
        "operation enabled: actual="@ + spec_decimal_int(actual) + " target="@ + spec_decimal_int(target)
            + " follows_command="@ + spec_bool_text(status_word & STATUS_DRIVE_FOLLOWS_COMMAND != 0)
    } else {
        spec_join(spec_diagnostic_reasons(status_word, dc_link, mode), "; "@) + " (actual="@
            + spec_decimal_int(actual) + " target="@ + spec_decimal_int(target) + ")"@
    }
}

fn state_reason(state: CiA402ChannelState) -> (r: String)
    ensures
        r@ == spec_state_reason(state),
{
    match state {
        CiA402ChannelState::Fault => String::from_str("drive reports a CiA 402 FAULT; issue a fault reset"),
        CiA402ChannelState::SwitchOnDisabled => String::from_str(
            "drive is in 'switch on disabled' (power stage off)",
        ),
        CiA402ChannelState::ReadyToSwitchOn => {
            let mut r = String::from_str("switch-on ladder stuck at ");
            r.append("ReadyToSwitchOn");
            r.append(" (switch-on was not accepted)");
            r
        },
        CiA402ChannelState::SwitchedOn => {
            let mut r = String::from_str("switch-on ladder stuck at ");
            r.append("SwitchedOn");
            r.append(" (switch-on was not accepted)");
            r
        },
        _ => String::from_str("no status word read back yet"),
    }
}

fn dc_link_reason(dc_link: Option<u16>) -> (r: String)
    ensures
        r@ == spec_dc_link_reason(dc_link),
{
    match dc_link {
        Some(mv) => {
            if mv < EL7062_MIN_DC_LINK_MV {
                let mut r = String::from_str("DC link only ");
                push_decimal_u128(&mut r, mv as u128);
                r.append(" mV (needs >= ");
                push_decimal_u128(&mut r, EL7062_MIN_DC_LINK_MV as u128);
                r.append(
                    " mV): the 24/48 V MOTOR supply is missing, tripped, or not wired - the output stage refuses to switch on",
                );
                r
            } else {
                let mut r = String::from_str("DC link OK (");
                push_decimal_u128(&mut r, mv as u128);
                r.append(" mV)");
                r
            }
        },
        None => String::from_str("no DC link telemetry in TxPDO (add the info-data PDO)"),
    }
}

/// A PDO object of the EL7062 that the driver reads or writes.
#[derive(Debug, Clone, Copy, PartialEq, Eq, Structural)]
pub enum El7062Object {
    StatusWord,
    FbPosition,
    ControlWord,
    TargetPosition,
}

/// Errors of the EL7062 driver.
#[derive(Debug, Clone, Copy, PartialEq, Eq, Structural)]
pub enum El7062Error {
    /// Only ports 0 and 1 exist.
    InvalidPort(usize),
    /// The object is not mapped on the given port.
    MissingObject(usize, El7062Object),
}

/// The status word of a channel, if mapped.
pub open spec fn spec_status_word(tx: EL7062TxPdo, port: int) -> Option<u16> {
    let o = if port == 0 { tx.status_word_ch1 } else { tx.status_word_ch2 };
    match o {
        Some(x) => Some(x.status_word),
        None => None,
    }
}

/// The raw feedback position of a channel, if mapped.
pub open spec fn spec_fb_position(tx: EL7062TxPdo, port: int) -> Option<u32> {
    let o = if port == 0 { tx.fb_position_ch1 } else { tx.fb_position_ch2 };
    match o {
        Some(x) => Some(x.position),
        None => None,
    }
}

/// The DC link voltage telemetry of a channel, if mapped.
pub open spec fn spec_info_data(tx: EL7062TxPdo, port: int) -> Option<u16> {
    let o = if port == 0 { tx.info_data_ch1 } else { tx.info_data_ch2 };
    match o {
        Some(x) => Some(x.info_data),
        None => None,
    }
}

/// The mode-of-operation display of a channel, if mapped.
pub open spec fn spec_mode_display(tx: EL7062TxPdo, port: int) -> Option<u8> {
    let o = if port == 0 { tx.mode_of_operation_display_ch1 } else { tx.mode_of_operation_display_ch2 };
    match o {
        Some(x) => Some(x.mode_display),
        None => None,
    }
}

/// The control word output of a channel, if mapped.
pub open spec fn spec_rx_control_word(rx: EL7062RxPdo, port: int) -> Option<u16> {
    let o = if port == 0 { rx.control_word_ch1 } else { rx.control_word_ch2 };
    match o {
        Some(x) => Some(x.control_word),
        None => None,
    }
}

/// The target position output of a channel, if mapped.
pub open spec fn spec_rx_target_position(rx: EL7062RxPdo, port: int) -> Option<u32> {
    let o = if port == 0 { rx.target_position_ch1 } else { rx.target_position_ch2 };
    match o {
        Some(x) => Some(x.target_position),
        None => None,
    }
}

/// The modes-of-operation output of a channel, if mapped.
pub open spec fn spec_rx_mode(rx: EL7062RxPdo, port: int) -> Option<u8> {
    let o = if port == 0 { rx.modes_of_operation_ch1 } else { rx.modes_of_operation_ch2 };
    match o {
        Some(x) => Some(x.mode),
        None => None,
    }
}

/// The outputs with the control word of `port` replaced, if it is mapped.
pub open spec fn spec_with_control_word(rx: EL7062RxPdo, port: int, cw: u16) -> EL7062RxPdo {
    if port == 0 {
        EL7062RxPdo { control_word_ch1: Some(DrvControlWord { control_word: cw }), ..rx }
    } else {
        EL7062RxPdo { control_word_ch2: Some(DrvControlWord { control_word: cw }), ..rx }
    }
}

/// The outputs with the target position of `port` replaced.
pub open spec fn spec_with_target(rx: EL7062RxPdo, port: int, t: u32) -> EL7062RxPdo {
    if port == 0 {
        EL7062RxPdo { target_position_ch1: Some(DrvTargetPosition { target_position: t }), ..rx }
    } else {
        EL7062RxPdo { target_position_ch2: Some(DrvTargetPosition { target_position: t }), ..rx }
    }
}

/// The outputs with the mode of `port` replaced where the mode object is mapped.
pub open spec fn spec_with_mode(rx: EL7062RxPdo, port: int, mode: u8) -> EL7062RxPdo {
    if port == 0 {
        match rx.modes_of_operation_ch1 {
            Some(_) => EL7062RxPdo {
                modes_of_operation_ch1: Some(crate::el7062_pdo::DrvModesOfOperation { mode }),
                ..rx
            },
            None => rx,
        }
    } else {
        match rx.modes_of_operation_ch2 {
            Some(_) => EL7062RxPdo {
                modes_of_operation_ch2: Some(crate::el7062_pdo::DrvModesOfOperation { mode }),
                ..rx
            },
            None => rx,
        }
    }
}

/// The 32-bit target position that a widened target is written as.
pub open spec fn spec_wrap_u32(position: int) -> u32 {
    (position % 0x1_0000_0000) as u32
}

/// The EL7062 two-channel stepper terminal.
#[derive(Debug, Clone, Copy)]
pub struct EL7062 {
    pub txpdo: EL7062TxPdo,
    pub rxpdo: EL7062RxPdo,
    pub is_used: bool,
    pub configuration: EL7062Configuration,
    pub enable_requests: [bool; 2],
    pub fault_reset_pending: [bool; 2],
    pub target_positions: [i128; 2],
    pub position_wrappers: [PositionWrapperU32I128; 2],
    pub prev_states: [CiA402ChannelState; 2],
}

/// Inputs of one channel as the servo interface reports them.
#[derive(Debug, Clone, Copy, PartialEq, Eq, Structural)]
pub struct ServoPositionEL7062Input {
    pub position: i128,
    pub is_enabled: bool,
    pub is_in_fault: bool,
    pub drive_follows_command: bool,
    pub status_word: u16,
    pub state: CiA402ChannelState,
    pub mode_display: Option<u8>,
}

/// Outputs of one channel as the servo interface reports them.
#[derive(Debug, Clone, Copy, PartialEq, Eq, Structural)]
pub struct ServoPositionEL7062Output {
    pub control_word: u16,
    pub mode: u8,
    pub target_position: i128,
}

/// The first object that one cycle of channel `port` needs and finds
/// unmapped: the status word, the feedback position, the control word, then
/// the target position.
pub open spec fn spec_first_missing(e: EL7062, port: int) -> Option<El7062Error> {
    if spec_status_word(e.txpdo, port) is None {
        Some(El7062Error::MissingObject(port as usize, El7062Object::StatusWord))
    } else if spec_fb_position(e.txpdo, port) is None {
        Some(El7062Error::MissingObject(port as usize, El7062Object::FbPosition))
    } else if spec_rx_control_word(e.rxpdo, port) is None {
        Some(El7062Error::MissingObject(port as usize, El7062Object::ControlWord))
    } else if spec_rx_target_position(e.rxpdo, port) is None {
        Some(El7062Error::MissingObject(port as usize, El7062Object::TargetPosition))
    } else {
        None
    }
}

/// The outcome of reading the status word of `port`.
pub open spec fn spec_checked_status(e: EL7062, port: usize) -> Result<u16, El7062Error> {
    if port >= 2 {
        Err(El7062Error::InvalidPort(port))
    } else {
        match spec_status_word(e.txpdo, port as int) {
            Some(sw) => Ok(sw),
            None => Err(El7062Error::MissingObject(port, El7062Object::StatusWord)),
        }
    }
}

/// What `process_channel` leaves behind for one channel whose status word and
/// feedback position are mapped: the position is unwrapped, the state
/// remembered, a pending fault reset dropped once the fault is gone, and the
/// control word, the target position and the CSP mode written.
pub open spec fn spec_processed_rx(e: EL7062, port: int, sw: u16) -> EL7062RxPdo {
    let state = spec_state_of(sw);
    let pending = state == CiA402ChannelState::Fault && e.fault_reset_pending[port];
    let cw = spec_control_word(state, e.enable_requests[port], pending);
    spec_with_mode(
        spec_with_target(spec_with_control_word(e.rxpdo, port, cw), port, spec_wrap_u32(e.target_positions[port] as int)),
        port,
        CSP_MODE,
    )
}

impl EL7062 {
    /// A terminal with the default (CSP) configuration, nothing requested yet.
    pub fn new() -> (r: Self)
        ensures
            r.txpdo == spec_txpdo_assignment(spec_default_el7062_configuration().pdo_assignment),
            r.rxpdo == spec_rxpdo_assignment(spec_default_el7062_configuration().pdo_assignment),
            !r.is_used,
            r.configuration == spec_default_el7062_configuration(),
            r.enable_requests == [false, false],
            r.fault_reset_pending == [false, false],
            r.target_positions == [0i128, 0i128],
            r.position_wrappers[0]@ == (PositionState { position: 0, last_raw: 0, initialized: false }),
            r.position_wrappers[1]@ == (PositionState { position: 0, last_raw: 0, initialized: false }),
            r.prev_states == [CiA402ChannelState::Start, CiA402ChannelState::Start],
    {
        let configuration = EL7062Configuration::default();
        Self {
            txpdo: configuration.pdo_assignment.txpdo_assignment(),
            rxpdo: configuration.pdo_assignment.rxpdo_assignment(),
            is_used: false,
            configuration,
            enable_requests: [false, false],
            fault_reset_pending: [false, false],
            target_positions: [0, 0],
            position_wrappers: [PositionWrapperU32I128::new(), PositionWrapperU32I128::new()],
            prev_states: [CiA402ChannelState::Start, CiA402ChannelState::Start],
        }
    }

    /// The number of channels.
    pub fn get_port_count(&self) -> (r: usize)
        ensures
            r == 2,
    {
        2
    }

    fn check_port(&self, port: usize) -> (r: Result<(), El7062Error>)
        ensures
            r == if port < 2 { Ok::<(), El7062Error>(()) } else { Err(El7062Error::InvalidPort(port)) },
    {
        if port < 2 {
            Ok(())
        } else {
            Err(El7062Error::InvalidPort(port))
        }
    }

    /// Requests a channel to be enabled or disabled; the CiA 402 ladder is
    /// driven in `process_channel`. A pending fault reset is left as it is.
    pub fn set_enabled(&mut self, port: usize, enabled: bool) -> (r: Result<(), El7062Error>)
        ensures
            port < 2 ==> r is Ok && final(self).enable_requests@ == old(self).enable_requests@.update(
                port as int,
                enabled,
            ) && *final(self) == (EL7062 { enable_requests: final(self).enable_requests, ..*old(self) }),
            port >= 2 ==> r == Err::<(), El7062Error>(El7062Error::InvalidPort(port)) && *final(self)
                == *old(self),
    {
        self.check_port(port)?;
        self.enable_requests[port] = enabled;
        Ok(())
    }

    /// Whether the channel requests operation and the drive reports it.
    pub fn is_enabled(&self, port: usize) -> (r: Result<bool, El7062Error>)
        ensures
            r == match spec_checked_status(*self, port) {
                Ok(sw) => Ok(self.enable_requests[port as int] && spec_state_of(sw)
                    == CiA402ChannelState::OperationEnabled),
                Err(e) => Err(e),
            },
    {
        self.check_port(port)?;
        let sw = self.channel_status_word(port)?;
        Ok(self.enable_requests[port] && CiA402ChannelState::from_status_word(sw).is_operation_enabled())
    }

    /// Sets the CSP target position of a channel; it is written modulo `2^32`.
    pub fn set_target_position(&mut self, port: usize, position: i128) -> (r: Result<(), El7062Error>)
        ensures
            port < 2 ==> r is Ok && final(self).target_positions@ == old(self).target_positions@.update(
                port as int,
                position,
            ) && *final(self) == (EL7062 { target_positions: final(self).target_positions, ..*old(self) }),
            port >= 2 ==> r == Err::<(), El7062Error>(El7062Error::InvalidPort(port)) && *final(self)
                == *old(self),
    {
        self.check_port(port)?;
        self.target_positions[port] = position;
        Ok(())
    }

    /// The CSP target position of a channel.
    pub fn get_target_position(&self, port: usize) -> (r: Result<i128, El7062Error>)
        ensures
            r == if port < 2 {
                Ok::<i128, El7062Error>(self.target_positions[port as int])
            } else {
                Err(El7062Error::InvalidPort(port))
            },
    {
        self.check_port(port)?;
        Ok(self.target_positions[port])
    }

    /// The unwrapped feedback position of a channel.
    pub fn get_actual_position(&self, port: usize) -> (r: Result<i128, El7062Error>)
        ensures
            port < 2 ==> (r matches Ok(p) && p == self.position_wrappers[port as int]@.position),
            port >= 2 ==> r == Err::<i128, El7062Error>(El7062Error::InvalidPort(port)),
    {
        self.check_port(port)?;
        Ok(self.position_wrappers[port].current())
    }

    /// Whether the drive of a channel reports a fault.
    pub fn is_in_fault(&self, port: usize) -> (r: Result<bool, El7062Error>)
        ensures
            r == match spec_checked_status(*self, port) {
                Ok(sw) => Ok(spec_state_of(sw) == CiA402ChannelState::Fault),
                Err(e) => Err(e),
            },
    {
        self.check_port(port)?;
        let sw = self.channel_status_word(port)?;
        Ok(CiA402ChannelState::from_status_word(sw).is_fault())
    }

    /// Requests a CiA 402 fault reset of a channel (edge triggered on bit 7).
    pub fn reset_fault(&mut self, port: usize) -> (r: Result<(), El7062Error>)
        ensures
            port < 2 ==> r is Ok && final(self).fault_reset_pending@ == old(
                self,
            ).fault_reset_pending@.update(port as int, true) && *final(self) == (EL7062 {
                fault_reset_pending: final(self).fault_reset_pending,
                ..*old(self)
            }),
            port >= 2 ==> r == Err::<(), El7062Error>(El7062Error::InvalidPort(port)) && *final(self)
                == *old(self),
    {
        self.check_port(port)?;
        self.fault_reset_pending[port] = true;
        Ok(())
    }

    /// The raw status word of a channel.
    pub fn status_word(&self, port: usize) -> (r: Result<u16, El7062Error>)
        ensures
            r == spec_checked_status(*self, port),
    {
        self.check_port(port)?;
        self.channel_status_word(port)
    }

    /// The CiA 402 state of a channel.
    pub fn state(&self, port: usize) -> (r: Result<CiA402ChannelState, El7062Error>)
        ensures
            r == match spec_checked_status(*self, port) {
                Ok(sw) => Ok(spec_state_of(sw)),
                Err(e) => Err(e),
            },
    {
        self.check_port(port)?;
        let sw = self.channel_status_word(port)?;
        Ok(CiA402ChannelState::from_status_word(sw))
    }

    /// Whether the drive reports following the commanded position (bit 12).
    pub fn drive_follows_command(&self, port: usize) -> (r: Result<bool, El7062Error>)
        ensures
            r == match spec_checked_status(*self, port) {
                Ok(sw) => Ok(sw & STATUS_DRIVE_FOLLOWS_COMMAND != 0),
                Err(e) => Err(e),
            },
    {
        self.check_port(port)?;
        let sw = self.channel_status_word(port)?;
        Ok(sw & STATUS_DRIVE_FOLLOWS_COMMAND != 0)
    }

    /// The modes-of-operation display of a channel, if mapped.
    pub fn mode_of_operation_display(&self, port: usize) -> (r: Result<Option<u8>, El7062Error>)
        ensures
            r == if port < 2 {
                Ok::<Option<u8>, El7062Error>(spec_mode_display(self.txpdo, port as int))
            } else {
                Err(El7062Error::InvalidPort(port))
            },
    {
        self.check_port(port)?;
        self.channel_mode_display(port)
    }

    /// The DC link voltage in mV (DRV info data 1), if mapped.
    pub fn dc_link_voltage_mv(&self, port: usize) -> (r: Result<Option<u16>, El7062Error>)
        ensures
            r == if port < 2 {
                Ok::<Option<u16>, El7062Error>(spec_info_data(self.txpdo, port as int))
            } else {
                Err(El7062Error::InvalidPort(port))
            },
    {
        self.check_port(port)?;
        match port {
            0 => Ok(
                match self.txpdo.info_data_ch1 {
                    Some(o) => Some(o.info_data),
                    None => None,
                },
            ),
            _ => Ok(
                match self.txpdo.info_data_ch2 {
                    Some(o) => Some(o.info_data),
                    None => None,
                },
            ),
        }
    }

    fn channel_status_word(&self, port: usize) -> (r: Result<u16, El7062Error>)
        ensures
            r == spec_checked_status(*self, port),
    {
        let o = match port {
            0 => self.txpdo.status_word_ch1,
            1 => self.txpdo.status_word_ch2,
            _ => return Err(El7062Error::InvalidPort(port)),
        };
        match o {
            Some(o) => Ok(o.status_word),
            None => Err(El7062Error::MissingObject(port, El7062Object::StatusWord)),
        }
    }

    fn channel_fb_position(&self, port: usize) -> (r: Result<u32, El7062Error>)
        ensures
            r == if port >= 2 {
                Err(El7062Error::InvalidPort(port))
            } else {
                match spec_fb_position(self.txpdo, port as int) {
                    Some(p) => Ok(p),
                    None => Err(El7062Error::MissingObject(port, El7062Object::FbPosition)),
                }
            },
    {
        let o = match port {
            0 => self.txpdo.fb_position_ch1,
            1 => self.txpdo.fb_position_ch2,
            _ => return Err(El7062Error::InvalidPort(port)),
        };
        match o {
            Some(o) => Ok(o.position),
            None => Err(El7062Error::MissingObject(port, El7062Object::FbPosition)),
        }
    }

    fn channel_mode_display(&self, port: usize) -> (r: Result<Option<u8>, El7062Error>)
        ensures
            r == if port < 2 {
                Ok::<Option<u8>, El7062Error>(spec_mode_display(self.txpdo, port as int))
            } else {
                Err(El7062Error::InvalidPort(port))
            },
    {
        let o = match port {
            0 => self.txpdo.mode_of_operation_display_ch1,
            1 => self.txpdo.mode_of_operation_display_ch2,
            _ => return Err(El7062Error::InvalidPort(port)),
        };
        match o {
            Some(o) => Ok(Some(o.mode_display)),
            None => Ok(None),
        }
    }

    /// Runs one cycle of the CiA 402 state machine of a channel: unwraps the
    /// feedback position, remembers the state, and writes the control word
    /// that moves the drive one step towards what was requested, the target
    /// position (modulo `2^32`) and CSP as the mode of operation.
    ///
    /// A missing status word or feedback position fails before anything
    /// changes; a missing control word or target position fails after the
    /// position and the state have been taken in.
    pub fn process_channel(&mut self, port: usize) -> (r: Result<(), El7062Error>)
        requires
            port < 2 ==> match spec_fb_position(old(self).txpdo, port as int) {
                Some(raw) => spec_position_update_fits(old(self).position_wrappers[port as int]@, raw),
                None => true,
            },
        ensures
            ({
                let e = *old(self);
                let f = *final(self);
                match spec_checked_status(e, port) {
                    Err(err) => r == Err::<(), El7062Error>(err) && f == e,
                    Ok(sw) => match spec_fb_position(e.txpdo, port as int) {
                        None => r == Err::<(), El7062Error>(
                            El7062Error::MissingObject(port, El7062Object::FbPosition),
                        ) && f == e,
                        Some(raw) => {
                            let state = spec_state_of(sw);
                            let pending = state == CiA402ChannelState::Fault
                                && e.fault_reset_pending[port as int];
                            &&& f.txpdo == e.txpdo
                            &&& f.is_used == e.is_used
                            &&& f.configuration == e.configuration
                            &&& f.enable_requests == e.enable_requests
                            &&& f.target_positions == e.target_positions
                            &&& f.position_wrappers[port as int]@ == spec_position_update(
                                e.position_wrappers[port as int]@,
                                raw,
                            )
                            &&& f.position_wrappers[1 - port] == e.position_wrappers[1 - port]
                            &&& f.prev_states@ == e.prev_states@.update(port as int, state)
                            &&& f.fault_reset_pending@ == e.fault_reset_pending@.update(port as int, pending)
                            &&& if spec_rx_control_word(e.rxpdo, port as int) is None {
                                r == Err::<(), El7062Error>(
                                    El7062Error::MissingObject(port, El7062Object::ControlWord),
                                ) && f.rxpdo == e.rxpdo
                            } else if spec_rx_target_position(e.rxpdo, port as int) is None {
                                r == Err::<(), El7062Error>(
                                    El7062Error::MissingObject(port, El7062Object::TargetPosition),
                                ) && f.rxpdo == spec_with_control_word(
                                    e.rxpdo,
                                    port as int,
                                    spec_control_word(state, e.enable_requests[port as int], pending),
                                )
                            } else {
                                r is Ok && f.rxpdo == spec_processed_rx(e, port as int, sw)
                            }
                        },
                    },
                }
            }),
    {
        let status_word = self.channel_status_word(port)?;
        let state = CiA402ChannelState::from_status_word(status_word);
        let actual_position = self.channel_fb_position(port)?;
        let target_position = self.target_positions[port];
        let enable = self.enable_requests[port];

        let mut wrapper = self.position_wrappers[port];
        wrapper.update(actual_position);
        self.position_wrappers[port] = wrapper;

        if state != self.prev_states[port] {
            self.prev_states[port] = state;
        }

        let control_word = if state.is_fault() {
            // Edge-triggered reset: hold the reset while it is pending, else keep the drive off.
            if self.fault_reset_pending[port] {
                CONTROL_WORD_FAULT_RESET
            } else {
                CONTROL_WORD_DISABLE_VOLTAGE
            }
        } else {
            // Leaving the fault state clears any pending reset.
            self.fault_reset_pending[port] = false;
            match state {
                CiA402ChannelState::Start | CiA402ChannelState::SwitchOnDisabled => {
                    if enable {
                        CONTROL_WORD_SHUTDOWN
                    } else {
                        CONTROL_WORD_DISABLE_VOLTAGE
                    }
                },
                CiA402ChannelState::ReadyToSwitchOn => {
                    if enable {
                        CONTROL_WORD_SWITCH_ON
                    } else {
                        CONTROL_WORD_DISABLE_VOLTAGE
                    }
                },
                CiA402ChannelState::SwitchedOn => {
                    if enable {
                        CONTROL_WORD_ENABLE_OPERATION
                    } else {
                        CONTROL_WORD_SHUTDOWN
                    }
                },
                _ => {
                    if enable {
                        CONTROL_WORD_ENABLE_OPERATION
                    } else {
                        CONTROL_WORD_SWITCH_ON
                    }
                },
            }
        };
        assert(self.prev_states@ =~= old(self).prev_states@.update(port as int, state));
        assert(self.fault_reset_pending@ =~= old(self).fault_reset_pending@.update(
            port as int,
            state == CiA402ChannelState::Fault && old(self).fault_reset_pending[port as int],
        ));

        self.rxpdo_write_control_word(port, control_word)?;
        self.rxpdo_write_target_position(port, target_position)?;
        self.rxpdo_write_mode(port, CSP_MODE)?;
        Ok(())
    }

    fn rxpdo_write_control_word(&mut self, port: usize, control_word: u16) -> (r: Result<(), El7062Error>)
        requires
            port < 2,
        ensures
            spec_rx_control_word(old(self).rxpdo, port as int) is Some ==> r is Ok && *final(self) == (
            EL7062 { rxpdo: spec_with_control_word(old(self).rxpdo, port as int, control_word), ..*old(self) }),
            spec_rx_control_word(old(self).rxpdo, port as int) is None ==> r == Err::<(), El7062Error>(
                El7062Error::MissingObject(port, El7062Object::ControlWord),
            ) && *final(self) == *old(self),
    {
        if port == 0 {
            if self.rxpdo.control_word_ch1.is_none() {
                return Err(El7062Error::MissingObject(port, El7062Object::ControlWord));
            }
            self.rxpdo.control_word_ch1 = Some(DrvControlWord { control_word });
        } else {
            if self.rxpdo.control_word_ch2.is_none() {
                return Err(El7062Error::MissingObject(port, El7062Object::ControlWord));
            }
            self.rxpdo.control_word_ch2 = Some(DrvControlWord { control_word });
        }
        Ok(())
    }

    fn rxpdo_write_target_position(&mut self, port: usize, position: i128) -> (r: Result<(), El7062Error>)
        requires
            port < 2,
        ensures
            spec_rx_target_position(old(self).rxpdo, port as int) is Some ==> r is Ok && *final(self) == (
            EL7062 {
                rxpdo: spec_with_target(old(self).rxpdo, port as int, spec_wrap_u32(position as int)),
                ..*old(self)
            }),
            spec_rx_target_position(old(self).rxpdo, port as int) is None ==> r == Err::<(), El7062Error>(
                El7062Error::MissingObject(port, El7062Object::TargetPosition),
            ) && *final(self) == *old(self),
    {
        let wrapped = position as u32;
        assert(wrapped as int == (position as int) % 0x1_0000_0000) by (bit_vector)
            requires
                wrapped == position as u32,
        ;
        if port == 0 {
            if self.rxpdo.target_position_ch1.is_none() {
                return Err(El7062Error::MissingObject(port, El7062Object::TargetPosition));
            }
            self.rxpdo.target_position_ch1 = Some(DrvTargetPosition { target_position: wrapped });
        } else {
            if self.rxpdo.target_position_ch2.is_none() {
                return Err(El7062Error::MissingObject(port, El7062Object::TargetPosition));
            }
            self.rxpdo.target_position_ch2 = Some(DrvTargetPosition { target_position: wrapped });
        }
        Ok(())
    }

    fn rxpdo_write_mode(&mut self, port: usize, mode: u8) -> (r: Result<(), El7062Error>)
        requires
            port < 2,
        ensures
            r is Ok,
            *final(self) == (EL7062 { rxpdo: spec_with_mode(old(self).rxpdo, port as int, mode), ..*old(self) }),
    {
        if port == 0 {
            if self.rxpdo.modes_of_operation_ch1.is_some() {
                self.rxpdo.modes_of_operation_ch1 = Some(crate::el7062_pdo::DrvModesOfOperation { mode });
            }
        } else {
            if self.rxpdo.modes_of_operation_ch2.is_some() {
                self.rxpdo.modes_of_operation_ch2 = Some(crate::el7062_pdo::DrvModesOfOperation { mode });
            }
        }
        Ok(())
    }

    fn rxpdo_control_word(&self, port: usize) -> (r: Result<u16, El7062Error>)
        requires
            port < 2,
        ensures
            r == match spec_rx_control_word(self.rxpdo, port as int) {
                Some(cw) => Ok::<u16, El7062Error>(cw),
                None => Err(El7062Error::MissingObject(port, El7062Object::ControlWord)),
            },
    {
        let o = if port == 0 { self.rxpdo.control_word_ch1 } else { self.rxpdo.control_word_ch2 };
        match o {
            Some(o) => Ok(o.control_word),
            None => Err(El7062Error::MissingObject(port, El7062Object::ControlWord)),
        }
    }

    fn rxpdo_mode(&self, port: usize) -> (r: Option<u8>)
        requires
            port < 2,
        ensures
            r == spec_rx_mode(self.rxpdo, port as int),
    {
        let o = if port == 0 { self.rxpdo.modes_of_operation_ch1 } else { self.rxpdo.modes_of_operation_ch2 };
        match o {
            Some(o) => Some(o.mode),
            None => None,
        }
    }

    /// The inputs of a channel as the servo interface reports them.
    pub fn get_input(&self, port: usize) -> (r: Result<ServoPositionEL7062Input, El7062Error>)
        ensures
            r == match spec_checked_status(*self, port) {
                Ok(sw) => Ok(
                    ServoPositionEL7062Input {
                        position: self.position_wrappers[port as int]@.position as i128,
                        is_enabled: self.enable_requests[port as int] && spec_state_of(sw)
                            == CiA402ChannelState::OperationEnabled,
                        is_in_fault: spec_state_of(sw) == CiA402ChannelState::Fault,
                        drive_follows_command: sw & STATUS_DRIVE_FOLLOWS_COMMAND != 0,
                        status_word: sw,
                        state: spec_state_of(sw),
                        mode_display: spec_mode_display(self.txpdo, port as int),
                    },
                ),
                Err(e) => Err(e),
            },
    {
        self.check_port(port)?;
        let status_word = self.channel_status_word(port)?;
        let state = CiA402ChannelState::from_status_word(status_word);
        let mode_display = self.channel_mode_display(port)?;
        Ok(ServoPositionEL7062Input {
            position: self.position_wrappers[port].current(),
            is_enabled: self.enable_requests[port] && state.is_operation_enabled(),
            is_in_fault: state.is_fault(),
            drive_follows_command: status_word & STATUS_DRIVE_FOLLOWS_COMMAND != 0,
            status_word,
            state,
            mode_display,
        })
    }

    /// The outputs of a channel; an unmapped mode reads as CSP.
    pub fn get_output(&self, port: usize) -> (r: Result<ServoPositionEL7062Output, El7062Error>)
        ensures
            port >= 2 ==> r == Err::<ServoPositionEL7062Output, El7062Error>(El7062Error::InvalidPort(port)),
            port < 2 ==> r == match spec_rx_control_word(self.rxpdo, port as int) {
                Some(cw) => Ok(
                    ServoPositionEL7062Output {
                        control_word: cw,
                        mode: match spec_rx_mode(self.rxpdo, port as int) {
                            Some(m) => m,
                            None => CSP_MODE,
                        },
                        target_position: self.target_positions[port as int],
                    },
                ),
                None => Err(El7062Error::MissingObject(port, El7062Object::ControlWord)),
            },
    {
        self.check_port(port)?;
        let control_word = self.rxpdo_control_word(port)?;
        let mode = match self.rxpdo_mode(port) {
            Some(m) => m,
            None => CSP_MODE,
        };
        Ok(ServoPositionEL7062Output { control_word, mode, target_position: self.target_positions[port] })
    }

    /// Human-readable explanation of why a channel is not (yet) enabled, built
    /// only from the input snapshot: status word, DC link telemetry and mode
    /// display.
    pub fn enable_diagnostic(&self, port: usize) -> (r: Result<String, El7062Error>)
        ensures
            match spec_checked_status(*self, port) {
                Ok(sw) => r matches Ok(text) && text@ == spec_enable_diagnostic(
                    sw,
                    spec_info_data(self.txpdo, port as int),
                    spec_mode_display(self.txpdo, port as int),
                    self.position_wrappers[port as int]@.position,
                    self.target_positions[port as int] as int,
                ),
                Err(e) => r == Err::<String, El7062Error>(e),
            },
    {
        self.check_port(port)?;
        let status_word = self.channel_status_word(port)?;
        let state = CiA402ChannelState::from_status_word(status_word);
        let dc_link = self.dc_link_voltage_mv(port)?;
        let mode = self.channel_mode_display(port)?;
        let actual = self.position_wrappers[port].current();
        let target = self.target_positions[port];

        if state.is_operation_enabled() {
            let follows = status_word & STATUS_DRIVE_FOLLOWS_COMMAND != 0;
            let mut r = String::from_str("operation enabled: actual=");
            push_decimal_i128(&mut r, actual);
            r.append(" target=");
            push_decimal_i128(&mut r, target);
            r.append(" follows_command=");
            push_bool(&mut r, follows);
            return Ok(r);
        }
        let mut reasons: Vec<String> = Vec::new();
        reasons.push(state_reason(state));
        assert(spec_views(reasons@) =~= seq![spec_state_reason(state)]);
        push_part(&mut reasons, status_word & STATUS_WARNING != 0, "status word warning bit SET");
        let ghost before_dc = spec_views(reasons@);
        reasons.push(dc_link_reason(dc_link));
        assert(spec_views(reasons@) =~= before_dc + seq![spec_dc_link_reason(dc_link)]);
        let ghost before_mode = spec_views(reasons@);
        match mode {
            Some(m) => {
                if m != CSP_MODE {
                    let mut text = String::from_str("mode display = ");
                    push_decimal_u128(&mut text, m as u128);
                    text.append(", expected CSP = ");
                    push_decimal_u128(&mut text, CSP_MODE as u128);
                    reasons.push(text);
                }
            },
            None => {},
        }
        assert(spec_views(reasons@) =~= before_mode + spec_mode_reason(mode));
        push_part(
            &mut reasons,
            status_word & STATUS_INTERNAL_LIMIT_ACTIVE != 0,
            "internal limit active (end-of-travel/stall detection)",
        );
        let ghost before_describe = spec_views(reasons@);
        reasons.push(describe_status_word(status_word));
        assert(spec_views(reasons@) =~= before_describe + seq![spec_describe_status_word(status_word)]);
        assert(spec_views(reasons@) =~= spec_diagnostic_reasons(status_word, dc_link, mode));
        let mut r = join_strings(&reasons, "; ");
        r.append(" (actual=");
        push_decimal_i128(&mut r, actual);
        r.append(" target=");
        push_decimal_i128(&mut r, target);
        r.append(")");
        Ok(r)
    }

    /// Runs the state machine of both channels, channel 1 first.
    pub fn output_pre_process(&mut self) -> (r: Result<(), El7062Error>)
        requires
            match spec_fb_position(old(self).txpdo, 0) {
                Some(raw) => spec_position_update_fits(old(self).position_wrappers[0]@, raw),
                None => true,
            },
            match spec_fb_position(old(self).txpdo, 1) {
                Some(raw) => spec_position_update_fits(old(self).position_wrappers[1]@, raw),
                None => true,
            },
        ensures
            match spec_first_missing(*old(self), 0) {
                Some(err) => r == Err::<(), El7062Error>(err),
                None => match spec_first_missing(*old(self), 1) {
                    Some(err) => r == Err::<(), El7062Error>(err),
                    None => r is Ok,
                },
            },
            r is Ok ==> final(self).rxpdo == spec_processed_rx(
                EL7062 { rxpdo: spec_processed_rx(*old(self), 0, spec_status_word(old(self).txpdo, 0)->0), ..*old(self) },
                1,
                spec_status_word(old(self).txpdo, 1)->0,
            ),
            r is Ok ==> {
                &&& final(self).txpdo == old(self).txpdo
                &&& final(self).enable_requests == old(self).enable_requests
                &&& final(self).target_positions == old(self).target_positions
                &&& final(self).position_wrappers[0]@ == spec_position_update(
                    old(self).position_wrappers[0]@, spec_fb_position(old(self).txpdo, 0)->0)
                &&& final(self).position_wrappers[1]@ == spec_position_update(
                    old(self).position_wrappers[1]@, spec_fb_position(old(self).txpdo, 1)->0)
                &&& final(self).prev_states@ == seq![
                    spec_state_of(spec_status_word(old(self).txpdo, 0)->0),
                    spec_state_of(spec_status_word(old(self).txpdo, 1)->0),
                ]
            },
    {
        self.process_channel(0)?;
        self.process_channel(1)?;
        Ok(())
    }
}

impl ConfigurableDevice<EL7062Configuration> for EL7062 {
    /// Stores the configuration and, once it is stored, adopts it with the
    /// process data layout of its PDO assignment.
    fn write_config(&mut self, ecat_channel: &mut EtherCATThreadChannel, device_address: u16, config: &EL7062Configuration) -> (r: Result<(), ChannelError>)
        ensures
            spec_plan_run(config.spec_plan().len(), r),
            spec_plan_sent(device_address, config.spec_plan(), old(ecat_channel).requests(), final(ecat_channel).requests(), r),
            r is Ok ==> {
                &&& final(self).configuration == *config
                &&& final(self).txpdo == spec_txpdo_assignment(config.pdo_assignment)
                &&& final(self).rxpdo == spec_rxpdo_assignment(config.pdo_assignment)
                &&& final(self).enable_requests == old(self).enable_requests
                &&& final(self).target_positions == old(self).target_positions
            },
            r is Err ==> *final(self) == *old(self),
    {
        let stored = config.write_config(ecat_channel, device_address);
        if stored.is_err() {
            return stored;
        }
        self.configuration = *config;
        self.txpdo = config.pdo_assignment.txpdo_assignment();
        self.rxpdo = config.pdo_assignment.rxpdo_assignment();
        stored
    }

    fn get_config(&self) -> (r: EL7062Configuration)
        ensures
            r == self.configuration,
    {
        self.configuration
    }
}

} // verus!
