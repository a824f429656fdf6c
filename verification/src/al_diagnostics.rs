//! Diagnostics for EtherCAT state transitions: decoding of the AL status
//! registers, which subdevices count as faulty, and a bounded history of
//! transition reports.
use vstd::prelude::*;
use std::time::Duration;
use std::collections::VecDeque;
use ethercrab::EtherCrabWireRead;
use crate::ethercat_state::EtherCATState;
use crate::text::{
    join_strings, push_decimal_u128, push_hex4_lower, push_hex_u8_lower, spec_decimal_nat,
    spec_hex4_lower, spec_hex_u8_lower, spec_join, spec_views,
};

verus! {

/// How many transition reports the log keeps.
pub const MAX_REPORTS: usize = 32;

/// First configured station address handed out on the bus; the rest follow contiguously.
pub const BASE_SUBDEVICE_ADDRESS: u16 = 0x1000;

/// `AlStatus` (0x0130): the low nibble is the state.
pub const AL_STATUS_STATE_MASK: u16 = 0x000F;

/// `AlStatus` (0x0130): bit 4 is the error flag.
pub const AL_STATUS_ERROR_FLAG: u16 = 0x0010;

/// `AlStatusCode` value that means "no error" (ETG1000.6 table 11).
pub const AL_STATUS_CODE_NO_ERROR: u16 = 0x0000;

/// The AL state of a subdevice, as the low nibble of `AlStatus` encodes it.
#[derive(Clone, Copy, Debug, PartialEq, Eq, Structural)]
pub enum SubDeviceState {
    /// No state recorded.
    NoState,
    Init,
    PreOp,
    Bootstrap,
    SafeOp,
    Op,
    /// A combination of the above or an unknown value.
    Other(u8),
}

/// The state that an AL state code stands for.
pub open spec fn spec_subdevice_state(code: u8) -> SubDeviceState {
    if code == 0 {
        SubDeviceState::NoState
    } else if code == 1 {
        SubDeviceState::Init
    } else if code == 2 {
        SubDeviceState::PreOp
    } else if code == 3 {
        SubDeviceState::Bootstrap
    } else if code == 4 {
        SubDeviceState::SafeOp
    } else if code == 8 {
        SubDeviceState::Op
    } else {
        SubDeviceState::Other(code)
    }
}

/// Decodes one AL state byte with ethercrab's `SubDeviceState::unpack_from_slice`.
/// Its wire derive maps the codes 0, 1, 2, 3, 4 and 8 to `None` (here `NoState`), `Init`, `PreOp`,
/// `Bootstrap`, `SafeOp` and `Op`, any other byte to `Other` of that byte, and it
/// succeeds on every one-byte slice; the variant is carried over one for one.
#[verifier::external_body]
fn unpack_subdevice_state(code: u8) -> (state: Option<SubDeviceState>)
    ensures
        state == Some(spec_subdevice_state(code)),
{
    match ethercrab::SubDeviceState::unpack_from_slice(&[code]) {
        Ok(ethercrab::SubDeviceState::None) => Some(SubDeviceState::NoState),
        Ok(ethercrab::SubDeviceState::Init) => Some(SubDeviceState::Init),
        Ok(ethercrab::SubDeviceState::PreOp) => Some(SubDeviceState::PreOp),
        Ok(ethercrab::SubDeviceState::Bootstrap) => Some(SubDeviceState::Bootstrap),
        Ok(ethercrab::SubDeviceState::SafeOp) => Some(SubDeviceState::SafeOp),
        Ok(ethercrab::SubDeviceState::Op) => Some(SubDeviceState::Op),
        Ok(ethercrab::SubDeviceState::Other(v)) => Some(SubDeviceState::Other(v)),
        Err(_) => None,
    }
}

/// Splits a raw `AlStatus` word into the state (low nibble) and the error flag (bit 4).
pub fn decode_al_status(raw: u16) -> (r: (Option<SubDeviceState>, bool))
    ensures
        r.0 == Some(spec_subdevice_state((raw & AL_STATUS_STATE_MASK) as u8)),
        r.1 == (raw & AL_STATUS_ERROR_FLAG != 0),
{
    let code = (raw & AL_STATUS_STATE_MASK) as u8;
    let state = unpack_subdevice_state(code);
    (state, raw & AL_STATUS_ERROR_FLAG != 0)
}

/// One subdevice's AL state, from `AlStatus` (0x0130) and `AlStatusCode` (0x0134).
#[derive(Clone, Debug)]
pub struct SubDeviceAlStatus {
    pub device_address: u16,
    pub name: String,
    pub state: Option<SubDeviceState>,
    pub error_flag: bool,
    /// The raw `AlStatusCode` register, where it could be read.
    pub al_status_code: Option<u16>,
    /// Set when the device did not answer, e.g. a working counter mismatch.
    pub read_error: Option<String>,
}

/// A subdevice is faulty when it did not answer, raised its error flag, or
/// reports an AL status code other than "no error".
pub open spec fn spec_is_faulty(s: SubDeviceAlStatus) -> bool {
    ||| s.read_error is Some
    ||| s.error_flag
    ||| (s.al_status_code matches Some(code) && code != AL_STATUS_CODE_NO_ERROR)
}

impl SubDeviceAlStatus {
    pub fn is_faulty(&self) -> (r: bool)
        ensures
            r == spec_is_faulty(*self),
    {
        let code_is_error = match self.al_status_code {
            Some(code) => code != AL_STATUS_CODE_NO_ERROR,
            None => false,
        };
        self.read_error.is_some() || self.error_flag || code_is_error
    }
}

/// How long a snapshot of every subdevice's AL status may take; devices not
/// reached by then are reported unreachable.
pub const SNAPSHOT_DEADLINE_MS: u64 = 500;

/// A device's status from the reads of its `AlStatus` word and its
/// `AlStatusCode`: a failed status read makes the device unreachable, with
/// the read's error; otherwise the word is decoded, and the code is kept
/// where it could be read.
pub fn status_from_reads(
    device_address: u16,
    name: String,
    al_status: Result<u16, String>,
    al_status_code: Option<u16>,
) -> (r: SubDeviceAlStatus)
    ensures
        r.device_address == device_address,
        r.name == name,
        match al_status {
            Err(e) => r.state is None && !r.error_flag && r.al_status_code is None && r.read_error == Some(e),
            Ok(raw) => r.state == Some(spec_subdevice_state((raw & AL_STATUS_STATE_MASK) as u8))
                && r.error_flag == (raw & AL_STATUS_ERROR_FLAG != 0)
                && r.al_status_code == al_status_code && r.read_error is None,
        },
{
    match al_status {
        Err(e) => SubDeviceAlStatus {
            device_address,
            name,
            state: None,
            error_flag: false,
            al_status_code: None,
            read_error: Some(e),
        },
        Ok(raw) => {
            let (state, error_flag) = decode_al_status(raw);
            SubDeviceAlStatus { device_address, name, state, error_flag, al_status_code, read_error: None }
        },
    }
}

/// What a snapshot does with the next device once `elapsed_ms` have passed
/// since it started: the device is read while the deadline has not yet been
/// reached, and reported with [`deadline_exceeded_status`] from then on.
pub fn read_before_deadline(elapsed_ms: u64) -> (r: bool)
    ensures
        r == (elapsed_ms < SNAPSHOT_DEADLINE_MS),
{
    elapsed_ms < SNAPSHOT_DEADLINE_MS
}

/// The status of a device that the snapshot deadline passed before it was read.
pub fn deadline_exceeded_status(device_address: u16, name: String) -> (r: SubDeviceAlStatus)
    ensures
        r.device_address == device_address,
        r.name == name,
        r.state is None && !r.error_flag && r.al_status_code is None,
        r.read_error matches Some(t) && t@ == "snapshot deadline exceeded before this device was read"@,
{
    SubDeviceAlStatus {
        device_address,
        name,
        state: None,
        error_flag: false,
        al_status_code: None,
        read_error: Some(String::from_str("snapshot deadline exceeded before this device was read")),
    }
}

/// Which master-level step was being attempted.
#[derive(Clone, Copy, Debug, PartialEq, Eq, Structural)]
pub enum EtherCATTransition {
    InitGroup,
    PreOpToPreOpPdi,
    ConfigureDcSync,
    PreOpPdiToSafeOp,
    SafeOpToOpRequest,
    /// Waiting for every subdevice to confirm OP.
    OpRamp,
    /// A TX/RX failure in the named state.
    TxRx(EtherCATState),
}

/// `Duration::clone`: `Duration` is `Copy`, and its documentation gives `clone`
/// as the copy, so the clone equals the original.
pub assume_specification[ <Duration as Clone>::clone ](d: &Duration) -> (r: Duration)
    ensures
        r == *d,
;

/// The outcome of one transition, together with the AL snapshot taken right after it.
#[derive(Clone, Debug)]
pub struct TransitionReport {
    pub transition: EtherCATTransition,
    pub succeeded: bool,
    pub error: Option<String>,
    pub duration: Duration,
    pub statuses: Vec<SubDeviceAlStatus>,
}

/// The faulty entries of a snapshot, in their order.
pub open spec fn spec_faulty(statuses: Seq<SubDeviceAlStatus>) -> Seq<SubDeviceAlStatus> {
    statuses.filter(|s: SubDeviceAlStatus| spec_is_faulty(s))
}

impl TransitionReport {
    /// The subdevices of the snapshot that are faulty, in snapshot order.
    pub fn faulty_devices(&self) -> (r: Vec<&SubDeviceAlStatus>)
        ensures
            r.len() == spec_faulty(self.statuses@).len(),
            forall|i: int| 0 <= i < r.len() ==> *r@[i] == spec_faulty(self.statuses@)[i],
    {
        let mut r: Vec<&SubDeviceAlStatus> = Vec::new();
        let mut i: usize = 0;
        while i < self.statuses.len()
            invariant
                i <= self.statuses.len(),
                r.len() == spec_faulty(self.statuses@.subrange(0, i as int)).len(),
                forall|k: int| 0 <= k < r.len() ==>
                    *r@[k] == spec_faulty(self.statuses@.subrange(0, i as int))[k],
            decreases self.statuses.len() - i,
        {
            let s = &self.statuses[i];
            proof {
                let pre = self.statuses@.subrange(0, i as int);
                let next = self.statuses@.subrange(0, i + 1);
                assert(next.drop_last() =~= pre);
                assert(next.last() == self.statuses@[i as int]);
                pre.lemma_filter_push(self.statuses@[i as int], |s: SubDeviceAlStatus| spec_is_faulty(s));
                assert(next =~= pre.push(self.statuses@[i as int]));
            }
            if s.is_faulty() {
                r.push(s);
            }
            i += 1;
        }
        assert(self.statuses@.subrange(0, self.statuses@.len() as int) =~= self.statuses@);
        r
    }
}


/// How ethercrab's `Display` writes a subdevice state.
pub open spec fn spec_state_text(s: SubDeviceState) -> Seq<char> {
    match s {
        SubDeviceState::NoState => "None"@,
        SubDeviceState::Init => "Init"@,
        SubDeviceState::PreOp => "Pre-Operational"@,
        SubDeviceState::Bootstrap => "Bootstrap"@,
        SubDeviceState::SafeOp => "Safe-Operational"@,
        SubDeviceState::Op => "Operational"@,
        SubDeviceState::Other(v) => "Other("@ + spec_hex_u8_lower(v) + ")"@,
    }
}

impl SubDeviceState {
    /// The state as ethercrab's `Display` writes it.
    pub fn text(&self) -> (r: String)
        ensures
            r@ == spec_state_text(*self),
    {
        match self {
            SubDeviceState::NoState => String::from_str("None"),
            SubDeviceState::Init => String::from_str("Init"),
            SubDeviceState::PreOp => String::from_str("Pre-Operational"),
            SubDeviceState::Bootstrap => String::from_str("Bootstrap"),
            SubDeviceState::SafeOp => String::from_str("Safe-Operational"),
            SubDeviceState::Op => String::from_str("Operational"),
            SubDeviceState::Other(v) => {
                let mut s = String::from_str("Other(");
                push_hex_u8_lower(&mut s, *v);
                s.append(")");
                s
            },
        }
    }
}

/// The text of an AL status code as ethercrab's `Display` of `AlStatusCode`
/// writes it: the code in hexadecimal and its ETG1000.6 reason.
pub uninterp spec fn spec_al_status_code_text(code: u16) -> Seq<char>;

/// ethercrab's `AlStatusCode`, read from the code's two little-endian bytes
/// with `unpack_from_slice` (which maps every code, unknown ones to
/// `Unknown`), then written with its `Display`. The text is a function of the
/// code alone.
#[verifier::external_body]
fn al_status_code_text(code: u16) -> (r: String)
    ensures
        r@ == spec_al_status_code_text(code),
{
    ethercrab::AlStatusCode::unpack_from_slice(&code.to_le_bytes())
        .map(|c| c.to_string())
        .unwrap_or_default()
}

/// The text of a duration as `std`'s `Debug` writes it with one decimal
/// (`{:.1?}`), e.g. `20.0s` or `1.5ms`.
pub uninterp spec fn spec_duration_text(d: Duration) -> Seq<char>;

/// `std`'s `Debug` of a `Duration` with precision one; the text is a function
/// of the duration alone.
#[verifier::external_body]
fn duration_text(d: Duration) -> (r: String)
    ensures
        r@ == spec_duration_text(d),
{
    format!("{d:.1?}")
}

/// The name of a master state, as `Debug` writes it.
pub open spec fn spec_state_name(s: EtherCATState) -> Seq<char> {
    match s {
        EtherCATState::NoInterface => "NoInterface"@,
        EtherCATState::Init => "Init"@,
        EtherCATState::PreOp => "PreOp"@,
        EtherCATState::PreopPdi => "PreopPdi"@,
        EtherCATState::Boot => "Boot"@,
        EtherCATState::Op => "Op"@,
    }
}

fn state_name(s: EtherCATState) -> (r: &'static str)
    ensures
        r@ == spec_state_name(s),
{
    match s {
        EtherCATState::NoInterface => "NoInterface",
        EtherCATState::Init => "Init",
        EtherCATState::PreOp => "PreOp",
        EtherCATState::PreopPdi => "PreopPdi",
        EtherCATState::Boot => "Boot",
        EtherCATState::Op => "Op",
    }
}

/// What a transition step is called in reports.
pub open spec fn spec_transition_text(t: EtherCATTransition) -> Seq<char> {
    match t {
        EtherCATTransition::InitGroup => "Init -> PreOp (init_single_group)"@,
        EtherCATTransition::PreOpToPreOpPdi => "PreOp -> PreOp+PDI (into_pre_op_pdi)"@,
        EtherCATTransition::ConfigureDcSync => "configure_dc_sync"@,
        EtherCATTransition::PreOpPdiToSafeOp => "PreOp+PDI -> SafeOp (into_safe_op)"@,
        EtherCATTransition::SafeOpToOpRequest => "SafeOp -> OP (request_into_op)"@,
        EtherCATTransition::OpRamp => "OP ramp"@,
        EtherCATTransition::TxRx(state) => "TX/RX in "@ + spec_state_name(state),
    }
}

impl EtherCATTransition {
    /// What the step is called in reports.
    pub fn text(&self) -> (r: String)
        ensures
            r@ == spec_transition_text(*self),
    {
        match self {
            EtherCATTransition::InitGroup => String::from_str("Init -> PreOp (init_single_group)"),
            EtherCATTransition::PreOpToPreOpPdi => String::from_str("PreOp -> PreOp+PDI (into_pre_op_pdi)"),
            EtherCATTransition::ConfigureDcSync => String::from_str("configure_dc_sync"),
            EtherCATTransition::PreOpPdiToSafeOp => String::from_str("PreOp+PDI -> SafeOp (into_safe_op)"),
            EtherCATTransition::SafeOpToOpRequest => String::from_str("SafeOp -> OP (request_into_op)"),
            EtherCATTransition::OpRamp => String::from_str("OP ramp"),
            EtherCATTransition::TxRx(state) => {
                let mut s = String::from_str("TX/RX in ");
                s.append(state_name(*state));
                s
            },
        }
    }
}

/// One subdevice's line of a report: its name and address, then
/// `unreachable (..)` when it did not answer, else its state, `+ERR` when its
/// error flag is set, and the text of its AL status code.
pub open spec fn spec_status_text(s: SubDeviceAlStatus) -> Seq<char> {
    s.name@ + " @0x"@ + spec_hex4_lower(s.device_address) + ": "@ + match s.read_error {
        Some(e) => "unreachable ("@ + e@ + ")"@,
        None => (match s.state {
            Some(st) => spec_state_text(st),
            None => "unknown state"@,
        }) + (if s.error_flag { " +ERR"@ } else { Seq::<char>::empty() }) + (match s.al_status_code {
            Some(c) => ", "@ + spec_al_status_code_text(c),
            None => Seq::<char>::empty(),
        }),
    }
}

impl SubDeviceAlStatus {
    /// The subdevice's line of a report.
    pub fn text(&self) -> (r: String)
        ensures
            r@ == spec_status_text(*self),
    {
        let mut s = String::from_str(self.name.as_str());
        s.append(" @0x");
        push_hex4_lower(&mut s, self.device_address);
        s.append(": ");
        match &self.read_error {
            Some(e) => {
                s.append("unreachable (");
                s.append(e.as_str());
                s.append(")");
            },
            None => {
                match &self.state {
                    Some(st) => {
                        let t = st.text();
                        s.append(t.as_str());
                    },
                    None => s.append("unknown state"),
                }
                if self.error_flag {
                    s.append(" +ERR");
                }
                match self.al_status_code {
                    Some(c) => {
                        s.append(", ");
                        let t = al_status_code_text(c);
                        s.append(t.as_str());
                    },
                    None => {},
                }
            },
        }
        assert(s@ =~= spec_status_text(*self));
        s
    }
}

/// The text of a report: the step, whether it succeeded and after how long,
/// the error where there is one, then the lines of the faulty subdevices
/// joined by `; `, or, for a failure without any, a note that no subdevice
/// reported an AL error.
pub open spec fn spec_report_text(r: TransitionReport) -> Seq<char> {
    let faulty = spec_faulty(r.statuses@);
    spec_transition_text(r.transition) + " "@ + (if r.succeeded { "succeeded"@ } else { "failed"@ })
        + " after "@ + spec_duration_text(r.duration) + (match r.error {
            Some(e) => ": "@ + e@,
            None => Seq::<char>::empty(),
        }) + if faulty.len() == 0 {
            if r.succeeded { Seq::<char>::empty() } else { " \u{2014} no subdevice reported an AL error"@ }
        } else {
            " \u{2014} "@ + spec_join(faulty.map_values(|s: SubDeviceAlStatus| spec_status_text(s)), "; "@)
        }
}

impl TransitionReport {
    /// The text of the report.
    pub fn text(&self) -> (r: String)
        ensures
            r@ == spec_report_text(*self),
    {
        let mut s = self.transition.text();
        s.append(" ");
        if self.succeeded {
            s.append("succeeded");
        } else {
            s.append("failed");
        }
        s.append(" after ");
        let d = duration_text(self.duration.clone());
        s.append(d.as_str());
        match &self.error {
            Some(e) => {
                s.append(": ");
                s.append(e.as_str());
            },
            None => {},
        }
        let faulty = self.faulty_devices();
        let ghost f = spec_faulty(self.statuses@);
        if faulty.len() == 0 {
            if !self.succeeded {
                s.append(" \u{2014} no subdevice reported an AL error");
            }
            assert(s@ =~= spec_report_text(*self));
            return s;
        }
        let mut lines: Vec<String> = Vec::new();
        let mut i: usize = 0;
        while i < faulty.len()
            invariant
                i <= faulty.len(),
                faulty.len() == f.len(),
                forall|k: int| 0 <= k < faulty.len() ==> *faulty@[k] == f[k],
                lines.len() == i,
                forall|k: int| 0 <= k < i ==> (#[trigger] lines@[k])@ == spec_status_text(f[k]),
            decreases faulty.len() - i,
        {
            let line = faulty[i].text();
            lines.push(line);
            i += 1;
        }
        assert(spec_views(lines@) =~= f.map_values(|x: SubDeviceAlStatus| spec_status_text(x)));
        let joined = join_strings(&lines, "; ");
        s.append(" \u{2014} ");
        s.append(joined.as_str());
        assert(s@ =~= spec_report_text(*self));
        s
    }
}

/// Bounded history of transition reports, oldest first.
///
/// Keeps at most [`MAX_REPORTS`] reports; pushing onto a full log evicts the oldest.
pub struct TransitionLog {
    reports: VecDeque<TransitionReport>,
}

/// The log after one push: the report is appended, and when the log was full
/// its oldest report is dropped.
pub open spec fn spec_pushed(log: Seq<TransitionReport>, report: TransitionReport) -> Seq<TransitionReport> {
    if log.len() >= MAX_REPORTS {
        log.drop_first().push(report)
    } else {
        log.push(report)
    }
}

/// The log after pushing each of `reports` in turn.
pub open spec fn spec_pushed_all(log: Seq<TransitionReport>, reports: Seq<TransitionReport>) -> Seq<TransitionReport>
    decreases reports.len(),
{
    if reports.len() == 0 {
        log
    } else {
        spec_pushed(spec_pushed_all(log, reports.drop_last()), reports.last())
    }
}

/// Index of the most recent failed report, if any.
pub open spec fn spec_last_failure_index(log: Seq<TransitionReport>) -> Option<int>
    decreases log.len(),
{
    if log.len() == 0 {
        None
    } else if !log.last().succeeded {
        Some(log.len() - 1)
    } else {
        spec_last_failure_index(log.drop_last())
    }
}

impl View for TransitionLog {
    type V = Seq<TransitionReport>;

    closed spec fn view(&self) -> Seq<TransitionReport> {
        self.reports@
    }
}

impl TransitionLog {
    #[verifier::type_invariant]
    spec fn bounded(self) -> bool {
        self.reports.len() <= MAX_REPORTS
    }

    /// An empty log.
    pub fn new() -> (log: Self)
        ensures
            log@ == Seq::<TransitionReport>::empty(),
    {
        TransitionLog { reports: VecDeque::new() }
    }

    /// Appends a report, evicting the oldest one when the log is full.
    pub fn push(&mut self, report: TransitionReport)
        ensures
            final(self)@ == spec_pushed(old(self)@, report),
            final(self)@.len() <= MAX_REPORTS,
    {
        proof {
            use_type_invariant(&*self);
        }
        let mut reports = VecDeque::new();
        std::mem::swap(&mut reports, &mut self.reports);
        if reports.len() >= MAX_REPORTS {
            let _ = reports.pop_front();
        }
        reports.push_back(report);
        proof {
            assert(reports@ =~= spec_pushed(old(self)@, report));
        }
        self.reports = reports;
    }

    /// The reports, oldest first.
    pub fn reports(&self) -> (r: &VecDeque<TransitionReport>)
        ensures
            r@ == self@,
            r@.len() <= MAX_REPORTS,
    {
        proof {
            use_type_invariant(self);
        }
        &self.reports
    }

    /// The most recent report of a failed transition.
    pub fn last_failure(&self) -> (r: Option<&TransitionReport>)
        ensures
            match spec_last_failure_index(self@) {
                Some(i) => r matches Some(x) && *x == self@[i],
                None => r is None,
            },
    {
        let mut i: usize = self.reports.len();
        assert(self@.subrange(0, i as int) =~= self@);
        while i > 0
            invariant
                i <= self.reports.len(),
                spec_last_failure_index(self@) == spec_last_failure_index(self@.subrange(0, i as int)),
            decreases i,
        {
            let report = &self.reports[i - 1];
            proof {
                let pre = self@.subrange(0, i as int);
                assert(pre.drop_last() =~= self@.subrange(0, i - 1));
                assert(pre.last() == self@[i - 1]);
            }
            if !report.succeeded {
                return Some(report);
            }
            i -= 1;
        }
        None
    }
}

impl Default for TransitionLog {
    fn default() -> (log: Self)
        ensures
            log@ == Seq::<TransitionReport>::empty(),
    {
        TransitionLog::new()
    }
}

/// Every report a log holds came from the log before or from the push; a log
/// never grows beyond [`MAX_REPORTS`], and the newest report is the one pushed.
pub proof fn lemma_push_keeps_bound_and_appends(log: Seq<TransitionReport>, report: TransitionReport)
    requires
        log.len() <= MAX_REPORTS,
    ensures
        spec_pushed(log, report).len() <= MAX_REPORTS,
        spec_pushed(log, report).last() == report,
        log.len() < MAX_REPORTS ==> spec_pushed(log, report).len() == log.len() + 1,
        log.len() == MAX_REPORTS ==> spec_pushed(log, report).len() == MAX_REPORTS,
{
}

/// Pushing reports one by one onto an empty log keeps exactly the last
/// [`MAX_REPORTS`] of them (all of them when fewer were pushed), oldest first:
/// eviction removes the oldest reports first.
pub proof fn lemma_log_keeps_most_recent(reports: Seq<TransitionReport>)
    ensures
        spec_pushed_all(Seq::empty(), reports) == (if reports.len() <= MAX_REPORTS {
            reports
        } else {
            reports.subrange(reports.len() - MAX_REPORTS, reports.len() as int)
        }),
    decreases reports.len(),
{
    if reports.len() > 0 {
        let prev = reports.drop_last();
        lemma_log_keeps_most_recent(prev);
        let before = spec_pushed_all(Seq::empty(), prev);
        if prev.len() < MAX_REPORTS {
            assert(before == prev);
            assert(before.push(reports.last()) =~= reports);
        } else if prev.len() == MAX_REPORTS {
            assert(before == prev);
            assert(before.drop_first().push(reports.last())
                =~= reports.subrange(reports.len() - MAX_REPORTS, reports.len() as int));
        } else {
            assert(before =~= prev.subrange(prev.len() - MAX_REPORTS, prev.len() as int));
            assert(before.drop_first().push(reports.last())
                =~= reports.subrange(reports.len() - MAX_REPORTS, reports.len() as int));
        }
    }
}

/// The report that [`TransitionLog::last_failure`] finds failed, and every
/// report after it succeeded.
pub proof fn lemma_last_failure_is_most_recent(log: Seq<TransitionReport>)
    ensures
        match spec_last_failure_index(log) {
            Some(i) => 0 <= i < log.len() && !log[i].succeeded
                && forall|j: int| i < j < log.len() ==> log[j].succeeded,
            None => forall|j: int| 0 <= j < log.len() ==> log[j].succeeded,
        },
    decreases log.len(),
{
    if log.len() > 0 {
        lemma_last_failure_is_most_recent(log.drop_last());
        if log.last().succeeded {
            match spec_last_failure_index(log.drop_last()) {
                Some(i) => {
                    assert forall|j: int| i < j < log.len() implies log[j].succeeded by {
                        if j < log.len() - 1 {
                            assert(log.drop_last()[j] == log[j]);
                        }
                    }
                }
                None => {
                    assert forall|j: int| 0 <= j < log.len() implies log[j].succeeded by {
                        if j < log.len() - 1 {
                            assert(log.drop_last()[j] == log[j]);
                        }
                    }
                }
            }
        }
    }
}

/// Station addresses reconstructed from the subdevice count, each with a
/// placeholder name `subdevice #i`, for use before enumeration has named them.
/// An empty result is itself the diagnosis: nothing answered.
pub fn fallback_addresses(subdevice_count: u16) -> (r: Vec<(u16, String)>)
    ensures
        r.len() == subdevice_count,
        forall|i: int| 0 <= i < subdevice_count ==> {
            &&& r@[i].0 == BASE_SUBDEVICE_ADDRESS.wrapping_add(i as u16)
            &&& r@[i].1@ == "subdevice #"@ + spec_decimal_nat(i as nat)
        },
{
    let mut r: Vec<(u16, String)> = Vec::new();
    let mut i: u16 = 0;
    while i < subdevice_count
        invariant
            i <= subdevice_count,
            r.len() == i,
            forall|k: int| 0 <= k < i ==> {
                &&& r@[k].0 == BASE_SUBDEVICE_ADDRESS.wrapping_add(k as u16)
                &&& r@[k].1@ == "subdevice #"@ + spec_decimal_nat(k as nat)
            },
        decreases subdevice_count - i,
    {
        let address = BASE_SUBDEVICE_ADDRESS.wrapping_add(i);
        let mut name = String::from_str("subdevice #");
        push_decimal_u128(&mut name, i as u128);
        r.push((address, name));
        i += 1;
    }
    r
}

} // verus!
