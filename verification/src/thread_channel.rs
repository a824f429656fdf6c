//! The channel over which other threads ask the EtherCAT thread for mailbox
//! and state work, and what each of their calls makes of the answer.
use vstd::prelude::*;
use std::sync::mpsc::{Receiver, RecvTimeoutError, Sender};
use std::time::Duration;
use crate::ethercat_state::EtherCATState;
use crate::machine_ident::MachineDeviceInfo;
use crate::sdo::{
    eeprom_lock_write, sdo_write_request, spec_typed_response, type_id_to_sdo_type,
    typed_sdo_response, EthercatResponseTypedResult, EthercatSdoBytes, SdoError,
    SdoReadRequest, SdoRequest, SdoResponse, SdoWrite, BECKHOFF_CODEWORD_INDEX, BECKHOFF_EEPROM_LOCK_CODEWORD,
    spec_eeprom_lock_write, spec_value_bytes, spec_value_type,
};

verus! {

/// `std::sync::mpsc::Sender`, carried through opaque.
#[verifier::external_type_specification]
#[verifier::external_body]
#[verifier::reject_recursive_types(T)]
pub struct ExSender<T>(Sender<T>);

/// `std::sync::mpsc::Receiver`, carried through opaque.
#[verifier::external_type_specification]
#[verifier::external_body]
#[verifier::reject_recursive_types(T)]
pub struct ExReceiver<T>(Receiver<T>);

/// How long a caller waits for the answer to a mailbox request.
pub const MAILBOX_ANSWER_TIMEOUT_MS: u64 = 500;

/// How long a caller waits for the identifications read from every
/// subdevice's EEPROM.
pub const MACHINE_IDENT_TIMEOUT_MS: u64 = 5000;

/// What the EtherCAT thread is asked to do.
#[derive(Debug, Clone, Copy)]
pub enum ChannelRequests {
    SdoWriteRequest(SdoRequest),
    SdoReadRequest(SdoReadRequest),
    ChangeState(EtherCATState),
    EnableDCSync0(usize),
    RegisterRead { device_address: u16, register: u16 },
    SdoReadRaw { device_address: u16, index: u16, sub_index: u8 },
    ReadMachineIdent,
}

/// What the EtherCAT thread answers.
#[derive(Debug)]
pub enum ChannelResponse {
    SdoRead(SdoResponse),
    SdoWriteResponse(Result<(), SdoError>),
    EnableDCSync0Response(Result<(), SdoError>),
    RegisterReadResponse(Result<u16, SdoError>),
    SdoReadRawResponse(Result<Vec<u8>, SdoError>),
    MachineDeviceInfoResponse(Result<Vec<MachineDeviceInfo>, SdoError>),
}

/// Why a request over the channel gave no usable answer.
#[derive(Debug, Clone, Copy, PartialEq, Eq, Structural)]
pub enum ChannelError {
    /// The EtherCAT thread no longer listens for requests.
    SendFailed,
    /// No answer came in time.
    Timeout,
    /// The answering side went away without answering.
    Disconnected,
    /// The answer was of another kind than the request asked for.
    UnexpectedResponse,
    /// The EtherCAT thread answered that the transfer failed, or the value
    /// was of another type than the one asked for.
    Sdo(SdoError),
}

/// The sending half of a response channel.
#[derive(Debug)]
pub struct EtherCATThreadResponseChannel(pub Sender<ChannelResponse>);

/// One request with the channel its answer goes to.
#[derive(Debug)]
pub struct ChannelRequest {
    pub channel_request: ChannelRequests,
    pub response_channel: EtherCATThreadResponseChannel,
}

/// Other threads' handle on the EtherCAT thread.
#[derive(Clone)]
pub struct EtherCATThreadChannel {
    /// The sending end of the EtherCAT thread's request channel.
    pub sender: Sender<ChannelRequest>,
    sent: Ghost<Seq<ChannelRequests>>,
}

impl EtherCATThreadChannel {
    /// The requests handed to the channel through this handle, oldest first.
    pub closed spec fn requests(&self) -> Seq<ChannelRequests> {
        self.sent@
    }

    /// A handle on the channel whose sending end is `sender`, with nothing
    /// sent through it yet.
    pub fn new(sender: Sender<ChannelRequest>) -> (r: Self)
        ensures
            r.requests() == Seq::<ChannelRequests>::empty(),
    {
        EtherCATThreadChannel { sender, sent: Ghost(Seq::empty()) }
    }
}

/// `Sender::clone`: another handle on the same channel. Nothing is stated of
/// it: Verus sees no contents in a `Sender`.
pub assume_specification<T>[ <Sender<T> as Clone>::clone ](s: &Sender<T>) -> Sender<T>;

/// `std::sync::mpsc::channel`: a new channel. Nothing is stated of its two
/// ends.
#[verifier::external_body]
fn new_channel<T>() -> (Sender<T>, Receiver<T>) {
    std::sync::mpsc::channel()
}

/// `Sender::send`: hands `value` to the receiving end; it fails when that end
/// is gone, which depends on another thread, so only the kind of failure is
/// stated.
#[verifier::external_body]
fn send_value<T>(tx: &Sender<T>, value: T) -> (r: Result<(), ChannelError>)
    ensures
        r matches Err(e) ==> e == ChannelError::SendFailed,
{
    match tx.send(value) {
        Ok(()) => Ok(()),
        Err(_) => Err(ChannelError::SendFailed),
    }
}

/// `Receiver::recv_timeout`: waits up to `timeout_ms` milliseconds for a
/// value. What comes back depends on another thread and on time, so only the
/// kinds of failure are stated.
#[verifier::external_body]
fn receive_value<T>(rx: &Receiver<T>, timeout_ms: u64) -> (r: Result<T, ChannelError>)
    ensures
        r matches Err(e) ==> (e == ChannelError::Timeout || e == ChannelError::Disconnected),
{
    match rx.recv_timeout(Duration::from_millis(timeout_ms)) {
        Ok(v) => Ok(v),
        Err(RecvTimeoutError::Timeout) => Err(ChannelError::Timeout),
        Err(RecvTimeoutError::Disconnected) => Err(ChannelError::Disconnected),
    }
}

/// A failure of the channel itself, before any answer was read.
pub open spec fn spec_transport_error(e: ChannelError) -> bool {
    e == ChannelError::SendFailed || e == ChannelError::Timeout || e == ChannelError::Disconnected
}

/// What asking the EtherCAT thread can give back: an answer, or a failure of
/// the channel itself.
pub open spec fn spec_possible_answer(answer: Result<ChannelResponse, ChannelError>) -> bool {
    answer matches Err(e) ==> spec_transport_error(e)
}

/// An error of the EtherCAT thread's answer, as the caller sees it.
pub open spec fn spec_sdo_failure<T>(r: Result<T, SdoError>) -> Result<T, ChannelError> {
    match r {
        Ok(v) => Ok(v),
        Err(e) => Err(ChannelError::Sdo(e)),
    }
}

fn sdo_failure<T>(r: Result<T, SdoError>) -> (out: Result<T, ChannelError>)
    ensures
        out == spec_sdo_failure(r),
{
    match r {
        Ok(v) => Ok(v),
        Err(e) => Err(ChannelError::Sdo(e)),
    }
}

/// What a typed SDO read makes of the answer: the value of type `T` in an
/// SDO read reply; any other reply is unexpected.
pub open spec fn spec_sdo_read_outcome<T: EthercatResponseTypedResult>(
    answer: Result<ChannelResponse, ChannelError>,
) -> Result<T, ChannelError> {
    match answer {
        Err(e) => Err(e),
        Ok(ChannelResponse::SdoRead(response)) => spec_sdo_failure(spec_typed_response::<T>(response)),
        Ok(_) => Err(ChannelError::UnexpectedResponse),
    }
}

/// What a typed SDO read makes of the answer it got.
pub fn sdo_read_outcome<T: EthercatResponseTypedResult>(
    answer: Result<ChannelResponse, ChannelError>,
) -> (r: Result<T, ChannelError>)
    ensures
        r == spec_sdo_read_outcome::<T>(answer),
{
    match answer {
        Err(e) => Err(e),
        Ok(ChannelResponse::SdoRead(response)) => sdo_failure(typed_sdo_response::<T>(response)),
        Ok(_) => Err(ChannelError::UnexpectedResponse),
    }
}

/// What an SDO write makes of the answer: the result in a write reply; any
/// other reply is unexpected.
pub open spec fn spec_sdo_write_outcome(answer: Result<ChannelResponse, ChannelError>) -> Result<(), ChannelError> {
    match answer {
        Err(e) => Err(e),
        Ok(ChannelResponse::SdoWriteResponse(result)) => spec_sdo_failure(result),
        Ok(_) => Err(ChannelError::UnexpectedResponse),
    }
}

/// What an SDO write makes of the answer it got.
pub fn sdo_write_outcome(answer: Result<ChannelResponse, ChannelError>) -> (r: Result<(), ChannelError>)
    ensures
        r == spec_sdo_write_outcome(answer),
{
    match answer {
        Err(e) => Err(e),
        Ok(ChannelResponse::SdoWriteResponse(result)) => sdo_failure(result),
        Ok(_) => Err(ChannelError::UnexpectedResponse),
    }
}

/// What enabling SYNC0 makes of the answer: the result in its reply; any
/// other reply is unexpected.
pub open spec fn spec_dc_sync0_outcome(answer: Result<ChannelResponse, ChannelError>) -> Result<(), ChannelError> {
    match answer {
        Err(e) => Err(e),
        Ok(ChannelResponse::EnableDCSync0Response(result)) => spec_sdo_failure(result),
        Ok(_) => Err(ChannelError::UnexpectedResponse),
    }
}

/// What enabling SYNC0 makes of the answer it got.
pub fn dc_sync0_outcome(answer: Result<ChannelResponse, ChannelError>) -> (r: Result<(), ChannelError>)
    ensures
        r == spec_dc_sync0_outcome(answer),
{
    match answer {
        Err(e) => Err(e),
        Ok(ChannelResponse::EnableDCSync0Response(result)) => sdo_failure(result),
        Ok(_) => Err(ChannelError::UnexpectedResponse),
    }
}

/// What a register read makes of the answer: the word in its reply; any
/// other reply is unexpected.
pub open spec fn spec_register_read_outcome(answer: Result<ChannelResponse, ChannelError>) -> Result<u16, ChannelError> {
    match answer {
        Err(e) => Err(e),
        Ok(ChannelResponse::RegisterReadResponse(result)) => spec_sdo_failure(result),
        Ok(_) => Err(ChannelError::UnexpectedResponse),
    }
}

/// What a register read makes of the answer it got.
pub fn register_read_outcome(answer: Result<ChannelResponse, ChannelError>) -> (r: Result<u16, ChannelError>)
    ensures
        r == spec_register_read_outcome(answer),
{
    match answer {
        Err(e) => Err(e),
        Ok(ChannelResponse::RegisterReadResponse(result)) => sdo_failure(result),
        Ok(_) => Err(ChannelError::UnexpectedResponse),
    }
}

/// What a raw SDO read makes of the answer: the bytes in its reply; any
/// other reply is unexpected.
pub open spec fn spec_sdo_read_raw_outcome(answer: Result<ChannelResponse, ChannelError>) -> Result<Vec<u8>, ChannelError> {
    match answer {
        Err(e) => Err(e),
        Ok(ChannelResponse::SdoReadRawResponse(result)) => spec_sdo_failure(result),
        Ok(_) => Err(ChannelError::UnexpectedResponse),
    }
}

/// What a raw SDO read makes of the answer it got.
pub fn sdo_read_raw_outcome(answer: Result<ChannelResponse, ChannelError>) -> (r: Result<Vec<u8>, ChannelError>)
    ensures
        r == spec_sdo_read_raw_outcome(answer),
{
    match answer {
        Err(e) => Err(e),
        Ok(ChannelResponse::SdoReadRawResponse(result)) => sdo_failure(result),
        Ok(_) => Err(ChannelError::UnexpectedResponse),
    }
}

/// What reading the identifications makes of the answer: the list in its
/// reply; any other reply is unexpected.
pub open spec fn spec_identifications_outcome(
    answer: Result<ChannelResponse, ChannelError>,
) -> Result<Vec<MachineDeviceInfo>, ChannelError> {
    match answer {
        Err(e) => Err(e),
        Ok(ChannelResponse::MachineDeviceInfoResponse(result)) => spec_sdo_failure(result),
        Ok(_) => Err(ChannelError::UnexpectedResponse),
    }
}

/// What reading the identifications makes of the answer it got.
pub fn identifications_outcome(answer: Result<ChannelResponse, ChannelError>) -> (r: Result<Vec<MachineDeviceInfo>, ChannelError>)
    ensures
        r == spec_identifications_outcome(answer),
{
    match answer {
        Err(e) => Err(e),
        Ok(ChannelResponse::MachineDeviceInfoResponse(result)) => sdo_failure(result),
        Ok(_) => Err(ChannelError::UnexpectedResponse),
    }
}

/// Whether `reply` is of the kind that answers `request`: a write reply for
/// an SDO write, a read reply for an SDO read, and likewise for SYNC0, a
/// register read, a raw read and the identification read. A state change is
/// answered by no reply.
pub open spec fn spec_answers(request: ChannelRequests, reply: ChannelResponse) -> bool {
    match request {
        ChannelRequests::SdoWriteRequest(_) => reply is SdoWriteResponse,
        ChannelRequests::SdoReadRequest(_) => reply is SdoRead,
        ChannelRequests::ChangeState(_) => false,
        ChannelRequests::EnableDCSync0(_) => reply is EnableDCSync0Response,
        ChannelRequests::RegisterRead { .. } => reply is RegisterReadResponse,
        ChannelRequests::SdoReadRaw { .. } => reply is SdoReadRawResponse,
        ChannelRequests::ReadMachineIdent => reply is MachineDeviceInfoResponse,
    }
}

/// Each call takes its result out of a reply exactly when the reply is of
/// the kind that answers its request; any other reply it reports as
/// unexpected.
pub proof fn lemma_reply_kind_decides<T: EthercatResponseTypedResult>(
    write: SdoRequest,
    read: SdoReadRequest,
    device_address: u16,
    register: u16,
    index: u16,
    sub_index: u8,
    reply: ChannelResponse,
)
    ensures
        spec_answers(ChannelRequests::SdoWriteRequest(write), reply)
            <==> spec_sdo_write_outcome(Ok(reply)) != Err::<(), ChannelError>(ChannelError::UnexpectedResponse),
        spec_answers(ChannelRequests::SdoReadRequest(read), reply)
            <==> spec_sdo_read_outcome::<T>(Ok(reply)) != Err::<T, ChannelError>(ChannelError::UnexpectedResponse),
        spec_answers(ChannelRequests::EnableDCSync0(device_address as usize), reply)
            <==> spec_dc_sync0_outcome(Ok(reply)) != Err::<(), ChannelError>(ChannelError::UnexpectedResponse),
        spec_answers(ChannelRequests::RegisterRead { device_address, register }, reply)
            <==> spec_register_read_outcome(Ok(reply)) != Err::<u16, ChannelError>(ChannelError::UnexpectedResponse),
        spec_answers(ChannelRequests::SdoReadRaw { device_address, index, sub_index }, reply)
            <==> spec_sdo_read_raw_outcome(Ok(reply)) != Err::<Vec<u8>, ChannelError>(ChannelError::UnexpectedResponse),
        spec_answers(ChannelRequests::ReadMachineIdent, reply)
            <==> spec_identifications_outcome(Ok(reply)) != Err::<Vec<MachineDeviceInfo>, ChannelError>(ChannelError::UnexpectedResponse),
{
}

/// The outcome of a plan of writes whose writes got `answers`, in turn: the
/// error of the first write that failed, else success.
pub open spec fn spec_plan_outcome(answers: Seq<Result<ChannelResponse, ChannelError>>) -> Result<(), ChannelError>
    decreases answers.len(),
{
    if answers.len() == 0 {
        Ok(())
    } else {
        match spec_sdo_write_outcome(answers[0]) {
            Err(e) => Err(e),
            Ok(()) => spec_plan_outcome(answers.drop_first()),
        }
    }
}

/// A plan of `n` writes run in order until the first failure: `answers` are
/// the answers of the writes sent, each a possible answer; every write but
/// the last one sent succeeded; fewer than `n` were sent only because the
/// last one sent failed; and the result is [`spec_plan_outcome`] of them.
pub open spec fn spec_stops_at_first_error(
    n: nat,
    answers: Seq<Result<ChannelResponse, ChannelError>>,
    r: Result<(), ChannelError>,
) -> bool {
    &&& answers.len() <= n
    &&& forall|i: int| 0 <= i < answers.len() ==> spec_possible_answer(#[trigger] answers[i])
    &&& forall|i: int| 0 <= i < answers.len() - 1 ==> spec_sdo_write_outcome(#[trigger] answers[i]) is Ok
    &&& answers.len() < n ==> (answers.len() > 0 && spec_sdo_write_outcome(answers.last()) is Err)
    &&& r == spec_plan_outcome(answers)
}

/// What running a plan of `n` writes in order, up to the first failure, can
/// give back.
pub open spec fn spec_plan_run(n: nat, r: Result<(), ChannelError>) -> bool {
    exists|answers: Seq<Result<ChannelResponse, ChannelError>>| #[trigger] spec_stops_at_first_error(n, answers, r)
}

/// Adding one more answer after successful ones: the plan's outcome is that
/// write's outcome.
proof fn lemma_plan_outcome_push(answers: Seq<Result<ChannelResponse, ChannelError>>, a: Result<ChannelResponse, ChannelError>)
    requires
        forall|i: int| 0 <= i < answers.len() ==> spec_sdo_write_outcome(#[trigger] answers[i]) is Ok,
    ensures
        spec_plan_outcome(answers.push(a)) == spec_sdo_write_outcome(a),
        spec_plan_outcome(answers) == Ok::<(), ChannelError>(()),
    decreases answers.len(),
{
    if answers.len() > 0 {
        assert(answers.push(a).drop_first() =~= answers.drop_first().push(a));
        assert(answers.push(a)[0] == answers[0]);
        assert(spec_sdo_write_outcome(answers[0]) is Ok);
        assert forall|i: int| 0 <= i < answers.drop_first().len() implies spec_sdo_write_outcome(#[trigger] answers.drop_first()[i]) is Ok by {
            assert(answers.drop_first()[i] == answers[i + 1]);
        }
        lemma_plan_outcome_push(answers.drop_first(), a);
    } else {
        let empty = Seq::<Result<ChannelResponse, ChannelError>>::empty();
        assert(answers.push(a).drop_first() =~= empty);
        assert(answers.push(a)[0] == a);
        assert(spec_plan_outcome(empty) == Ok::<(), ChannelError>(()));
        match spec_sdo_write_outcome(a) {
            Ok(u) => { assert(u == ()); },
            Err(_) => {},
        }
    }
}

/// What activating the EEPROM lock gives once the code word has been read:
/// success without a write where the read failed or the lock is in place,
/// else the outcome of the one write of the lock code word.
pub open spec fn spec_lock_result(
    device_address: u16,
    code_word: Result<u32, ChannelError>,
    before: Seq<ChannelRequests>,
    after: Seq<ChannelRequests>,
    r: Result<(), ChannelError>,
) -> bool {
    match code_word {
        Ok(c) => if c == BECKHOFF_EEPROM_LOCK_CODEWORD {
            r == Ok::<(), ChannelError>(()) && after == before
        } else {
            &&& after == before.push(spec_write_request(device_address, spec_eeprom_lock_write()))
            &&& exists|answer: Result<ChannelResponse, ChannelError>|
                spec_possible_answer(answer) && r == #[trigger] spec_sdo_write_outcome(answer)
        },
        Err(_) => r == Ok::<(), ChannelError>(()) && after == before,
    }
}

/// The request that performs one write of a configuration plan.
pub open spec fn spec_write_request(device_address: u16, w: SdoWrite) -> ChannelRequests {
    ChannelRequests::SdoWriteRequest(SdoRequest {
        device_address,
        index: w.index,
        sub_index: w.sub_index as u16,
        data: spec_value_bytes(w.value),
        type_flag: spec_value_type(w.value),
    })
}

/// The requests that perform `plan`'s writes, in its order.
pub open spec fn spec_plan_requests(device_address: u16, plan: Seq<SdoWrite>) -> Seq<ChannelRequests> {
    plan.map_values(|w: SdoWrite| spec_write_request(device_address, w))
}

/// A plan run in order until its first failure, with what it sent: the
/// requests handed to the channel go from `before` to `after` by the writes
/// of the plan's first `answers.len()` entries, each answered by the answer
/// at its place, as [`spec_stops_at_first_error`] has them.
pub open spec fn spec_plan_sent(
    device_address: u16,
    plan: Seq<SdoWrite>,
    before: Seq<ChannelRequests>,
    after: Seq<ChannelRequests>,
    r: Result<(), ChannelError>,
) -> bool {
    exists|answers: Seq<Result<ChannelResponse, ChannelError>>|
        #[trigger] spec_stops_at_first_error(plan.len(), answers, r)
            && after == before + spec_plan_requests(device_address, plan.take(answers.len() as int))
}

/// The request that reads `index:sub_index` as a value of type `T`.
pub open spec fn spec_sdo_read_request<T: EthercatSdoBytes>(device_address: u16, index: u16, sub_index: u8) -> SdoReadRequest {
    SdoReadRequest { device_address, index, sub_index: sub_index as u16, type_flag: T::spec_sdo_type() }
}

/// The request that reads `index:sub_index` of a subdevice as a value of
/// type `T`.
pub fn sdo_read_request<T: EthercatSdoBytes>(device_address: u16, index: u16, sub_index: u8) -> (r: Result<SdoReadRequest, SdoError>)
    ensures
        r == Ok::<SdoReadRequest, SdoError>(spec_sdo_read_request::<T>(device_address, index, sub_index)),
{
    let type_flag = match type_id_to_sdo_type::<T>() {
        Ok(t) => t,
        Err(e) => return Err(e),
    };
    Ok(SdoReadRequest { device_address, index, sub_index: sub_index as u16, type_flag })
}

/// The request that writes `value` to `index:sub_index` of a subdevice: its
/// wire bytes and its type tag.
pub fn typed_sdo_write_request<T: EthercatSdoBytes>(device_address: u16, index: u16, sub_index: u8, value: &T) -> (r: Result<SdoRequest, SdoError>)
    ensures
        r == Ok::<SdoRequest, SdoError>(SdoRequest {
            device_address,
            index,
            sub_index: sub_index as u16,
            data: value.spec_to_bytes(),
            type_flag: T::spec_sdo_type(),
        }),
{
    let data = value.to_bytes();
    let type_flag = match type_id_to_sdo_type::<T>() {
        Ok(t) => t,
        Err(e) => return Err(e),
    };
    Ok(SdoRequest { device_address, index, sub_index: sub_index as u16, data, type_flag })
}

impl EtherCATThreadChannel {
    /// Sends `request` with a fresh answer channel and waits for the answer.
    fn ask(&mut self, request: ChannelRequests, timeout_ms: u64) -> (r: Result<ChannelResponse, ChannelError>)
        ensures
            final(self).requests() == old(self).requests().push(request),
            spec_possible_answer(r),
    {
        let (tx, rx) = new_channel::<ChannelResponse>();
        let sent = send_value(&self.sender, ChannelRequest {
            channel_request: request,
            response_channel: EtherCATThreadResponseChannel(tx),
        });
        proof {
            self.sent@ = self.sent@.push(request);
        }
        match sent {
            Ok(()) => {
                let answer = receive_value(&rx, timeout_ms);
                match answer {
                    Ok(v) => Ok(v),
                    Err(e) => {
                        assert(spec_transport_error(e));
                        Err(e)
                    },
                }
            },
            Err(_) => Err(ChannelError::SendFailed),
        }
    }

    /// Reads `index:sub_index` of the subdevice at `device_address` as a value
    /// of type `T`. What comes back is [`sdo_read_outcome`] of the EtherCAT
    /// thread's answer to [`sdo_read_request`], or a failure of the channel.
    pub fn sdo_read<T: EthercatSdoBytes + EthercatResponseTypedResult>(&mut self, device_address: u16, index: u16, sub_index: u8) -> (r: Result<T, ChannelError>)
        ensures
            final(self).requests() == old(self).requests().push(
                ChannelRequests::SdoReadRequest(spec_sdo_read_request::<T>(device_address, index, sub_index)),
            ),
            exists|answer: Result<ChannelResponse, ChannelError>|
                spec_possible_answer(answer) && r == #[trigger] spec_sdo_read_outcome::<T>(answer),
    {
        let request = match sdo_read_request::<T>(device_address, index, sub_index) {
            Ok(request) => request,
            Err(e) => return Err(ChannelError::Sdo(e)),
        };
        let answer = self.ask(ChannelRequests::SdoReadRequest(request), MAILBOX_ANSWER_TIMEOUT_MS);
        let r = sdo_read_outcome::<T>(answer);
        assert(spec_possible_answer(answer) && r == spec_sdo_read_outcome::<T>(answer));
        r
    }

    /// Writes `value` to `index:sub_index` of the subdevice at
    /// `device_address`. What comes back is [`sdo_write_outcome`] of the
    /// EtherCAT thread's answer to [`typed_sdo_write_request`], or a failure
    /// of the channel.
    pub fn sdo_write<T: EthercatSdoBytes>(&mut self, device_address: u16, index: u16, sub_index: u8, value: T) -> (r: Result<(), ChannelError>)
        ensures
            final(self).requests() == old(self).requests().push(ChannelRequests::SdoWriteRequest(SdoRequest {
                device_address,
                index,
                sub_index: sub_index as u16,
                data: value.spec_to_bytes(),
                type_flag: T::spec_sdo_type(),
            })),
            exists|answer: Result<ChannelResponse, ChannelError>|
                spec_possible_answer(answer) && r == #[trigger] spec_sdo_write_outcome(answer),
    {
        let request = match typed_sdo_write_request(device_address, index, sub_index, &value) {
            Ok(request) => request,
            Err(e) => return Err(ChannelError::Sdo(e)),
        };
        let answer = self.ask(ChannelRequests::SdoWriteRequest(request), MAILBOX_ANSWER_TIMEOUT_MS);
        let r = sdo_write_outcome(answer);
        assert(spec_possible_answer(answer) && r == spec_sdo_write_outcome(answer));
        r
    }

    /// Performs one write of a configuration plan, as [`sdo_write_request`]
    /// puts it.
    pub fn write_sdo(&mut self, device_address: u16, write: SdoWrite) -> (r: Result<(), ChannelError>)
        ensures
            final(self).requests() == old(self).requests().push(spec_write_request(device_address, write)),
            exists|answer: Result<ChannelResponse, ChannelError>|
                spec_possible_answer(answer) && r == #[trigger] spec_sdo_write_outcome(answer),
    {
        let request = sdo_write_request(device_address, write);
        let answer = self.ask(ChannelRequests::SdoWriteRequest(request), MAILBOX_ANSWER_TIMEOUT_MS);
        let r = sdo_write_outcome(answer);
        assert(spec_possible_answer(answer) && r == spec_sdo_write_outcome(answer));
        r
    }

    /// Performs a plan of writes in order and stops at the first that fails,
    /// whose error it returns.
    pub fn sdo_write_all(&mut self, device_address: u16, plan: &[SdoWrite]) -> (r: Result<(), ChannelError>)
        ensures
            plan.len() == 0 ==> r == Ok::<(), ChannelError>(()),
            spec_plan_run(plan.len() as nat, r),
            spec_plan_sent(device_address, plan@, old(self).requests(), final(self).requests(), r),
    {
        let ghost mut answers: Seq<Result<ChannelResponse, ChannelError>> = Seq::empty();
        let ghost before = self.requests();
        let mut i: usize = 0;
        while i < plan.len()
            invariant
                i <= plan.len(),
                answers.len() == i,
                before == old(self).requests(),
                self.requests() == before + spec_plan_requests(device_address, plan@.take(i as int)),
                forall|k: int| 0 <= k < answers.len() ==> spec_possible_answer(#[trigger] answers[k]),
                forall|k: int| 0 <= k < answers.len() ==> spec_sdo_write_outcome(#[trigger] answers[k]) is Ok,
            decreases plan.len() - i,
        {
            let done = self.write_sdo(device_address, plan[i]);
            let ghost a = choose|a: Result<ChannelResponse, ChannelError>|
                spec_possible_answer(a) && done == #[trigger] spec_sdo_write_outcome(a);
            proof {
                lemma_plan_outcome_push(answers, a);
                assert(spec_plan_requests(device_address, plan@.take(i + 1)) =~= spec_plan_requests(
                    device_address,
                    plan@.take(i as int),
                ).push(spec_write_request(device_address, plan@[i as int])));
                assert(self.requests() =~= before + spec_plan_requests(device_address, plan@.take(i + 1)));
            }
            if let Err(e) = done {
                proof {
                    let sent = answers.push(a);
                    assert(sent.last() == a);
                    assert forall|k: int| 0 <= k < sent.len() - 1 implies spec_sdo_write_outcome(#[trigger] sent[k]) is Ok by {
                        assert(sent[k] == answers[k]);
                    }
                    assert forall|k: int| 0 <= k < sent.len() implies spec_possible_answer(#[trigger] sent[k]) by {
                        if k < answers.len() { assert(sent[k] == answers[k]); }
                    }
                    assert(spec_stops_at_first_error(plan@.len(), sent, Err(e)));
                    assert(sent.len() == i + 1);
                    assert(self.requests() == before + spec_plan_requests(device_address, plan@.take(sent.len() as int)));
                    assert(spec_plan_sent(device_address, plan@, before, self.requests(), Err(e)));
                }
                return Err(e);
            }
            proof {
                answers = answers.push(a);
            }
            i += 1;
        }
        proof {
            lemma_plan_outcome_push(answers, Ok(ChannelResponse::SdoWriteResponse(Ok(()))));
            assert(spec_stops_at_first_error(plan.len() as nat, answers, Ok(())));
            assert(plan@.take(plan.len() as int) =~= plan@);
        }
        Ok(())
    }

    /// Asks for a state change; the answer is not waited for, and the call
    /// itself always succeeds.
    pub fn request_state_change(&mut self, state: EtherCATState) -> (r: Result<(), ChannelError>)
        ensures
            final(self).requests() == old(self).requests().push(ChannelRequests::ChangeState(state)),
            r == Ok::<(), ChannelError>(()),
    {
        let (tx, _rx) = new_channel::<ChannelResponse>();
        let _ = send_value(&self.sender, ChannelRequest {
            channel_request: ChannelRequests::ChangeState(state),
            response_channel: EtherCATThreadResponseChannel(tx),
        });
        proof {
            self.sent@ = self.sent@.push(ChannelRequests::ChangeState(state));
        }
        Ok(())
    }

    /// Enables SYNC0 of the distributed clock on the subdevice at
    /// `device_address`. What comes back is [`dc_sync0_outcome`] of the
    /// EtherCAT thread's answer, or a failure of the channel.
    pub fn enable_dc_sync0(&mut self, device_address: u16) -> (r: Result<(), ChannelError>)
        ensures
            final(self).requests() == old(self).requests().push(ChannelRequests::EnableDCSync0(device_address as usize)),
            exists|answer: Result<ChannelResponse, ChannelError>|
                spec_possible_answer(answer) && r == #[trigger] spec_dc_sync0_outcome(answer),
    {
        let answer = self.ask(ChannelRequests::EnableDCSync0(device_address as usize), MAILBOX_ANSWER_TIMEOUT_MS);
        let r = dc_sync0_outcome(answer);
        assert(spec_possible_answer(answer) && r == spec_dc_sync0_outcome(answer));
        r
    }

    /// Reads the 16-bit register `register` of the subdevice at
    /// `device_address`.
    pub fn register_read(&mut self, device_address: u16, register: u16) -> (r: Result<u16, ChannelError>)
        ensures
            final(self).requests() == old(self).requests().push(ChannelRequests::RegisterRead { device_address, register }),
            exists|answer: Result<ChannelResponse, ChannelError>|
                spec_possible_answer(answer) && r == #[trigger] spec_register_read_outcome(answer),
    {
        let answer = self.ask(ChannelRequests::RegisterRead { device_address, register }, MAILBOX_ANSWER_TIMEOUT_MS);
        let r = register_read_outcome(answer);
        assert(spec_possible_answer(answer) && r == spec_register_read_outcome(answer));
        r
    }

    /// Reads the raw bytes of `index:sub_index` of the subdevice at
    /// `device_address`.
    pub fn sdo_read_raw(&mut self, device_address: u16, index: u16, sub_index: u8) -> (r: Result<Vec<u8>, ChannelError>)
        ensures
            final(self).requests() == old(self).requests().push(ChannelRequests::SdoReadRaw { device_address, index, sub_index }),
            exists|answer: Result<ChannelResponse, ChannelError>|
                spec_possible_answer(answer) && r == #[trigger] spec_sdo_read_raw_outcome(answer),
    {
        let answer = self.ask(ChannelRequests::SdoReadRaw { device_address, index, sub_index }, MAILBOX_ANSWER_TIMEOUT_MS);
        let r = sdo_read_raw_outcome(answer);
        assert(spec_possible_answer(answer) && r == spec_sdo_read_raw_outcome(answer));
        r
    }

    /// Reads the machine identification of every subdevice from its EEPROM.
    pub fn read_device_identifications(&mut self) -> (r: Result<Vec<MachineDeviceInfo>, ChannelError>)
        ensures
            final(self).requests() == old(self).requests().push(ChannelRequests::ReadMachineIdent),
            exists|answer: Result<ChannelResponse, ChannelError>|
                spec_possible_answer(answer) && r == #[trigger] spec_identifications_outcome(answer),
    {
        let answer = self.ask(ChannelRequests::ReadMachineIdent, MACHINE_IDENT_TIMEOUT_MS);
        let r = identifications_outcome(answer);
        assert(spec_possible_answer(answer) && r == spec_identifications_outcome(answer));
        r
    }

    /// Activates the EEPROM lock of a Beckhoff terminal once its code word
    /// has been read: a failed read (no mailbox, hence no EEPROM) or a lock
    /// already in place needs no write and succeeds; otherwise the lock code
    /// word is written and that write's result returned.
    pub fn apply_eeprom_lock(&mut self, device_address: u16, code_word: Result<u32, ChannelError>) -> (r: Result<(), ChannelError>)
        ensures
            spec_lock_result(device_address, code_word, old(self).requests(), final(self).requests(), r),
    {
        let read = match code_word {
            Ok(c) => Ok(c),
            Err(_) => Err(SdoError::TransferFailed),
        };
        match eeprom_lock_write(read) {
            Some(write) => self.write_sdo(device_address, write),
            None => Ok(()),
        }
    }

    /// Keeps SDO writes to a Beckhoff terminal out of its EEPROM: reads the
    /// code word and does what [`EtherCATThreadChannel::apply_eeprom_lock`]
    /// makes of it.
    pub fn set_mut_beckhoff_eeprom_lock_active(&mut self, device_address: u16) -> (r: Result<(), ChannelError>)
        ensures
            exists|answer: Result<ChannelResponse, ChannelError>|
                spec_possible_answer(answer) && spec_lock_result(
                    device_address,
                    #[trigger] spec_sdo_read_outcome::<u32>(answer),
                    old(self).requests().push(
                        ChannelRequests::SdoReadRequest(spec_sdo_read_request::<u32>(device_address, BECKHOFF_CODEWORD_INDEX, 0)),
                    ),
                    final(self).requests(),
                    r,
                ),
    {
        let code_word = self.sdo_read::<u32>(device_address, BECKHOFF_CODEWORD_INDEX, 0);
        let ghost read_sent = self.requests();
        let r = self.apply_eeprom_lock(device_address, code_word);
        proof {
            let a = choose|a: Result<ChannelResponse, ChannelError>|
                spec_possible_answer(a) && code_word == #[trigger] spec_sdo_read_outcome::<u32>(a);
            assert(spec_lock_result(device_address, spec_sdo_read_outcome::<u32>(a), read_sent, self.requests(), r));
        }
        r
    }
}

} // verus!
