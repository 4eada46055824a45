//! The workflow that finds the public IP address and then its location, as
//! a state machine.

use crate::iplocate::types::{WorkflowInput, WorkflowInputView, WorkflowOutput, WorkflowOutputView};
use crate::payload::{
    error_message, json_encoding, json_null, json_of_text, text_of_payload, text_payload,
    unit_payload, Payload, PayloadView,
};
use crate::runtime::{ActivityKind, ACTIVITY_TIMEOUT_SECS};
use vstd::prelude::*;
use vstd::string::StringExecFns;

verus! {

/// The stages of the workflow.
#[derive(Debug, Clone, Copy, PartialEq, Eq, Structural)]
pub enum LookupPhase {
    /// Not started.
    Created,
    /// The IP lookup is running.
    FetchingIp,
    /// The pause asked for in the input is running.
    Sleeping,
    /// The location lookup is running.
    FetchingLocation,
    /// Both lookups succeeded.
    Completed,
    /// A lookup failed.
    Failed,
}

/// What the runtime delivers to the workflow. A lookup ends with its
/// result, if it produced one, or with the reason of its failure.
#[derive(Debug)]
pub enum LookupEvent {
    /// The workflow was started.
    Started,
    /// The IP lookup ended.
    IpFinished(Result<Option<String>, String>),
    /// The pause is over.
    TimerFired,
    /// The location lookup ended.
    LocationFinished(Result<Option<String>, String>),
}

/// The mathematical value of the end of a lookup.
pub open spec fn lookup_view(result: Result<Option<String>, String>) -> Result<
    Option<Seq<char>>,
    Seq<char>,
> {
    match result {
        Ok(Some(text)) => Ok(Some(text@)),
        Ok(None) => Ok(None),
        Err(reason) => Err(reason@),
    }
}

/// The mathematical value of a [`LookupEvent`].
pub enum LookupEventView {
    Started,
    IpFinished(Result<Option<Seq<char>>, Seq<char>>),
    TimerFired,
    LocationFinished(Result<Option<Seq<char>>, Seq<char>>),
}

impl View for LookupEvent {
    type V = LookupEventView;

    open spec fn view(&self) -> LookupEventView {
        match self {
            LookupEvent::Started => LookupEventView::Started,
            LookupEvent::IpFinished(result) => LookupEventView::IpFinished(lookup_view(*result)),
            LookupEvent::TimerFired => LookupEventView::TimerFired,
            LookupEvent::LocationFinished(result) => LookupEventView::LocationFinished(
                lookup_view(*result),
            ),
        }
    }
}

/// What the workflow asks of the runtime.
#[derive(Debug)]
pub enum LookupAction {
    /// Nothing: the workflow waits for the next event.
    Wait,
    /// Run the IP lookup.
    GetIp { start_to_close_timeout_secs: u64 },
    /// Wake the workflow after a pause.
    StartTimer { seconds: u64 },
    /// Run the location lookup on the address.
    GetLocationInfo { ip: String, start_to_close_timeout_secs: u64 },
    /// End with the address and its location.
    Complete(WorkflowOutput),
    /// End as failed.
    Fail(String),
}

/// The mathematical value of a [`LookupAction`].
pub enum LookupActionView {
    Wait,
    GetIp { start_to_close_timeout_secs: u64 },
    StartTimer { seconds: u64 },
    GetLocationInfo { ip: Seq<char>, start_to_close_timeout_secs: u64 },
    Complete(WorkflowOutputView),
    Fail(Seq<char>),
}

impl View for LookupAction {
    type V = LookupActionView;

    open spec fn view(&self) -> LookupActionView {
        match self {
            LookupAction::Wait => LookupActionView::Wait,
            LookupAction::GetIp { start_to_close_timeout_secs } => LookupActionView::GetIp {
                start_to_close_timeout_secs: *start_to_close_timeout_secs,
            },
            LookupAction::StartTimer { seconds } => LookupActionView::StartTimer {
                seconds: *seconds,
            },
            LookupAction::GetLocationInfo { ip, start_to_close_timeout_secs } => {
                LookupActionView::GetLocationInfo {
                    ip: ip@,
                    start_to_close_timeout_secs: *start_to_close_timeout_secs,
                }
            },
            LookupAction::Complete(output) => LookupActionView::Complete(output@),
            LookupAction::Fail(reason) => LookupActionView::Fail(reason@),
        }
    }
}

/// The workflow that retrieves IP address and location information.
#[derive(Debug)]
pub struct AddressFromIp {
    pub input: WorkflowInput,
    pub phase: LookupPhase,
    /// The address, once the first lookup has found it.
    pub ip: String,
}

/// The mathematical value of an [`AddressFromIp`].
pub struct AddressFromIpView {
    pub input: WorkflowInputView,
    pub phase: LookupPhase,
    pub ip: Seq<char>,
}

impl View for AddressFromIp {
    type V = AddressFromIpView;

    open spec fn view(&self) -> AddressFromIpView {
        AddressFromIpView { input: self.input@, phase: self.phase, ip: self.ip@ }
    }
}

/// The location lookup on the address that the workflow holds.
pub open spec fn ask_location(w: AddressFromIpView) -> (AddressFromIpView, LookupActionView) {
    (
        AddressFromIpView { phase: LookupPhase::FetchingLocation, ..w },
        LookupActionView::GetLocationInfo {
            ip: w.ip,
            start_to_close_timeout_secs: ACTIVITY_TIMEOUT_SECS,
        },
    )
}

/// The failure of the workflow for the reason given.
pub open spec fn fail_with(w: AddressFromIpView, reason: Seq<char>) -> (
    AddressFromIpView,
    LookupActionView,
) {
    (AddressFromIpView { phase: LookupPhase::Failed, ..w }, LookupActionView::Fail(reason))
}

/// The transition function of the workflow: the state after `event` and
/// what is asked of the runtime.
///
/// The IP lookup runs first. Its address is kept; after the pause that the
/// input asks for, if any, the location lookup runs on it. A lookup that
/// fails, or ends without a result, fails the workflow. An event that the
/// stage does not expect changes nothing.
pub open spec fn lookup_step(w: AddressFromIpView, event: LookupEventView) -> (
    AddressFromIpView,
    LookupActionView,
) {
    match (w.phase, event) {
        (LookupPhase::Created, LookupEventView::Started) => (
            AddressFromIpView { phase: LookupPhase::FetchingIp, ..w },
            LookupActionView::GetIp { start_to_close_timeout_secs: ACTIVITY_TIMEOUT_SECS },
        ),
        (LookupPhase::FetchingIp, LookupEventView::IpFinished(Err(reason))) => fail_with(
            w,
            reason,
        ),
        (LookupPhase::FetchingIp, LookupEventView::IpFinished(Ok(None))) => fail_with(
            w,
            "get_ip returned no payload"@,
        ),
        (LookupPhase::FetchingIp, LookupEventView::IpFinished(Ok(Some(ip)))) => {
            let found = AddressFromIpView { ip, ..w };
            if w.input.seconds > 0 {
                (
                    AddressFromIpView { phase: LookupPhase::Sleeping, ..found },
                    LookupActionView::StartTimer { seconds: w.input.seconds },
                )
            } else {
                ask_location(found)
            }
        },
        (LookupPhase::Sleeping, LookupEventView::TimerFired) => ask_location(w),
        (LookupPhase::FetchingLocation, LookupEventView::LocationFinished(Err(reason))) => {
            fail_with(w, reason)
        },
        (LookupPhase::FetchingLocation, LookupEventView::LocationFinished(Ok(None))) => fail_with(
            w,
            "get_location_info returned no payload"@,
        ),
        (LookupPhase::FetchingLocation, LookupEventView::LocationFinished(Ok(Some(location)))) => (
            AddressFromIpView { phase: LookupPhase::Completed, ..w },
            LookupActionView::Complete(WorkflowOutputView { ip_addr: w.ip, location }),
        ),
        _ => (w, LookupActionView::Wait),
    }
}

impl AddressFromIp {
    /// The workflow for `input`, not started.
    pub fn new(input: WorkflowInput) -> (r: AddressFromIp)
        ensures
            r@ == (AddressFromIpView {
                input: input@,
                phase: LookupPhase::Created,
                ip: Seq::empty(),
            }),
    {
        AddressFromIp { input, phase: LookupPhase::Created, ip: String::new() }
    }

    /// Asks for the location of the address held.
    fn ask_location(&mut self) -> (action: LookupAction)
        ensures
            (final(self)@, action@) == ask_location(old(self)@),
    {
        self.phase = LookupPhase::FetchingLocation;
        LookupAction::GetLocationInfo {
            ip: self.ip.clone(),
            start_to_close_timeout_secs: ACTIVITY_TIMEOUT_SECS,
        }
    }

    /// Advances the workflow by one event and returns what it asks of the
    /// runtime.
    pub fn step(&mut self, event: LookupEvent) -> (action: LookupAction)
        ensures
            (final(self)@, action@) == lookup_step(old(self)@, event@),
    {
        match (self.phase, event) {
            (LookupPhase::Created, LookupEvent::Started) => {
                self.phase = LookupPhase::FetchingIp;
                LookupAction::GetIp { start_to_close_timeout_secs: ACTIVITY_TIMEOUT_SECS }
            },
            (LookupPhase::FetchingIp, LookupEvent::IpFinished(Err(reason))) => {
                self.phase = LookupPhase::Failed;
                LookupAction::Fail(reason)
            },
            (LookupPhase::FetchingIp, LookupEvent::IpFinished(Ok(None))) => {
                self.phase = LookupPhase::Failed;
                LookupAction::Fail(String::from_str("get_ip returned no payload"))
            },
            (LookupPhase::FetchingIp, LookupEvent::IpFinished(Ok(Some(ip)))) => {
                self.ip = ip;
                // Sleep if requested
                if self.input.seconds > 0 {
                    self.phase = LookupPhase::Sleeping;
                    LookupAction::StartTimer { seconds: self.input.seconds }
                } else {
                    self.ask_location()
                }
            },
            (LookupPhase::Sleeping, LookupEvent::TimerFired) => self.ask_location(),
            (LookupPhase::FetchingLocation, LookupEvent::LocationFinished(Err(reason))) => {
                self.phase = LookupPhase::Failed;
                LookupAction::Fail(reason)
            },
            (LookupPhase::FetchingLocation, LookupEvent::LocationFinished(Ok(None))) => {
                self.phase = LookupPhase::Failed;
                LookupAction::Fail(String::from_str("get_location_info returned no payload"))
            },
            (LookupPhase::FetchingLocation, LookupEvent::LocationFinished(Ok(Some(location)))) => {
                self.phase = LookupPhase::Completed;
                LookupAction::Complete(WorkflowOutput { ip_addr: self.ip.clone(), location })
            },
            _ => LookupAction::Wait,
        }
    }
}

/// The mathematical value of the end of an activity as the runtime reports
/// it.
pub open spec fn raw_view(result: Result<Option<Payload>, String>) -> Result<
    Option<PayloadView>,
    Seq<char>,
> {
    match result {
        Ok(Some(payload)) => Ok(Some(payload@)),
        Ok(None) => Ok(None),
        Err(reason) => Err(reason@),
    }
}

/// What the end of a lookup means to the workflow: a payload is read as a
/// JSON text, and a payload that cannot be read counts as a failure of the
/// lookup, with the text of the error as its reason.
pub open spec fn read_lookup_spec(result: Result<Option<PayloadView>, Seq<char>>) -> Result<
    Option<Seq<char>>,
    Seq<char>,
> {
    match result {
        Ok(Some(payload)) => match text_of_payload(payload) {
            Ok(text) => Ok(Some(text)),
            Err(error) => Err(error_message(error)),
        },
        Ok(None) => Ok(None),
        Err(reason) => Err(reason),
    }
}

/// Reads the end of a lookup as the runtime reports it: the payload that
/// the activity returned, if any, or the reason of its failure.
pub fn read_lookup(result: Result<Option<Payload>, String>) -> (r: Result<Option<String>, String>)
    ensures
        lookup_view(r) == read_lookup_spec(raw_view(result)),
{
    match result {
        Ok(Some(payload)) => match payload.text() {
            Ok(text) => Ok(Some(text)),
            Err(error) => Err(error.to_string()),
        },
        Ok(None) => Ok(None),
        Err(reason) => Err(reason),
    }
}

/// The activity that an action runs, if it runs one.
pub open spec fn action_activity(action: LookupActionView) -> Option<ActivityKind> {
    match action {
        LookupActionView::GetIp { .. } => Some(ActivityKind::GetIp),
        LookupActionView::GetLocationInfo { .. } => Some(ActivityKind::GetLocationInfo),
        _ => None,
    }
}

impl LookupAction {
    /// The activity that the action runs, if it runs one.
    pub fn activity(&self) -> (r: Option<ActivityKind>)
        ensures
            r == action_activity(self@),
    {
        match self {
            LookupAction::GetIp { .. } => Some(ActivityKind::GetIp),
            LookupAction::GetLocationInfo { .. } => Some(ActivityKind::GetLocationInfo),
            _ => None,
        }
    }

    /// The input of the activity that the action runs: nothing for the IP
    /// lookup, the address for the location lookup, each as a JSON payload.
    /// An action that runs no activity has no input. `Err` carries the
    /// message of `serde_json` when it cannot write the address.
    pub fn input(&self) -> (r: Result<Option<Payload>, String>)
        ensures
            match self@ {
                LookupActionView::GetIp { .. } => r matches Ok(Some(payload)) && payload@ == (
                PayloadView { encoding: Some(json_encoding()), data: json_null() }),
                LookupActionView::GetLocationInfo { ip, .. } => match r {
                    Ok(Some(payload)) => payload@.is_json() && json_of_text(ip) == Ok::<
                        Seq<u8>,
                        Seq<char>,
                    >(payload@.data),
                    Ok(None) => false,
                    Err(message) => json_of_text(ip) == Err::<Seq<u8>, Seq<char>>(message@),
                },
                _ => r matches Ok(None),
            },
    {
        match self {
            LookupAction::GetIp { .. } => Ok(Some(unit_payload())),
            LookupAction::GetLocationInfo { ip, .. } => match text_payload(ip.as_str()) {
                Ok(payload) => Ok(Some(payload)),
                Err(message) => Err(message),
            },
            _ => Ok(None),
        }
    }
}

/// Once a lookup has failed or the workflow has completed, nothing more is
/// asked of the runtime; and each lookup is asked for only as the workflow
/// enters its stage.
pub proof fn lemma_lookup_ends(w: AddressFromIpView, event: LookupEventView)
    ensures
        w.phase == LookupPhase::Completed || w.phase == LookupPhase::Failed ==> lookup_step(
            w,
            event,
        ) == (w, LookupActionView::Wait),
        lookup_step(w, event).1 is GetIp ==> w.phase == LookupPhase::Created,
        lookup_step(w, event).1 is Complete ==> w.phase == LookupPhase::FetchingLocation
            && lookup_step(w, event).1->Complete_0.ip_addr == w.ip,
{
}

} // verus!
