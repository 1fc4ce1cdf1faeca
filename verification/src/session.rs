//! One round trip, step by step.
//!
//! The library never talks to the transport itself. It says what the
//! transport is to be asked next, and takes what the transport answered;
//! whoever drives it performs the calls. A session starts with an event to
//! build, and every later step is a function from the stage reached and the
//! transport's answer to the next stage and either a new request or the
//! result of the whole call.

use crate::codec::{plan, spec_plan, EventPropertyType, ReadPlan};
use crate::error::{EventBuildError, EventError};
use crate::events::{
    getter_send_options, transport_failure, EventPropertyReader, EventedSubObject,
    PropertyDescriptor,
};
use crate::request::{EventRequest, SendOptions};
use crate::sys::{
    AEBuildError, AEDesc, AEKeyword, DescType, OSErr, OSStatus, ResType, KEY_DIRECT_OBJECT,
    NULL_HANDLE, TYPE_WILD_CARD,
};
use core::marker::PhantomData;
use vstd::prelude::*;
use vstd::slice::slice_subrange;

verus! {

/// What the transport is asked to do next.
#[derive(Clone, Copy, PartialEq, Eq, Debug)]
pub enum Action {
    /// Send the event that was built, in the given way.
    Send(SendOptions),
    /// Report the type and the size of a parameter of the reply.
    SizeOfParam {
        /// The keyword of the parameter.
        keyword: AEKeyword,
    },
    /// Copy the bytes of a parameter of the reply.
    GetParamPtr {
        /// The keyword of the parameter.
        keyword: AEKeyword,
        /// The type that the bytes are wanted as.
        desired_type: DescType,
        /// The room for the bytes.
        maximum_size: usize,
    },
    /// Hand out a parameter of the reply as a descriptor.
    GetParamDesc {
        /// The keyword of the parameter.
        keyword: AEKeyword,
        /// The type that the descriptor is wanted as.
        desired_type: DescType,
    },
    /// Release the buffer of a descriptor.
    Dispose {
        /// The type of the descriptor.
        descriptor_type: DescType,
        /// The handle of the buffer.
        handle: usize,
    },
}

/// What the transport answered.
#[allow(inconsistent_fields)]
#[derive(Debug)]
pub enum Event {
    /// The answer to the request to build an event.
    Built {
        /// Zero for success.
        status: OSStatus,
        /// What went wrong, where the status is not zero.
        error: AEBuildError,
    },
    /// The answer to [`Action::Send`].
    Sent {
        /// Zero for success.
        status: OSStatus,
    },
    /// The answer to [`Action::SizeOfParam`].
    Sized {
        /// Zero for success.
        status: OSErr,
        /// The type of the parameter.
        prop_type: DescType,
        /// The size of the parameter in bytes.
        size: usize,
    },
    /// The answer to [`Action::GetParamPtr`].
    Fetched {
        /// Zero for success.
        status: OSErr,
        /// The type of the bytes.
        actual_type: DescType,
        /// The size of the parameter, which may exceed the room given.
        actual_size: usize,
        /// The bytes that were copied.
        data: Vec<u8>,
    },
    /// The answer to [`Action::GetParamDesc`].
    Described {
        /// Zero for success.
        status: OSErr,
        /// The descriptor that the transport filled; its new owner is
        /// whoever takes the answer.
        descriptor: AEDesc,
    },
    /// The answer to [`Action::Dispose`].
    Disposed,
}

/// How far a session has come: which answer it waits for.
#[derive(Clone, Copy, PartialEq, Eq, Debug)]
pub enum Stage {
    /// The event is being built; once built it is sent as `send` says.
    Building {
        /// How the event is sent.
        send: SendOptions,
    },
    /// The event is being sent.
    Sending,
    /// The type and size of the reply's direct parameter are being read.
    Sizing,
    /// The bytes of the reply's direct parameter are being copied.
    Fetching {
        /// What the reply said of the parameter.
        descriptor: PropertyDescriptor,
        /// The type that the bytes were asked for as.
        wanted: DescType,
    },
    /// The reply's direct parameter is being handed out as a descriptor.
    Describing,
    /// A descriptor that nobody keeps is being released; the session then
    /// ends in `failure`, or in an absent value where there is none.
    Releasing {
        /// The failure that the session ends in.
        failure: Option<EventError>,
    },
    /// The session is over.
    Finished,
}

/// What a step of a session yields: a request to the transport, or the
/// result of the call.
#[derive(Debug)]
pub enum Step<R> {
    /// The transport is to be asked this.
    Perform(Action),
    /// The call is over with this result.
    Return(Result<R, EventError>),
}

/// Whether `event` is the answer that a session at `stage` waits for.
pub open spec fn awaits(stage: Stage, event: Event) -> bool {
    match stage {
        Stage::Building { .. } => event is Built,
        Stage::Sending => event is Sent,
        Stage::Sizing => event is Sized,
        Stage::Fetching { .. } => event is Fetched,
        Stage::Describing => event is Described,
        Stage::Releasing { .. } => event is Disposed,
        Stage::Finished => false,
    }
}

/// Whether `event` is the answer that a session at `stage` waits for.
pub fn is_awaited(stage: &Stage, event: &Event) -> (r: bool)
    ensures
        r == awaits(*stage, *event),
{
    match stage {
        Stage::Building { .. } => matches!(event, Event::Built { .. }),
        Stage::Sending => matches!(event, Event::Sent { .. }),
        Stage::Sizing => matches!(event, Event::Sized { .. }),
        Stage::Fetching { .. } => matches!(event, Event::Fetched { .. }),
        Stage::Describing => matches!(event, Event::Described { .. }),
        Stage::Releasing { .. } => matches!(event, Event::Disposed),
        Stage::Finished => false,
    }
}

/// The stage at which every session starts: its event is to be built, and
/// then sent as `send` says.
pub fn begin(send: SendOptions) -> (r: Stage)
    ensures
        r == (Stage::Building { send }),
{
    Stage::Building { send }
}

/// What follows the answer to the request to build the event: the event
/// is sent, or the call fails with what the transport reported.
pub open spec fn after_built<R>(send: SendOptions, status: OSStatus, error: AEBuildError) -> (
    Stage,
    Step<R>,
) {
    if status == 0 {
        (Stage::Sending, Step::Perform(Action::Send(send)))
    } else {
        (Stage::Finished, Step::Return(Err(EventBuildError::failure(error))))
    }
}

/// What follows a failed send: the call fails with the status.
pub open spec fn send_failed<R>(status: OSStatus) -> (Stage, Step<R>) {
    (Stage::Finished, Step::Return(Err(transport_failure(status as int))))
}

/// The step of a session that only delivers an event, as a write and a
/// command do: build, send, done. It speaks of the answers that the stage
/// waits for; no session takes any other.
pub open spec fn dispatch_spec(stage: Stage, event: Event) -> (Stage, Step<()>) {
    match (stage, event) {
        (Stage::Building { send }, Event::Built { status, error }) => after_built(
            send,
            status,
            error,
        ),
        (Stage::Sending, Event::Sent { status }) => if status == 0 {
            (Stage::Finished, Step::Return(Ok(())))
        } else {
            send_failed(status)
        },
        _ => (Stage::Finished, Step::Return(Err(EventError::InvalidGrammar))),
    }
}

/// One step of a session that only delivers an event. Success means that
/// the transport took the event for delivery, not that the far end acted
/// on it.
pub fn dispatch_step(stage: Stage, event: Event) -> (r: (Stage, Step<()>))
    requires
        awaits(stage, event),
        stage is Building || stage is Sending,
    ensures
        r == dispatch_spec(stage, event),
{
    match stage {
        Stage::Building { send } => match event {
            Event::Built { status, error } => {
                if status == 0 {
                    (Stage::Sending, Step::Perform(Action::Send(send)))
                } else {
                    (Stage::Finished, Step::Return(Err(EventBuildError::new(error))))
                }
            },
            _ => (Stage::Finished, Step::Return(Err(EventError::InvalidGrammar))),
        },
        _ => match event {
            Event::Sent { status } => {
                if status == 0 {
                    (Stage::Finished, Step::Return(Ok(())))
                } else {
                    (
                        Stage::Finished,
                        Step::Return(Err(EventError::TransportFailed { status })),
                    )
                }
            },
            _ => (Stage::Finished, Step::Return(Err(EventError::InvalidGrammar))),
        },
    }
}

/// The bytes that are decoded: what was copied, cut to the size that the
/// reply announced.
pub open spec fn fetched_bytes(descriptor: PropertyDescriptor, data: Seq<u8>) -> Seq<u8> {
    if data.len() > descriptor.spec_size() {
        data.subrange(0, descriptor.spec_size() as int)
    } else {
        data
    }
}

/// What the bytes of a reply are read as by the codec `T`.
pub open spec fn decoding<T: EventPropertyType>(wanted: DescType, data: Seq<u8>) -> Result<
    Option<T::V>,
    EventError,
> {
    match T::decoded(wanted, data) {
        Some(value) => Ok(Some(value)),
        None => Err(EventError::DecodeMismatch { expected: T::spec_name() }),
    }
}

/// The step of a session that reads a property as a value of `T`: build,
/// send and wait, read type and size of the reply's direct parameter, and
/// then as the reading policy says: nothing more for an absent value or a
/// type that `T` does not accept, else copy the bytes and decode them. A
/// status other than zero ends the call with that status at any stage. It
/// speaks of the answers that the stage waits for; no session takes any
/// other.
pub open spec fn read_spec<T: EventPropertyType>(stage: Stage, event: Event) -> (
    Stage,
    Step<Option<T::V>>,
) {
    match (stage, event) {
        (Stage::Building { send }, Event::Built { status, error }) => after_built(
            send,
            status,
            error,
        ),
        (Stage::Sending, Event::Sent { status }) => if status == 0 {
            (
                Stage::Sizing,
                Step::Perform(Action::SizeOfParam { keyword: ResType(KEY_DIRECT_OBJECT) }),
            )
        } else {
            send_failed(status)
        },
        (Stage::Sizing, Event::Sized { status, prop_type, size }) => if status != 0 {
            (Stage::Finished, Step::Return(Err(transport_failure(status as int))))
        } else {
            match spec_plan::<T>(prop_type, size) {
                ReadPlan::Absent => (Stage::Finished, Step::Return(Ok(None))),
                ReadPlan::Mismatch { expected } => (
                    Stage::Finished,
                    Step::Return(Err(EventError::DecodeMismatch { expected })),
                ),
                ReadPlan::Fetch { wanted, capacity } => (
                    Stage::Fetching { descriptor: PropertyDescriptor::of(prop_type, size), wanted },
                    Step::Perform(
                        Action::GetParamPtr {
                            keyword: ResType(KEY_DIRECT_OBJECT),
                            desired_type: wanted,
                            maximum_size: capacity,
                        },
                    ),
                ),
            }
        },
        (
            Stage::Fetching { descriptor, wanted },
            Event::Fetched { status, actual_type, actual_size, data },
        ) => if status != 0 {
            (Stage::Finished, Step::Return(Err(transport_failure(status as int))))
        } else {
            (
                Stage::Finished,
                Step::Return(decoding::<T>(wanted, fetched_bytes(descriptor, data@))),
            )
        },
        _ => (Stage::Finished, Step::Return(Err(EventError::InvalidGrammar))),
    }
}

/// A step with the value that it returns, if any, taken as a
/// mathematical value.
pub open spec fn step_view<T: View>(step: Step<Option<T>>) -> Step<Option<T::V>> {
    match step {
        Step::Perform(action) => Step::Perform(action),
        Step::Return(Ok(Some(value))) => Step::Return(Ok(Some(value@))),
        Step::Return(Ok(None)) => Step::Return(Ok(None)),
        Step::Return(Err(e)) => Step::Return(Err(e)),
    }
}

/// One step of a session that reads a property as a value of `T`.
pub fn read_step<T: EventPropertyType>(stage: Stage, event: Event) -> (r: (
    Stage,
    Step<Option<T>>,
))
    requires
        awaits(stage, event),
        stage is Building || stage is Sending || stage is Sizing || stage is Fetching,
    ensures
        r.0 == read_spec::<T>(stage, event).0,
        step_view(r.1) == read_spec::<T>(stage, event).1,
{
    match stage {
        Stage::Building { send } => match event {
            Event::Built { status, error } => {
                if status == 0 {
                    (Stage::Sending, Step::Perform(Action::Send(send)))
                } else {
                    (Stage::Finished, Step::Return(Err(EventBuildError::new(error))))
                }
            },
            _ => (Stage::Finished, Step::Return(Err(EventError::InvalidGrammar))),
        },
        Stage::Sending => match event {
            Event::Sent { status } => {
                if status == 0 {
                    (
                        Stage::Sizing,
                        Step::Perform(Action::SizeOfParam { keyword: ResType(KEY_DIRECT_OBJECT) }),
                    )
                } else {
                    (
                        Stage::Finished,
                        Step::Return(Err(EventError::TransportFailed { status })),
                    )
                }
            },
            _ => (Stage::Finished, Step::Return(Err(EventError::InvalidGrammar))),
        },
        Stage::Sizing => match event {
            Event::Sized { status, prop_type, size } => {
                match PropertyDescriptor::new(status, prop_type, size) {
                    Err(e) => (Stage::Finished, Step::Return(Err(e))),
                    Ok(descriptor) => {
                        proof {
                            descriptor.lemma_of();
                        }
                        match plan::<T>(&descriptor) {
                            ReadPlan::Absent => (Stage::Finished, Step::Return(Ok(None))),
                            ReadPlan::Mismatch { expected } => (
                                Stage::Finished,
                                Step::Return(Err(EventError::DecodeMismatch { expected })),
                            ),
                            ReadPlan::Fetch { wanted, capacity } => (
                                Stage::Fetching { descriptor, wanted },
                                Step::Perform(
                                    Action::GetParamPtr {
                                        keyword: ResType(KEY_DIRECT_OBJECT),
                                        desired_type: wanted,
                                        maximum_size: capacity,
                                    },
                                ),
                            ),
                        }
                    },
                }
            },
            _ => (Stage::Finished, Step::Return(Err(EventError::InvalidGrammar))),
        },
        Stage::Fetching { descriptor, wanted } => match event {
            Event::Fetched { status, actual_type, actual_size, data } => {
                match descriptor.read(status, actual_type, actual_size) {
                    Err((e, _)) => (Stage::Finished, Step::Return(Err(e))),
                    Ok(known) => {
                        let bytes = if data.len() > known.size() {
                            slice_subrange(data.as_slice(), 0, known.size())
                        } else {
                            data.as_slice()
                        };
                        match T::read(wanted, bytes) {
                            Ok(value) => (Stage::Finished, Step::Return(Ok(Some(value)))),
                            Err(e) => (Stage::Finished, Step::Return(Err(e))),
                        }
                    },
                }
            },
            _ => (Stage::Finished, Step::Return(Err(EventError::InvalidGrammar))),
        },
        _ => (Stage::Finished, Step::Return(Err(EventError::InvalidGrammar))),
    }
}

/// What a session that reads an object does with the descriptor that the
/// transport handed out, and with the status of that call.
pub enum ObjectOutcome {
    /// The descriptor names an object, which takes it over.
    Object,
    /// The descriptor names nothing and has no buffer: the value is absent,
    /// or the call failed.
    Ends(Option<EventError>),
    /// The descriptor names nothing, and its buffer is released first.
    Releases(DescType, usize, Option<EventError>),
}

/// What becomes of the descriptor that the transport handed out with
/// `status`: on success a descriptor that is not null names the object;
/// a null one, and any one on failure, is not kept, and is released if
/// it has a buffer.
pub open spec fn object_outcome(status: OSErr, descriptor: AEDesc) -> ObjectOutcome {
    let failure = if status != 0 {
        Some(transport_failure(status as int))
    } else {
        None
    };
    if status == 0 && !descriptor.spec_is_null() {
        ObjectOutcome::Object
    } else if descriptor.data_handle != NULL_HANDLE {
        ObjectOutcome::Releases(descriptor.descriptor_type, descriptor.data_handle, failure)
    } else {
        ObjectOutcome::Ends(failure)
    }
}

/// The result that a failure, or its absence, stands for.
pub open spec fn ending<R>(failure: Option<EventError>) -> Result<Option<R>, EventError> {
    match failure {
        Some(e) => Err(e),
        None => Ok(None),
    }
}

/// Whether `step` is what a session that reads an object through `reader`
/// yields at `stage` on `event`, and `next` the stage that it reaches:
/// build, send and wait, ask for the reply's direct parameter as a
/// descriptor of any type, and wrap it as an object of the reader's
/// application.
pub open spec fn object_spec<O: EventedSubObject>(
    reader: EventPropertyReader,
    stage: Stage,
    event: Event,
    next: Stage,
    step: Step<Option<O>>,
) -> bool {
    match (stage, event) {
        (Stage::Building { send }, Event::Built { status, error }) => (next, step) == after_built::<
            Option<O>,
        >(send, status, error),
        (Stage::Sending, Event::Sent { status }) => if status == 0 {
            next == Stage::Describing && step == Step::<Option<O>>::Perform(
                Action::GetParamDesc {
                    keyword: ResType(KEY_DIRECT_OBJECT),
                    desired_type: ResType(TYPE_WILD_CARD),
                },
            )
        } else {
            (next, step) == send_failed::<Option<O>>(status)
        },
        (Stage::Describing, Event::Described { status, descriptor }) => match object_outcome(
            status,
            descriptor,
        ) {
            ObjectOutcome::Object => next == Stage::Finished && (step matches Step::Return(
                Ok(Some(object)),
            ) && object.spec_signature() == reader.spec_signature() && object.spec_bundle_id()
                == reader.spec_bundle_id() && object.spec_target_object() == descriptor),
            ObjectOutcome::Ends(failure) => next == Stage::Finished && step == Step::Return(
                ending::<O>(failure),
            ),
            ObjectOutcome::Releases(descriptor_type, handle, failure) => next == (
            Stage::Releasing { failure }) && step == Step::<Option<O>>::Perform(
                Action::Dispose { descriptor_type, handle },
            ),
        },
        (Stage::Releasing { failure }, Event::Disposed) => next == Stage::Finished && step
            == Step::Return(ending::<O>(failure)),
        _ => false,
    }
}

/// One step of a session that reads a property as an object of type `O`.
/// A descriptor that the session does not hand on to the object is
/// released before the session ends.
pub fn object_step<O: EventedSubObject>(reader: &EventPropertyReader, stage: Stage, event: Event)
    -> (r: (Stage, Step<Option<O>>))
    requires
        awaits(stage, event),
        stage is Building || stage is Sending || stage is Describing || stage is Releasing,
    ensures
        object_spec::<O>(*reader, stage, event, r.0, r.1),
{
    match stage {
        Stage::Building { send } => match event {
            Event::Built { status, error } => {
                if status == 0 {
                    (Stage::Sending, Step::Perform(Action::Send(send)))
                } else {
                    (Stage::Finished, Step::Return(Err(EventBuildError::new(error))))
                }
            },
            _ => (Stage::Finished, Step::Return(Err(EventError::InvalidGrammar))),
        },
        Stage::Sending => match event {
            Event::Sent { status } => {
                if status == 0 {
                    (
                        Stage::Describing,
                        Step::Perform(
                            Action::GetParamDesc {
                                keyword: ResType(KEY_DIRECT_OBJECT),
                                desired_type: ResType(TYPE_WILD_CARD),
                            },
                        ),
                    )
                } else {
                    (
                        Stage::Finished,
                        Step::Return(Err(EventError::TransportFailed { status })),
                    )
                }
            },
            _ => (Stage::Finished, Step::Return(Err(EventError::InvalidGrammar))),
        },
        Stage::Describing => match event {
            Event::Described { status, descriptor } => {
                match reader.descriptor(status, descriptor) {
                    Ok(mut object) => {
                        match O::read(reader, &mut object) {
                            Some(made) => (Stage::Finished, Step::Return(Ok(Some(made)))),
                            None => release(object, None),
                        }
                    },
                    Err((e, left)) => release(left, Some(e)),
                }
            },
            _ => (Stage::Finished, Step::Return(Err(EventError::InvalidGrammar))),
        },
        Stage::Releasing { failure } => match event {
            Event::Disposed => match failure {
                Some(e) => (Stage::Finished, Step::Return(Err(e))),
                None => (Stage::Finished, Step::Return(Ok(None))),
            },
            _ => (Stage::Finished, Step::Return(Err(EventError::InvalidGrammar))),
        },
        _ => (Stage::Finished, Step::Return(Err(EventError::InvalidGrammar))),
    }
}

/// Ends a session over a descriptor that nobody keeps: its buffer, if it
/// has one, is released first.
fn release<R>(descriptor: AEDesc, failure: Option<EventError>) -> (r: (Stage, Step<Option<R>>))
    ensures
        descriptor.data_handle != NULL_HANDLE ==> r.0 == (Stage::Releasing { failure }) && r.1
            == Step::<Option<R>>::Perform(
            Action::Dispose {
                descriptor_type: descriptor.descriptor_type,
                handle: descriptor.data_handle,
            },
        ),
        descriptor.data_handle == NULL_HANDLE ==> r.0 == Stage::Finished && r.1 == Step::Return(
            ending::<R>(failure),
        ),
{
    let mut descriptor = descriptor;
    let descriptor_type = descriptor.descriptor_type;
    match descriptor.dispose() {
        Some(handle) => (
            Stage::Releasing { failure },
            Step::Perform(Action::Dispose { descriptor_type, handle }),
        ),
        None => match failure {
            Some(e) => (Stage::Finished, Step::Return(Err(e))),
            None => (Stage::Finished, Step::Return(Ok(None))),
        },
    }
}

/// The delivery of an event that asks for no value: a write or a command.
#[derive(Debug)]
pub struct Delivery {
    /// The event, to be built.
    pub request: EventRequest,
    /// How the event is sent.
    pub send: SendOptions,
}

impl Delivery {
    /// Starts the session: the event that the transport is to build, and
    /// the stage that waits for the answer.
    pub fn start(self) -> (r: (Stage, EventRequest))
        ensures
            r.0 == (Stage::Building { send: self.send }),
            r.1 == self.request,
    {
        (Stage::Building { send: self.send }, self.request)
    }

    /// One step of the session.
    pub fn step(stage: Stage, event: Event) -> (r: (Stage, Step<()>))
        requires
            awaits(stage, event),
            stage is Building || stage is Sending,
        ensures
            r == dispatch_spec(stage, event),
    {
        dispatch_step(stage, event)
    }
}

/// The read of a property as a value of type `T`.
#[derive(Debug)]
pub struct PropertyQuery<'a, T> {
    /// The reader of the property.
    pub reader: EventPropertyReader<'a>,
    /// Which type the reply is read as.
    pub value: PhantomData<T>,
}

impl<'a, T: EventPropertyType> PropertyQuery<'a, T> {
    /// The read of what `reader` reads, as a value of type `T`.
    pub fn new(reader: EventPropertyReader<'a>) -> (r: Self)
        ensures
            r.reader == reader,
    {
        PropertyQuery { reader, value: PhantomData }
    }

    /// Starts the session: the get-data event that the transport is to
    /// build, and the stage that waits for the answer.
    pub fn start(&self) -> (r: (Stage, EventRequest))
        ensures
            r.0 == (Stage::Building { send: getter_send_options() }),
            r.1@ == self.reader.get_event(),
    {
        (Stage::Building { send: self.reader.send_options() }, self.reader.request())
    }

    /// One step of the session.
    pub fn step(&self, stage: Stage, event: Event) -> (r: (Stage, Step<Option<T>>))
        requires
            awaits(stage, event),
            stage is Building || stage is Sending || stage is Sizing || stage is Fetching,
        ensures
            r.0 == read_spec::<T>(stage, event).0,
            step_view(r.1) == read_spec::<T>(stage, event).1,
    {
        read_step::<T>(stage, event)
    }
}

/// The read of a property as an object of type `O`.
#[derive(Debug)]
pub struct ObjectQuery<'a, O> {
    /// The reader of the property.
    pub reader: EventPropertyReader<'a>,
    /// Which type the reply is read as.
    pub value: PhantomData<O>,
}

impl<'a, O: EventedSubObject> ObjectQuery<'a, O> {
    /// The read of what `reader` reads, as an object of type `O`.
    pub fn new(reader: EventPropertyReader<'a>) -> (r: Self)
        ensures
            r.reader == reader,
    {
        ObjectQuery { reader, value: PhantomData }
    }

    /// Starts the session: the get-data event that the transport is to
    /// build, and the stage that waits for the answer.
    pub fn start(&self) -> (r: (Stage, EventRequest))
        ensures
            r.0 == (Stage::Building { send: getter_send_options() }),
            r.1@ == self.reader.get_event(),
    {
        (Stage::Building { send: self.reader.send_options() }, self.reader.request())
    }

    /// One step of the session.
    pub fn step(&self, stage: Stage, event: Event) -> (r: (Stage, Step<Option<O>>))
        requires
            awaits(stage, event),
            stage is Building || stage is Sending || stage is Describing || stage is Releasing,
        ensures
            object_spec::<O>(self.reader, stage, event, r.0, r.1),
    {
        object_step::<O>(&self.reader, stage, event)
    }
}

/// A session sends its event once: only the step from the first stage
/// asks for a send, and no step leads back to that stage. Every read is
/// therefore a round trip of its own.
pub proof fn lemma_one_round_trip<T: EventPropertyType>(stage: Stage, event: Event)
    requires
        awaits(stage, event),
    ensures
        !(read_spec::<T>(stage, event).0 is Building),
        read_spec::<T>(stage, event).1 matches Step::Perform(Action::Send(_)) ==> stage
            is Building,
        !(dispatch_spec(stage, event).0 is Building),
        dispatch_spec(stage, event).1 matches Step::Perform(Action::Send(_)) ==> stage is Building,
{
}

/// A status other than zero, at whatever stage the transport reports it,
/// ends a read with that status as the failure: it is neither dropped nor
/// turned into a value.
pub proof fn lemma_failure_is_returned<T: EventPropertyType>(
    status: OSStatus,
    short_status: OSErr,
    prop_type: DescType,
    size: usize,
    descriptor: PropertyDescriptor,
    wanted: DescType,
    data: Vec<u8>,
)
    requires
        status != 0,
        short_status != 0,
    ensures
        read_spec::<T>(Stage::Sending, Event::Sent { status }) == (
            Stage::Finished,
            Step::<Option<T::V>>::Return(Err(EventError::TransportFailed { status })),
        ),
        read_spec::<T>(Stage::Sizing, Event::Sized { status: short_status, prop_type, size }) == (
            Stage::Finished,
            Step::<Option<T::V>>::Return(
                Err(EventError::TransportFailed { status: short_status as i32 }),
            ),
        ),
        read_spec::<T>(
            Stage::Fetching { descriptor, wanted },
            Event::Fetched {
                status: short_status,
                actual_type: prop_type,
                actual_size: size,
                data,
            },
        ) == (
            Stage::Finished,
            Step::<Option<T::V>>::Return(
                Err(EventError::TransportFailed { status: short_status as i32 }),
            ),
        ),
{
}

/// A reply whose direct parameter has the type `null` ends a read with an
/// absent value, for every codec, without another request.
pub proof fn lemma_null_reply_is_absent<T: EventPropertyType>(size: usize)
    ensures
        read_spec::<T>(
            Stage::Sizing,
            Event::Sized { status: 0, prop_type: ResType(crate::sys::TYPE_NULL), size },
        ) == (Stage::Finished, Step::<Option<T::V>>::Return(Ok(None))),
{
}

/// A reply whose direct parameter has a type that the codec does not
/// accept ends a read with a decode failure that names the type asked
/// for, for every codec, without another request.
pub proof fn lemma_foreign_reply_is_mismatch<T: EventPropertyType>(prop_type: DescType, size: usize)
    requires
        prop_type != ResType(crate::sys::TYPE_NULL),
        T::wanted_type(prop_type) is None,
    ensures
        read_spec::<T>(Stage::Sizing, Event::Sized { status: 0, prop_type, size }) == (
            Stage::Finished,
            Step::<Option<T::V>>::Return(
                Err(EventError::DecodeMismatch { expected: T::spec_name() }),
            ),
        ),
{
}

} // verus!
