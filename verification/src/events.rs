//! Queries for a property of a remote object: the reader and the writer
//! that compose them, what a reply says of its direct parameter, and the
//! objects that properties belong to.

pub use crate::error::EventBuildError;
pub use crate::sys::{AEDesc, ResType};

use crate::codec::{descriptor_model, EventPropertyType};
use crate::error::EventError;
use crate::request::{
    Argument, ArgumentModel, DescriptorBuild, DescriptorModel, EventModel, EventRequest,
    SendOptions,
};
use crate::sys::{
    DescType, OSErr, K_AE_CORE_SUITE, K_AE_DEFAULT_TIMEOUT, K_AE_GET_DATA, K_AE_SET_DATA,
    K_ANY_TRANSACTION_ID, K_AUTO_GENERATE_RETURN_ID, TYPE_APPLICATION_BUNDLE_ID,
};
use vstd::prelude::*;

verus! {

/// How a query names the object that a property is taken from: a
/// placeholder for the target, or the null object of the application.
pub open spec fn target_text(target_is_null: bool) -> Seq<char> {
    if target_is_null {
        "'null'()"@
    } else {
        "@"@
    }
}

/// The object specifier of a property: the property whose selector is
/// `property`, of the target.
pub open spec fn property_specifier(property: DescType, target_is_null: bool) -> Seq<char> {
    "obj { form:prop, want:type(prop), seld:type("@ + property.quoted_text() + "), from:"@
        + target_text(target_is_null) + " }"@
}

/// The query of a get-data event: the direct parameter is the property.
pub open spec fn getter_query(property: DescType, target_is_null: bool) -> Seq<char> {
    "'----':"@ + property_specifier(property, target_is_null)
}

/// The query of a set-data event: the new value, then the property as the
/// direct parameter.
pub open spec fn setter_query(property: DescType, target_is_null: bool) -> Seq<char> {
    "data:@, '----':"@ + property_specifier(property, target_is_null)
}

/// The arguments that a query takes for its target: the target itself,
/// unless the query names the null object.
pub open spec fn target_arguments(target: AEDesc) -> Seq<ArgumentModel> {
    if target.spec_is_null() {
        Seq::empty()
    } else {
        seq![Argument::lending(target)]
    }
}

/// Appends the object specifier of `property` to `out`.
fn append_property_specifier(out: &mut String, target_object: &AEDesc, desc_type: DescType)
    requires
        desc_type.spec_is_encodable(),
    ensures
        final(out)@ == old(out)@ + property_specifier(desc_type, target_object.spec_is_null()),
{
    let quoted = desc_type.quoted();
    out.append("obj { form:prop, want:type(prop), seld:type(");
    out.append(quoted.as_str());
    out.append("), from:");
    if target_object.is_null() {
        out.append("'null'()");
    } else {
        out.append("@");
    }
    out.append(" }");
    assert(final(out)@ =~= old(out)@ + property_specifier(
        desc_type,
        target_object.spec_is_null(),
    ));
}

/// The query of a get-data event for the property `desc_type` of
/// `target_object`. A property that cannot stand in a query is refused.
pub fn property_getter_format(target_object: &AEDesc, desc_type: DescType) -> (r: Result<
    String,
    EventError,
>)
    ensures
        desc_type.spec_is_encodable() ==> r is Ok && r.unwrap()@ == getter_query(
            desc_type,
            target_object.spec_is_null(),
        ),
        !desc_type.spec_is_encodable() ==> r == Err::<String, EventError>(
            EventError::InvalidGrammar,
        ),
{
    if !desc_type.is_encodable() {
        return Err(EventError::InvalidGrammar);
    }
    let mut out = String::from_str("'----':");
    append_property_specifier(&mut out, target_object, desc_type);
    Ok(out)
}

/// The query of a set-data event for the property `desc_type` of
/// `target_object`. A property that cannot stand in a query is refused.
pub fn property_setter_format(target_object: &AEDesc, desc_type: DescType) -> (r: Result<
    String,
    EventError,
>)
    ensures
        desc_type.spec_is_encodable() ==> r is Ok && r.unwrap()@ == setter_query(
            desc_type,
            target_object.spec_is_null(),
        ),
        !desc_type.spec_is_encodable() ==> r == Err::<String, EventError>(
            EventError::InvalidGrammar,
        ),
{
    if !desc_type.is_encodable() {
        return Err(EventError::InvalidGrammar);
    }
    let mut out = String::from_str("data:@, '----':");
    append_property_specifier(&mut out, target_object, desc_type);
    Ok(out)
}

/// The failure that a status other than zero stands for.
pub open spec fn transport_failure(status: int) -> EventError {
    EventError::TransportFailed { status: status as i32 }
}

/// What a reply says of its direct parameter: its type and its size in
/// bytes. It is read off the reply before any byte is fetched, to size the
/// buffer.
#[derive(Clone, Copy, PartialEq, Eq, Debug, Structural)]
pub struct PropertyDescriptor {
    prop_type: DescType,
    size: usize,
}

impl PropertyDescriptor {
    /// The type of the direct parameter.
    pub closed spec fn spec_prop_type(self) -> DescType {
        self.prop_type
    }

    /// The size of the direct parameter in bytes.
    pub closed spec fn spec_size(self) -> usize {
        self.size
    }

    /// The description with the given type and size.
    pub closed spec fn of(prop_type: DescType, size: usize) -> PropertyDescriptor {
        PropertyDescriptor { prop_type, size }
    }

    /// A description is its type and its size.
    pub proof fn lemma_of(self)
        ensures
            self == Self::of(self.spec_prop_type(), self.spec_size()),
            forall|t: DescType, s: usize|
                #![trigger Self::of(t, s)]
                Self::of(t, s).spec_prop_type() == t && Self::of(t, s).spec_size() == s,
    {
    }

    /// What the transport answered when asked for the type and size of the
    /// direct parameter: the description, or the failure that `status`
    /// stands for.
    pub fn new(status: OSErr, prop_type: DescType, size: usize) -> (r: Result<
        PropertyDescriptor,
        EventError,
    >)
        ensures
            status == 0 ==> r == Ok::<PropertyDescriptor, EventError>(Self::of(prop_type, size)),
            status != 0 ==> r == Err::<PropertyDescriptor, EventError>(
                transport_failure(status as int),
            ),
    {
        if status == 0 {
            Ok(PropertyDescriptor { prop_type, size })
        } else {
            Err(EventError::TransportFailed { status: status as i32 })
        }
    }

    /// The type of the direct parameter.
    pub fn prop_type(&self) -> (r: DescType)
        ensures
            r == self.spec_prop_type(),
    {
        self.prop_type
    }

    /// The size of the direct parameter in bytes.
    pub fn size(&self) -> (r: usize)
        ensures
            r == self.spec_size(),
    {
        self.size
    }

    /// What the transport answered when asked for the bytes of the direct
    /// parameter. On success the description stands as it was. On failure
    /// the error comes with the type and size that the transport reported
    /// in that call.
    pub fn read(self, status: OSErr, actual_type: DescType, actual_size: usize) -> (r: Result<
        PropertyDescriptor,
        (EventError, PropertyDescriptor),
    >)
        ensures
            status == 0 ==> r == Ok::<PropertyDescriptor, (EventError, PropertyDescriptor)>(self),
            status != 0 ==> r == Err::<PropertyDescriptor, (EventError, PropertyDescriptor)>(
                (transport_failure(status as int), Self::of(actual_type, actual_size)),
            ),
    {
        if status == 0 {
            Ok(self)
        } else {
            Err(
                (
                    EventError::TransportFailed { status: status as i32 },
                    PropertyDescriptor { prop_type: actual_type, size: actual_size },
                ),
            )
        }
    }
}

/// The get-data query for one property of one object of one application.
#[derive(Debug)]
pub struct EventPropertyReader<'a> {
    signature: ResType,
    bundle_id: String,
    target_object: &'a AEDesc,
    query: String,
}

impl<'a> EventPropertyReader<'a> {
    /// The signature of the application.
    pub closed spec fn spec_signature(&self) -> ResType {
        self.signature
    }

    /// The bundle identifier of the application.
    pub closed spec fn spec_bundle_id(&self) -> Seq<char> {
        self.bundle_id@
    }

    /// The object that the property is read from.
    pub closed spec fn spec_target(&self) -> AEDesc {
        *self.target_object
    }

    /// The query.
    pub closed spec fn spec_query(&self) -> Seq<char> {
        self.query@
    }

    /// The get-data event of the reader: of the core suite, addressed to
    /// the application by its bundle identifier, with the query and, unless
    /// the query names the null object, the target as its argument.
    pub open spec fn get_event(&self) -> EventModel {
        EventModel {
            event_class: ResType(K_AE_CORE_SUITE),
            event_id: ResType(K_AE_GET_DATA),
            address_type: ResType(TYPE_APPLICATION_BUNDLE_ID),
            address: self.spec_bundle_id(),
            return_id: K_AUTO_GENERATE_RETURN_ID,
            transaction_id: K_ANY_TRANSACTION_ID,
            query: self.spec_query(),
            arguments: target_arguments(self.spec_target()),
        }
    }

    /// The reader of `property` of `target_object` in the application with
    /// the given signature and bundle identifier. Nothing is sent yet; a
    /// property that cannot stand in a query is refused.
    pub fn new(
        signature: ResType,
        bundle_id: &str,
        target_object: &'a AEDesc,
        property: DescType,
    ) -> (r: Result<EventPropertyReader<'a>, EventError>)
        ensures
            property.spec_is_encodable() ==> (r matches Ok(reader) && reader.spec_signature()
                == signature && reader.spec_bundle_id() == bundle_id@ && reader.spec_target()
                == *target_object && reader.spec_query() == getter_query(
                property,
                target_object.spec_is_null(),
            )),
            !property.spec_is_encodable() ==> (r matches Err(e) && e == EventError::InvalidGrammar),
    {
        match property_getter_format(target_object, property) {
            Ok(query) => Ok(
                EventPropertyReader {
                    signature,
                    bundle_id: String::from_str(bundle_id),
                    target_object,
                    query,
                },
            ),
            Err(e) => Err(e),
        }
    }

    /// The get-data event, to be built by the transport.
    pub fn request(&self) -> (r: EventRequest)
        ensures
            r@ == self.get_event(),
    {
        let mut arguments: Vec<Argument> = Vec::new();
        if !self.target_object.is_null() {
            arguments.push(Argument::lend(self.target_object));
        }
        let r = EventRequest {
            event_class: ResType(K_AE_CORE_SUITE),
            event_id: ResType(K_AE_GET_DATA),
            address_type: ResType(TYPE_APPLICATION_BUNDLE_ID),
            address: self.bundle_id.clone(),
            return_id: K_AUTO_GENERATE_RETURN_ID,
            transaction_id: K_ANY_TRANSACTION_ID,
            query: self.query.clone(),
            arguments,
        };
        assert(r@.arguments =~= target_arguments(self.spec_target()));
        r
    }

    /// How the get-data event is sent: the sender waits for the reply, and
    /// the far end must not prompt the user.
    pub fn send_options(&self) -> (r: SendOptions)
        ensures
            r == getter_send_options(),
    {
        SendOptions { wait_for_reply: true, never_interact: true, timeout: K_AE_DEFAULT_TIMEOUT }
    }

    /// What the transport answered when asked for the type and size of the
    /// reply's direct parameter.
    pub fn property_descriptor(&self, status: OSErr, prop_type: DescType, size: usize) -> (r:
        Result<PropertyDescriptor, EventError>)
        ensures
            status == 0 ==> r == Ok::<PropertyDescriptor, EventError>(
                PropertyDescriptor::of(prop_type, size),
            ),
            status != 0 ==> r == Err::<PropertyDescriptor, EventError>(
                transport_failure(status as int),
            ),
    {
        PropertyDescriptor::new(status, prop_type, size)
    }

    /// What the transport answered when asked for the reply's direct
    /// parameter as a descriptor. On success the descriptor is handed on.
    /// On failure the error comes with what the transport left in
    /// `object`, so that it can be released.
    pub fn descriptor(&self, status: OSErr, object: AEDesc) -> (r: Result<
        AEDesc,
        (EventError, AEDesc),
    >)
        ensures
            status == 0 ==> r == Ok::<AEDesc, (EventError, AEDesc)>(object),
            status != 0 ==> r == Err::<AEDesc, (EventError, AEDesc)>(
                (transport_failure(status as int), object),
            ),
    {
        if status == 0 {
            Ok(object)
        } else {
            Err((EventError::TransportFailed { status: status as i32 }, object))
        }
    }

    /// The signature of the application.
    pub fn signature(&self) -> (r: ResType)
        ensures
            r == self.spec_signature(),
    {
        self.signature
    }

    /// The bundle identifier of the application.
    pub fn bundle_id(&self) -> (r: &str)
        ensures
            r@ == self.spec_bundle_id(),
    {
        self.bundle_id.as_str()
    }
}

/// How a get-data event is sent.
pub open spec fn getter_send_options() -> SendOptions {
    SendOptions { wait_for_reply: true, never_interact: true, timeout: K_AE_DEFAULT_TIMEOUT }
}

/// How a set-data event is sent.
pub open spec fn setter_send_options() -> SendOptions {
    SendOptions { wait_for_reply: false, never_interact: false, timeout: K_AE_DEFAULT_TIMEOUT }
}

/// The set-data query for one property of one object of one application.
#[derive(Debug)]
pub struct EventPropertyWriter<'a> {
    signature: ResType,
    bundle_id: String,
    target_object: &'a AEDesc,
    query: String,
}

impl<'a> EventPropertyWriter<'a> {
    /// The signature of the application.
    pub closed spec fn spec_signature(&self) -> ResType {
        self.signature
    }

    /// The bundle identifier of the application.
    pub closed spec fn spec_bundle_id(&self) -> Seq<char> {
        self.bundle_id@
    }

    /// The object that the property is written to.
    pub closed spec fn spec_target(&self) -> AEDesc {
        *self.target_object
    }

    /// The query.
    pub closed spec fn spec_query(&self) -> Seq<char> {
        self.query@
    }

    /// The set-data event that carries `value`: of the core suite,
    /// addressed to the application by its bundle identifier, with the
    /// query and, as its arguments, the value and then, unless the query
    /// names the null object, the target.
    pub open spec fn set_event(&self, value: DescriptorModel) -> EventModel {
        EventModel {
            event_class: ResType(K_AE_CORE_SUITE),
            event_id: ResType(K_AE_SET_DATA),
            address_type: ResType(TYPE_APPLICATION_BUNDLE_ID),
            address: self.spec_bundle_id(),
            return_id: K_AUTO_GENERATE_RETURN_ID,
            transaction_id: K_ANY_TRANSACTION_ID,
            query: self.spec_query(),
            arguments: seq![ArgumentModel::Value(value)] + target_arguments(self.spec_target()),
        }
    }

    /// The writer of `property` of `target_object` in the application with
    /// the given signature and bundle identifier. Nothing is sent yet; a
    /// property that cannot stand in a query is refused.
    pub fn new(
        signature: ResType,
        bundle_id: &str,
        target_object: &'a AEDesc,
        property: DescType,
    ) -> (r: Result<EventPropertyWriter<'a>, EventError>)
        ensures
            property.spec_is_encodable() ==> (r matches Ok(writer) && writer.spec_signature()
                == signature && writer.spec_bundle_id() == bundle_id@ && writer.spec_target()
                == *target_object && writer.spec_query() == setter_query(
                property,
                target_object.spec_is_null(),
            )),
            !property.spec_is_encodable() ==> (r matches Err(e) && e == EventError::InvalidGrammar),
    {
        match property_setter_format(target_object, property) {
            Ok(query) => Ok(
                EventPropertyWriter {
                    signature,
                    bundle_id: String::from_str(bundle_id),
                    target_object,
                    query,
                },
            ),
            Err(e) => Err(e),
        }
    }

    /// The set-data event that carries `property`, to be built by the
    /// transport and sent without waiting for a reply.
    pub fn write(&self, property: DescriptorBuild) -> (r: EventRequest)
        ensures
            r@ == self.set_event(property@),
    {
        let ghost value = property@;
        let mut arguments: Vec<Argument> = Vec::new();
        arguments.push(Argument::Value(property));
        if !self.target_object.is_null() {
            arguments.push(Argument::lend(self.target_object));
        }
        let r = EventRequest {
            event_class: ResType(K_AE_CORE_SUITE),
            event_id: ResType(K_AE_SET_DATA),
            address_type: ResType(TYPE_APPLICATION_BUNDLE_ID),
            address: self.bundle_id.clone(),
            return_id: K_AUTO_GENERATE_RETURN_ID,
            transaction_id: K_ANY_TRANSACTION_ID,
            query: self.query.clone(),
            arguments,
        };
        assert(r@.arguments =~= seq![ArgumentModel::Value(value)] + target_arguments(
            self.spec_target(),
        ));
        r
    }

    /// How the set-data event is sent: no reply is asked for.
    pub fn send_options(&self) -> (r: SendOptions)
        ensures
            r == setter_send_options(),
    {
        SendOptions { wait_for_reply: false, never_interact: false, timeout: K_AE_DEFAULT_TIMEOUT }
    }
}

/// An object of a remote application: the application itself, or
/// something in it that a descriptor names.
pub trait EventedObject {
    /// The signature of the application.
    spec fn spec_signature(&self) -> ResType;

    /// The bundle identifier of the application.
    spec fn spec_bundle_id(&self) -> Seq<char>;

    /// The descriptor that names the object; the null descriptor names the
    /// application itself.
    spec fn spec_target_object(&self) -> AEDesc;

    /// The signature of the application.
    fn signature(&self) -> (r: ResType)
        ensures
            r == self.spec_signature(),
    ;

    /// The bundle identifier of the application.
    fn bundle_id(&self) -> (r: &str)
        ensures
            r@ == self.spec_bundle_id(),
    ;

    /// The descriptor that names the object.
    fn target_object(&self) -> (r: &AEDesc)
        ensures
            *r == self.spec_target_object(),
    ;

    /// Begins to write `value` to `property` of the object: the set-data
    /// event, to be built and sent. A property that cannot stand in a query
    /// is refused first, then a value that cannot be written.
    fn set_property<T: EventPropertyType>(&self, property: DescType, value: &T) -> (r: Result<
        EventRequest,
        EventError,
    >)
        ensures
            !property.spec_is_encodable() ==> (r matches Err(e) && e == EventError::InvalidGrammar),
            property.spec_is_encodable() ==> match r {
                Ok(request) => T::unwritable(value@) is None && request@ == setter_event(
                    self.spec_bundle_id(),
                    self.spec_target_object(),
                    property,
                    descriptor_model(T::type_tag(), T::encoded(value@)),
                ),
                Err(e) => T::unwritable(value@) == Some(e),
            },
    {
        match EventPropertyWriter::new(
            self.signature(),
            self.bundle_id(),
            self.target_object(),
            property,
        ) {
            Ok(writer) => value.write(writer),
            Err(e) => Err(e),
        }
    }

    /// Begins to read `property` of the object: the reader whose get-data
    /// event is to be built and sent. A property that cannot stand in a
    /// query is refused.
    fn get_property<'a>(&'a self, property: DescType) -> (r: Result<
        EventPropertyReader<'a>,
        EventError,
    >)
        ensures
            !property.spec_is_encodable() ==> (r matches Err(e) && e == EventError::InvalidGrammar),
            property.spec_is_encodable() ==> (r matches Ok(reader) && reader.spec_signature()
                == self.spec_signature() && reader.spec_bundle_id() == self.spec_bundle_id()
                && reader.spec_target() == self.spec_target_object() && reader.get_event()
                == getter_event(self.spec_bundle_id(), self.spec_target_object(), property)),
    {
        EventPropertyReader::new(
            self.signature(),
            self.bundle_id(),
            self.target_object(),
            property,
        )
    }
}

/// The get-data event for `property` of `target` in the application with
/// the bundle identifier `bundle_id`.
pub open spec fn getter_event(bundle_id: Seq<char>, target: AEDesc, property: DescType)
    -> EventModel {
    EventModel {
        event_class: ResType(K_AE_CORE_SUITE),
        event_id: ResType(K_AE_GET_DATA),
        address_type: ResType(TYPE_APPLICATION_BUNDLE_ID),
        address: bundle_id,
        return_id: K_AUTO_GENERATE_RETURN_ID,
        transaction_id: K_ANY_TRANSACTION_ID,
        query: getter_query(property, target.spec_is_null()),
        arguments: target_arguments(target),
    }
}

/// The set-data event that writes `value` to `property` of `target` in the
/// application with the bundle identifier `bundle_id`.
pub open spec fn setter_event(
    bundle_id: Seq<char>,
    target: AEDesc,
    property: DescType,
    value: DescriptorModel,
) -> EventModel {
    EventModel {
        event_class: ResType(K_AE_CORE_SUITE),
        event_id: ResType(K_AE_SET_DATA),
        address_type: ResType(TYPE_APPLICATION_BUNDLE_ID),
        address: bundle_id,
        return_id: K_AUTO_GENERATE_RETURN_ID,
        transaction_id: K_ANY_TRANSACTION_ID,
        query: setter_query(property, target.spec_is_null()),
        arguments: seq![ArgumentModel::Value(value)] + target_arguments(target),
    }
}

/// An object that stands for a whole application: its signature and bundle
/// identifier are fixed, and its target is the null descriptor.
pub trait EventedRootObject: EventedObject {

}

/// An object inside an application, named by the descriptor that a read of
/// a property gave.
pub trait EventedSubObject: EventedObject + Sized {
    /// The object of the application with the given signature and bundle
    /// identifier that `target_object` names; the object owns the
    /// descriptor from then on.
    fn instantiate(signature: ResType, bundle_id: &str, target_object: AEDesc) -> (r: Self)
        ensures
            r.spec_signature() == signature,
            r.spec_bundle_id() == bundle_id@,
            r.spec_target_object() == target_object,
    ;

    /// Makes the object that the reply's direct parameter names. The
    /// object shares the application of the reader and takes the
    /// descriptor over, which leaves `descriptor` null. A null descriptor
    /// names nothing: the value is absent, and the descriptor is left as
    /// it is for its owner to release.
    fn read(reader: &EventPropertyReader, descriptor: &mut AEDesc) -> (r: Option<Self>)
        ensures
            old(descriptor).spec_is_null() ==> r is None && *final(descriptor) == *old(descriptor),
            !old(descriptor).spec_is_null() ==> (r matches Some(object) && object.spec_signature()
                == reader.spec_signature() && object.spec_bundle_id() == reader.spec_bundle_id()
                && object.spec_target_object() == *old(descriptor)) && *final(descriptor)
                == AEDesc::null(),
    {
        if descriptor.is_null() {
            None
        } else {
            let target = descriptor.take();
            Some(Self::instantiate(reader.signature(), reader.bundle_id(), target))
        }
    }
}

} // verus!
