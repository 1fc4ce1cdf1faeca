//! The codecs: how a value of each supported type is written as a typed
//! buffer and read back from one.
//!
//! Reading follows one policy for every type. A reply of type `null` is an
//! absent value. A reply of a type that the codec accepts is fetched and
//! decoded. A reply of any other type cannot be read as the type asked for.

use crate::error::{EventError, TypeName};
use crate::events::{EventPropertyWriter, PropertyDescriptor};
use crate::request::{DescriptorBuild, DescriptorModel, EventRequest};
use crate::sys::{
    DescType, ResType, TYPE_BOOLEAN, TYPE_CHAR, TYPE_ENUMERATED, TYPE_IEEE_64_BIT_FLOATING_POINT,
    TYPE_NULL, TYPE_S_INT_16, TYPE_S_INT_32, TYPE_S_INT_64, TYPE_UNICODE_TEXT, TYPE_VERSION,
};
use crate::text::{
    ascii_decoded, decode_ascii, decode_utf16le, encode_utf16le, lemma_utf16le_round_trip,
    utf16le_decoded, utf16le_text,
};
use crate::wire::{
    decode_int, decode_uint, encode_int, encode_uint, int_bytes, int_value, le_bytes, le_value,
    lemma_int_round_trip, lemma_le_bytes_len, lemma_le_round_trip, lemma_pow256_values,
};
use vstd::prelude::*;

verus! {

/// The query from which the transport builds a descriptor of type
/// `type_tag`: the quoted type, and a placeholder for the data.
pub open spec fn desc_format(type_tag: DescType) -> Seq<char> {
    type_tag.quoted_text() + "(@)"@
}

/// The descriptor of type `type_tag` over `data`, to be built.
pub open spec fn descriptor_model(type_tag: DescType, data: Seq<u8>) -> DescriptorModel {
    DescriptorModel { format: desc_format(type_tag), type_tag, data }
}

/// Asks for a descriptor of type `type_tag` over `data`. A type that cannot
/// stand in a query is refused before anything reaches the transport.
pub fn build_desc(type_tag: DescType, data: Vec<u8>) -> (r: Result<DescriptorBuild, EventError>)
    ensures
        type_tag.spec_is_encodable() ==> r is Ok && r.unwrap()@ == descriptor_model(
            type_tag,
            data@,
        ),
        !type_tag.spec_is_encodable() ==> r == Err::<DescriptorBuild, EventError>(
            EventError::InvalidGrammar,
        ),
{
    if !type_tag.is_encodable() {
        return Err(EventError::InvalidGrammar);
    }
    let mut format = type_tag.quoted();
    format.append("(@)");
    Ok(DescriptorBuild { format, type_tag, data })
}

/// What to do with a reply whose direct parameter has a given type and
/// size.
#[derive(Clone, Copy, PartialEq, Eq, Debug, Structural)]
pub enum ReadPlan {
    /// The value is absent: nothing is fetched.
    Absent,
    /// The bytes are fetched as the type `wanted`, into room for `capacity`
    /// bytes.
    Fetch {
        /// The type asked for.
        wanted: DescType,
        /// The room for the bytes.
        capacity: usize,
    },
    /// The reply cannot be read as the type asked for.
    Mismatch {
        /// The type asked for.
        expected: TypeName,
    },
}

/// A type that can be the value of a property: it says which reply types
/// it accepts, how their bytes are read, and how a value is written.
pub trait EventPropertyType: Sized + View {
    /// The name of the type in a decode failure.
    spec fn spec_name() -> TypeName;

    /// The type of the descriptor that a value is written as.
    spec fn type_tag() -> DescType;

    /// The type under which the bytes of a reply of type `prop_type` are
    /// asked for, if the codec accepts such a reply.
    spec fn wanted_type(prop_type: DescType) -> Option<DescType>;

    /// The value that `data`, fetched as the type `wanted`, stands for, if
    /// it stands for one.
    spec fn decoded(wanted: DescType, data: Seq<u8>) -> Option<Self::V>;

    /// The data of the descriptor that `value` is written as.
    spec fn encoded(value: Self::V) -> Seq<u8>;

    /// Why `value` cannot be written, if it cannot.
    spec fn unwritable(value: Self::V) -> Option<EventError>;

    /// What is written is read back as the same value: the codec writes
    /// a type other than `null`, accepts that type as it is, and decodes
    /// what it encoded.
    proof fn lemma_round_trip(value: Self::V)
        ensures
            Self::type_tag() != ResType(TYPE_NULL),
            Self::wanted_type(Self::type_tag()) == Some(Self::type_tag()),
            Self::decoded(Self::type_tag(), Self::encoded(value)) == Some(value),
    ;

    /// The name of the type in a decode failure.
    fn name() -> (r: TypeName)
        ensures
            r == Self::spec_name(),
    ;

    /// The type under which the bytes of a reply of type `prop_type` are
    /// asked for, if the codec accepts such a reply.
    fn wanted(prop_type: DescType) -> (r: Option<DescType>)
        ensures
            r == Self::wanted_type(prop_type),
    ;

    /// Reads the value from `data`, which was fetched as the type `wanted`.
    fn read(wanted: DescType, data: &[u8]) -> (r: Result<Self, EventError>)
        ensures
            match r {
                Ok(value) => Self::decoded(wanted, data@) == Some(value@),
                Err(e) => Self::decoded(wanted, data@) is None && e == (EventError::DecodeMismatch {
                    expected: Self::spec_name(),
                }),
            },
    ;

    /// Writes the value: the descriptor that holds it, to be built.
    fn to_desc(&self) -> (r: Result<DescriptorBuild, EventError>)
        ensures
            match r {
                Ok(build) => Self::unwritable(self@) is None && build@ == descriptor_model(
                    Self::type_tag(),
                    Self::encoded(self@),
                ),
                Err(e) => Self::unwritable(self@) == Some(e),
            },
    ;

    /// Writes the value through `writer`: the set-data event that carries
    /// it, to be built and sent.
    fn write(&self, writer: EventPropertyWriter) -> (r: Result<EventRequest, EventError>)
        ensures
            match r {
                Ok(request) => Self::unwritable(self@) is None && request@ == writer.set_event(
                    descriptor_model(Self::type_tag(), Self::encoded(self@)),
                ),
                Err(e) => Self::unwritable(self@) == Some(e),
            },
    {
        match self.to_desc() {
            Ok(build) => Ok(writer.write(build)),
            Err(e) => Err(e),
        }
    }
}

/// What the reading policy makes of a reply of type `prop_type` and size
/// `size`, for the codec `T`.
pub open spec fn spec_plan<T: EventPropertyType>(prop_type: DescType, size: usize) -> ReadPlan {
    if prop_type == ResType(TYPE_NULL) {
        ReadPlan::Absent
    } else {
        match T::wanted_type(prop_type) {
            Some(wanted) => ReadPlan::Fetch { wanted, capacity: size },
            None => ReadPlan::Mismatch { expected: T::spec_name() },
        }
    }
}

/// What a reply of type `prop_type` is read as by the codec `T`, once its
/// bytes `data` have been fetched: nothing for `null`, the decoded value for
/// an accepted type, a failure that names `T` for any other type and for
/// bytes that do not decode.
pub open spec fn spec_reading<T: EventPropertyType>(prop_type: DescType, data: Seq<u8>) -> Result<
    Option<T::V>,
    EventError,
> {
    if prop_type == ResType(TYPE_NULL) {
        Ok(None)
    } else {
        match T::wanted_type(prop_type) {
            Some(wanted) => match T::decoded(wanted, data) {
                Some(value) => Ok(Some(value)),
                None => Err(EventError::DecodeMismatch { expected: T::spec_name() }),
            },
            None => Err(EventError::DecodeMismatch { expected: T::spec_name() }),
        }
    }
}

/// Decides what to do with a reply described by `descriptor`.
pub fn plan<T: EventPropertyType>(descriptor: &PropertyDescriptor) -> (r: ReadPlan)
    ensures
        r == spec_plan::<T>(descriptor.spec_prop_type(), descriptor.spec_size()),
{
    if descriptor.prop_type() == ResType(TYPE_NULL) {
        ReadPlan::Absent
    } else {
        match T::wanted(descriptor.prop_type()) {
            Some(wanted) => ReadPlan::Fetch { wanted, capacity: descriptor.size() },
            None => ReadPlan::Mismatch { expected: T::name() },
        }
    }
}

/// A reply of type `null` is an absent value, for every codec.
pub proof fn lemma_null_is_absent<T: EventPropertyType>(size: usize, data: Seq<u8>)
    ensures
        spec_plan::<T>(ResType(TYPE_NULL), size) == ReadPlan::Absent,
        spec_reading::<T>(ResType(TYPE_NULL), data) == Ok::<Option<T::V>, EventError>(None),
{
}

/// A reply of a type that the codec does not accept is a decode failure
/// that names the type asked for, for every codec.
pub proof fn lemma_foreign_is_mismatch<T: EventPropertyType>(
    prop_type: DescType,
    size: usize,
    data: Seq<u8>,
)
    requires
        prop_type != ResType(TYPE_NULL),
        T::wanted_type(prop_type) is None,
    ensures
        spec_plan::<T>(prop_type, size) == (ReadPlan::Mismatch { expected: T::spec_name() }),
        spec_reading::<T>(prop_type, data) == Err::<Option<T::V>, EventError>(
            EventError::DecodeMismatch { expected: T::spec_name() },
        ),
{
}

/// A value that was written is read back as itself, for every codec: the
/// reply that carries the written type and data decodes to the value.
pub proof fn lemma_codec_round_trip<T: EventPropertyType>(value: T::V)
    ensures
        spec_reading::<T>(T::type_tag(), T::encoded(value)) == Ok::<Option<T::V>, EventError>(
            Some(value),
        ),
{
    T::lemma_round_trip(value);
}

/// A type whose codec is given by another trait of the type. Every such
/// type is a property type.
pub trait AutoPropertyType: Sized + View {
    /// See [`EventPropertyType::spec_name`].
    spec fn auto_spec_name() -> TypeName;

    /// See [`EventPropertyType::type_tag`].
    spec fn auto_type_tag() -> DescType;

    /// See [`EventPropertyType::wanted_type`].
    spec fn auto_wanted_type(prop_type: DescType) -> Option<DescType>;

    /// See [`EventPropertyType::decoded`].
    spec fn auto_decoded(wanted: DescType, data: Seq<u8>) -> Option<Self::V>;

    /// See [`EventPropertyType::encoded`].
    spec fn auto_encoded(value: Self::V) -> Seq<u8>;

    /// See [`EventPropertyType::unwritable`].
    spec fn auto_unwritable(value: Self::V) -> Option<EventError>;

    /// See [`EventPropertyType::lemma_round_trip`].
    proof fn lemma_auto_round_trip(value: Self::V)
        ensures
            Self::auto_type_tag() != ResType(TYPE_NULL),
            Self::auto_wanted_type(Self::auto_type_tag()) == Some(Self::auto_type_tag()),
            Self::auto_decoded(Self::auto_type_tag(), Self::auto_encoded(value)) == Some(value),
    ;

    /// See [`EventPropertyType::name`].
    fn auto_name() -> (r: TypeName)
        ensures
            r == Self::auto_spec_name(),
    ;

    /// See [`EventPropertyType::wanted`].
    fn auto_wanted(prop_type: DescType) -> (r: Option<DescType>)
        ensures
            r == Self::auto_wanted_type(prop_type),
    ;

    /// See [`EventPropertyType::read`].
    fn read(wanted: DescType, data: &[u8]) -> (r: Result<Self, EventError>)
        ensures
            match r {
                Ok(value) => Self::auto_decoded(wanted, data@) == Some(value@),
                Err(e) => Self::auto_decoded(wanted, data@) is None && e == (
                EventError::DecodeMismatch { expected: Self::auto_spec_name() }),
            },
    ;

    /// See [`EventPropertyType::to_desc`].
    fn to_desc(&self) -> (r: Result<DescriptorBuild, EventError>)
        ensures
            match r {
                Ok(build) => Self::auto_unwritable(self@) is None && build@ == descriptor_model(
                    Self::auto_type_tag(),
                    Self::auto_encoded(self@),
                ),
                Err(e) => Self::auto_unwritable(self@) == Some(e),
            },
    ;
}

impl<T: AutoPropertyType> EventPropertyType for T {
    open spec fn spec_name() -> TypeName {
        T::auto_spec_name()
    }

    open spec fn type_tag() -> DescType {
        T::auto_type_tag()
    }

    open spec fn wanted_type(prop_type: DescType) -> Option<DescType> {
        T::auto_wanted_type(prop_type)
    }

    open spec fn decoded(wanted: DescType, data: Seq<u8>) -> Option<T::V> {
        T::auto_decoded(wanted, data)
    }

    open spec fn encoded(value: T::V) -> Seq<u8> {
        T::auto_encoded(value)
    }

    open spec fn unwritable(value: T::V) -> Option<EventError> {
        T::auto_unwritable(value)
    }

    proof fn lemma_round_trip(value: T::V) {
        T::lemma_auto_round_trip(value);
    }

    fn name() -> (r: TypeName) {
        T::auto_name()
    }

    fn wanted(prop_type: DescType) -> (r: Option<DescType>) {
        T::auto_wanted(prop_type)
    }

    fn read(wanted: DescType, data: &[u8]) -> (r: Result<T, EventError>) {
        <T as AutoPropertyType>::read(wanted, data)
    }

    fn to_desc(&self) -> (r: Result<DescriptorBuild, EventError>) {
        <T as AutoPropertyType>::to_desc(self)
    }
}

/// The symbols of an enumeration, each with its four-byte wire code.
pub trait EventEnum: Sized + Copy {
    /// The symbol with the wire code `value`, if there is one.
    spec fn spec_from_int(value: u32) -> Option<Self>;

    /// The wire code of the symbol.
    spec fn spec_to_int(self) -> u32;

    /// Every symbol is found again under its own wire code.
    proof fn lemma_symbol_of_code(self)
        ensures
            Self::spec_from_int(self.spec_to_int()) == Some(self),
    ;

    /// The symbol with the wire code `value`, if there is one.
    fn from_int(value: u32) -> (r: Option<Self>)
        ensures
            r == Self::spec_from_int(value),
    ;

    /// The wire code of the symbol.
    fn to_int(self) -> (r: u32)
        ensures
            r == self.spec_to_int(),
    ;

    /// The symbol whose wire code the four-character code reads as.
    fn from_res_type(res_type: ResType) -> (r: Option<Self>)
        ensures
            r == Self::spec_from_int(res_type.spec_to_u32()),
    {
        Self::from_int(res_type.to_u32())
    }

    /// The wire code of the symbol as a four-character code.
    fn to_res_type(self) -> (r: ResType)
        ensures
            r.spec_to_u32() == crate::sys::normalized(self.spec_to_int()),
    {
        ResType::new(self.to_int())
    }

    /// Reads a symbol from the bytes of an enumerated value. A code that
    /// no symbol has cannot be read as the enumeration.
    fn read(wanted: DescType, data: &[u8]) -> (r: Result<Self, EventError>)
        ensures
            match r {
                Ok(value) => data@.len() <= 4 && Self::spec_from_int(le_value(data@) as u32)
                    == Some(value),
                Err(e) => (data@.len() > 4 || Self::spec_from_int(le_value(data@) as u32) is None)
                    && e == (EventError::DecodeMismatch { expected: TypeName::Enum }),
            },
    {
        match decode_uint(data, 4) {
            Some(code) => {
                proof {
                    lemma_pow256_values();
                }
                match Self::from_int(code as u32) {
                    Some(symbol) => Ok(symbol),
                    None => Err(EventError::DecodeMismatch { expected: TypeName::Enum }),
                }
            },
            None => Err(EventError::DecodeMismatch { expected: TypeName::Enum }),
        }
    }

    /// Writes the symbol as an enumerated value of its wire code.
    fn to_desc(&self) -> (r: Result<DescriptorBuild, EventError>)
        ensures
            r is Ok,
            r.unwrap()@ == descriptor_model(
                ResType(TYPE_ENUMERATED),
                le_bytes(self.spec_to_int() as nat, 4),
            ),
    {
        build_desc(ResType(TYPE_ENUMERATED), encode_uint(self.to_int() as u64, 4))
    }
}

/// The reply type that an enumeration accepts: the enumerated one.
pub open spec fn enum_wanted_type(prop_type: DescType) -> Option<DescType> {
    if prop_type == ResType(TYPE_ENUMERATED) {
        Some(prop_type)
    } else {
        None
    }
}

/// The symbol that the bytes of an enumerated value stand for.
pub open spec fn enum_decoded<E: EventEnum>(data: Seq<u8>) -> Option<E> {
    if data.len() <= 4 {
        E::spec_from_int(le_value(data) as u32)
    } else {
        None
    }
}

/// The bytes of the enumerated value of a symbol.
pub open spec fn enum_encoded<E: EventEnum>(symbol: E) -> Seq<u8> {
    le_bytes(symbol.spec_to_int() as nat, 4)
}

/// The bytes of a symbol stand for the symbol.
pub proof fn lemma_enum_round_trip<E: EventEnum>(symbol: E)
    ensures
        enum_decoded::<E>(enum_encoded(symbol)) == Some(symbol),
{
    lemma_pow256_values();
    lemma_le_bytes_len(symbol.spec_to_int() as nat, 4);
    lemma_le_round_trip(symbol.spec_to_int() as nat, 4);
    symbol.lemma_symbol_of_code();
}

/// The reply type that an enumeration accepts, if `prop_type` is it.
pub fn enum_wanted(prop_type: DescType) -> (r: Option<DescType>)
    ensures
        r == enum_wanted_type(prop_type),
{
    if prop_type == ResType(TYPE_ENUMERATED) {
        Some(prop_type)
    } else {
        None
    }
}

/// A 64-bit IEEE floating point number, held as its bits.
#[derive(Clone, Copy, PartialEq, Eq, Debug, Structural)]
pub struct Float64 {
    /// The bits of the number, the sign highest.
    pub bits: u64,
}

impl View for Float64 {
    type V = Float64;

    open spec fn view(&self) -> Float64 {
        *self
    }
}

/// The single reply type `tag`, accepted as it is.
pub open spec fn only(tag: u32, prop_type: DescType) -> Option<DescType> {
    if prop_type == ResType(tag) {
        Some(prop_type)
    } else {
        None
    }
}

fn only_wanted(tag: u32, prop_type: DescType) -> (r: Option<DescType>)
    ensures
        r == only(tag, prop_type),
{
    if prop_type == ResType(tag) {
        Some(prop_type)
    } else {
        None
    }
}

impl EventPropertyType for String {
    open spec fn spec_name() -> TypeName {
        TypeName::String
    }

    open spec fn type_tag() -> DescType {
        ResType(TYPE_UNICODE_TEXT)
    }

    open spec fn wanted_type(prop_type: DescType) -> Option<DescType> {
        if prop_type == ResType(TYPE_UNICODE_TEXT) || prop_type == ResType(TYPE_VERSION) {
            Some(ResType(TYPE_UNICODE_TEXT))
        } else if prop_type == ResType(TYPE_CHAR) {
            Some(ResType(TYPE_CHAR))
        } else {
            None
        }
    }

    open spec fn decoded(wanted: DescType, data: Seq<u8>) -> Option<Seq<char>> {
        if wanted == ResType(TYPE_UNICODE_TEXT) {
            utf16le_decoded(data)
        } else if wanted == ResType(TYPE_CHAR) {
            ascii_decoded(data)
        } else {
            None
        }
    }

    open spec fn encoded(value: Seq<char>) -> Seq<u8> {
        utf16le_text(value)
    }

    open spec fn unwritable(value: Seq<char>) -> Option<EventError> {
        None
    }

    proof fn lemma_round_trip(value: Seq<char>) {
        lemma_utf16le_round_trip(value);
    }

    fn name() -> (r: TypeName) {
        TypeName::String
    }

    fn wanted(prop_type: DescType) -> (r: Option<DescType>) {
        if prop_type == ResType(TYPE_UNICODE_TEXT) || prop_type == ResType(TYPE_VERSION) {
            Some(ResType(TYPE_UNICODE_TEXT))
        } else if prop_type == ResType(TYPE_CHAR) {
            Some(ResType(TYPE_CHAR))
        } else {
            None
        }
    }

    fn read(wanted: DescType, data: &[u8]) -> (r: Result<String, EventError>) {
        if wanted == ResType(TYPE_UNICODE_TEXT) {
            decode_utf16le(data)
        } else if wanted == ResType(TYPE_CHAR) {
            decode_ascii(data)
        } else {
            Err(EventError::DecodeMismatch { expected: TypeName::String })
        }
    }

    fn to_desc(&self) -> (r: Result<DescriptorBuild, EventError>)
        ensures
            r is Ok,
    {
        match encode_utf16le(self.as_str()) {
            Ok(data) => build_desc(ResType(TYPE_UNICODE_TEXT), data),
            Err(e) => Err(e),
        }
    }
}

impl EventPropertyType for bool {
    open spec fn spec_name() -> TypeName {
        TypeName::Bool
    }

    open spec fn type_tag() -> DescType {
        ResType(TYPE_BOOLEAN)
    }

    open spec fn wanted_type(prop_type: DescType) -> Option<DescType> {
        only(TYPE_BOOLEAN, prop_type)
    }

    open spec fn decoded(wanted: DescType, data: Seq<u8>) -> Option<bool> {
        if data.len() <= 1 {
            Some(le_value(data) != 0)
        } else {
            None
        }
    }

    open spec fn encoded(value: bool) -> Seq<u8> {
        le_bytes(
            if value {
                1
            } else {
                0
            },
            1,
        )
    }

    open spec fn unwritable(value: bool) -> Option<EventError> {
        None
    }

    proof fn lemma_round_trip(value: bool) {
        lemma_pow256_values();
        let n: nat = if value {
            1
        } else {
            0
        };
        lemma_le_bytes_len(n, 1);
        lemma_le_round_trip(n, 1);
    }

    fn name() -> (r: TypeName) {
        TypeName::Bool
    }

    fn wanted(prop_type: DescType) -> (r: Option<DescType>) {
        only_wanted(TYPE_BOOLEAN, prop_type)
    }

    fn read(wanted: DescType, data: &[u8]) -> (r: Result<bool, EventError>) {
        proof {
            lemma_pow256_values();
        }
        match decode_uint(data, 1) {
            Some(n) => Ok(n != 0),
            None => Err(EventError::DecodeMismatch { expected: TypeName::Bool }),
        }
    }

    fn to_desc(&self) -> (r: Result<DescriptorBuild, EventError>)
        ensures
            r is Ok,
    {
        let n: u64 = if *self {
            1
        } else {
            0
        };
        build_desc(ResType(TYPE_BOOLEAN), encode_uint(n, 1))
    }
}

impl EventPropertyType for Float64 {
    open spec fn spec_name() -> TypeName {
        TypeName::F64
    }

    open spec fn type_tag() -> DescType {
        ResType(TYPE_IEEE_64_BIT_FLOATING_POINT)
    }

    open spec fn wanted_type(prop_type: DescType) -> Option<DescType> {
        only(TYPE_IEEE_64_BIT_FLOATING_POINT, prop_type)
    }

    open spec fn decoded(wanted: DescType, data: Seq<u8>) -> Option<Float64> {
        if data.len() <= 8 {
            Some(Float64 { bits: le_value(data) as u64 })
        } else {
            None
        }
    }

    open spec fn encoded(value: Float64) -> Seq<u8> {
        le_bytes(value.bits as nat, 8)
    }

    open spec fn unwritable(value: Float64) -> Option<EventError> {
        None
    }

    proof fn lemma_round_trip(value: Float64) {
        lemma_pow256_values();
        lemma_le_bytes_len(value.bits as nat, 8);
        lemma_le_round_trip(value.bits as nat, 8);
    }

    fn name() -> (r: TypeName) {
        TypeName::F64
    }

    fn wanted(prop_type: DescType) -> (r: Option<DescType>) {
        only_wanted(TYPE_IEEE_64_BIT_FLOATING_POINT, prop_type)
    }

    fn read(wanted: DescType, data: &[u8]) -> (r: Result<Float64, EventError>) {
        proof {
            lemma_pow256_values();
        }
        match decode_uint(data, 8) {
            Some(bits) => Ok(Float64 { bits }),
            None => Err(EventError::DecodeMismatch { expected: TypeName::F64 }),
        }
    }

    fn to_desc(&self) -> (r: Result<DescriptorBuild, EventError>)
        ensures
            r is Ok,
    {
        build_desc(ResType(TYPE_IEEE_64_BIT_FLOATING_POINT), encode_uint(self.bits, 8))
    }
}

impl EventPropertyType for i16 {
    open spec fn spec_name() -> TypeName {
        TypeName::I16
    }

    open spec fn type_tag() -> DescType {
        ResType(TYPE_S_INT_16)
    }

    open spec fn wanted_type(prop_type: DescType) -> Option<DescType> {
        only(TYPE_S_INT_16, prop_type)
    }

    open spec fn decoded(wanted: DescType, data: Seq<u8>) -> Option<i16> {
        if data.len() <= 2 {
            Some(int_value(data, 2) as i16)
        } else {
            None
        }
    }

    open spec fn encoded(value: i16) -> Seq<u8> {
        int_bytes(value as int, 2)
    }

    open spec fn unwritable(value: i16) -> Option<EventError> {
        None
    }

    proof fn lemma_round_trip(value: i16) {
        lemma_pow256_values();
        lemma_int_round_trip(value as int, 2);
    }

    fn name() -> (r: TypeName) {
        TypeName::I16
    }

    fn wanted(prop_type: DescType) -> (r: Option<DescType>) {
        only_wanted(TYPE_S_INT_16, prop_type)
    }

    fn read(wanted: DescType, data: &[u8]) -> (r: Result<i16, EventError>) {
        proof {
            lemma_pow256_values();
        }
        match decode_int(data, 2) {
            Some(n) => Ok(n as i16),
            None => Err(EventError::DecodeMismatch { expected: TypeName::I16 }),
        }
    }

    fn to_desc(&self) -> (r: Result<DescriptorBuild, EventError>)
        ensures
            r is Ok,
    {
        proof {
            lemma_pow256_values();
        }
        build_desc(ResType(TYPE_S_INT_16), encode_int(*self as i64, 2))
    }
}

impl EventPropertyType for i32 {
    open spec fn spec_name() -> TypeName {
        TypeName::I32
    }

    open spec fn type_tag() -> DescType {
        ResType(TYPE_S_INT_32)
    }

    open spec fn wanted_type(prop_type: DescType) -> Option<DescType> {
        only(TYPE_S_INT_32, prop_type)
    }

    open spec fn decoded(wanted: DescType, data: Seq<u8>) -> Option<i32> {
        if data.len() <= 4 {
            Some(int_value(data, 4) as i32)
        } else {
            None
        }
    }

    open spec fn encoded(value: i32) -> Seq<u8> {
        int_bytes(value as int, 4)
    }

    open spec fn unwritable(value: i32) -> Option<EventError> {
        None
    }

    proof fn lemma_round_trip(value: i32) {
        lemma_pow256_values();
        lemma_int_round_trip(value as int, 4);
    }

    fn name() -> (r: TypeName) {
        TypeName::I32
    }

    fn wanted(prop_type: DescType) -> (r: Option<DescType>) {
        only_wanted(TYPE_S_INT_32, prop_type)
    }

    fn read(wanted: DescType, data: &[u8]) -> (r: Result<i32, EventError>) {
        proof {
            lemma_pow256_values();
        }
        match decode_int(data, 4) {
            Some(n) => Ok(n as i32),
            None => Err(EventError::DecodeMismatch { expected: TypeName::I32 }),
        }
    }

    fn to_desc(&self) -> (r: Result<DescriptorBuild, EventError>)
        ensures
            r is Ok,
    {
        proof {
            lemma_pow256_values();
        }
        build_desc(ResType(TYPE_S_INT_32), encode_int(*self as i64, 4))
    }
}

impl EventPropertyType for i64 {
    open spec fn spec_name() -> TypeName {
        TypeName::I64
    }

    open spec fn type_tag() -> DescType {
        ResType(TYPE_S_INT_64)
    }

    open spec fn wanted_type(prop_type: DescType) -> Option<DescType> {
        only(TYPE_S_INT_64, prop_type)
    }

    open spec fn decoded(wanted: DescType, data: Seq<u8>) -> Option<i64> {
        if data.len() <= 8 {
            Some(int_value(data, 8) as i64)
        } else {
            None
        }
    }

    open spec fn encoded(value: i64) -> Seq<u8> {
        int_bytes(value as int, 8)
    }

    open spec fn unwritable(value: i64) -> Option<EventError> {
        None
    }

    proof fn lemma_round_trip(value: i64) {
        lemma_pow256_values();
        lemma_int_round_trip(value as int, 8);
    }

    fn name() -> (r: TypeName) {
        TypeName::I64
    }

    fn wanted(prop_type: DescType) -> (r: Option<DescType>) {
        only_wanted(TYPE_S_INT_64, prop_type)
    }

    fn read(wanted: DescType, data: &[u8]) -> (r: Result<i64, EventError>) {
        proof {
            lemma_pow256_values();
        }
        match decode_int(data, 8) {
            Some(n) => Ok(n),
            None => Err(EventError::DecodeMismatch { expected: TypeName::I64 }),
        }
    }

    fn to_desc(&self) -> (r: Result<DescriptorBuild, EventError>)
        ensures
            r is Ok,
    {
        proof {
            lemma_pow256_values();
        }
        build_desc(ResType(TYPE_S_INT_64), encode_int(*self, 8))
    }
}

} // verus!
