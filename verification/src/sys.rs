//! The vocabulary shared with the event transport: four-character codes,
//! descriptors, build errors and the numeric constants of the protocol.

use four_char_code::FourCharCode;
use vstd::prelude::*;

verus! {

/// Event class of the core suite (`core`).
pub const K_AE_CORE_SUITE: u32 = 0x636f7265;

/// Event id "get data" (`getd`).
pub const K_AE_GET_DATA: u32 = 0x67657464;

/// Event id "set data" (`setd`).
pub const K_AE_SET_DATA: u32 = 0x73657464;

/// Keyword of the direct parameter (`----`).
pub const KEY_DIRECT_OBJECT: u32 = 0x2d2d2d2d;

/// Address type "application bundle identifier" (`bund`).
pub const TYPE_APPLICATION_BUNDLE_ID: u32 = 0x62756e64;

/// Type of the null descriptor (`null`).
pub const TYPE_NULL: u32 = 0x6e756c6c;

/// Boolean (`bool`).
pub const TYPE_BOOLEAN: u32 = 0x626f6f6c;

/// Text in 16-bit units (`utxt`).
pub const TYPE_UNICODE_TEXT: u32 = 0x75747874;

/// Text in single bytes (`TEXT`).
pub const TYPE_CHAR: u32 = 0x54455854;

/// Version string (`vers`).
pub const TYPE_VERSION: u32 = 0x76657273;

/// Matches any type (`****`).
pub const TYPE_WILD_CARD: u32 = 0x2a2a2a2a;

/// Application signature (`sign`).
pub const TYPE_APPL_SIGNATURE: u32 = 0x7369676e;

/// Enumerated value (`enum`).
pub const TYPE_ENUMERATED: u32 = 0x656e756d;

/// 64-bit IEEE floating point number (`doub`).
pub const TYPE_IEEE_64_BIT_FLOATING_POINT: u32 = 0x646f7562;

/// Same as [`TYPE_IEEE_64_BIT_FLOATING_POINT`].
pub const TYPE_FLOAT: u32 = TYPE_IEEE_64_BIT_FLOATING_POINT;

/// Same as [`TYPE_IEEE_64_BIT_FLOATING_POINT`].
pub const TYPE_LONG_FLOAT: u32 = TYPE_IEEE_64_BIT_FLOATING_POINT;

/// 16-bit signed integer (`shor`).
pub const TYPE_S_INT_16: u32 = 0x73686f72;

/// Same as [`TYPE_S_INT_16`].
pub const TYPE_SM_INT: u32 = TYPE_S_INT_16;

/// Same as [`TYPE_S_INT_16`].
pub const TYPE_SHORT_INTEGER: u32 = TYPE_S_INT_16;

/// 32-bit signed integer (`long`).
pub const TYPE_S_INT_32: u32 = 0x6c6f6e67;

/// Same as [`TYPE_S_INT_32`].
pub const TYPE_INTEGER: u32 = TYPE_S_INT_32;

/// Same as [`TYPE_S_INT_32`].
pub const TYPE_LONG_INTEGER: u32 = TYPE_S_INT_32;

/// 64-bit signed integer (`comp`).
pub const TYPE_S_INT_64: u32 = 0x636f6d70;

/// Same as [`TYPE_S_INT_64`].
pub const TYPE_COMP: u32 = TYPE_S_INT_64;

/// A four-character code used as a value (`type`).
pub const TYPE_TYPE: u32 = 0x74797065;

/// Lets the transport pick the return id of an event.
pub const K_AUTO_GENERATE_RETURN_ID: i16 = -1;

/// An event outside any transaction.
pub const K_ANY_TRANSACTION_ID: i32 = 0;

/// The transport's own timeout, in ticks.
pub const K_AE_DEFAULT_TIMEOUT: i64 = -1;

/// Wait without limit.
pub const K_NO_TIME_OUT: i64 = -2;

/// Send mode: no reply is wanted.
pub const K_AE_NO_REPLY: i32 = 0x0000_0001;

/// Send mode: the reply is queued.
pub const K_AE_QUEUE_REPLY: i32 = 0x0000_0002;

/// Send mode: the sender blocks for the reply.
pub const K_AE_WAIT_REPLY: i32 = 0x0000_0003;

/// Send mode: the far end must never prompt the user.
pub const K_AE_NEVER_INTERACT: i32 = 0x0000_0010;

/// Send mode: the far end may prompt the user.
pub const K_AE_CAN_INTERACT: i32 = 0x0000_0020;

/// Send mode: the far end may always prompt the user.
pub const K_AE_ALWAYS_INTERACT: i32 = 0x0000_0030;

/// Send mode: the far end may come to the front.
pub const K_AE_CAN_SWITCH_LAYER: i32 = 0x0000_0040;

/// Send mode: do not reconnect on a session error.
pub const K_AE_DONT_RECONNECT: i32 = 0x0000_0080;

/// Send mode: a receipt is wanted.
pub const K_AE_WANT_RECEIPT: i32 = 0x0000_0200;

/// Send mode: the event is not recorded.
pub const K_AE_DONT_RECORD: i32 = 0x0000_1000;

/// Send mode: the event is recorded but not executed.
pub const K_AE_DONT_EXECUTE: i32 = 0x0000_2000;

/// Send mode: other events are processed while waiting.
pub const K_AE_PROCESS_NON_REPLY_EVENTS: i32 = 0x0000_8000;

/// Send mode: no annotations are added to the event.
pub const K_AE_DO_NOT_AUTOMATICALLY_ADD_ANNOTATIONS_TO_EVENT: i32 = 0x0001_0000;

/// Status of a transport call.
pub type OSStatus = i32;

/// Short status of a transport call.
pub type OSErr = i16;

/// Code of a failure to build an event or a descriptor.
pub type AEBuildErrorCode = u32;

/// The padded form of a code: a code whose last byte is zero has a space
/// put into every byte (bit `0x20` of each byte is set); any other code is
/// left as it is.
pub open spec fn normalized(value: u32) -> u32 {
    if value % 0x100 != 0 {
        value
    } else {
        value | 0x2020_2020
    }
}

/// The byte of `code` at `index`, the most significant byte first.
pub open spec fn code_byte(code: u32, index: int) -> u8 {
    if index == 0 {
        (code / 0x100_0000) as u8
    } else if index == 1 {
        (code / 0x1_0000 % 0x100) as u8
    } else if index == 2 {
        (code / 0x100 % 0x100) as u8
    } else {
        (code % 0x100) as u8
    }
}

/// The four characters that `code` stands for, each byte taken as the
/// character of the same number.
pub open spec fn code_chars(code: u32) -> Seq<char> {
    seq![
        code_byte(code, 0) as char,
        code_byte(code, 1) as char,
        code_byte(code, 2) as char,
        code_byte(code, 3) as char,
    ]
}

/// Whether every byte of `code` is an ASCII character.
pub open spec fn code_is_ascii(code: u32) -> bool {
    &&& code_byte(code, 0) < 0x80
    &&& code_byte(code, 1) < 0x80
    &&& code_byte(code, 2) < 0x80
    &&& code_byte(code, 3) < 0x80
}

/// Whether `code` can stand in a query: every byte is an ASCII character
/// other than NUL.
pub open spec fn code_is_encodable(code: u32) -> bool {
    &&& 0 < code_byte(code, 0) < 0x80
    &&& 0 < code_byte(code, 1) < 0x80
    &&& 0 < code_byte(code, 2) < 0x80
    &&& 0 < code_byte(code, 3) < 0x80
}

/// The padded form of a code is never zero.
pub proof fn lemma_normalized_nonzero(value: u32)
    ensures
        normalized(value) != 0,
{
    assert(value % 0x100 == 0 ==> value | 0x2020_2020 != 0) by (bit_vector);
}

/// Padding a padded code changes nothing.
pub proof fn lemma_normalized_idempotent(value: u32)
    ensures
        normalized(normalized(value)) == normalized(value),
{
    assert(value % 0x100 == 0 ==> (value | 0x2020_2020u32) % 0x100 != 0) by (bit_vector);
}

/// `FourCharCode::new`, read back through the type's public field. The
/// outside function pads the value: where the lowest byte is zero it sets
/// bit `0x20` of the lowest byte and then, in a loop over the three other
/// bytes whose test looks at a mask that always holds that bit, of those
/// three as well; otherwise it keeps the value.
#[verifier::external_body]
fn four_char_code_new(value: u32) -> (code: u32)
    ensures
        code == normalized(value),
{
    FourCharCode::new(value).0
}

/// `FourCharCode::to_u32`, which pads the stored value as `new` does.
#[verifier::external_body]
fn four_char_code_to_u32(code: u32) -> (value: u32)
    ensures
        value == normalized(code),
{
    FourCharCode(code).to_u32()
}

/// `FourCharCode::to_string`, which takes the four bytes of the padded value,
/// the most significant first, as the text of a string without checking
/// them. Only ASCII bytes make a valid string, so the others are left out.
#[verifier::external_body]
fn four_char_code_to_string(code: u32) -> (text: String)
    requires
        code_is_ascii(normalized(code)),
    ensures
        text@ == code_chars(normalized(code)),
{
    FourCharCode(code).to_string()
}

/// A four-character code: a type tag, a keyword, an event class or id, or an
/// application signature. Two codes are equal when their 32 bits are.
#[derive(Clone, Copy, PartialEq, Eq, PartialOrd, Ord, Hash, Debug, Structural)]
pub struct ResType(pub u32);

/// Id of an event.
pub type AEEventID = ResType;

/// Class of an event.
pub type AEEventClass = ResType;

/// Type of a descriptor.
pub type DescType = ResType;

/// Keyword of a parameter.
pub type AEKeyword = ResType;

impl ResType {
    /// The value that the code reads as: its padded form.
    pub open spec fn spec_to_u32(self) -> u32 {
        normalized(self.0)
    }

    /// Whether the code can be rendered in a query.
    pub open spec fn spec_is_encodable(self) -> bool {
        code_is_encodable(normalized(self.0))
    }

    /// The four characters of the code.
    pub open spec fn text(self) -> Seq<char> {
        code_chars(normalized(self.0))
    }

    /// The code between single quotes, as a query names it.
    pub open spec fn quoted_text(self) -> Seq<char> {
        "'"@ + self.text() + "'"@
    }

    /// The code of `value`, padded.
    pub fn new(value: u32) -> (r: ResType)
        ensures
            r.0 == normalized(value),
            r.spec_to_u32() == normalized(value),
    {
        proof {
            lemma_normalized_idempotent(value);
        }
        ResType(four_char_code_new(value))
    }

    /// The code as a number, padded.
    pub fn to_u32(&self) -> (r: u32)
        ensures
            r == self.spec_to_u32(),
    {
        four_char_code_to_u32(self.0)
    }

    /// The code as four characters. Only a code of ASCII bytes has a text.
    pub fn to_string(&self) -> (r: String)
        requires
            code_is_ascii(normalized(self.0)),
        ensures
            r@ == self.text(),
    {
        four_char_code_to_string(self.0)
    }

    /// Whether the code reads as zero. Padding leaves no code at zero.
    pub fn is_null(&self) -> (r: bool)
        ensures
            r == (self.spec_to_u32() == 0),
            !r,
    {
        proof {
            lemma_normalized_nonzero(self.0);
        }
        self.to_u32() == 0
    }

    /// Whether the code can be rendered in a query: each of its four bytes
    /// is an ASCII character other than NUL.
    pub fn is_encodable(&self) -> (r: bool)
        ensures
            r == self.spec_is_encodable(),
    {
        let code: u32 = self.to_u32();
        let b0: u32 = code / 0x100_0000;
        let b1: u32 = code / 0x1_0000 % 0x100;
        let b2: u32 = code / 0x100 % 0x100;
        let b3: u32 = code % 0x100;
        0 < b0 && b0 < 0x80 && 0 < b1 && b1 < 0x80 && 0 < b2 && b2 < 0x80 && 0 < b3 && b3 < 0x80
    }

    /// The code between single quotes, as the display form and every query
    /// have it.
    pub fn quoted(&self) -> (r: String)
        requires
            self.spec_is_encodable(),
        ensures
            r@ == self.quoted_text(),
    {
        let mut out = String::from_str("'");
        let text = self.to_string();
        out.append(text.as_str());
        out.append("'");
        out
    }
}

impl Default for ResType {
    /// The code of four spaces, which is what zero is padded to.
    fn default() -> (r: ResType)
        ensures
            r.0 == 0x2020_2020,
    {
        assert(0u32 | 0x2020_2020 == 0x2020_2020) by (bit_vector);
        ResType::new(0)
    }
}

/// What the transport reports when it cannot build an event or a descriptor
/// from a query.
#[derive(Clone, Copy, PartialEq, Eq, Debug, Structural)]
pub struct AEBuildError {
    /// The kind of failure.
    pub error: AEBuildErrorCode,
    /// The offset in the query at which it was found.
    pub error_pos: u32,
}

impl Default for AEBuildError {
    fn default() -> (r: AEBuildError)
        ensures
            r.error == 0,
            r.error_pos == 0,
    {
        AEBuildError { error: 0, error_pos: 0 }
    }
}

/// The number that stands for "no buffer".
pub const NULL_HANDLE: usize = 0;

/// A descriptor: a type tag and the handle of a buffer that the transport
/// owns. One descriptor value owns the buffer at a time; whoever holds it
/// when it is discarded asks the transport to release the buffer, once.
#[derive(Debug)]
pub struct AEDesc {
    /// The type of what the buffer holds.
    pub descriptor_type: DescType,
    /// The transport's handle of the buffer, [`NULL_HANDLE`] where there is
    /// none.
    pub data_handle: usize,
}

/// A list of descriptors is a descriptor.
pub type AEDescList = AEDesc;

/// A record is a list.
pub type AERecord = AEDescList;

/// An event is a record.
pub type AppleEvent = AERecord;

impl AEDesc {
    /// The null descriptor: type `null`, no buffer.
    pub open spec fn null() -> AEDesc {
        AEDesc { descriptor_type: ResType(TYPE_NULL), data_handle: NULL_HANDLE }
    }

    /// Whether the descriptor stands for nothing: it has no buffer, or its
    /// type is `null`.
    pub open spec fn spec_is_null(self) -> bool {
        self.data_handle == NULL_HANDLE || self.descriptor_type == ResType(TYPE_NULL)
    }

    /// The handle that has to be released when the descriptor is discarded.
    pub open spec fn owed_release(self) -> Option<usize> {
        if self.data_handle == NULL_HANDLE {
            None
        } else {
            Some(self.data_handle)
        }
    }

    /// The descriptor once it has given up its buffer.
    pub open spec fn disposed(self) -> AEDesc {
        AEDesc { descriptor_type: self.descriptor_type, data_handle: NULL_HANDLE }
    }

    /// A descriptor of the given type over the given buffer.
    pub fn new(descriptor_type: DescType, data_handle: usize) -> (r: AEDesc)
        ensures
            r.descriptor_type == descriptor_type,
            r.data_handle == data_handle,
    {
        AEDesc { descriptor_type, data_handle }
    }

    /// Whether the descriptor stands for nothing.
    pub fn is_null(&self) -> (r: bool)
        ensures
            r == self.spec_is_null(),
    {
        self.data_handle == NULL_HANDLE || self.descriptor_type == ResType(TYPE_NULL)
    }

    /// Gives up the buffer: returns the handle that the transport has to
    /// release, if there is one, and leaves the descriptor without a buffer,
    /// so that a second call asks for nothing.
    pub fn dispose(&mut self) -> (r: Option<usize>)
        ensures
            r == old(self).owed_release(),
            *final(self) == old(self).disposed(),
    {
        if self.data_handle != NULL_HANDLE {
            let handle = self.data_handle;
            self.data_handle = NULL_HANDLE;
            Some(handle)
        } else {
            None
        }
    }

    /// Moves the descriptor out and leaves the null descriptor behind, so
    /// that the buffer keeps a single owner.
    pub fn take(&mut self) -> (r: AEDesc)
        ensures
            r == *old(self),
            *final(self) == AEDesc::null(),
    {
        let moved = AEDesc { descriptor_type: self.descriptor_type, data_handle: self.data_handle };
        self.descriptor_type = ResType(TYPE_NULL);
        self.data_handle = NULL_HANDLE;
        moved
    }
}

impl Default for AEDesc {
    fn default() -> (r: AEDesc)
        ensures
            r == AEDesc::null(),
    {
        AEDesc { descriptor_type: ResType(TYPE_NULL), data_handle: NULL_HANDLE }
    }
}

/// A buffer is released at most once. A descriptor that has given up its
/// buffer has nothing left to release, however often it is disposed again,
/// and so has the source of a move.
pub proof fn lemma_dispose_once(descriptor: AEDesc)
    ensures
        descriptor.owed_release() is Some <==> descriptor.data_handle != NULL_HANDLE,
        descriptor.disposed().owed_release() is None,
        descriptor.disposed().disposed() == descriptor.disposed(),
        AEDesc::null().owed_release() is None,
{
}

} // verus!
