//! What is asked of the transport: the descriptors and events that it has
//! to build, and how an event is to be sent.

use crate::sys::{
    AEDesc, DescType, ResType, K_AE_NEVER_INTERACT, K_AE_NO_REPLY, K_AE_WAIT_REPLY,
};
use vstd::prelude::*;

verus! {

/// A value in its wire form, together with the query from which the
/// transport builds the descriptor that holds it.
#[derive(Debug)]
pub struct DescriptorBuild {
    /// The query: the quoted type and a placeholder for the data.
    pub format: String,
    /// The type of the descriptor.
    pub type_tag: DescType,
    /// The data of the descriptor.
    pub data: Vec<u8>,
}

/// [`DescriptorBuild`] as a mathematical value.
pub struct DescriptorModel {
    /// The query.
    pub format: Seq<char>,
    /// The type of the descriptor.
    pub type_tag: DescType,
    /// The data of the descriptor.
    pub data: Seq<u8>,
}

impl View for DescriptorBuild {
    type V = DescriptorModel;

    open spec fn view(&self) -> DescriptorModel {
        DescriptorModel { format: self.format@, type_tag: self.type_tag, data: self.data@ }
    }
}

/// One argument of a query: what takes the place of one placeholder.
#[derive(Debug)]
pub enum Argument {
    /// A descriptor that exists already, lent for the call.
    Descriptor {
        /// Its type.
        descriptor_type: DescType,
        /// The handle of its buffer.
        data_handle: usize,
    },
    /// A value from which the transport first builds a descriptor.
    Value(DescriptorBuild),
}

/// [`Argument`] as a mathematical value.
pub enum ArgumentModel {
    /// A descriptor that exists already.
    Descriptor {
        /// Its type.
        descriptor_type: DescType,
        /// The handle of its buffer.
        data_handle: usize,
    },
    /// A value from which the transport first builds a descriptor.
    Value(DescriptorModel),
}

impl View for Argument {
    type V = ArgumentModel;

    open spec fn view(&self) -> ArgumentModel {
        match self {
            Argument::Descriptor { descriptor_type, data_handle } => ArgumentModel::Descriptor {
                descriptor_type: *descriptor_type,
                data_handle: *data_handle,
            },
            Argument::Value(build) => ArgumentModel::Value(build@),
        }
    }
}

impl Argument {
    /// The argument that lends `descriptor`.
    pub open spec fn lending(descriptor: AEDesc) -> ArgumentModel {
        ArgumentModel::Descriptor {
            descriptor_type: descriptor.descriptor_type,
            data_handle: descriptor.data_handle,
        }
    }

    /// The argument that lends `descriptor` for the call.
    pub fn lend(descriptor: &AEDesc) -> (r: Argument)
        ensures
            r@ == Argument::lending(*descriptor),
    {
        Argument::Descriptor {
            descriptor_type: descriptor.descriptor_type,
            data_handle: descriptor.data_handle,
        }
    }
}

/// The arguments of a query as mathematical values, in their order.
pub open spec fn arguments_model(arguments: Seq<Argument>) -> Seq<ArgumentModel> {
    Seq::new(arguments.len(), |i: int| arguments[i]@)
}

/// An event that the transport is asked to build.
#[derive(Debug)]
pub struct EventRequest {
    /// The class of the event.
    pub event_class: ResType,
    /// The id of the event: its verb.
    pub event_id: ResType,
    /// How the target application is named.
    pub address_type: DescType,
    /// The name of the target application; the transport takes it as bytes
    /// with their count.
    pub address: String,
    /// The return id of the event.
    pub return_id: i16,
    /// The transaction that the event belongs to.
    pub transaction_id: i32,
    /// The parameters of the event, with one placeholder for each argument.
    pub query: String,
    /// The arguments, in the order of their placeholders.
    pub arguments: Vec<Argument>,
}

/// [`EventRequest`] as a mathematical value.
pub struct EventModel {
    /// The class of the event.
    pub event_class: ResType,
    /// The id of the event.
    pub event_id: ResType,
    /// How the target application is named.
    pub address_type: DescType,
    /// The name of the target application.
    pub address: Seq<char>,
    /// The return id of the event.
    pub return_id: i16,
    /// The transaction that the event belongs to.
    pub transaction_id: i32,
    /// The parameters of the event.
    pub query: Seq<char>,
    /// The arguments, in the order of their placeholders.
    pub arguments: Seq<ArgumentModel>,
}

impl View for EventRequest {
    type V = EventModel;

    open spec fn view(&self) -> EventModel {
        EventModel {
            event_class: self.event_class,
            event_id: self.event_id,
            address_type: self.address_type,
            address: self.address@,
            return_id: self.return_id,
            transaction_id: self.transaction_id,
            query: self.query@,
            arguments: arguments_model(self.arguments@),
        }
    }
}

/// How an event is sent.
#[derive(Clone, Copy, PartialEq, Eq, Debug, Structural)]
pub struct SendOptions {
    /// Whether the sender blocks until the reply has come.
    pub wait_for_reply: bool,
    /// Whether the far end is forbidden to prompt the user.
    pub never_interact: bool,
    /// The time allowed, in ticks, or one of the two special values.
    pub timeout: i64,
}

impl SendOptions {
    /// The send mode as the transport takes it: the reply flag, and the
    /// interaction flag where it is set.
    pub open spec fn spec_mode(self) -> i32 {
        (if self.wait_for_reply {
            K_AE_WAIT_REPLY
        } else {
            K_AE_NO_REPLY
        } + if self.never_interact {
            K_AE_NEVER_INTERACT
        } else {
            0i32
        }) as i32
    }

    /// The send mode as the transport takes it.
    pub fn mode(&self) -> (r: i32)
        ensures
            r == self.spec_mode(),
    {
        let reply: i32 = if self.wait_for_reply {
            K_AE_WAIT_REPLY
        } else {
            K_AE_NO_REPLY
        };
        let interaction: i32 = if self.never_interact {
            K_AE_NEVER_INTERACT
        } else {
            0
        };
        reply + interaction
    }
}

} // verus!
