//! The bodies of the supported message types.

pub mod order;
pub mod session;

use crate::common::enums::MsgTypeView;
use crate::common::text::{Field, fields_text};
use crate::common::timestamp::Civil;
use crate::common::validation::{
    FixFieldHandler, Validate, ValidationError, ValidationErrorView, WriteTo,
};
use crate::messages::order::executionreport::ExecutionReportView;
use crate::messages::order::newordersingle::NewOrderSingleView;
use crate::messages::order::ordercancelrequest::OrderCancelRequestView;
use crate::messages::session::heartbeat::HeartbeatView;
pub use order::{ExecutionReportBody, NewOrderSingleBody, OrderCancelRequestBody};
pub use session::{HeartbeatBody, LogonBody};
use vstd::prelude::*;

verus! {

/// The body of a message: one variant for each supported message type, each
/// with the fields of that type only, and `Other` for the types that have
/// no body of their own.
#[derive(Debug, Clone, PartialEq, Eq)]
pub enum FixMessageBody {
    /// The body of a Heartbeat (MsgType=0).
    Heartbeat(HeartbeatBody),
    /// The body of a Logon (MsgType=A).
    Logon(LogonBody),
    /// The body of a New Order Single (MsgType=D).
    NewOrderSingle(NewOrderSingleBody),
    /// The body of an Execution Report (MsgType=8).
    ExecutionReport(ExecutionReportBody),
    /// The body of an Order Cancel Request (MsgType=F).
    OrderCancelRequest(OrderCancelRequestBody),
    /// The body of every other message type: it holds nothing, takes any
    /// field and writes none.
    Other,
}

/// What a body holds, as mathematical values.
pub enum BodyView {
    Heartbeat(HeartbeatView),
    Logon(LogonBody),
    NewOrderSingle(NewOrderSingleView),
    ExecutionReport(ExecutionReportView),
    OrderCancelRequest(OrderCancelRequestView),
    Other,
}

impl View for FixMessageBody {
    type V = BodyView;

    open spec fn view(&self) -> BodyView {
        match self {
            FixMessageBody::Heartbeat(b) => BodyView::Heartbeat(b@),
            FixMessageBody::Logon(b) => BodyView::Logon(*b),
            FixMessageBody::NewOrderSingle(b) => BodyView::NewOrderSingle(b@),
            FixMessageBody::ExecutionReport(b) => BodyView::ExecutionReport(b@),
            FixMessageBody::OrderCancelRequest(b) => BodyView::OrderCancelRequest(b@),
            FixMessageBody::Other => BodyView::Other,
        }
    }
}

impl BodyView {
    /// The body that a new message of the given type starts with. A body
    /// that carries a transaction time starts with `now`.
    pub open spec fn initial(msg_type: MsgTypeView, now: Civil) -> BodyView {
        match msg_type {
            MsgTypeView::Heartbeat => BodyView::Heartbeat(HeartbeatView::initial()),
            MsgTypeView::Logon => BodyView::Logon(LogonBody::initial()),
            MsgTypeView::NewOrderSingle => BodyView::NewOrderSingle(
                NewOrderSingleView::initial(now),
            ),
            MsgTypeView::ExecutionReport => BodyView::ExecutionReport(
                ExecutionReportView::initial(),
            ),
            MsgTypeView::OrderCancelRequest => BodyView::OrderCancelRequest(
                OrderCancelRequestView::initial(now),
            ),
            _ => BodyView::Other,
        }
    }

    /// Whether this is the variant that belongs to the message type.
    pub open spec fn belongs_to(self, msg_type: MsgTypeView) -> bool {
        match msg_type {
            MsgTypeView::Heartbeat => self is Heartbeat,
            MsgTypeView::Logon => self is Logon,
            MsgTypeView::NewOrderSingle => self is NewOrderSingle,
            MsgTypeView::ExecutionReport => self is ExecutionReport,
            MsgTypeView::OrderCancelRequest => self is OrderCancelRequest,
            _ => self is Other,
        }
    }

    /// The bodies that can be read back from their wire text.
    pub open spec fn wf(self) -> bool {
        match self {
            BodyView::Heartbeat(b) => b.wf(),
            BodyView::Logon(b) => true,
            BodyView::NewOrderSingle(b) => b.wf(),
            BodyView::ExecutionReport(b) => b.wf(),
            BodyView::OrderCancelRequest(b) => b.wf(),
            BodyView::Other => true,
        }
    }

    /// The place of a tag in the wire order of the body's fields, counted
    /// from 0; a negative number for a tag that the body does not hold.
    pub open spec fn rank(self, tag: nat) -> int {
        match self {
            BodyView::Heartbeat(b) => if tag == 112 {
                0
            } else {
                -1
            },
            BodyView::Logon(b) => if tag == 98 {
                0
            } else if tag == 108 {
                1
            } else if tag == 141 {
                2
            } else if tag == 789 {
                3
            } else if tag == 383 {
                4
            } else {
                -1
            },
            BodyView::NewOrderSingle(b) => NewOrderSingleView::rank(tag),
            BodyView::ExecutionReport(b) => ExecutionReportView::rank(tag),
            BodyView::OrderCancelRequest(b) => OrderCancelRequestView::rank(tag),
            BodyView::Other => -1,
        }
    }

    /// The fields of the body, in wire order.
    pub open spec fn fields(self) -> Seq<Field> {
        match self {
            BodyView::Heartbeat(b) => b.fields(),
            BodyView::Logon(b) => b.wire_fields(),
            BodyView::NewOrderSingle(b) => b.fields(),
            BodyView::ExecutionReport(b) => b.fields(),
            BodyView::OrderCancelRequest(b) => b.fields(),
            BodyView::Other => Seq::empty(),
        }
    }

    /// Whether the body holds a field with this tag. `Other` holds none.
    pub open spec fn handles_tag(self, tag: u32) -> bool {
        match self {
            BodyView::Heartbeat(b) => HeartbeatView::handles_tag(tag),
            BodyView::Logon(b) => LogonBody::handles_tag(tag),
            BodyView::NewOrderSingle(b) => NewOrderSingleView::handles_tag(tag),
            BodyView::ExecutionReport(b) => ExecutionReportView::handles_tag(tag),
            BodyView::OrderCancelRequest(b) => OrderCancelRequestView::handles_tag(tag),
            BodyView::Other => false,
        }
    }

    /// The first thing that is wrong with the body, if anything is.
    pub open spec fn problem(self) -> Option<ValidationErrorView> {
        match self {
            BodyView::Heartbeat(b) => None,
            BodyView::Logon(b) => b.first_problem(),
            BodyView::NewOrderSingle(b) => b.problem(),
            BodyView::ExecutionReport(b) => b.problem(),
            BodyView::OrderCancelRequest(b) => b.problem(),
            BodyView::Other => None,
        }
    }

    /// The body after it has taken a field, or why it cannot take it.
    /// `Other` takes every field and stays as it is.
    pub open spec fn with_field(self, tag: u32, value: Seq<char>) -> Result<BodyView, Seq<char>> {
        match self {
            BodyView::Heartbeat(b) => match b.with_field(tag, value) {
                Ok(b) => Ok(BodyView::Heartbeat(b)),
                Err(e) => Err(e),
            },
            BodyView::Logon(b) => match b.with_field(tag, value) {
                Ok(b) => Ok(BodyView::Logon(b)),
                Err(e) => Err(e),
            },
            BodyView::NewOrderSingle(b) => match b.with_field(tag, value) {
                Ok(b) => Ok(BodyView::NewOrderSingle(b)),
                Err(e) => Err(e),
            },
            BodyView::ExecutionReport(b) => match b.with_field(tag, value) {
                Ok(b) => Ok(BodyView::ExecutionReport(b)),
                Err(e) => Err(e),
            },
            BodyView::OrderCancelRequest(b) => match b.with_field(tag, value) {
                Ok(b) => Ok(BodyView::OrderCancelRequest(b)),
                Err(e) => Err(e),
            },
            BodyView::Other => Ok(BodyView::Other),
        }
    }
}

impl FixMessageBody {
    /// Whether the body holds a field with this tag. `Other` holds none.
    pub fn handles(&self, tag: u32) -> (r: bool)
        ensures
            r == self@.handles_tag(tag),
    {
        match self {
            FixMessageBody::Heartbeat(_) => HeartbeatBody::handles(tag),
            FixMessageBody::Logon(_) => LogonBody::handles(tag),
            FixMessageBody::NewOrderSingle(_) => NewOrderSingleBody::handles(tag),
            FixMessageBody::ExecutionReport(_) => ExecutionReportBody::handles(tag),
            FixMessageBody::OrderCancelRequest(_) => OrderCancelRequestBody::handles(tag),
            FixMessageBody::Other => false,
        }
    }
}

impl Validate for FixMessageBody {
    open spec fn problem(&self) -> Option<ValidationErrorView> {
        self@.problem()
    }

    fn validate(&self) -> (r: Result<(), ValidationError>) {
        match self {
            FixMessageBody::Heartbeat(body) => body.validate(),
            FixMessageBody::Logon(body) => body.validate(),
            FixMessageBody::NewOrderSingle(body) => body.validate(),
            FixMessageBody::ExecutionReport(body) => body.validate(),
            FixMessageBody::OrderCancelRequest(body) => body.validate(),
            FixMessageBody::Other => Ok(()),
        }
    }
}

impl WriteTo for FixMessageBody {
    open spec fn fields(&self) -> Seq<Field> {
        self@.fields()
    }

    fn write_to(&self, buffer: &mut String) {
        match self {
            FixMessageBody::Heartbeat(body) => body.write_to(buffer),
            FixMessageBody::Logon(body) => body.write_to(buffer),
            FixMessageBody::NewOrderSingle(body) => body.write_to(buffer),
            FixMessageBody::ExecutionReport(body) => body.write_to(buffer),
            FixMessageBody::OrderCancelRequest(body) => body.write_to(buffer),
            FixMessageBody::Other => {
                assert(buffer@ =~= old(buffer)@ + fields_text(Seq::<Field>::empty()));
            },
        }
    }
}

impl FixFieldHandler for FixMessageBody {
    open spec fn with_field(model: BodyView, tag: u32, value: Seq<char>) -> Result<
        BodyView,
        Seq<char>,
    > {
        model.with_field(tag, value)
    }

    fn parse_field(&mut self, tag: u32, value: &str) -> (r: Result<(), String>) {
        match self {
            FixMessageBody::Heartbeat(body) => body.parse_field(tag, value),
            FixMessageBody::Logon(body) => body.parse_field(tag, value),
            FixMessageBody::NewOrderSingle(body) => body.parse_field(tag, value),
            FixMessageBody::ExecutionReport(body) => body.parse_field(tag, value),
            FixMessageBody::OrderCancelRequest(body) => body.parse_field(tag, value),
            FixMessageBody::Other => Ok(()),
        }
    }

    open spec fn body_fields(&self) -> Seq<Field> {
        self@.fields()
    }

    fn write_body_fields(&self, buffer: &mut String) {
        self.write_to(buffer);
    }
}

} // verus!
