//! The Heartbeat message (MsgType=0): sent to keep a session alive, or in
//! answer to a test request.

use crate::common::scan::plain_optional;
use crate::common::text::{decimal_text, Field};
use crate::common::validation::{
    field_outcome_matches, Validate, ValidationError, ValidationErrorView, WriteTo,
};
use crate::common::writer::{
    FieldList, lemma_nothing_written, optional_text, put_optional_text, unknown_field,
};
use vstd::prelude::*;
use vstd::string::*;

verus! {

/// The body of a Heartbeat.
#[derive(Debug, Clone, PartialEq, Eq)]
pub struct HeartbeatBody {
    /// Tag 112: the identifier of the test request that this heartbeat answers.
    pub test_req_id: Option<String>,
}

/// What a Heartbeat body holds, as mathematical values.
pub struct HeartbeatView {
    pub test_req_id: Option<Seq<char>>,
}

impl View for HeartbeatBody {
    type V = HeartbeatView;

    open spec fn view(&self) -> HeartbeatView {
        HeartbeatView { test_req_id: optional_text(self.test_req_id) }
    }
}

impl HeartbeatView {
    /// The body that a new Heartbeat starts with.
    pub open spec fn initial() -> HeartbeatView {
        HeartbeatView { test_req_id: None }
    }

    /// The bodies that can be read back from their wire text: the
    /// identifier holds no field separator.
    pub open spec fn wf(self) -> bool {
        plain_optional(self.test_req_id)
    }

    /// The fields of the body: the test request identifier, where there is one.
    pub open spec fn fields(self) -> Seq<Field> {
        FieldList::new().with_optional(112, self.test_req_id).fields
    }

    /// The tags of the fields that the body holds.
    pub open spec fn handles_tag(tag: u32) -> bool {
        tag == 112
    }

    /// The body after it has taken a field, or why it cannot take it.
    pub open spec fn with_field(self, tag: u32, value: Seq<char>) -> Result<
        HeartbeatView,
        Seq<char>,
    > {
        if tag == 112 {
            Ok(HeartbeatView { test_req_id: Some(value) })
        } else {
            Err("Unknown heartbeat field: "@ + decimal_text(tag as nat))
        }
    }
}

impl Default for HeartbeatBody {
    fn default() -> (r: HeartbeatBody)
        ensures
            r@ == HeartbeatView::initial(),
    {
        HeartbeatBody { test_req_id: None }
    }
}

impl Validate for HeartbeatBody {
    /// A Heartbeat has no required field of its own.
    open spec fn problem(&self) -> Option<ValidationErrorView> {
        None
    }

    fn validate(&self) -> (r: Result<(), ValidationError>) {
        Ok(())
    }
}

impl WriteTo for HeartbeatBody {
    open spec fn fields(&self) -> Seq<Field> {
        self@.fields()
    }

    fn write_to(&self, buffer: &mut String) {
        let ghost start = buffer@;
        let written: Ghost<FieldList> = Ghost(FieldList::new());
        proof {
            lemma_nothing_written(buffer@);
        }
        let written = put_optional_text(buffer, 112, &self.test_req_id, Ghost(start), written);
    }
}

impl HeartbeatBody {
    /// An empty Heartbeat body.
    pub fn new() -> (r: HeartbeatBody)
        ensures
            r@ == HeartbeatView::initial(),
    {
        HeartbeatBody { test_req_id: None }
    }

    /// The body of a Heartbeat that answers the test request with this identifier.
    pub fn responding_to_test_request(test_req_id: &str) -> (r: HeartbeatBody)
        ensures
            r@ == (HeartbeatView { test_req_id: Some(test_req_id@) }),
    {
        HeartbeatBody { test_req_id: Some(String::from_str(test_req_id)) }
    }

    /// Whether the body holds a field with this tag.
    pub fn handles(tag: u32) -> (r: bool)
        ensures
            r == HeartbeatView::handles_tag(tag),
    {
        tag == 112
    }

    /// Takes one field that was read from the wire. On failure the body is
    /// unchanged.
    pub fn parse_field(&mut self, tag: u32, value: &str) -> (r: Result<(), String>)
        ensures
            field_outcome_matches(
                r,
                old(self)@,
                final(self)@,
                old(self)@.with_field(tag, value@),
            ),
    {
        match tag {
            112 => {
                self.test_req_id = Some(String::from_str(value));
            },
            _ => {
                return Err(unknown_field("Unknown heartbeat field: ", tag));
            },
        }
        Ok(())
    }
}

} // verus!
