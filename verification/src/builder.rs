//! A builder that sets the fields of a message in any order and derives the
//! body length and the checksum once, when the message is built.

use crate::common::enums::{EncryptMethod, MsgType};
use crate::common::header::HeaderView;
use crate::common::timestamp::UtcTimestamp;
use crate::common::trailer::TrailerView;
use crate::messages::session::heartbeat::HeartbeatView;
use crate::messages::{BodyView, FixMessageBody, LogonBody};
use crate::round_trip::lemma_finalize_keeps_text;
use crate::{FixMessage, MessageView};
use vstd::prelude::*;
use vstd::string::*;

verus! {

/// A message under construction.
#[derive(Debug)]
pub struct FixMessageBuilder {
    message: FixMessage,
}

impl View for FixMessageBuilder {
    type V = MessageView;

    /// The message as it stands.
    closed spec fn view(&self) -> MessageView {
        self.message@
    }
}

impl MessageView {
    /// The message with the test request identifier set, where it is a Heartbeat.
    pub open spec fn with_test_req_id(self, test_req_id: Seq<char>) -> MessageView {
        match self.body {
            BodyView::Heartbeat(b) => MessageView {
                body: BodyView::Heartbeat(HeartbeatView { test_req_id: Some(test_req_id) }),
                ..self
            },
            _ => self,
        }
    }

    /// The message with its Logon body changed, where it is a Logon.
    pub open spec fn with_logon(self, change: spec_fn(LogonBody) -> LogonBody) -> MessageView {
        match self.body {
            BodyView::Logon(b) => MessageView { body: BodyView::Logon(change(b)), ..self },
            _ => self,
        }
    }

    /// The message with the body length and the checksum that its content
    /// gives. A body length that does not fit the field is stored as the
    /// largest number that does.
    pub open spec fn finalize(self) -> MessageView {
        MessageView {
            header: HeaderView {
                body_length: if self.body_length() <= u32::MAX {
                    self.body_length() as u32
                } else {
                    u32::MAX
                },
                ..self.header
            },
            trailer: TrailerView { checksum: self.checksum_text(), ..self.trailer },
            ..self
        }
    }
}

impl FixMessageBuilder {
    /// A builder for a message of the given type, sent now.
    pub fn new(
        msg_type: MsgType,
        sender_comp_id: &str,
        target_comp_id: &str,
        msg_seq_num: u32,
    ) -> (r:
        FixMessageBuilder)
        ensures
            r@ == MessageView::initial(
                msg_type@,
                sender_comp_id@,
                target_comp_id@,
                msg_seq_num,
                r@.header.sending_time,
            ),
            r@.header.sending_time.wf(),
    {
        FixMessageBuilder {
            message: FixMessage::new(msg_type, sender_comp_id, target_comp_id, msg_seq_num),
        }
    }

    /// A builder that goes on from an existing message.
    pub fn from_message(message: FixMessage) -> (r: FixMessageBuilder)
        ensures
            r@ == message@,
    {
        FixMessageBuilder { message }
    }

    /// Sets the possible-duplicate flag.
    pub fn poss_dup_flag(self, flag: bool) -> (r: FixMessageBuilder)
        ensures
            r@ == (MessageView {
                header: HeaderView { poss_dup_flag: Some(flag), ..self@.header },
                ..self@
            }),
    {
        let mut b = self;
        b.message.header.poss_dup_flag = Some(flag);
        b
    }

    /// Sets the possible-resend flag.
    pub fn poss_resend(self, flag: bool) -> (r: FixMessageBuilder)
        ensures
            r@ == (MessageView {
                header: HeaderView { poss_resend: Some(flag), ..self@.header },
                ..self@
            }),
    {
        let mut b = self;
        b.message.header.poss_resend = Some(flag);
        b
    }

    /// Sets the original sending time.
    pub fn orig_sending_time(self, time: UtcTimestamp) -> (r: FixMessageBuilder)
        ensures
            r@ == (MessageView {
                header: HeaderView { orig_sending_time: Some(time@), ..self@.header },
                ..self@
            }),
    {
        let mut b = self;
        b.message.header.orig_sending_time = Some(time);
        b
    }

    /// Sets the sending time.
    pub fn sending_time(self, time: UtcTimestamp) -> (r: FixMessageBuilder)
        ensures
            r@ == (MessageView {
                header: HeaderView { sending_time: time@, ..self@.header },
                ..self@
            }),
    {
        let mut b = self;
        b.message.header.sending_time = time;
        b
    }

    /// Sets the test request identifier of a Heartbeat; another message is
    /// left as it is.
    pub fn test_req_id(self, test_req_id: &str) -> (r: FixMessageBuilder)
        ensures
            r@ == self@.with_test_req_id(test_req_id@),
    {
        let mut b = self;
        match &mut b.message.body {
            FixMessageBody::Heartbeat(body) => {
                body.test_req_id = Some(String::from_str(test_req_id));
            },
            _ => {},
        }
        b
    }

    /// Sets the encryption method of a Logon; another message is left as it is.
    pub fn encrypt_method(self, method: EncryptMethod) -> (r: FixMessageBuilder)
        ensures
            r@ == self@.with_logon(|b: LogonBody| LogonBody { encrypt_method: method, ..b }),
    {
        let mut b = self;
        match &mut b.message.body {
            FixMessageBody::Logon(body) => {
                body.encrypt_method = method;
            },
            _ => {},
        }
        b
    }

    /// Sets the heartbeat interval of a Logon; another message is left as it is.
    pub fn heart_bt_int(self, interval: u32) -> (r: FixMessageBuilder)
        ensures
            r@ == self@.with_logon(|b: LogonBody| LogonBody { heart_bt_int: interval, ..b }),
    {
        let mut b = self;
        match &mut b.message.body {
            FixMessageBody::Logon(body) => {
                body.heart_bt_int = interval;
            },
            _ => {},
        }
        b
    }

    /// Sets the reset flag of a Logon; another message is left as it is.
    pub fn reset_seq_num_flag(self, flag: bool) -> (r: FixMessageBuilder)
        ensures
            r@ == self@.with_logon(
                |b: LogonBody| LogonBody { reset_seq_num_flag: Some(flag), ..b },
            ),
    {
        let mut b = self;
        match &mut b.message.body {
            FixMessageBody::Logon(body) => {
                body.reset_seq_num_flag = Some(flag);
            },
            _ => {},
        }
        b
    }

    /// Sets the next expected sequence number of a Logon; another message
    /// is left as it is.
    pub fn next_expected_msg_seq_num(self, seq_num: u32) -> (r: FixMessageBuilder)
        ensures
            r@ == self@.with_logon(
                |b: LogonBody| LogonBody { next_expected_msg_seq_num: Some(seq_num), ..b },
            ),
    {
        let mut b = self;
        match &mut b.message.body {
            FixMessageBody::Logon(body) => {
                body.next_expected_msg_seq_num = Some(seq_num);
            },
            _ => {},
        }
        b
    }

    /// Sets the maximum message size of a Logon; another message is left as it is.
    pub fn max_message_size(self, size: u32) -> (r: FixMessageBuilder)
        ensures
            r@ == self@.with_logon(|b: LogonBody| LogonBody { max_message_size: Some(size), ..b }),
    {
        let mut b = self;
        match &mut b.message.body {
            FixMessageBody::Logon(body) => {
                body.max_message_size = Some(size);
            },
            _ => {},
        }
        b
    }

    /// The finished message: the fields as they were set, with the body
    /// length and the checksum that they give.
    pub fn build(self) -> (r: FixMessage)
        ensures
            r@ == self@.finalize(),
            self@.body_length() <= u32::MAX ==> r@.finalized(),
    {
        proof {
            lemma_finalize_keeps_text(self@);
        }
        let mut message = self.message;
        let body_length = message.calculate_body_length();
        let checksum = message.calculate_checksum();
        message.header.body_length = body_length;
        message.trailer.checksum = checksum;
        message
    }
}

} // verus!
