//! The enumerated fields of the protocol.
//!
//! A closed type knows every code it can hold and refuses the others. The
//! open type, `MsgType`, keeps a code it does not know as it came.

use crate::common::text::{chars_of, string_of};
use std::str::FromStr;
use vstd::prelude::*;
use vstd::string::*;

verus! {

/// The side of an order. A closed type: a code outside the list is refused.
#[derive(Debug, Clone, Copy, PartialEq, Eq, Hash)]
pub enum Side {
    Buy,
    Sell,
}

impl Side {
    /// The character that stands for this value on the wire.
    pub open spec fn code_char(self) -> char {
        match self {
            Side::Buy => '1',
            Side::Sell => '2',
        }
    }

    /// The code of this value: one character.
    pub open spec fn wire_code(self) -> Seq<char> {
        seq![self.code_char()]
    }

    /// The value that a code stands for, if it stands for one.
    pub open spec fn from_wire_code(code: Seq<char>) -> Option<Side> {
        if code.len() != 1 {
            None
        } else if code[0] == '1' {
            Some(Side::Buy)
        } else if code[0] == '2' {
            Some(Side::Sell)
        } else {
            None
        }
    }

    /// The character that stands for this value on the wire.
    pub fn code(&self) -> (c: char)
        ensures
            c == self.code_char(),
    {
        match self {
            Side::Buy => '1',
            Side::Sell => '2',
        }
    }

    /// The code of this value, as a string.
    pub fn to_string(&self) -> (s: String)
        ensures
            s@ == self.wire_code(),
    {
        let mut s = String::new();
        s.push(self.code());
        assert(s@ =~= self.wire_code());
        s
    }

    /// Reads a code. Fails on every text but the codes of this type.
    pub fn parse_code(code: &str) -> (r: Result<Side, ()>)
        ensures
            r == match Side::from_wire_code(code@) {
                Some(v) => Ok::<Side, ()>(v),
                None => Err(()),
            },
    {
        let chars = chars_of(code);
        if chars.len() != 1 {
            return Err(());
        }
        let c = chars[0];
        if c == '1' {
            Ok(Side::Buy)
        } else if c == '2' {
            Ok(Side::Sell)
        } else {
            Err(())
        }
    }

    /// Every value reads back from its own code, and a text reads as a
    /// value only where it is that value's code.
    pub proof fn lemma_code_round_trip(v: Side, code: Seq<char>)
        ensures
            Side::from_wire_code(v.wire_code()) == Some(v),
            Side::from_wire_code(code) == Some(v) ==> code == v.wire_code(),
    {
        if Side::from_wire_code(code) == Some(v) {
            assert(code =~= v.wire_code());
        }
    }
}

impl FromStr for Side {
    type Err = ();

    fn from_str(s: &str) -> (r: Result<Self, Self::Err>)
        ensures
            r == match Side::from_wire_code(s@) {
                Some(v) => Ok::<Side, ()>(v),
                None => Err(()),
            },
    {
        Side::parse_code(s)
    }
}

/// The state of an order. A closed type: a code outside the list is refused.
#[derive(Debug, Clone, Copy, PartialEq, Eq, Hash)]
pub enum OrdStatus {
    New,
    PartiallyFilled,
    Filled,
    DoneForDay,
    Canceled,
    Replaced,
    PendingCancel,
    Stopped,
    Rejected,
    Suspended,
    PendingNew,
    Calculated,
    Expired,
    AcceptedForBidding,
    PendingReplace,
}

impl OrdStatus {
    /// The character that stands for this value on the wire.
    pub open spec fn code_char(self) -> char {
        match self {
            OrdStatus::New => '0',
            OrdStatus::PartiallyFilled => '1',
            OrdStatus::Filled => '2',
            OrdStatus::DoneForDay => '3',
            OrdStatus::Canceled => '4',
            OrdStatus::Replaced => '5',
            OrdStatus::PendingCancel => '6',
            OrdStatus::Stopped => '7',
            OrdStatus::Rejected => '8',
            OrdStatus::Suspended => '9',
            OrdStatus::PendingNew => 'A',
            OrdStatus::Calculated => 'B',
            OrdStatus::Expired => 'C',
            OrdStatus::AcceptedForBidding => 'D',
            OrdStatus::PendingReplace => 'E',
        }
    }

    /// The code of this value: one character.
    pub open spec fn wire_code(self) -> Seq<char> {
        seq![self.code_char()]
    }

    /// The value that a code stands for, if it stands for one.
    pub open spec fn from_wire_code(code: Seq<char>) -> Option<OrdStatus> {
        if code.len() != 1 {
            None
        } else if code[0] == '0' {
            Some(OrdStatus::New)
        } else if code[0] == '1' {
            Some(OrdStatus::PartiallyFilled)
        } else if code[0] == '2' {
            Some(OrdStatus::Filled)
        } else if code[0] == '3' {
            Some(OrdStatus::DoneForDay)
        } else if code[0] == '4' {
            Some(OrdStatus::Canceled)
        } else if code[0] == '5' {
            Some(OrdStatus::Replaced)
        } else if code[0] == '6' {
            Some(OrdStatus::PendingCancel)
        } else if code[0] == '7' {
            Some(OrdStatus::Stopped)
        } else if code[0] == '8' {
            Some(OrdStatus::Rejected)
        } else if code[0] == '9' {
            Some(OrdStatus::Suspended)
        } else if code[0] == 'A' {
            Some(OrdStatus::PendingNew)
        } else if code[0] == 'B' {
            Some(OrdStatus::Calculated)
        } else if code[0] == 'C' {
            Some(OrdStatus::Expired)
        } else if code[0] == 'D' {
            Some(OrdStatus::AcceptedForBidding)
        } else if code[0] == 'E' {
            Some(OrdStatus::PendingReplace)
        } else {
            None
        }
    }

    /// The character that stands for this value on the wire.
    pub fn code(&self) -> (c: char)
        ensures
            c == self.code_char(),
    {
        match self {
            OrdStatus::New => '0',
            OrdStatus::PartiallyFilled => '1',
            OrdStatus::Filled => '2',
            OrdStatus::DoneForDay => '3',
            OrdStatus::Canceled => '4',
            OrdStatus::Replaced => '5',
            OrdStatus::PendingCancel => '6',
            OrdStatus::Stopped => '7',
            OrdStatus::Rejected => '8',
            OrdStatus::Suspended => '9',
            OrdStatus::PendingNew => 'A',
            OrdStatus::Calculated => 'B',
            OrdStatus::Expired => 'C',
            OrdStatus::AcceptedForBidding => 'D',
            OrdStatus::PendingReplace => 'E',
        }
    }

    /// The code of this value, as a string.
    pub fn to_string(&self) -> (s: String)
        ensures
            s@ == self.wire_code(),
    {
        let mut s = String::new();
        s.push(self.code());
        assert(s@ =~= self.wire_code());
        s
    }

    /// Reads a code. Fails on every text but the codes of this type.
    pub fn parse_code(code: &str) -> (r: Result<OrdStatus, ()>)
        ensures
            r == match OrdStatus::from_wire_code(code@) {
                Some(v) => Ok::<OrdStatus, ()>(v),
                None => Err(()),
            },
    {
        let chars = chars_of(code);
        if chars.len() != 1 {
            return Err(());
        }
        let c = chars[0];
        if c == '0' {
            Ok(OrdStatus::New)
        } else if c == '1' {
            Ok(OrdStatus::PartiallyFilled)
        } else if c == '2' {
            Ok(OrdStatus::Filled)
        } else if c == '3' {
            Ok(OrdStatus::DoneForDay)
        } else if c == '4' {
            Ok(OrdStatus::Canceled)
        } else if c == '5' {
            Ok(OrdStatus::Replaced)
        } else if c == '6' {
            Ok(OrdStatus::PendingCancel)
        } else if c == '7' {
            Ok(OrdStatus::Stopped)
        } else if c == '8' {
            Ok(OrdStatus::Rejected)
        } else if c == '9' {
            Ok(OrdStatus::Suspended)
        } else if c == 'A' {
            Ok(OrdStatus::PendingNew)
        } else if c == 'B' {
            Ok(OrdStatus::Calculated)
        } else if c == 'C' {
            Ok(OrdStatus::Expired)
        } else if c == 'D' {
            Ok(OrdStatus::AcceptedForBidding)
        } else if c == 'E' {
            Ok(OrdStatus::PendingReplace)
        } else {
            Err(())
        }
    }

    /// Every value reads back from its own code, and a text reads as a
    /// value only where it is that value's code.
    pub proof fn lemma_code_round_trip(v: OrdStatus, code: Seq<char>)
        ensures
            OrdStatus::from_wire_code(v.wire_code()) == Some(v),
            OrdStatus::from_wire_code(code) == Some(v) ==> code == v.wire_code(),
    {
        if OrdStatus::from_wire_code(code) == Some(v) {
            assert(code =~= v.wire_code());
        }
    }
}

impl FromStr for OrdStatus {
    type Err = ();

    fn from_str(s: &str) -> (r: Result<Self, Self::Err>)
        ensures
            r == match OrdStatus::from_wire_code(s@) {
                Some(v) => Ok::<OrdStatus, ()>(v),
                None => Err(()),
            },
    {
        OrdStatus::parse_code(s)
    }
}

/// The encryption that a logon announces. A closed type: a code outside the list is refused.
#[derive(Debug, Clone, Copy, PartialEq, Eq, Hash)]
pub enum EncryptMethod {
    NoEncryption,
    Pkcs,
    Des,
    PkcsAndDes,
    PgpAndDes,
    PgpAndMd5,
    PemAndMd5,
}

impl EncryptMethod {
    /// The character that stands for this value on the wire.
    pub open spec fn code_char(self) -> char {
        match self {
            EncryptMethod::NoEncryption => '0',
            EncryptMethod::Pkcs => '1',
            EncryptMethod::Des => '2',
            EncryptMethod::PkcsAndDes => '3',
            EncryptMethod::PgpAndDes => '4',
            EncryptMethod::PgpAndMd5 => '5',
            EncryptMethod::PemAndMd5 => '6',
        }
    }

    /// The code of this value: one character.
    pub open spec fn wire_code(self) -> Seq<char> {
        seq![self.code_char()]
    }

    /// The value that a code stands for, if it stands for one.
    pub open spec fn from_wire_code(code: Seq<char>) -> Option<EncryptMethod> {
        if code.len() != 1 {
            None
        } else if code[0] == '0' {
            Some(EncryptMethod::NoEncryption)
        } else if code[0] == '1' {
            Some(EncryptMethod::Pkcs)
        } else if code[0] == '2' {
            Some(EncryptMethod::Des)
        } else if code[0] == '3' {
            Some(EncryptMethod::PkcsAndDes)
        } else if code[0] == '4' {
            Some(EncryptMethod::PgpAndDes)
        } else if code[0] == '5' {
            Some(EncryptMethod::PgpAndMd5)
        } else if code[0] == '6' {
            Some(EncryptMethod::PemAndMd5)
        } else {
            None
        }
    }

    /// The character that stands for this value on the wire.
    pub fn code(&self) -> (c: char)
        ensures
            c == self.code_char(),
    {
        match self {
            EncryptMethod::NoEncryption => '0',
            EncryptMethod::Pkcs => '1',
            EncryptMethod::Des => '2',
            EncryptMethod::PkcsAndDes => '3',
            EncryptMethod::PgpAndDes => '4',
            EncryptMethod::PgpAndMd5 => '5',
            EncryptMethod::PemAndMd5 => '6',
        }
    }

    /// The code of this value, as a string.
    pub fn to_string(&self) -> (s: String)
        ensures
            s@ == self.wire_code(),
    {
        let mut s = String::new();
        s.push(self.code());
        assert(s@ =~= self.wire_code());
        s
    }

    /// Reads a code. Fails on every text but the codes of this type.
    pub fn parse_code(code: &str) -> (r: Result<EncryptMethod, ()>)
        ensures
            r == match EncryptMethod::from_wire_code(code@) {
                Some(v) => Ok::<EncryptMethod, ()>(v),
                None => Err(()),
            },
    {
        let chars = chars_of(code);
        if chars.len() != 1 {
            return Err(());
        }
        let c = chars[0];
        if c == '0' {
            Ok(EncryptMethod::NoEncryption)
        } else if c == '1' {
            Ok(EncryptMethod::Pkcs)
        } else if c == '2' {
            Ok(EncryptMethod::Des)
        } else if c == '3' {
            Ok(EncryptMethod::PkcsAndDes)
        } else if c == '4' {
            Ok(EncryptMethod::PgpAndDes)
        } else if c == '5' {
            Ok(EncryptMethod::PgpAndMd5)
        } else if c == '6' {
            Ok(EncryptMethod::PemAndMd5)
        } else {
            Err(())
        }
    }

    /// Every value reads back from its own code, and a text reads as a
    /// value only where it is that value's code.
    pub proof fn lemma_code_round_trip(v: EncryptMethod, code: Seq<char>)
        ensures
            EncryptMethod::from_wire_code(v.wire_code()) == Some(v),
            EncryptMethod::from_wire_code(code) == Some(v) ==> code == v.wire_code(),
    {
        if EncryptMethod::from_wire_code(code) == Some(v) {
            assert(code =~= v.wire_code());
        }
    }
}

impl FromStr for EncryptMethod {
    type Err = ();

    fn from_str(s: &str) -> (r: Result<Self, Self::Err>)
        ensures
            r == match EncryptMethod::from_wire_code(s@) {
                Some(v) => Ok::<EncryptMethod, ()>(v),
                None => Err(()),
            },
    {
        EncryptMethod::parse_code(s)
    }
}

/// What an execution report does to the execution it names. A closed type:
/// a code outside the list is refused.
#[derive(Debug, Clone, Copy, PartialEq, Eq, Hash)]
pub enum ExecTransType {
    New,
    Cancel,
    Correct,
    Status,
}

impl ExecTransType {
    /// The character that stands for this value on the wire.
    pub open spec fn code_char(self) -> char {
        match self {
            ExecTransType::New => '0',
            ExecTransType::Cancel => '1',
            ExecTransType::Correct => '2',
            ExecTransType::Status => '3',
        }
    }

    /// The code of this value: one character.
    pub open spec fn wire_code(self) -> Seq<char> {
        seq![self.code_char()]
    }

    /// The value that a code stands for, if it stands for one.
    pub open spec fn from_wire_code(code: Seq<char>) -> Option<ExecTransType> {
        if code.len() != 1 {
            None
        } else if code[0] == '0' {
            Some(ExecTransType::New)
        } else if code[0] == '1' {
            Some(ExecTransType::Cancel)
        } else if code[0] == '2' {
            Some(ExecTransType::Correct)
        } else if code[0] == '3' {
            Some(ExecTransType::Status)
        } else {
            None
        }
    }

    /// The character that stands for this value on the wire.
    pub fn code(&self) -> (c: char)
        ensures
            c == self.code_char(),
    {
        match self {
            ExecTransType::New => '0',
            ExecTransType::Cancel => '1',
            ExecTransType::Correct => '2',
            ExecTransType::Status => '3',
        }
    }

    /// The code of this value, as a string.
    pub fn to_string(&self) -> (s: String)
        ensures
            s@ == self.wire_code(),
    {
        let mut s = String::new();
        s.push(self.code());
        assert(s@ =~= self.wire_code());
        s
    }

    /// Reads a code. Fails on every text but the codes of this type.
    pub fn parse_code(code: &str) -> (r: Result<ExecTransType, ()>)
        ensures
            r == match ExecTransType::from_wire_code(code@) {
                Some(v) => Ok::<ExecTransType, ()>(v),
                None => Err(()),
            },
    {
        let chars = chars_of(code);
        if chars.len() != 1 {
            return Err(());
        }
        let c = chars[0];
        if c == '0' {
            Ok(ExecTransType::New)
        } else if c == '1' {
            Ok(ExecTransType::Cancel)
        } else if c == '2' {
            Ok(ExecTransType::Correct)
        } else if c == '3' {
            Ok(ExecTransType::Status)
        } else {
            Err(())
        }
    }

    /// Every value reads back from its own code, and a text reads as a
    /// value only where it is that value's code.
    pub proof fn lemma_code_round_trip(v: ExecTransType, code: Seq<char>)
        ensures
            ExecTransType::from_wire_code(v.wire_code()) == Some(v),
            ExecTransType::from_wire_code(code) == Some(v) ==> code == v.wire_code(),
    {
        if ExecTransType::from_wire_code(code) == Some(v) {
            assert(code =~= v.wire_code());
        }
    }
}

impl FromStr for ExecTransType {
    type Err = ();

    fn from_str(s: &str) -> (r: Result<Self, Self::Err>)
        ensures
            r == match ExecTransType::from_wire_code(s@) {
                Some(v) => Ok::<ExecTransType, ()>(v),
                None => Err(()),
            },
    {
        ExecTransType::parse_code(s)
    }
}

/// What an execution report reports. A closed type: a code outside the list is refused.
#[derive(Debug, Clone, Copy, PartialEq, Eq, Hash)]
pub enum ExecType {
    New,
    PartialFill,
    Fill,
    DoneForDay,
    Canceled,
    Replace,
    PendingCancel,
    Stopped,
    Rejected,
    Suspended,
    PendingNew,
    Calculated,
    Expired,
    Restated,
    PendingReplace,
}

impl ExecType {
    /// The character that stands for this value on the wire.
    pub open spec fn code_char(self) -> char {
        match self {
            ExecType::New => '0',
            ExecType::PartialFill => '1',
            ExecType::Fill => '2',
            ExecType::DoneForDay => '3',
            ExecType::Canceled => '4',
            ExecType::Replace => '5',
            ExecType::PendingCancel => '6',
            ExecType::Stopped => '7',
            ExecType::Rejected => '8',
            ExecType::Suspended => '9',
            ExecType::PendingNew => 'A',
            ExecType::Calculated => 'B',
            ExecType::Expired => 'C',
            ExecType::Restated => 'D',
            ExecType::PendingReplace => 'E',
        }
    }

    /// The code of this value: one character.
    pub open spec fn wire_code(self) -> Seq<char> {
        seq![self.code_char()]
    }

    /// The value that a code stands for, if it stands for one.
    pub open spec fn from_wire_code(code: Seq<char>) -> Option<ExecType> {
        if code.len() != 1 {
            None
        } else if code[0] == '0' {
            Some(ExecType::New)
        } else if code[0] == '1' {
            Some(ExecType::PartialFill)
        } else if code[0] == '2' {
            Some(ExecType::Fill)
        } else if code[0] == '3' {
            Some(ExecType::DoneForDay)
        } else if code[0] == '4' {
            Some(ExecType::Canceled)
        } else if code[0] == '5' {
            Some(ExecType::Replace)
        } else if code[0] == '6' {
            Some(ExecType::PendingCancel)
        } else if code[0] == '7' {
            Some(ExecType::Stopped)
        } else if code[0] == '8' {
            Some(ExecType::Rejected)
        } else if code[0] == '9' {
            Some(ExecType::Suspended)
        } else if code[0] == 'A' {
            Some(ExecType::PendingNew)
        } else if code[0] == 'B' {
            Some(ExecType::Calculated)
        } else if code[0] == 'C' {
            Some(ExecType::Expired)
        } else if code[0] == 'D' {
            Some(ExecType::Restated)
        } else if code[0] == 'E' {
            Some(ExecType::PendingReplace)
        } else {
            None
        }
    }

    /// The character that stands for this value on the wire.
    pub fn code(&self) -> (c: char)
        ensures
            c == self.code_char(),
    {
        match self {
            ExecType::New => '0',
            ExecType::PartialFill => '1',
            ExecType::Fill => '2',
            ExecType::DoneForDay => '3',
            ExecType::Canceled => '4',
            ExecType::Replace => '5',
            ExecType::PendingCancel => '6',
            ExecType::Stopped => '7',
            ExecType::Rejected => '8',
            ExecType::Suspended => '9',
            ExecType::PendingNew => 'A',
            ExecType::Calculated => 'B',
            ExecType::Expired => 'C',
            ExecType::Restated => 'D',
            ExecType::PendingReplace => 'E',
        }
    }

    /// The code of this value, as a string.
    pub fn to_string(&self) -> (s: String)
        ensures
            s@ == self.wire_code(),
    {
        let mut s = String::new();
        s.push(self.code());
        assert(s@ =~= self.wire_code());
        s
    }

    /// Reads a code. Fails on every text but the codes of this type.
    pub fn parse_code(code: &str) -> (r: Result<ExecType, ()>)
        ensures
            r == match ExecType::from_wire_code(code@) {
                Some(v) => Ok::<ExecType, ()>(v),
                None => Err(()),
            },
    {
        let chars = chars_of(code);
        if chars.len() != 1 {
            return Err(());
        }
        let c = chars[0];
        if c == '0' {
            Ok(ExecType::New)
        } else if c == '1' {
            Ok(ExecType::PartialFill)
        } else if c == '2' {
            Ok(ExecType::Fill)
        } else if c == '3' {
            Ok(ExecType::DoneForDay)
        } else if c == '4' {
            Ok(ExecType::Canceled)
        } else if c == '5' {
            Ok(ExecType::Replace)
        } else if c == '6' {
            Ok(ExecType::PendingCancel)
        } else if c == '7' {
            Ok(ExecType::Stopped)
        } else if c == '8' {
            Ok(ExecType::Rejected)
        } else if c == '9' {
            Ok(ExecType::Suspended)
        } else if c == 'A' {
            Ok(ExecType::PendingNew)
        } else if c == 'B' {
            Ok(ExecType::Calculated)
        } else if c == 'C' {
            Ok(ExecType::Expired)
        } else if c == 'D' {
            Ok(ExecType::Restated)
        } else if c == 'E' {
            Ok(ExecType::PendingReplace)
        } else {
            Err(())
        }
    }

    /// Every value reads back from its own code, and a text reads as a
    /// value only where it is that value's code.
    pub proof fn lemma_code_round_trip(v: ExecType, code: Seq<char>)
        ensures
            ExecType::from_wire_code(v.wire_code()) == Some(v),
            ExecType::from_wire_code(code) == Some(v) ==> code == v.wire_code(),
    {
        if ExecType::from_wire_code(code) == Some(v) {
            assert(code =~= v.wire_code());
        }
    }
}

impl FromStr for ExecType {
    type Err = ();

    fn from_str(s: &str) -> (r: Result<Self, Self::Err>)
        ensures
            r == match ExecType::from_wire_code(s@) {
                Some(v) => Ok::<ExecType, ()>(v),
                None => Err(()),
            },
    {
        ExecType::parse_code(s)
    }
}

/// The type of a message. An open type: the codes below have names, and
/// any other code is kept as it came, in `Other`.
#[derive(Debug, Clone, PartialEq, Eq, Hash)]
pub enum MsgType {
    Heartbeat,
    Logon,
    NewOrderSingle,
    ExecutionReport,
    OrderCancelRequest,
    MarketDataRequest,
    Other(String),
}

/// What a `MsgType` holds, with the text of an unnamed code as a sequence.
pub enum MsgTypeView {
    Heartbeat,
    Logon,
    NewOrderSingle,
    ExecutionReport,
    OrderCancelRequest,
    MarketDataRequest,
    Other(Seq<char>),
}

impl View for MsgType {
    type V = MsgTypeView;

    open spec fn view(&self) -> MsgTypeView {
        match self {
            MsgType::Heartbeat => MsgTypeView::Heartbeat,
            MsgType::Logon => MsgTypeView::Logon,
            MsgType::NewOrderSingle => MsgTypeView::NewOrderSingle,
            MsgType::ExecutionReport => MsgTypeView::ExecutionReport,
            MsgType::OrderCancelRequest => MsgTypeView::OrderCancelRequest,
            MsgType::MarketDataRequest => MsgTypeView::MarketDataRequest,
            MsgType::Other(s) => MsgTypeView::Other(s@),
        }
    }
}

impl MsgTypeView {
    /// The code of this value on the wire.
    pub open spec fn wire_code(self) -> Seq<char> {
        match self {
            MsgTypeView::Heartbeat => seq!['0'],
            MsgTypeView::Logon => seq!['A'],
            MsgTypeView::NewOrderSingle => seq!['D'],
            MsgTypeView::ExecutionReport => seq!['8'],
            MsgTypeView::OrderCancelRequest => seq!['F'],
            MsgTypeView::MarketDataRequest => seq!['V'],
            MsgTypeView::Other(s) => s,
        }
    }

    /// The value that a code stands for: every code stands for one.
    pub open spec fn from_wire_code(code: Seq<char>) -> MsgTypeView {
        if code == seq!['0'] {
            MsgTypeView::Heartbeat
        } else if code == seq!['A'] {
            MsgTypeView::Logon
        } else if code == seq!['D'] {
            MsgTypeView::NewOrderSingle
        } else if code == seq!['8'] {
            MsgTypeView::ExecutionReport
        } else if code == seq!['F'] {
            MsgTypeView::OrderCancelRequest
        } else if code == seq!['V'] {
            MsgTypeView::MarketDataRequest
        } else {
            MsgTypeView::Other(code)
        }
    }

    /// Whether a code has a name of its own.
    pub open spec fn is_named_code(code: Seq<char>) -> bool {
        code == seq!['0']
            || code == seq!['A']
            || code == seq!['D']
            || code == seq!['8']
            || code == seq!['F']
            || code == seq!['V']
    }

    /// The values that reading can give: `Other` never holds a code that has a name.
    pub open spec fn wf(self) -> bool {
        match self {
            MsgTypeView::Other(s) => !MsgTypeView::is_named_code(s),
            _ => true,
        }
    }

    /// A code reads as a value whose code it is; a value that reading can
    /// give reads back from its own code; and a code without a name is
    /// kept in `Other` as it came.
    pub proof fn lemma_code_round_trip(v: MsgTypeView, code: Seq<char>)
        ensures
            MsgTypeView::from_wire_code(code).wire_code() == code,
            MsgTypeView::from_wire_code(code).wf(),
            v.wf() ==> MsgTypeView::from_wire_code(v.wire_code()) == v,
            !MsgTypeView::is_named_code(code) ==> MsgTypeView::from_wire_code(code)
                == MsgTypeView::Other(code),
    {
        assert(MsgTypeView::from_wire_code(code).wire_code() =~= code);
        assert(seq!['0'][0] == '0');
        assert(seq!['A'][0] == 'A');
        assert(seq!['D'][0] == 'D');
        assert(seq!['8'][0] == '8');
        assert(seq!['F'][0] == 'F');
        assert(seq!['V'][0] == 'V');
    }
}

impl MsgType {
    /// Reads a code: a named value where the code has a name, else `Other` with the code.
    pub fn parse_code(code: &str) -> (r: MsgType)
        ensures
            r@ == MsgTypeView::from_wire_code(code@),
    {
        let chars = chars_of(code);
        if chars.len() == 1 {
            let c = chars[0];
            assert(code@ =~= seq![c]);
            assert(seq!['0'][0] == '0');
            assert(seq!['A'][0] == 'A');
            assert(seq!['D'][0] == 'D');
            assert(seq!['8'][0] == '8');
            assert(seq!['F'][0] == 'F');
            assert(seq!['V'][0] == 'V');
            if c == '0' {
                return MsgType::Heartbeat;
            } else if c == 'A' {
                return MsgType::Logon;
            } else if c == 'D' {
                return MsgType::NewOrderSingle;
            } else if c == '8' {
                return MsgType::ExecutionReport;
            } else if c == 'F' {
                return MsgType::OrderCancelRequest;
            } else if c == 'V' {
                return MsgType::MarketDataRequest;
            }
        } else {
            assert(seq!['0'].len() == 1);
            assert(seq!['A'].len() == 1);
            assert(seq!['D'].len() == 1);
            assert(seq!['8'].len() == 1);
            assert(seq!['F'].len() == 1);
            assert(seq!['V'].len() == 1);
        }
        let kept = string_of(&chars, 0, chars.len());
        assert(kept@ =~= code@);
        MsgType::Other(kept)
    }

    /// The code of this value, as a string.
    pub fn to_string(&self) -> (s: String)
        ensures
            s@ == self@.wire_code(),
    {
        let mut s = String::new();
        self.write_code(&mut s);
        s
    }

    /// Appends the code of this value.
    pub fn write_code(&self, buffer: &mut String)
        ensures
            final(buffer)@ == old(buffer)@ + self@.wire_code(),
    {
        match self {
            MsgType::Heartbeat => buffer.push('0'),
            MsgType::Logon => buffer.push('A'),
            MsgType::NewOrderSingle => buffer.push('D'),
            MsgType::ExecutionReport => buffer.push('8'),
            MsgType::OrderCancelRequest => buffer.push('F'),
            MsgType::MarketDataRequest => buffer.push('V'),
            MsgType::Other(s) => buffer.append(s.as_str()),
        }
        assert(buffer@ =~= old(buffer)@ + self@.wire_code());
    }
}

impl FromStr for MsgType {
    type Err = ();

    fn from_str(s: &str) -> (r: Result<Self, Self::Err>)
        ensures
            r is Ok,
            r->Ok_0@ == MsgTypeView::from_wire_code(s@),
    {
        Ok(MsgType::parse_code(s))
    }
}

} // verus!
