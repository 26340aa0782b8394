//! The Execution Report message (MsgType=8): what became of an order.

use crate::common::decimal::{
    Decimal, DecimalView, optional_decimal, optional_decimal_text, parse_number,
};
use crate::common::enums::{ExecTransType, ExecType, OrdStatus, Side};
use crate::common::header::parse_fix_timestamp;
use crate::common::scan::{plain, plain_optional};
use crate::common::text::{decimal_text, Field, parse_u32, parse_unsigned};
use crate::common::timestamp::{Civil, parse_timestamp, UtcTimestamp};
use crate::common::validation::{
    FixFieldHandler, Validate, ValidationError, ValidationErrorView, WriteTo,
};
use crate::common::writer::{
    FieldList, lemma_nothing_written, optional_number_text, optional_text, optional_time,
    optional_time_text, put_code, put_decimal, put_optional_decimal, put_optional_number,
    put_optional_text, put_optional_time, put_text, unknown_field,
};
use vstd::prelude::*;
use vstd::string::*;

verus! {

/// The body of an Execution Report.
#[derive(Debug, Clone, PartialEq, Eq)]
pub struct ExecutionReportBody {
    /// Tag 37: the identifier that the broker gives the order.
    pub order_id: String,
    /// Tag 17: the identifier of this execution.
    pub exec_id: String,
    /// Tag 20: what the report does to the execution it names.
    pub exec_trans_type: ExecTransType,
    /// Tag 150: what the report reports.
    pub exec_type: ExecType,
    /// Tag 39: the state of the order.
    pub ord_status: OrdStatus,
    /// Tag 55: the ticker symbol.
    pub symbol: String,
    /// Tag 54: the side of the order.
    pub side: Side,
    /// Tag 151: the quantity still open.
    pub leaves_qty: Decimal,
    /// Tag 14: the quantity filled so far.
    pub cum_qty: Decimal,
    /// Tag 6: the average price of the fills.
    pub avg_px: Decimal,
    /// Tag 32: the quantity of the last fill.
    pub last_shares: Option<Decimal>,
    /// Tag 31: the price of the last fill.
    pub last_px: Option<Decimal>,
    /// Tag 60: when the execution took place.
    pub transact_time: Option<UtcTimestamp>,
    /// Tag 11: the identifier that the institution gave the order.
    pub cl_ord_id: Option<String>,
    /// Tag 41: the identifier of the order that this one replaced.
    pub orig_cl_ord_id: Option<String>,
    /// Tag 103: why the order was rejected.
    pub ord_rej_reason: Option<u32>,
}

/// What an Execution Report body holds, as mathematical values.
pub struct ExecutionReportView {
    pub order_id: Seq<char>,
    pub exec_id: Seq<char>,
    pub exec_trans_type: ExecTransType,
    pub exec_type: ExecType,
    pub ord_status: OrdStatus,
    pub symbol: Seq<char>,
    pub side: Side,
    pub leaves_qty: DecimalView,
    pub cum_qty: DecimalView,
    pub avg_px: DecimalView,
    pub last_shares: Option<DecimalView>,
    pub last_px: Option<DecimalView>,
    pub transact_time: Option<Civil>,
    pub cl_ord_id: Option<Seq<char>>,
    pub orig_cl_ord_id: Option<Seq<char>>,
    pub ord_rej_reason: Option<u32>,
}

impl View for ExecutionReportBody {
    type V = ExecutionReportView;

    open spec fn view(&self) -> ExecutionReportView {
        ExecutionReportView {
            order_id: self.order_id@,
            exec_id: self.exec_id@,
            exec_trans_type: self.exec_trans_type,
            exec_type: self.exec_type,
            ord_status: self.ord_status,
            symbol: self.symbol@,
            side: self.side,
            leaves_qty: self.leaves_qty@,
            cum_qty: self.cum_qty@,
            avg_px: self.avg_px@,
            last_shares: optional_decimal(self.last_shares),
            last_px: optional_decimal(self.last_px),
            transact_time: optional_time(self.transact_time),
            cl_ord_id: optional_text(self.cl_ord_id),
            orig_cl_ord_id: optional_text(self.orig_cl_ord_id),
            ord_rej_reason: self.ord_rej_reason,
        }
    }
}

impl ExecutionReportView {
    /// The body that a report starts with: every text empty, every code
    /// New, the side Buy, every quantity zero, no optional field.
    pub open spec fn initial() -> ExecutionReportView {
        let zero = DecimalView { negative: false, mantissa: 0, scale: 0 };
        ExecutionReportView {
            order_id: Seq::empty(),
            exec_id: Seq::empty(),
            exec_trans_type: ExecTransType::New,
            exec_type: ExecType::New,
            ord_status: OrdStatus::New,
            symbol: Seq::empty(),
            side: Side::Buy,
            leaves_qty: zero,
            cum_qty: zero,
            avg_px: zero,
            last_shares: None,
            last_px: None,
            transact_time: None,
            cl_ord_id: None,
            orig_cl_ord_id: None,
            ord_rej_reason: None,
        }
    }

    /// The fields of the body, in wire order; an optional field is written
    /// where it is present.
    pub open spec fn fields(self) -> Seq<Field> {
        FieldList::new()
            .with(37, self.order_id)
            .with(17, self.exec_id)
            .with(20, self.exec_trans_type.wire_code())
            .with(150, self.exec_type.wire_code())
            .with(39, self.ord_status.wire_code())
            .with_optional(11, self.cl_ord_id)
            .with_optional(41, self.orig_cl_ord_id)
            .with(55, self.symbol)
            .with(54, self.side.wire_code())
            .with_optional(60, optional_time_text(self.transact_time))
            .with_optional(32, optional_decimal_text(self.last_shares))
            .with_optional(31, optional_decimal_text(self.last_px))
            .with(151, self.leaves_qty.text())
            .with(14, self.cum_qty.text())
            .with(6, self.avg_px.text())
            .with_optional(103, optional_number_text(self.ord_rej_reason))
            .fields
    }

    /// The bodies that can be read back from their wire text: no text holds
    /// a field separator, the times are instants and the numbers are such as
    /// a `Decimal` holds.
    pub open spec fn wf(self) -> bool {
        &&& plain(self.order_id)
        &&& plain(self.exec_id)
        &&& plain(self.symbol)
        &&& self.leaves_qty.wf()
        &&& self.cum_qty.wf()
        &&& self.avg_px.wf()
        &&& match self.last_shares {
            Some(v) => v.wf(),
            None => true,
        }
        &&& match self.last_px {
            Some(v) => v.wf(),
            None => true,
        }
        &&& match self.transact_time {
            Some(v) => v.wf(),
            None => true,
        }
        &&& plain_optional(self.cl_ord_id)
        &&& plain_optional(self.orig_cl_ord_id)
    }

    /// The place of a tag in the wire order of the fields, counted from 0;
    /// a negative number for a tag that the body does not hold.
    pub open spec fn rank(tag: nat) -> int {
        if tag == 37 {
            0
        } else if tag == 17 {
            1
        } else if tag == 20 {
            2
        } else if tag == 150 {
            3
        } else if tag == 39 {
            4
        } else if tag == 11 {
            5
        } else if tag == 41 {
            6
        } else if tag == 55 {
            7
        } else if tag == 54 {
            8
        } else if tag == 60 {
            9
        } else if tag == 32 {
            10
        } else if tag == 31 {
            11
        } else if tag == 151 {
            12
        } else if tag == 14 {
            13
        } else if tag == 6 {
            14
        } else if tag == 103 {
            15
        } else {
            -1
        }
    }

    /// The first thing that is wrong with the body, if anything is: the
    /// two identifiers and the symbol must not be empty, and no quantity or
    /// price may be below zero.
    pub open spec fn problem(self) -> Option<ValidationErrorView> {
        if self.order_id.len() == 0 {
            Some(ValidationErrorView::MissingRequiredField("OrderID"@))
        } else if self.exec_id.len() == 0 {
            Some(ValidationErrorView::MissingRequiredField("ExecID"@))
        } else if self.symbol.len() == 0 {
            Some(ValidationErrorView::MissingRequiredField("Symbol"@))
        } else if self.leaves_qty.below_zero() {
            Some(ValidationErrorView::InvalidFieldValue("LeavesQty"@, self.leaves_qty.text()))
        } else if self.cum_qty.below_zero() {
            Some(ValidationErrorView::InvalidFieldValue("CumQty"@, self.cum_qty.text()))
        } else if self.avg_px.below_zero() {
            Some(ValidationErrorView::InvalidFieldValue("AvgPx"@, self.avg_px.text()))
        } else {
            None
        }
    }

    /// The tags of the fields that the body holds.
    pub open spec fn handles_tag(tag: u32) -> bool {
        tag == 37 || tag == 17 || tag == 20 || tag == 150 || tag == 39 || tag == 55 || tag == 54
            || tag == 151 || tag == 14 || tag == 6 || tag == 32 || tag == 31 || tag == 60
            || tag == 11 || tag == 41 || tag == 103
    }

    /// The body after it has taken a field, or why it cannot take it.
    pub open spec fn with_field(self, tag: u32, value: Seq<char>) -> Result<
        ExecutionReportView,
        Seq<char>,
    > {
        if tag == 37 {
            Ok(ExecutionReportView { order_id: value, ..self })
        } else if tag == 17 {
            Ok(ExecutionReportView { exec_id: value, ..self })
        } else if tag == 20 {
            match ExecTransType::from_wire_code(value) {
                Some(v) => Ok(ExecutionReportView { exec_trans_type: v, ..self }),
                None => Err("Invalid ExecTransType"@),
            }
        } else if tag == 150 {
            match ExecType::from_wire_code(value) {
                Some(v) => Ok(ExecutionReportView { exec_type: v, ..self }),
                None => Err("Invalid ExecType"@),
            }
        } else if tag == 39 {
            match OrdStatus::from_wire_code(value) {
                Some(v) => Ok(ExecutionReportView { ord_status: v, ..self }),
                None => Err("Invalid OrdStatus"@),
            }
        } else if tag == 55 {
            Ok(ExecutionReportView { symbol: value, ..self })
        } else if tag == 54 {
            match Side::from_wire_code(value) {
                Some(v) => Ok(ExecutionReportView { side: v, ..self }),
                None => Err("Invalid Side"@),
            }
        } else if tag == 151 {
            match parse_number(value) {
                Some(d) => Ok(ExecutionReportView { leaves_qty: d, ..self }),
                None => Err("Invalid LeavesQty"@),
            }
        } else if tag == 14 {
            match parse_number(value) {
                Some(d) => Ok(ExecutionReportView { cum_qty: d, ..self }),
                None => Err("Invalid CumQty"@),
            }
        } else if tag == 6 {
            match parse_number(value) {
                Some(d) => Ok(ExecutionReportView { avg_px: d, ..self }),
                None => Err("Invalid AvgPx"@),
            }
        } else if tag == 32 {
            match parse_number(value) {
                Some(d) => Ok(ExecutionReportView { last_shares: Some(d), ..self }),
                None => Err("Invalid LastShares"@),
            }
        } else if tag == 31 {
            match parse_number(value) {
                Some(d) => Ok(ExecutionReportView { last_px: Some(d), ..self }),
                None => Err("Invalid LastPx"@),
            }
        } else if tag == 60 {
            match parse_timestamp(value) {
                Ok(t) => Ok(ExecutionReportView { transact_time: Some(t), ..self }),
                Err(e) => Err(e),
            }
        } else if tag == 11 {
            Ok(ExecutionReportView { cl_ord_id: Some(value), ..self })
        } else if tag == 41 {
            Ok(ExecutionReportView { orig_cl_ord_id: Some(value), ..self })
        } else if tag == 103 {
            match parse_unsigned(value, u32::MAX as nat) {
                Some(n) => Ok(ExecutionReportView { ord_rej_reason: Some(n as u32), ..self }),
                None => Err("Invalid OrdRejReason"@),
            }
        } else {
            Err("Unknown execution report field: "@ + decimal_text(tag as nat))
        }
    }
}

impl Default for ExecutionReportBody {
    fn default() -> (r: ExecutionReportBody)
        ensures
            r@ == ExecutionReportView::initial(),
    {
        ExecutionReportBody {
            order_id: String::new(),
            exec_id: String::new(),
            exec_trans_type: ExecTransType::New,
            exec_type: ExecType::New,
            ord_status: OrdStatus::New,
            symbol: String::new(),
            side: Side::Buy,
            leaves_qty: Decimal::zero(),
            cum_qty: Decimal::zero(),
            avg_px: Decimal::zero(),
            last_shares: None,
            last_px: None,
            transact_time: None,
            cl_ord_id: None,
            orig_cl_ord_id: None,
            ord_rej_reason: None,
        }
    }
}

impl ExecutionReportBody {
    /// A report on the order and the execution with these identifiers.
    pub fn new(order_id: &str, exec_id: &str) -> (r: ExecutionReportBody)
        ensures
            r@ == (ExecutionReportView {
                order_id: order_id@,
                exec_id: exec_id@,
                ..ExecutionReportView::initial()
            }),
    {
        let mut body = ExecutionReportBody::default();
        body.order_id = String::from_str(order_id);
        body.exec_id = String::from_str(exec_id);
        body
    }

    /// Whether the body holds a field with this tag.
    pub fn handles(tag: u32) -> (r: bool)
        ensures
            r == ExecutionReportView::handles_tag(tag),
    {
        tag == 37 || tag == 17 || tag == 20 || tag == 150 || tag == 39 || tag == 55 || tag == 54
            || tag == 151 || tag == 14 || tag == 6 || tag == 32 || tag == 31 || tag == 60
            || tag == 11 || tag == 41 || tag == 103
    }
}

impl Validate for ExecutionReportBody {
    open spec fn problem(&self) -> Option<ValidationErrorView> {
        self@.problem()
    }

    fn validate(&self) -> (r: Result<(), ValidationError>) {
        if self.order_id.as_str().is_empty() {
            return Err(ValidationError::MissingRequiredField(String::from_str("OrderID")));
        }
        if self.exec_id.as_str().is_empty() {
            return Err(ValidationError::MissingRequiredField(String::from_str("ExecID")));
        }
        if self.symbol.as_str().is_empty() {
            return Err(ValidationError::MissingRequiredField(String::from_str("Symbol")));
        }
        if self.leaves_qty.is_negative() {
            return Err(
                ValidationError::InvalidFieldValue(
                    String::from_str("LeavesQty"),
                    self.leaves_qty.to_string(),
                ),
            );
        }
        if self.cum_qty.is_negative() {
            return Err(
                ValidationError::InvalidFieldValue(
                    String::from_str("CumQty"),
                    self.cum_qty.to_string(),
                ),
            );
        }
        if self.avg_px.is_negative() {
            return Err(
                ValidationError::InvalidFieldValue(
                    String::from_str("AvgPx"),
                    self.avg_px.to_string(),
                ),
            );
        }
        Ok(())
    }
}

impl WriteTo for ExecutionReportBody {
    open spec fn fields(&self) -> Seq<Field> {
        self@.fields()
    }

    fn write_to(&self, buffer: &mut String) {
        let ghost start = buffer@;
        let written: Ghost<FieldList> = Ghost(FieldList::new());
        proof {
            lemma_nothing_written(buffer@);
        }
        let written = put_text(buffer, 37, self.order_id.as_str(), Ghost(start), written);
        let written = put_text(buffer, 17, self.exec_id.as_str(), Ghost(start), written);
        let written = put_code(buffer, 20, self.exec_trans_type.code(), Ghost(start), written);
        let written = put_code(buffer, 150, self.exec_type.code(), Ghost(start), written);
        let written = put_code(buffer, 39, self.ord_status.code(), Ghost(start), written);
        let written = put_optional_text(buffer, 11, &self.cl_ord_id, Ghost(start), written);
        let written = put_optional_text(buffer, 41, &self.orig_cl_ord_id, Ghost(start), written);
        let written = put_text(buffer, 55, self.symbol.as_str(), Ghost(start), written);
        let written = put_code(buffer, 54, self.side.code(), Ghost(start), written);
        let written = put_optional_time(buffer, 60, self.transact_time, Ghost(start), written);
        let written = put_optional_decimal(buffer, 32, self.last_shares, Ghost(start), written);
        let written = put_optional_decimal(buffer, 31, self.last_px, Ghost(start), written);
        let written = put_decimal(buffer, 151, self.leaves_qty, Ghost(start), written);
        let written = put_decimal(buffer, 14, self.cum_qty, Ghost(start), written);
        let written = put_decimal(buffer, 6, self.avg_px, Ghost(start), written);
        let written = put_optional_number(buffer, 103, self.ord_rej_reason, Ghost(start), written);
    }
}

impl FixFieldHandler for ExecutionReportBody {
    open spec fn with_field(model: ExecutionReportView, tag: u32, value: Seq<char>) -> Result<
        ExecutionReportView,
        Seq<char>,
    > {
        model.with_field(tag, value)
    }

    fn parse_field(&mut self, tag: u32, value: &str) -> (r: Result<(), String>) {
        match tag {
            37 => {
                self.order_id = String::from_str(value);
            },
            17 => {
                self.exec_id = String::from_str(value);
            },
            20 => {
                match ExecTransType::parse_code(value) {
                    Ok(v) => {
                        self.exec_trans_type = v;
                    },
                    Err(_) => {
                        return Err(String::from_str("Invalid ExecTransType"));
                    },
                }
            },
            150 => {
                match ExecType::parse_code(value) {
                    Ok(v) => {
                        self.exec_type = v;
                    },
                    Err(_) => {
                        return Err(String::from_str("Invalid ExecType"));
                    },
                }
            },
            39 => {
                match OrdStatus::parse_code(value) {
                    Ok(v) => {
                        self.ord_status = v;
                    },
                    Err(_) => {
                        return Err(String::from_str("Invalid OrdStatus"));
                    },
                }
            },
            55 => {
                self.symbol = String::from_str(value);
            },
            54 => {
                match Side::parse_code(value) {
                    Ok(v) => {
                        self.side = v;
                    },
                    Err(_) => {
                        return Err(String::from_str("Invalid Side"));
                    },
                }
            },
            151 => {
                match Decimal::parse(value) {
                    Some(d) => {
                        self.leaves_qty = d;
                    },
                    None => {
                        return Err(String::from_str("Invalid LeavesQty"));
                    },
                }
            },
            14 => {
                match Decimal::parse(value) {
                    Some(d) => {
                        self.cum_qty = d;
                    },
                    None => {
                        return Err(String::from_str("Invalid CumQty"));
                    },
                }
            },
            6 => {
                match Decimal::parse(value) {
                    Some(d) => {
                        self.avg_px = d;
                    },
                    None => {
                        return Err(String::from_str("Invalid AvgPx"));
                    },
                }
            },
            32 => {
                match Decimal::parse(value) {
                    Some(d) => {
                        self.last_shares = Some(d);
                    },
                    None => {
                        return Err(String::from_str("Invalid LastShares"));
                    },
                }
            },
            31 => {
                match Decimal::parse(value) {
                    Some(d) => {
                        self.last_px = Some(d);
                    },
                    None => {
                        return Err(String::from_str("Invalid LastPx"));
                    },
                }
            },
            60 => {
                match parse_fix_timestamp(value) {
                    Ok(t) => {
                        self.transact_time = Some(t);
                    },
                    Err(e) => {
                        return Err(e);
                    },
                }
            },
            11 => {
                self.cl_ord_id = Some(String::from_str(value));
            },
            41 => {
                self.orig_cl_ord_id = Some(String::from_str(value));
            },
            103 => {
                match parse_u32(value) {
                    Some(n) => {
                        self.ord_rej_reason = Some(n);
                    },
                    None => {
                        return Err(String::from_str("Invalid OrdRejReason"));
                    },
                }
            },
            _ => {
                return Err(unknown_field("Unknown execution report field: ", tag));
            },
        }
        Ok(())
    }

    open spec fn body_fields(&self) -> Seq<Field> {
        self@.fields()
    }

    fn write_body_fields(&self, buffer: &mut String) {
        self.write_to(buffer);
    }
}

} // verus!
