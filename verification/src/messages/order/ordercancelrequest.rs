//! The Order Cancel Request message (MsgType=F): a request to cancel what
//! is left of an order.

use crate::common::decimal::{
    Decimal, DecimalView, optional_decimal, optional_decimal_text, parse_number,
};
use crate::common::enums::Side;
use crate::common::header::parse_fix_timestamp;
use crate::common::scan::{plain, plain_optional};
use crate::common::text::{decimal_text, Field};
use crate::common::timestamp::{Civil, parse_timestamp, UtcTimestamp};
use crate::common::validation::{
    FixFieldHandler, Validate, ValidationError, ValidationErrorView, WriteTo,
};
use crate::common::writer::{
    FieldList, lemma_nothing_written, optional_text, put_code, put_optional_decimal,
    put_optional_text, put_text, put_time, unknown_field,
};
use vstd::prelude::*;
use vstd::string::*;

verus! {

/// The body of an Order Cancel Request.
#[derive(Debug, Clone, PartialEq, Eq)]
pub struct OrderCancelRequestBody {
    /// Tag 41: the identifier of the order to cancel.
    pub orig_cl_ord_id: String,
    /// Tag 11: the identifier of this request.
    pub cl_ord_id: String,
    /// Tag 55: the ticker symbol.
    pub symbol: String,
    /// Tag 54: the side of the order.
    pub side: Side,
    /// Tag 60: when the request was made.
    pub transact_time: UtcTimestamp,
    /// Tag 37: the identifier that the broker gave the order.
    pub order_id: Option<String>,
    /// Tag 38: the number of shares; this or the cash quantity is required.
    pub order_qty: Option<Decimal>,
    /// Tag 152: the amount of cash; this or the order quantity is required.
    pub cash_order_qty: Option<Decimal>,
    /// Tag 1: the account.
    pub account: Option<String>,
    /// Tag 58: a free text.
    pub text: Option<String>,
}

/// What an Order Cancel Request body holds, as mathematical values.
pub struct OrderCancelRequestView {
    pub orig_cl_ord_id: Seq<char>,
    pub cl_ord_id: Seq<char>,
    pub symbol: Seq<char>,
    pub side: Side,
    pub transact_time: Civil,
    pub order_id: Option<Seq<char>>,
    pub order_qty: Option<DecimalView>,
    pub cash_order_qty: Option<DecimalView>,
    pub account: Option<Seq<char>>,
    pub text: Option<Seq<char>>,
}

impl View for OrderCancelRequestBody {
    type V = OrderCancelRequestView;

    open spec fn view(&self) -> OrderCancelRequestView {
        OrderCancelRequestView {
            orig_cl_ord_id: self.orig_cl_ord_id@,
            cl_ord_id: self.cl_ord_id@,
            symbol: self.symbol@,
            side: self.side,
            transact_time: self.transact_time@,
            order_id: optional_text(self.order_id),
            order_qty: optional_decimal(self.order_qty),
            cash_order_qty: optional_decimal(self.cash_order_qty),
            account: optional_text(self.account),
            text: optional_text(self.text),
        }
    }
}

impl OrderCancelRequestView {
    /// The body that a request starts with at the given time: every text
    /// empty, the side Buy, no optional field.
    pub open spec fn initial(transact_time: Civil) -> OrderCancelRequestView {
        OrderCancelRequestView {
            orig_cl_ord_id: Seq::empty(),
            cl_ord_id: Seq::empty(),
            symbol: Seq::empty(),
            side: Side::Buy,
            transact_time,
            order_id: None,
            order_qty: None,
            cash_order_qty: None,
            account: None,
            text: None,
        }
    }

    /// The fields of the body, in wire order; an optional field is written
    /// where it is present.
    pub open spec fn fields(self) -> Seq<Field> {
        FieldList::new()
            .with(41, self.orig_cl_ord_id)
            .with_optional(37, self.order_id)
            .with(11, self.cl_ord_id)
            .with(55, self.symbol)
            .with(54, self.side.wire_code())
            .with(60, self.transact_time.text())
            .with_optional(38, optional_decimal_text(self.order_qty))
            .with_optional(152, optional_decimal_text(self.cash_order_qty))
            .with_optional(1, self.account)
            .with_optional(58, self.text)
            .fields
    }

    /// The bodies that can be read back from their wire text: no text holds
    /// a field separator, the times are instants and the numbers are such as
    /// a `Decimal` holds.
    pub open spec fn wf(self) -> bool {
        &&& plain(self.orig_cl_ord_id)
        &&& plain(self.cl_ord_id)
        &&& plain(self.symbol)
        &&& self.transact_time.wf()
        &&& plain_optional(self.order_id)
        &&& match self.order_qty {
            Some(v) => v.wf(),
            None => true,
        }
        &&& match self.cash_order_qty {
            Some(v) => v.wf(),
            None => true,
        }
        &&& plain_optional(self.account)
        &&& plain_optional(self.text)
    }

    /// The place of a tag in the wire order of the fields, counted from 0;
    /// a negative number for a tag that the body does not hold.
    pub open spec fn rank(tag: nat) -> int {
        if tag == 41 {
            0
        } else if tag == 37 {
            1
        } else if tag == 11 {
            2
        } else if tag == 55 {
            3
        } else if tag == 54 {
            4
        } else if tag == 60 {
            5
        } else if tag == 38 {
            6
        } else if tag == 152 {
            7
        } else if tag == 1 {
            8
        } else if tag == 58 {
            9
        } else {
            -1
        }
    }

    /// The first thing that is wrong with the body, if anything is: the
    /// two identifiers and the symbol must not be empty, and the request
    /// names a quantity of shares or of cash.
    pub open spec fn problem(self) -> Option<ValidationErrorView> {
        if self.orig_cl_ord_id.len() == 0 {
            Some(ValidationErrorView::MissingRequiredField("OrigClOrdID"@))
        } else if self.cl_ord_id.len() == 0 {
            Some(ValidationErrorView::MissingRequiredField("ClOrdID"@))
        } else if self.symbol.len() == 0 {
            Some(ValidationErrorView::MissingRequiredField("Symbol"@))
        } else if self.order_qty is None && self.cash_order_qty is None {
            Some(ValidationErrorView::MissingRequiredField("OrderQty or CashOrderQty"@))
        } else {
            None
        }
    }

    /// The tags of the fields that the body holds.
    pub open spec fn handles_tag(tag: u32) -> bool {
        tag == 41 || tag == 37 || tag == 11 || tag == 55 || tag == 54 || tag == 60 || tag == 38
            || tag == 152 || tag == 1 || tag == 58
    }

    /// The body after it has taken a field, or why it cannot take it.
    pub open spec fn with_field(self, tag: u32, value: Seq<char>) -> Result<
        OrderCancelRequestView,
        Seq<char>,
    > {
        if tag == 41 {
            Ok(OrderCancelRequestView { orig_cl_ord_id: value, ..self })
        } else if tag == 37 {
            Ok(OrderCancelRequestView { order_id: Some(value), ..self })
        } else if tag == 11 {
            Ok(OrderCancelRequestView { cl_ord_id: value, ..self })
        } else if tag == 55 {
            Ok(OrderCancelRequestView { symbol: value, ..self })
        } else if tag == 54 {
            match Side::from_wire_code(value) {
                Some(v) => Ok(OrderCancelRequestView { side: v, ..self }),
                None => Err("Invalid Side"@),
            }
        } else if tag == 60 {
            match parse_timestamp(value) {
                Ok(t) => Ok(OrderCancelRequestView { transact_time: t, ..self }),
                Err(e) => Err(e),
            }
        } else if tag == 38 {
            match parse_number(value) {
                Some(d) => Ok(OrderCancelRequestView { order_qty: Some(d), ..self }),
                None => Err("Invalid OrderQty"@),
            }
        } else if tag == 152 {
            match parse_number(value) {
                Some(d) => Ok(OrderCancelRequestView { cash_order_qty: Some(d), ..self }),
                None => Err("Invalid CashOrderQty"@),
            }
        } else if tag == 1 {
            Ok(OrderCancelRequestView { account: Some(value), ..self })
        } else if tag == 58 {
            Ok(OrderCancelRequestView { text: Some(value), ..self })
        } else {
            Err("Unknown order cancel request field: "@ + decimal_text(tag as nat))
        }
    }
}

impl OrderCancelRequestBody {
    /// An empty request, made at the given time.
    pub fn created_at(transact_time: UtcTimestamp) -> (r: OrderCancelRequestBody)
        ensures
            r@ == OrderCancelRequestView::initial(transact_time@),
    {
        OrderCancelRequestBody {
            orig_cl_ord_id: String::new(),
            cl_ord_id: String::new(),
            symbol: String::new(),
            side: Side::Buy,
            transact_time,
            order_id: None,
            order_qty: None,
            cash_order_qty: None,
            account: None,
            text: None,
        }
    }

    /// Whether the body holds a field with this tag.
    pub fn handles(tag: u32) -> (r: bool)
        ensures
            r == OrderCancelRequestView::handles_tag(tag),
    {
        tag == 41 || tag == 37 || tag == 11 || tag == 55 || tag == 54 || tag == 60 || tag == 38
            || tag == 152 || tag == 1 || tag == 58
    }
}

impl Default for OrderCancelRequestBody {
    /// An empty request, made now.
    fn default() -> (r: OrderCancelRequestBody)
        ensures
            r@ == OrderCancelRequestView::initial(r@.transact_time),
            r@.transact_time.wf(),
    {
        OrderCancelRequestBody::created_at(UtcTimestamp::now())
    }
}

impl Validate for OrderCancelRequestBody {
    open spec fn problem(&self) -> Option<ValidationErrorView> {
        self@.problem()
    }

    fn validate(&self) -> (r: Result<(), ValidationError>) {
        if self.orig_cl_ord_id.as_str().is_empty() {
            return Err(ValidationError::MissingRequiredField(String::from_str("OrigClOrdID")));
        }
        if self.cl_ord_id.as_str().is_empty() {
            return Err(ValidationError::MissingRequiredField(String::from_str("ClOrdID")));
        }
        if self.symbol.as_str().is_empty() {
            return Err(ValidationError::MissingRequiredField(String::from_str("Symbol")));
        }
        if self.order_qty.is_none() && self.cash_order_qty.is_none() {
            return Err(
                ValidationError::MissingRequiredField(String::from_str("OrderQty or CashOrderQty")),
            );
        }
        Ok(())
    }
}

impl WriteTo for OrderCancelRequestBody {
    open spec fn fields(&self) -> Seq<Field> {
        self@.fields()
    }

    fn write_to(&self, buffer: &mut String) {
        let ghost start = buffer@;
        let written: Ghost<FieldList> = Ghost(FieldList::new());
        proof {
            lemma_nothing_written(buffer@);
        }
        let written = put_text(buffer, 41, self.orig_cl_ord_id.as_str(), Ghost(start), written);
        let written = put_optional_text(buffer, 37, &self.order_id, Ghost(start), written);
        let written = put_text(buffer, 11, self.cl_ord_id.as_str(), Ghost(start), written);
        let written = put_text(buffer, 55, self.symbol.as_str(), Ghost(start), written);
        let written = put_code(buffer, 54, self.side.code(), Ghost(start), written);
        let written = put_time(buffer, 60, self.transact_time, Ghost(start), written);
        let written = put_optional_decimal(buffer, 38, self.order_qty, Ghost(start), written);
        let written = put_optional_decimal(buffer, 152, self.cash_order_qty, Ghost(start), written);
        let written = put_optional_text(buffer, 1, &self.account, Ghost(start), written);
        let written = put_optional_text(buffer, 58, &self.text, Ghost(start), written);
    }
}

impl FixFieldHandler for OrderCancelRequestBody {
    open spec fn with_field(model: OrderCancelRequestView, tag: u32, value: Seq<char>) -> Result<
        OrderCancelRequestView,
        Seq<char>,
    > {
        model.with_field(tag, value)
    }

    fn parse_field(&mut self, tag: u32, value: &str) -> (r: Result<(), String>) {
        match tag {
            41 => {
                self.orig_cl_ord_id = String::from_str(value);
            },
            37 => {
                self.order_id = Some(String::from_str(value));
            },
            11 => {
                self.cl_ord_id = String::from_str(value);
            },
            55 => {
                self.symbol = String::from_str(value);
            },
            54 => {
                match Side::parse_code(value) {
                    Ok(v) => {
                        self.side = v;
                    },
                    Err(_) => {
                        return Err(String::from_str("Invalid Side"));
                    },
                }
            },
            60 => {
                match parse_fix_timestamp(value) {
                    Ok(t) => {
                        self.transact_time = t;
                    },
                    Err(e) => {
                        return Err(e);
                    },
                }
            },
            38 => {
                match Decimal::parse(value) {
                    Some(d) => {
                        self.order_qty = Some(d);
                    },
                    None => {
                        return Err(String::from_str("Invalid OrderQty"));
                    },
                }
            },
            152 => {
                match Decimal::parse(value) {
                    Some(d) => {
                        self.cash_order_qty = Some(d);
                    },
                    None => {
                        return Err(String::from_str("Invalid CashOrderQty"));
                    },
                }
            },
            1 => {
                self.account = Some(String::from_str(value));
            },
            58 => {
                self.text = Some(String::from_str(value));
            },
            _ => {
                return Err(unknown_field("Unknown order cancel request field: ", tag));
            },
        }
        Ok(())
    }

    open spec fn body_fields(&self) -> Seq<Field> {
        self@.fields()
    }

    fn write_body_fields(&self, buffer: &mut String) {
        self.write_to(buffer);
    }
}

} // verus!
