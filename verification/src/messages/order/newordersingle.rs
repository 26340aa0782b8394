//! The New Order Single message (MsgType=D): a request to place one order.

use crate::common::decimal::{
    Decimal, DecimalView, optional_decimal, optional_decimal_text, parse_number,
};
use crate::common::enums::Side;
use crate::common::header::parse_fix_timestamp;
use crate::common::scan::{plain, plain_optional};
use crate::common::text::{decimal_text, Field};
use crate::common::timestamp::{Civil, parse_timestamp, UtcTimestamp};
use crate::common::validation::{
    FixFieldHandler, Validate, ValidationError, ValidationErrorView, WriteTo,
};
use crate::common::writer::{
    FieldList, lemma_nothing_written, optional_text, put_code, put_optional_decimal,
    put_optional_text, put_text, put_time, unknown_field,
};
use vstd::prelude::*;
use vstd::string::*;

verus! {

/// The body of a New Order Single.
#[derive(Debug, Clone, PartialEq, Eq)]
pub struct NewOrderSingleBody {
    /// Tag 11: the identifier that the institution gives the order.
    pub cl_ord_id: String,
    /// Tag 21: how the broker is to handle the order.
    pub handl_inst: String,
    /// Tag 55: the ticker symbol.
    pub symbol: String,
    /// Tag 54: the side of the order.
    pub side: Side,
    /// Tag 38: the number of shares; this or the cash quantity is required.
    pub order_qty: Option<Decimal>,
    /// Tag 152: the amount of cash to trade; this or the order quantity is required.
    pub cash_order_qty: Option<Decimal>,
    /// Tag 60: when the order was created.
    pub transact_time: UtcTimestamp,
    /// Tag 40: the order type.
    pub ord_type: String,
    /// Tag 44: the price per share.
    pub price: Option<Decimal>,
    /// Tag 207: the market of the security.
    pub security_exchange: Option<String>,
}

/// What a New Order Single body holds, as mathematical values.
pub struct NewOrderSingleView {
    pub cl_ord_id: Seq<char>,
    pub handl_inst: Seq<char>,
    pub symbol: Seq<char>,
    pub side: Side,
    pub order_qty: Option<DecimalView>,
    pub cash_order_qty: Option<DecimalView>,
    pub transact_time: Civil,
    pub ord_type: Seq<char>,
    pub price: Option<DecimalView>,
    pub security_exchange: Option<Seq<char>>,
}

impl View for NewOrderSingleBody {
    type V = NewOrderSingleView;

    open spec fn view(&self) -> NewOrderSingleView {
        NewOrderSingleView {
            cl_ord_id: self.cl_ord_id@,
            handl_inst: self.handl_inst@,
            symbol: self.symbol@,
            side: self.side,
            order_qty: optional_decimal(self.order_qty),
            cash_order_qty: optional_decimal(self.cash_order_qty),
            transact_time: self.transact_time@,
            ord_type: self.ord_type@,
            price: optional_decimal(self.price),
            security_exchange: optional_text(self.security_exchange),
        }
    }
}

impl NewOrderSingleView {
    /// The body that a new order starts with at the given time: every text
    /// empty, the side Buy, no optional field.
    pub open spec fn initial(transact_time: Civil) -> NewOrderSingleView {
        NewOrderSingleView {
            cl_ord_id: Seq::empty(),
            handl_inst: Seq::empty(),
            symbol: Seq::empty(),
            side: Side::Buy,
            order_qty: None,
            cash_order_qty: None,
            transact_time,
            ord_type: Seq::empty(),
            price: None,
            security_exchange: None,
        }
    }

    /// The fields of the body, in wire order; an optional field is written
    /// where it is present.
    pub open spec fn fields(self) -> Seq<Field> {
        FieldList::new()
            .with(11, self.cl_ord_id)
            .with(21, self.handl_inst)
            .with(55, self.symbol)
            .with(54, self.side.wire_code())
            .with(60, self.transact_time.text())
            .with(40, self.ord_type)
            .with_optional(38, optional_decimal_text(self.order_qty))
            .with_optional(152, optional_decimal_text(self.cash_order_qty))
            .with_optional(207, self.security_exchange)
            .with_optional(44, optional_decimal_text(self.price))
            .fields
    }

    /// The bodies that can be read back from their wire text: no text holds
    /// a field separator, the times are instants and the numbers are such as
    /// a `Decimal` holds.
    pub open spec fn wf(self) -> bool {
        &&& plain(self.cl_ord_id)
        &&& plain(self.handl_inst)
        &&& plain(self.symbol)
        &&& match self.order_qty {
            Some(v) => v.wf(),
            None => true,
        }
        &&& match self.cash_order_qty {
            Some(v) => v.wf(),
            None => true,
        }
        &&& self.transact_time.wf()
        &&& plain(self.ord_type)
        &&& match self.price {
            Some(v) => v.wf(),
            None => true,
        }
        &&& plain_optional(self.security_exchange)
    }

    /// The place of a tag in the wire order of the fields, counted from 0;
    /// a negative number for a tag that the body does not hold.
    pub open spec fn rank(tag: nat) -> int {
        if tag == 11 {
            0
        } else if tag == 21 {
            1
        } else if tag == 55 {
            2
        } else if tag == 54 {
            3
        } else if tag == 60 {
            4
        } else if tag == 40 {
            5
        } else if tag == 38 {
            6
        } else if tag == 152 {
            7
        } else if tag == 207 {
            8
        } else if tag == 44 {
            9
        } else {
            -1
        }
    }

    /// The first thing that is wrong with the body, if anything is: an
    /// order names a quantity of shares or of cash.
    pub open spec fn problem(self) -> Option<ValidationErrorView> {
        if self.order_qty is None && self.cash_order_qty is None {
            Some(ValidationErrorView::MissingRequiredField("OrderQty or CashOrderQty"@))
        } else {
            None
        }
    }

    /// The tags of the fields that the body holds.
    pub open spec fn handles_tag(tag: u32) -> bool {
        tag == 11 || tag == 21 || tag == 55 || tag == 54 || tag == 60 || tag == 38 || tag == 152
            || tag == 40 || tag == 207 || tag == 44
    }

    /// The body after it has taken a field, or why it cannot take it.
    pub open spec fn with_field(self, tag: u32, value: Seq<char>) -> Result<
        NewOrderSingleView,
        Seq<char>,
    > {
        if tag == 11 {
            Ok(NewOrderSingleView { cl_ord_id: value, ..self })
        } else if tag == 21 {
            Ok(NewOrderSingleView { handl_inst: value, ..self })
        } else if tag == 55 {
            Ok(NewOrderSingleView { symbol: value, ..self })
        } else if tag == 54 {
            match Side::from_wire_code(value) {
                Some(v) => Ok(NewOrderSingleView { side: v, ..self }),
                None => Err("Invalid side"@),
            }
        } else if tag == 60 {
            match parse_timestamp(value) {
                Ok(t) => Ok(NewOrderSingleView { transact_time: t, ..self }),
                Err(e) => Err(e),
            }
        } else if tag == 38 {
            match parse_number(value) {
                Some(d) => Ok(NewOrderSingleView { order_qty: Some(d), ..self }),
                None => Err("Invalid order quantity"@),
            }
        } else if tag == 152 {
            match parse_number(value) {
                Some(d) => Ok(NewOrderSingleView { cash_order_qty: Some(d), ..self }),
                None => Err("Invalid cash order quantity"@),
            }
        } else if tag == 40 {
            Ok(NewOrderSingleView { ord_type: value, ..self })
        } else if tag == 207 {
            Ok(NewOrderSingleView { security_exchange: Some(value), ..self })
        } else if tag == 44 {
            match parse_number(value) {
                Some(d) => Ok(NewOrderSingleView { price: Some(d), ..self }),
                None => Err("Invalid price"@),
            }
        } else {
            Err("Unknown new order single field: "@ + decimal_text(tag as nat))
        }
    }
}

impl NewOrderSingleBody {
    /// An empty order, created now.
    pub fn new() -> (r: NewOrderSingleBody)
        ensures
            r@ == NewOrderSingleView::initial(r@.transact_time),
            r@.transact_time.wf(),
    {
        NewOrderSingleBody::created_at(UtcTimestamp::now())
    }

    /// An empty order, created at the given time.
    pub fn created_at(transact_time: UtcTimestamp) -> (r: NewOrderSingleBody)
        ensures
            r@ == NewOrderSingleView::initial(transact_time@),
    {
        NewOrderSingleBody {
            cl_ord_id: String::new(),
            handl_inst: String::new(),
            symbol: String::new(),
            side: Side::Buy,
            order_qty: None,
            cash_order_qty: None,
            transact_time,
            ord_type: String::new(),
            price: None,
            security_exchange: None,
        }
    }

    /// Whether the body holds a field with this tag.
    pub fn handles(tag: u32) -> (r: bool)
        ensures
            r == NewOrderSingleView::handles_tag(tag),
    {
        tag == 11 || tag == 21 || tag == 55 || tag == 54 || tag == 60 || tag == 38 || tag == 152
            || tag == 40 || tag == 207 || tag == 44
    }
}

impl Default for NewOrderSingleBody {
    fn default() -> (r: NewOrderSingleBody)
        ensures
            r@ == NewOrderSingleView::initial(r@.transact_time),
            r@.transact_time.wf(),
    {
        NewOrderSingleBody::new()
    }
}

impl Validate for NewOrderSingleBody {
    open spec fn problem(&self) -> Option<ValidationErrorView> {
        self@.problem()
    }

    fn validate(&self) -> (r: Result<(), ValidationError>) {
        if self.order_qty.is_none() && self.cash_order_qty.is_none() {
            return Err(
                ValidationError::MissingRequiredField(String::from_str("OrderQty or CashOrderQty")),
            );
        }
        Ok(())
    }
}

impl WriteTo for NewOrderSingleBody {
    open spec fn fields(&self) -> Seq<Field> {
        self@.fields()
    }

    fn write_to(&self, buffer: &mut String) {
        let ghost start = buffer@;
        let written: Ghost<FieldList> = Ghost(FieldList::new());
        proof {
            lemma_nothing_written(buffer@);
        }
        let written = put_text(buffer, 11, self.cl_ord_id.as_str(), Ghost(start), written);
        let written = put_text(buffer, 21, self.handl_inst.as_str(), Ghost(start), written);
        let written = put_text(buffer, 55, self.symbol.as_str(), Ghost(start), written);
        let written = put_code(buffer, 54, self.side.code(), Ghost(start), written);
        let written = put_time(buffer, 60, self.transact_time, Ghost(start), written);
        let written = put_text(buffer, 40, self.ord_type.as_str(), Ghost(start), written);
        let written = put_optional_decimal(buffer, 38, self.order_qty, Ghost(start), written);
        let written = put_optional_decimal(buffer, 152, self.cash_order_qty, Ghost(start), written);
        let written = put_optional_text(
            buffer,
            207,
            &self.security_exchange,
            Ghost(start),
            written,
        );
        let written = put_optional_decimal(buffer, 44, self.price, Ghost(start), written);
    }
}

impl FixFieldHandler for NewOrderSingleBody {
    open spec fn with_field(model: NewOrderSingleView, tag: u32, value: Seq<char>) -> Result<
        NewOrderSingleView,
        Seq<char>,
    > {
        model.with_field(tag, value)
    }

    fn parse_field(&mut self, tag: u32, value: &str) -> (r: Result<(), String>) {
        match tag {
            11 => {
                self.cl_ord_id = String::from_str(value);
            },
            21 => {
                self.handl_inst = String::from_str(value);
            },
            55 => {
                self.symbol = String::from_str(value);
            },
            54 => {
                match Side::parse_code(value) {
                    Ok(v) => {
                        self.side = v;
                    },
                    Err(_) => {
                        return Err(String::from_str("Invalid side"));
                    },
                }
            },
            60 => {
                match parse_fix_timestamp(value) {
                    Ok(t) => {
                        self.transact_time = t;
                    },
                    Err(e) => {
                        return Err(e);
                    },
                }
            },
            38 => {
                match Decimal::parse(value) {
                    Some(d) => {
                        self.order_qty = Some(d);
                    },
                    None => {
                        return Err(String::from_str("Invalid order quantity"));
                    },
                }
            },
            152 => {
                match Decimal::parse(value) {
                    Some(d) => {
                        self.cash_order_qty = Some(d);
                    },
                    None => {
                        return Err(String::from_str("Invalid cash order quantity"));
                    },
                }
            },
            40 => {
                self.ord_type = String::from_str(value);
            },
            207 => {
                self.security_exchange = Some(String::from_str(value));
            },
            44 => {
                match Decimal::parse(value) {
                    Some(d) => {
                        self.price = Some(d);
                    },
                    None => {
                        return Err(String::from_str("Invalid price"));
                    },
                }
            },
            _ => {
                return Err(unknown_field("Unknown new order single field: ", tag));
            },
        }
        Ok(())
    }

    open spec fn body_fields(&self) -> Seq<Field> {
        self@.fields()
    }

    fn write_body_fields(&self, buffer: &mut String) {
        self.write_to(buffer);
    }
}

} // verus!
