//! The order bodies take their fields back.

use crate::common::decimal::{
    lemma_number_round_trip, lemma_number_text_plain, optional_decimal_text,
};
use crate::common::enums::{ExecTransType, ExecType, OrdStatus, Side};
use crate::common::scan::{plain, plain_optional};
use crate::common::text::lemma_parse_decimal_text;
use crate::common::timestamp::{Civil, lemma_text_shape, lemma_timestamp_round_trip};
use crate::common::writer::{FieldList, optional_number_text, optional_time_text};
use crate::messages::order::executionreport::ExecutionReportView;
use crate::messages::order::newordersingle::NewOrderSingleView;
use crate::messages::order::ordercancelrequest::OrderCancelRequestView;
use crate::messages::BodyView;
use crate::round_trip::envelope::lemma_number_plain;
use crate::round_trip::{
    lemma_taken_nothing, lemma_taken_with, lemma_taken_with_optional, lemma_taken_within, taken,
    with_body,
};
use crate::MessageView;
use vstd::prelude::*;

verus! {

/// A reader with a New Order Single body takes field 11 of the body `b`.
proof fn lemma_new_order_single_takes_cl_ord_id(
    s: MessageView,
    before: NewOrderSingleView,
    b: NewOrderSingleView,
)
    requires
        s.body == BodyView::NewOrderSingle(before),
        b.wf(),
    ensures
        plain(b.cl_ord_id),
        s.with_field(11, b.cl_ord_id) == Ok::<MessageView, Seq<char>>(
            with_body(
                s,
                BodyView::NewOrderSingle(NewOrderSingleView { cl_ord_id: b.cl_ord_id, ..before }),
            ),
        ),
{
}

/// A reader with a New Order Single body takes field 21 of the body `b`.
proof fn lemma_new_order_single_takes_handl_inst(
    s: MessageView,
    before: NewOrderSingleView,
    b: NewOrderSingleView,
)
    requires
        s.body == BodyView::NewOrderSingle(before),
        b.wf(),
    ensures
        plain(b.handl_inst),
        s.with_field(21, b.handl_inst) == Ok::<MessageView, Seq<char>>(
            with_body(
                s,
                BodyView::NewOrderSingle(NewOrderSingleView { handl_inst: b.handl_inst, ..before }),
            ),
        ),
{
}

/// A reader with a New Order Single body takes field 55 of the body `b`.
proof fn lemma_new_order_single_takes_symbol(
    s: MessageView,
    before: NewOrderSingleView,
    b: NewOrderSingleView,
)
    requires
        s.body == BodyView::NewOrderSingle(before),
        b.wf(),
    ensures
        plain(b.symbol),
        s.with_field(55, b.symbol) == Ok::<MessageView, Seq<char>>(
            with_body(
                s,
                BodyView::NewOrderSingle(NewOrderSingleView { symbol: b.symbol, ..before }),
            ),
        ),
{
}

/// A reader with a New Order Single body takes field 54 of the body `b`.
proof fn lemma_new_order_single_takes_side(
    s: MessageView,
    before: NewOrderSingleView,
    b: NewOrderSingleView,
)
    requires
        s.body == BodyView::NewOrderSingle(before),
        b.wf(),
    ensures
        plain(b.side.wire_code()),
        s.with_field(54, b.side.wire_code()) == Ok::<MessageView, Seq<char>>(
            with_body(
                s,
                BodyView::NewOrderSingle(NewOrderSingleView { side: b.side, ..before }),
            ),
        ),
{
    Side::lemma_code_round_trip(b.side, b.side.wire_code());
}

/// A reader with a New Order Single body takes field 60 of the body `b`.
proof fn lemma_new_order_single_takes_transact_time(
    s: MessageView,
    before: NewOrderSingleView,
    b: NewOrderSingleView,
)
    requires
        s.body == BodyView::NewOrderSingle(before),
        b.wf(),
    ensures
        plain(b.transact_time.text()),
        s.with_field(60, b.transact_time.text()) == Ok::<MessageView, Seq<char>>(
            with_body(
                s,
                BodyView::NewOrderSingle(
                    NewOrderSingleView { transact_time: b.transact_time, ..before },
                ),
            ),
        ),
{
    lemma_timestamp_round_trip(b.transact_time);
    lemma_text_shape(b.transact_time);
}

/// A reader with a New Order Single body takes field 40 of the body `b`.
proof fn lemma_new_order_single_takes_ord_type(
    s: MessageView,
    before: NewOrderSingleView,
    b: NewOrderSingleView,
)
    requires
        s.body == BodyView::NewOrderSingle(before),
        b.wf(),
    ensures
        plain(b.ord_type),
        s.with_field(40, b.ord_type) == Ok::<MessageView, Seq<char>>(
            with_body(
                s,
                BodyView::NewOrderSingle(NewOrderSingleView { ord_type: b.ord_type, ..before }),
            ),
        ),
{
}

/// A reader with a New Order Single body takes field 38 of the body `b`.
proof fn lemma_new_order_single_takes_order_qty(
    s: MessageView,
    before: NewOrderSingleView,
    b: NewOrderSingleView,
)
    requires
        s.body == BodyView::NewOrderSingle(before),
        b.wf(),
        before.order_qty is None,
    ensures
        plain_optional(optional_decimal_text(b.order_qty)),
        match optional_decimal_text(b.order_qty) {
            Some(v) => s.with_field(38, v) == Ok::<MessageView, Seq<char>>(
                with_body(
                    s,
                    BodyView::NewOrderSingle(
                        NewOrderSingleView { order_qty: b.order_qty, ..before },
                    ),
                ),
            ),
            None => s == with_body(
                s,
                BodyView::NewOrderSingle(NewOrderSingleView { order_qty: b.order_qty, ..before }),
            ),
        },
{
    if b.order_qty is Some {
        lemma_number_round_trip(b.order_qty->0);
        lemma_number_text_plain(b.order_qty->0);
    }
}

/// A reader with a New Order Single body takes field 152 of the body `b`.
proof fn lemma_new_order_single_takes_cash_order_qty(
    s: MessageView,
    before: NewOrderSingleView,
    b: NewOrderSingleView,
)
    requires
        s.body == BodyView::NewOrderSingle(before),
        b.wf(),
        before.cash_order_qty is None,
    ensures
        plain_optional(optional_decimal_text(b.cash_order_qty)),
        match optional_decimal_text(b.cash_order_qty) {
            Some(v) => s.with_field(152, v) == Ok::<MessageView, Seq<char>>(
                with_body(
                    s,
                    BodyView::NewOrderSingle(
                        NewOrderSingleView { cash_order_qty: b.cash_order_qty, ..before },
                    ),
                ),
            ),
            None => s == with_body(
                s,
                BodyView::NewOrderSingle(
                    NewOrderSingleView { cash_order_qty: b.cash_order_qty, ..before },
                ),
            ),
        },
{
    if b.cash_order_qty is Some {
        lemma_number_round_trip(b.cash_order_qty->0);
        lemma_number_text_plain(b.cash_order_qty->0);
    }
}

/// A reader with a New Order Single body takes field 207 of the body `b`.
proof fn lemma_new_order_single_takes_security_exchange(
    s: MessageView,
    before: NewOrderSingleView,
    b: NewOrderSingleView,
)
    requires
        s.body == BodyView::NewOrderSingle(before),
        b.wf(),
        before.security_exchange is None,
    ensures
        plain_optional(b.security_exchange),
        match b.security_exchange {
            Some(v) => s.with_field(207, v) == Ok::<MessageView, Seq<char>>(
                with_body(
                    s,
                    BodyView::NewOrderSingle(
                        NewOrderSingleView { security_exchange: b.security_exchange, ..before },
                    ),
                ),
            ),
            None => s == with_body(
                s,
                BodyView::NewOrderSingle(
                    NewOrderSingleView { security_exchange: b.security_exchange, ..before },
                ),
            ),
        },
{
}

/// A reader with a New Order Single body takes field 44 of the body `b`.
proof fn lemma_new_order_single_takes_price(
    s: MessageView,
    before: NewOrderSingleView,
    b: NewOrderSingleView,
)
    requires
        s.body == BodyView::NewOrderSingle(before),
        b.wf(),
        before.price is None,
    ensures
        plain_optional(optional_decimal_text(b.price)),
        match optional_decimal_text(b.price) {
            Some(v) => s.with_field(44, v) == Ok::<MessageView, Seq<char>>(
                with_body(
                    s,
                    BodyView::NewOrderSingle(NewOrderSingleView { price: b.price, ..before }),
                ),
            ),
            None => s == with_body(
                s,
                BodyView::NewOrderSingle(NewOrderSingleView { price: b.price, ..before }),
            ),
        },
{
    if b.price is Some {
        lemma_number_round_trip(b.price->0);
        lemma_number_text_plain(b.price->0);
    }
}

/// A reader with a new New Order Single body takes the body of `m` back
/// from the fields that the body writes.
pub proof fn lemma_new_order_single_taken(
    s: MessageView,
    m: MessageView,
    b: NewOrderSingleView,
    t0: Civil,
)
    requires
        m.body == BodyView::NewOrderSingle(b),
        b.wf(),
        s.body == BodyView::NewOrderSingle(NewOrderSingleView::initial(t0)),
    ensures
        taken(s, FieldList { fields: m.body.fields() }, m, with_body(s, m.body), 100, 200),
{
    let b0 = NewOrderSingleView::initial(t0);
    let l0 = FieldList::new();
    let s0 = s;
    lemma_taken_nothing(s, m, 100);

    let l1 = l0.with(11, b.cl_ord_id);
    let b1 = NewOrderSingleView { cl_ord_id: b.cl_ord_id, ..b0 };
    let s1 = with_body(s, BodyView::NewOrderSingle(b1));
    lemma_new_order_single_takes_cl_ord_id(s0, b0, b);
    lemma_taken_with(s, l0, m, s0, 100, 100, 11, b.cl_ord_id, s1);

    let l2 = l1.with(21, b.handl_inst);
    let b2 = NewOrderSingleView { handl_inst: b.handl_inst, ..b1 };
    let s2 = with_body(s, BodyView::NewOrderSingle(b2));
    lemma_new_order_single_takes_handl_inst(s1, b1, b);
    lemma_taken_with(s, l1, m, s1, 100, 101, 21, b.handl_inst, s2);

    let l3 = l2.with(55, b.symbol);
    let b3 = NewOrderSingleView { symbol: b.symbol, ..b2 };
    let s3 = with_body(s, BodyView::NewOrderSingle(b3));
    lemma_new_order_single_takes_symbol(s2, b2, b);
    lemma_taken_with(s, l2, m, s2, 100, 102, 55, b.symbol, s3);

    let l4 = l3.with(54, b.side.wire_code());
    let b4 = NewOrderSingleView { side: b.side, ..b3 };
    let s4 = with_body(s, BodyView::NewOrderSingle(b4));
    lemma_new_order_single_takes_side(s3, b3, b);
    lemma_taken_with(s, l3, m, s3, 100, 103, 54, b.side.wire_code(), s4);

    let l5 = l4.with(60, b.transact_time.text());
    let b5 = NewOrderSingleView { transact_time: b.transact_time, ..b4 };
    let s5 = with_body(s, BodyView::NewOrderSingle(b5));
    lemma_new_order_single_takes_transact_time(s4, b4, b);
    lemma_taken_with(s, l4, m, s4, 100, 104, 60, b.transact_time.text(), s5);

    let l6 = l5.with(40, b.ord_type);
    let b6 = NewOrderSingleView { ord_type: b.ord_type, ..b5 };
    let s6 = with_body(s, BodyView::NewOrderSingle(b6));
    lemma_new_order_single_takes_ord_type(s5, b5, b);
    lemma_taken_with(s, l5, m, s5, 100, 105, 40, b.ord_type, s6);

    let l7 = l6.with_optional(38, optional_decimal_text(b.order_qty));
    let b7 = NewOrderSingleView { order_qty: b.order_qty, ..b6 };
    let s7 = with_body(s, BodyView::NewOrderSingle(b7));
    lemma_new_order_single_takes_order_qty(s6, b6, b);
    lemma_taken_with_optional(s, l6, m, s6, 100, 106, 38, optional_decimal_text(b.order_qty), s7);

    let l8 = l7.with_optional(152, optional_decimal_text(b.cash_order_qty));
    let b8 = NewOrderSingleView { cash_order_qty: b.cash_order_qty, ..b7 };
    let s8 = with_body(s, BodyView::NewOrderSingle(b8));
    lemma_new_order_single_takes_cash_order_qty(s7, b7, b);
    lemma_taken_with_optional(
        s,
        l7,
        m,
        s7,
        100,
        107,
        152,
        optional_decimal_text(b.cash_order_qty),
        s8,
    );

    let l9 = l8.with_optional(207, b.security_exchange);
    let b9 = NewOrderSingleView { security_exchange: b.security_exchange, ..b8 };
    let s9 = with_body(s, BodyView::NewOrderSingle(b9));
    lemma_new_order_single_takes_security_exchange(s8, b8, b);
    lemma_taken_with_optional(s, l8, m, s8, 100, 108, 207, b.security_exchange, s9);

    let l10 = l9.with_optional(44, optional_decimal_text(b.price));
    let b10 = NewOrderSingleView { price: b.price, ..b9 };
    let s10 = with_body(s, BodyView::NewOrderSingle(b10));
    lemma_new_order_single_takes_price(s9, b9, b);
    lemma_taken_with_optional(s, l9, m, s9, 100, 109, 44, optional_decimal_text(b.price), s10);

    assert(l10.fields == b.fields());
    assert(b10 == b);
    lemma_taken_within(s, l10, m, s10, 100, 110, 200);
}

/// A reader with an Execution Report body takes field 37 of the body `b`.
proof fn lemma_execution_report_takes_order_id(
    s: MessageView,
    before: ExecutionReportView,
    b: ExecutionReportView,
)
    requires
        s.body == BodyView::ExecutionReport(before),
        b.wf(),
    ensures
        plain(b.order_id),
        s.with_field(37, b.order_id) == Ok::<MessageView, Seq<char>>(
            with_body(
                s,
                BodyView::ExecutionReport(ExecutionReportView { order_id: b.order_id, ..before }),
            ),
        ),
{
}

/// A reader with an Execution Report body takes field 17 of the body `b`.
proof fn lemma_execution_report_takes_exec_id(
    s: MessageView,
    before: ExecutionReportView,
    b: ExecutionReportView,
)
    requires
        s.body == BodyView::ExecutionReport(before),
        b.wf(),
    ensures
        plain(b.exec_id),
        s.with_field(17, b.exec_id) == Ok::<MessageView, Seq<char>>(
            with_body(
                s,
                BodyView::ExecutionReport(ExecutionReportView { exec_id: b.exec_id, ..before }),
            ),
        ),
{
}

/// A reader with an Execution Report body takes field 20 of the body `b`.
proof fn lemma_execution_report_takes_exec_trans_type(
    s: MessageView,
    before: ExecutionReportView,
    b: ExecutionReportView,
)
    requires
        s.body == BodyView::ExecutionReport(before),
        b.wf(),
    ensures
        plain(b.exec_trans_type.wire_code()),
        s.with_field(20, b.exec_trans_type.wire_code()) == Ok::<MessageView, Seq<char>>(
            with_body(
                s,
                BodyView::ExecutionReport(
                    ExecutionReportView { exec_trans_type: b.exec_trans_type, ..before },
                ),
            ),
        ),
{
    ExecTransType::lemma_code_round_trip(b.exec_trans_type, b.exec_trans_type.wire_code());
}

/// A reader with an Execution Report body takes field 150 of the body `b`.
proof fn lemma_execution_report_takes_exec_type(
    s: MessageView,
    before: ExecutionReportView,
    b: ExecutionReportView,
)
    requires
        s.body == BodyView::ExecutionReport(before),
        b.wf(),
    ensures
        plain(b.exec_type.wire_code()),
        s.with_field(150, b.exec_type.wire_code()) == Ok::<MessageView, Seq<char>>(
            with_body(
                s,
                BodyView::ExecutionReport(ExecutionReportView { exec_type: b.exec_type, ..before }),
            ),
        ),
{
    ExecType::lemma_code_round_trip(b.exec_type, b.exec_type.wire_code());
}

/// A reader with an Execution Report body takes field 39 of the body `b`.
proof fn lemma_execution_report_takes_ord_status(
    s: MessageView,
    before: ExecutionReportView,
    b: ExecutionReportView,
)
    requires
        s.body == BodyView::ExecutionReport(before),
        b.wf(),
    ensures
        plain(b.ord_status.wire_code()),
        s.with_field(39, b.ord_status.wire_code()) == Ok::<MessageView, Seq<char>>(
            with_body(
                s,
                BodyView::ExecutionReport(
                    ExecutionReportView { ord_status: b.ord_status, ..before },
                ),
            ),
        ),
{
    OrdStatus::lemma_code_round_trip(b.ord_status, b.ord_status.wire_code());
}

/// A reader with an Execution Report body takes field 11 of the body `b`.
proof fn lemma_execution_report_takes_cl_ord_id(
    s: MessageView,
    before: ExecutionReportView,
    b: ExecutionReportView,
)
    requires
        s.body == BodyView::ExecutionReport(before),
        b.wf(),
        before.cl_ord_id is None,
    ensures
        plain_optional(b.cl_ord_id),
        match b.cl_ord_id {
            Some(v) => s.with_field(11, v) == Ok::<MessageView, Seq<char>>(
                with_body(
                    s,
                    BodyView::ExecutionReport(
                        ExecutionReportView { cl_ord_id: b.cl_ord_id, ..before },
                    ),
                ),
            ),
            None => s == with_body(
                s,
                BodyView::ExecutionReport(ExecutionReportView { cl_ord_id: b.cl_ord_id, ..before }),
            ),
        },
{
}

/// A reader with an Execution Report body takes field 41 of the body `b`.
proof fn lemma_execution_report_takes_orig_cl_ord_id(
    s: MessageView,
    before: ExecutionReportView,
    b: ExecutionReportView,
)
    requires
        s.body == BodyView::ExecutionReport(before),
        b.wf(),
        before.orig_cl_ord_id is None,
    ensures
        plain_optional(b.orig_cl_ord_id),
        match b.orig_cl_ord_id {
            Some(v) => s.with_field(41, v) == Ok::<MessageView, Seq<char>>(
                with_body(
                    s,
                    BodyView::ExecutionReport(
                        ExecutionReportView { orig_cl_ord_id: b.orig_cl_ord_id, ..before },
                    ),
                ),
            ),
            None => s == with_body(
                s,
                BodyView::ExecutionReport(
                    ExecutionReportView { orig_cl_ord_id: b.orig_cl_ord_id, ..before },
                ),
            ),
        },
{
}

/// A reader with an Execution Report body takes field 55 of the body `b`.
proof fn lemma_execution_report_takes_symbol(
    s: MessageView,
    before: ExecutionReportView,
    b: ExecutionReportView,
)
    requires
        s.body == BodyView::ExecutionReport(before),
        b.wf(),
    ensures
        plain(b.symbol),
        s.with_field(55, b.symbol) == Ok::<MessageView, Seq<char>>(
            with_body(
                s,
                BodyView::ExecutionReport(ExecutionReportView { symbol: b.symbol, ..before }),
            ),
        ),
{
}

/// A reader with an Execution Report body takes field 54 of the body `b`.
proof fn lemma_execution_report_takes_side(
    s: MessageView,
    before: ExecutionReportView,
    b: ExecutionReportView,
)
    requires
        s.body == BodyView::ExecutionReport(before),
        b.wf(),
    ensures
        plain(b.side.wire_code()),
        s.with_field(54, b.side.wire_code()) == Ok::<MessageView, Seq<char>>(
            with_body(
                s,
                BodyView::ExecutionReport(ExecutionReportView { side: b.side, ..before }),
            ),
        ),
{
    Side::lemma_code_round_trip(b.side, b.side.wire_code());
}

/// A reader with an Execution Report body takes field 60 of the body `b`.
proof fn lemma_execution_report_takes_transact_time(
    s: MessageView,
    before: ExecutionReportView,
    b: ExecutionReportView,
)
    requires
        s.body == BodyView::ExecutionReport(before),
        b.wf(),
        before.transact_time is None,
    ensures
        plain_optional(optional_time_text(b.transact_time)),
        match optional_time_text(b.transact_time) {
            Some(v) => s.with_field(60, v) == Ok::<MessageView, Seq<char>>(
                with_body(
                    s,
                    BodyView::ExecutionReport(
                        ExecutionReportView { transact_time: b.transact_time, ..before },
                    ),
                ),
            ),
            None => s == with_body(
                s,
                BodyView::ExecutionReport(
                    ExecutionReportView { transact_time: b.transact_time, ..before },
                ),
            ),
        },
{
    if b.transact_time is Some {
        lemma_timestamp_round_trip(b.transact_time->0);
        lemma_text_shape(b.transact_time->0);
    }
}

/// A reader with an Execution Report body takes field 32 of the body `b`.
proof fn lemma_execution_report_takes_last_shares(
    s: MessageView,
    before: ExecutionReportView,
    b: ExecutionReportView,
)
    requires
        s.body == BodyView::ExecutionReport(before),
        b.wf(),
        before.last_shares is None,
    ensures
        plain_optional(optional_decimal_text(b.last_shares)),
        match optional_decimal_text(b.last_shares) {
            Some(v) => s.with_field(32, v) == Ok::<MessageView, Seq<char>>(
                with_body(
                    s,
                    BodyView::ExecutionReport(
                        ExecutionReportView { last_shares: b.last_shares, ..before },
                    ),
                ),
            ),
            None => s == with_body(
                s,
                BodyView::ExecutionReport(
                    ExecutionReportView { last_shares: b.last_shares, ..before },
                ),
            ),
        },
{
    if b.last_shares is Some {
        lemma_number_round_trip(b.last_shares->0);
        lemma_number_text_plain(b.last_shares->0);
    }
}

/// A reader with an Execution Report body takes field 31 of the body `b`.
proof fn lemma_execution_report_takes_last_px(
    s: MessageView,
    before: ExecutionReportView,
    b: ExecutionReportView,
)
    requires
        s.body == BodyView::ExecutionReport(before),
        b.wf(),
        before.last_px is None,
    ensures
        plain_optional(optional_decimal_text(b.last_px)),
        match optional_decimal_text(b.last_px) {
            Some(v) => s.with_field(31, v) == Ok::<MessageView, Seq<char>>(
                with_body(
                    s,
                    BodyView::ExecutionReport(ExecutionReportView { last_px: b.last_px, ..before }),
                ),
            ),
            None => s == with_body(
                s,
                BodyView::ExecutionReport(ExecutionReportView { last_px: b.last_px, ..before }),
            ),
        },
{
    if b.last_px is Some {
        lemma_number_round_trip(b.last_px->0);
        lemma_number_text_plain(b.last_px->0);
    }
}

/// A reader with an Execution Report body takes field 151 of the body `b`.
proof fn lemma_execution_report_takes_leaves_qty(
    s: MessageView,
    before: ExecutionReportView,
    b: ExecutionReportView,
)
    requires
        s.body == BodyView::ExecutionReport(before),
        b.wf(),
    ensures
        plain(b.leaves_qty.text()),
        s.with_field(151, b.leaves_qty.text()) == Ok::<MessageView, Seq<char>>(
            with_body(
                s,
                BodyView::ExecutionReport(
                    ExecutionReportView { leaves_qty: b.leaves_qty, ..before },
                ),
            ),
        ),
{
    lemma_number_round_trip(b.leaves_qty);
    lemma_number_text_plain(b.leaves_qty);
}

/// A reader with an Execution Report body takes field 14 of the body `b`.
proof fn lemma_execution_report_takes_cum_qty(
    s: MessageView,
    before: ExecutionReportView,
    b: ExecutionReportView,
)
    requires
        s.body == BodyView::ExecutionReport(before),
        b.wf(),
    ensures
        plain(b.cum_qty.text()),
        s.with_field(14, b.cum_qty.text()) == Ok::<MessageView, Seq<char>>(
            with_body(
                s,
                BodyView::ExecutionReport(ExecutionReportView { cum_qty: b.cum_qty, ..before }),
            ),
        ),
{
    lemma_number_round_trip(b.cum_qty);
    lemma_number_text_plain(b.cum_qty);
}

/// A reader with an Execution Report body takes field 6 of the body `b`.
proof fn lemma_execution_report_takes_avg_px(
    s: MessageView,
    before: ExecutionReportView,
    b: ExecutionReportView,
)
    requires
        s.body == BodyView::ExecutionReport(before),
        b.wf(),
    ensures
        plain(b.avg_px.text()),
        s.with_field(6, b.avg_px.text()) == Ok::<MessageView, Seq<char>>(
            with_body(
                s,
                BodyView::ExecutionReport(ExecutionReportView { avg_px: b.avg_px, ..before }),
            ),
        ),
{
    lemma_number_round_trip(b.avg_px);
    lemma_number_text_plain(b.avg_px);
}

/// A reader with an Execution Report body takes field 103 of the body `b`.
proof fn lemma_execution_report_takes_ord_rej_reason(
    s: MessageView,
    before: ExecutionReportView,
    b: ExecutionReportView,
)
    requires
        s.body == BodyView::ExecutionReport(before),
        b.wf(),
        before.ord_rej_reason is None,
    ensures
        plain_optional(optional_number_text(b.ord_rej_reason)),
        match optional_number_text(b.ord_rej_reason) {
            Some(v) => s.with_field(103, v) == Ok::<MessageView, Seq<char>>(
                with_body(
                    s,
                    BodyView::ExecutionReport(
                        ExecutionReportView { ord_rej_reason: b.ord_rej_reason, ..before },
                    ),
                ),
            ),
            None => s == with_body(
                s,
                BodyView::ExecutionReport(
                    ExecutionReportView { ord_rej_reason: b.ord_rej_reason, ..before },
                ),
            ),
        },
{
    if b.ord_rej_reason is Some {
        lemma_parse_decimal_text(b.ord_rej_reason->0 as nat, u32::MAX as nat);
        lemma_number_plain(b.ord_rej_reason->0 as nat);
    }
}

/// A reader with a new Execution Report body takes the body of `m` back
/// from the fields that the body writes.
#[verifier::rlimit(60)]
pub proof fn lemma_execution_report_taken(s: MessageView, m: MessageView, b: ExecutionReportView)
    requires
        m.body == BodyView::ExecutionReport(b),
        b.wf(),
        s.body == BodyView::ExecutionReport(ExecutionReportView::initial()),
    ensures
        taken(s, FieldList { fields: m.body.fields() }, m, with_body(s, m.body), 100, 200),
{
    let b0 = ExecutionReportView::initial();
    let l0 = FieldList::new();
    let s0 = s;
    lemma_taken_nothing(s, m, 100);

    let l1 = l0.with(37, b.order_id);
    let b1 = ExecutionReportView { order_id: b.order_id, ..b0 };
    let s1 = with_body(s, BodyView::ExecutionReport(b1));
    lemma_execution_report_takes_order_id(s0, b0, b);
    lemma_taken_with(s, l0, m, s0, 100, 100, 37, b.order_id, s1);

    let l2 = l1.with(17, b.exec_id);
    let b2 = ExecutionReportView { exec_id: b.exec_id, ..b1 };
    let s2 = with_body(s, BodyView::ExecutionReport(b2));
    lemma_execution_report_takes_exec_id(s1, b1, b);
    lemma_taken_with(s, l1, m, s1, 100, 101, 17, b.exec_id, s2);

    let l3 = l2.with(20, b.exec_trans_type.wire_code());
    let b3 = ExecutionReportView { exec_trans_type: b.exec_trans_type, ..b2 };
    let s3 = with_body(s, BodyView::ExecutionReport(b3));
    lemma_execution_report_takes_exec_trans_type(s2, b2, b);
    lemma_taken_with(s, l2, m, s2, 100, 102, 20, b.exec_trans_type.wire_code(), s3);

    let l4 = l3.with(150, b.exec_type.wire_code());
    let b4 = ExecutionReportView { exec_type: b.exec_type, ..b3 };
    let s4 = with_body(s, BodyView::ExecutionReport(b4));
    lemma_execution_report_takes_exec_type(s3, b3, b);
    lemma_taken_with(s, l3, m, s3, 100, 103, 150, b.exec_type.wire_code(), s4);

    let l5 = l4.with(39, b.ord_status.wire_code());
    let b5 = ExecutionReportView { ord_status: b.ord_status, ..b4 };
    let s5 = with_body(s, BodyView::ExecutionReport(b5));
    lemma_execution_report_takes_ord_status(s4, b4, b);
    lemma_taken_with(s, l4, m, s4, 100, 104, 39, b.ord_status.wire_code(), s5);

    let l6 = l5.with_optional(11, b.cl_ord_id);
    let b6 = ExecutionReportView { cl_ord_id: b.cl_ord_id, ..b5 };
    let s6 = with_body(s, BodyView::ExecutionReport(b6));
    lemma_execution_report_takes_cl_ord_id(s5, b5, b);
    lemma_taken_with_optional(s, l5, m, s5, 100, 105, 11, b.cl_ord_id, s6);

    let l7 = l6.with_optional(41, b.orig_cl_ord_id);
    let b7 = ExecutionReportView { orig_cl_ord_id: b.orig_cl_ord_id, ..b6 };
    let s7 = with_body(s, BodyView::ExecutionReport(b7));
    lemma_execution_report_takes_orig_cl_ord_id(s6, b6, b);
    lemma_taken_with_optional(s, l6, m, s6, 100, 106, 41, b.orig_cl_ord_id, s7);

    let l8 = l7.with(55, b.symbol);
    let b8 = ExecutionReportView { symbol: b.symbol, ..b7 };
    let s8 = with_body(s, BodyView::ExecutionReport(b8));
    lemma_execution_report_takes_symbol(s7, b7, b);
    lemma_taken_with(s, l7, m, s7, 100, 107, 55, b.symbol, s8);

    let l9 = l8.with(54, b.side.wire_code());
    let b9 = ExecutionReportView { side: b.side, ..b8 };
    let s9 = with_body(s, BodyView::ExecutionReport(b9));
    lemma_execution_report_takes_side(s8, b8, b);
    lemma_taken_with(s, l8, m, s8, 100, 108, 54, b.side.wire_code(), s9);

    let l10 = l9.with_optional(60, optional_time_text(b.transact_time));
    let b10 = ExecutionReportView { transact_time: b.transact_time, ..b9 };
    let s10 = with_body(s, BodyView::ExecutionReport(b10));
    lemma_execution_report_takes_transact_time(s9, b9, b);
    lemma_taken_with_optional(s, l9, m, s9, 100, 109, 60, optional_time_text(b.transact_time), s10);

    let l11 = l10.with_optional(32, optional_decimal_text(b.last_shares));
    let b11 = ExecutionReportView { last_shares: b.last_shares, ..b10 };
    let s11 = with_body(s, BodyView::ExecutionReport(b11));
    lemma_execution_report_takes_last_shares(s10, b10, b);
    lemma_taken_with_optional(
        s,
        l10,
        m,
        s10,
        100,
        110,
        32,
        optional_decimal_text(b.last_shares),
        s11,
    );

    let l12 = l11.with_optional(31, optional_decimal_text(b.last_px));
    let b12 = ExecutionReportView { last_px: b.last_px, ..b11 };
    let s12 = with_body(s, BodyView::ExecutionReport(b12));
    lemma_execution_report_takes_last_px(s11, b11, b);
    lemma_taken_with_optional(s, l11, m, s11, 100, 111, 31, optional_decimal_text(b.last_px), s12);

    let l13 = l12.with(151, b.leaves_qty.text());
    let b13 = ExecutionReportView { leaves_qty: b.leaves_qty, ..b12 };
    let s13 = with_body(s, BodyView::ExecutionReport(b13));
    lemma_execution_report_takes_leaves_qty(s12, b12, b);
    lemma_taken_with(s, l12, m, s12, 100, 112, 151, b.leaves_qty.text(), s13);

    let l14 = l13.with(14, b.cum_qty.text());
    let b14 = ExecutionReportView { cum_qty: b.cum_qty, ..b13 };
    let s14 = with_body(s, BodyView::ExecutionReport(b14));
    lemma_execution_report_takes_cum_qty(s13, b13, b);
    lemma_taken_with(s, l13, m, s13, 100, 113, 14, b.cum_qty.text(), s14);

    let l15 = l14.with(6, b.avg_px.text());
    let b15 = ExecutionReportView { avg_px: b.avg_px, ..b14 };
    let s15 = with_body(s, BodyView::ExecutionReport(b15));
    lemma_execution_report_takes_avg_px(s14, b14, b);
    lemma_taken_with(s, l14, m, s14, 100, 114, 6, b.avg_px.text(), s15);

    let l16 = l15.with_optional(103, optional_number_text(b.ord_rej_reason));
    let b16 = ExecutionReportView { ord_rej_reason: b.ord_rej_reason, ..b15 };
    let s16 = with_body(s, BodyView::ExecutionReport(b16));
    lemma_execution_report_takes_ord_rej_reason(s15, b15, b);
    lemma_taken_with_optional(
        s,
        l15,
        m,
        s15,
        100,
        115,
        103,
        optional_number_text(b.ord_rej_reason),
        s16,
    );

    assert(l16.fields == b.fields());
    assert(b16 == b);
    lemma_taken_within(s, l16, m, s16, 100, 116, 200);
}

/// A reader with an Order Cancel Request body takes field 41 of the body `b`.
proof fn lemma_order_cancel_request_takes_orig_cl_ord_id(
    s: MessageView,
    before: OrderCancelRequestView,
    b: OrderCancelRequestView,
)
    requires
        s.body == BodyView::OrderCancelRequest(before),
        b.wf(),
    ensures
        plain(b.orig_cl_ord_id),
        s.with_field(41, b.orig_cl_ord_id) == Ok::<MessageView, Seq<char>>(
            with_body(
                s,
                BodyView::OrderCancelRequest(
                    OrderCancelRequestView { orig_cl_ord_id: b.orig_cl_ord_id, ..before },
                ),
            ),
        ),
{
}

/// A reader with an Order Cancel Request body takes field 37 of the body `b`.
proof fn lemma_order_cancel_request_takes_order_id(
    s: MessageView,
    before: OrderCancelRequestView,
    b: OrderCancelRequestView,
)
    requires
        s.body == BodyView::OrderCancelRequest(before),
        b.wf(),
        before.order_id is None,
    ensures
        plain_optional(b.order_id),
        match b.order_id {
            Some(v) => s.with_field(37, v) == Ok::<MessageView, Seq<char>>(
                with_body(
                    s,
                    BodyView::OrderCancelRequest(
                        OrderCancelRequestView { order_id: b.order_id, ..before },
                    ),
                ),
            ),
            None => s == with_body(
                s,
                BodyView::OrderCancelRequest(
                    OrderCancelRequestView { order_id: b.order_id, ..before },
                ),
            ),
        },
{
}

/// A reader with an Order Cancel Request body takes field 11 of the body `b`.
proof fn lemma_order_cancel_request_takes_cl_ord_id(
    s: MessageView,
    before: OrderCancelRequestView,
    b: OrderCancelRequestView,
)
    requires
        s.body == BodyView::OrderCancelRequest(before),
        b.wf(),
    ensures
        plain(b.cl_ord_id),
        s.with_field(11, b.cl_ord_id) == Ok::<MessageView, Seq<char>>(
            with_body(
                s,
                BodyView::OrderCancelRequest(
                    OrderCancelRequestView { cl_ord_id: b.cl_ord_id, ..before },
                ),
            ),
        ),
{
}

/// A reader with an Order Cancel Request body takes field 55 of the body `b`.
proof fn lemma_order_cancel_request_takes_symbol(
    s: MessageView,
    before: OrderCancelRequestView,
    b: OrderCancelRequestView,
)
    requires
        s.body == BodyView::OrderCancelRequest(before),
        b.wf(),
    ensures
        plain(b.symbol),
        s.with_field(55, b.symbol) == Ok::<MessageView, Seq<char>>(
            with_body(
                s,
                BodyView::OrderCancelRequest(OrderCancelRequestView { symbol: b.symbol, ..before }),
            ),
        ),
{
}

/// A reader with an Order Cancel Request body takes field 54 of the body `b`.
proof fn lemma_order_cancel_request_takes_side(
    s: MessageView,
    before: OrderCancelRequestView,
    b: OrderCancelRequestView,
)
    requires
        s.body == BodyView::OrderCancelRequest(before),
        b.wf(),
    ensures
        plain(b.side.wire_code()),
        s.with_field(54, b.side.wire_code()) == Ok::<MessageView, Seq<char>>(
            with_body(
                s,
                BodyView::OrderCancelRequest(OrderCancelRequestView { side: b.side, ..before }),
            ),
        ),
{
    Side::lemma_code_round_trip(b.side, b.side.wire_code());
}

/// A reader with an Order Cancel Request body takes field 60 of the body `b`.
proof fn lemma_order_cancel_request_takes_transact_time(
    s: MessageView,
    before: OrderCancelRequestView,
    b: OrderCancelRequestView,
)
    requires
        s.body == BodyView::OrderCancelRequest(before),
        b.wf(),
    ensures
        plain(b.transact_time.text()),
        s.with_field(60, b.transact_time.text()) == Ok::<MessageView, Seq<char>>(
            with_body(
                s,
                BodyView::OrderCancelRequest(
                    OrderCancelRequestView { transact_time: b.transact_time, ..before },
                ),
            ),
        ),
{
    lemma_timestamp_round_trip(b.transact_time);
    lemma_text_shape(b.transact_time);
}

/// A reader with an Order Cancel Request body takes field 38 of the body `b`.
proof fn lemma_order_cancel_request_takes_order_qty(
    s: MessageView,
    before: OrderCancelRequestView,
    b: OrderCancelRequestView,
)
    requires
        s.body == BodyView::OrderCancelRequest(before),
        b.wf(),
        before.order_qty is None,
    ensures
        plain_optional(optional_decimal_text(b.order_qty)),
        match optional_decimal_text(b.order_qty) {
            Some(v) => s.with_field(38, v) == Ok::<MessageView, Seq<char>>(
                with_body(
                    s,
                    BodyView::OrderCancelRequest(
                        OrderCancelRequestView { order_qty: b.order_qty, ..before },
                    ),
                ),
            ),
            None => s == with_body(
                s,
                BodyView::OrderCancelRequest(
                    OrderCancelRequestView { order_qty: b.order_qty, ..before },
                ),
            ),
        },
{
    if b.order_qty is Some {
        lemma_number_round_trip(b.order_qty->0);
        lemma_number_text_plain(b.order_qty->0);
    }
}

/// A reader with an Order Cancel Request body takes field 152 of the body `b`.
proof fn lemma_order_cancel_request_takes_cash_order_qty(
    s: MessageView,
    before: OrderCancelRequestView,
    b: OrderCancelRequestView,
)
    requires
        s.body == BodyView::OrderCancelRequest(before),
        b.wf(),
        before.cash_order_qty is None,
    ensures
        plain_optional(optional_decimal_text(b.cash_order_qty)),
        match optional_decimal_text(b.cash_order_qty) {
            Some(v) => s.with_field(152, v) == Ok::<MessageView, Seq<char>>(
                with_body(
                    s,
                    BodyView::OrderCancelRequest(
                        OrderCancelRequestView { cash_order_qty: b.cash_order_qty, ..before },
                    ),
                ),
            ),
            None => s == with_body(
                s,
                BodyView::OrderCancelRequest(
                    OrderCancelRequestView { cash_order_qty: b.cash_order_qty, ..before },
                ),
            ),
        },
{
    if b.cash_order_qty is Some {
        lemma_number_round_trip(b.cash_order_qty->0);
        lemma_number_text_plain(b.cash_order_qty->0);
    }
}

/// A reader with an Order Cancel Request body takes field 1 of the body `b`.
proof fn lemma_order_cancel_request_takes_account(
    s: MessageView,
    before: OrderCancelRequestView,
    b: OrderCancelRequestView,
)
    requires
        s.body == BodyView::OrderCancelRequest(before),
        b.wf(),
        before.account is None,
    ensures
        plain_optional(b.account),
        match b.account {
            Some(v) => s.with_field(1, v) == Ok::<MessageView, Seq<char>>(
                with_body(
                    s,
                    BodyView::OrderCancelRequest(
                        OrderCancelRequestView { account: b.account, ..before },
                    ),
                ),
            ),
            None => s == with_body(
                s,
                BodyView::OrderCancelRequest(
                    OrderCancelRequestView { account: b.account, ..before },
                ),
            ),
        },
{
}

/// A reader with an Order Cancel Request body takes field 58 of the body `b`.
proof fn lemma_order_cancel_request_takes_text(
    s: MessageView,
    before: OrderCancelRequestView,
    b: OrderCancelRequestView,
)
    requires
        s.body == BodyView::OrderCancelRequest(before),
        b.wf(),
        before.text is None,
    ensures
        plain_optional(b.text),
        match b.text {
            Some(v) => s.with_field(58, v) == Ok::<MessageView, Seq<char>>(
                with_body(
                    s,
                    BodyView::OrderCancelRequest(OrderCancelRequestView { text: b.text, ..before }),
                ),
            ),
            None => s == with_body(
                s,
                BodyView::OrderCancelRequest(OrderCancelRequestView { text: b.text, ..before }),
            ),
        },
{
}

/// A reader with a new Order Cancel Request body takes the body of `m` back
/// from the fields that the body writes.
pub proof fn lemma_order_cancel_request_taken(
    s: MessageView,
    m: MessageView,
    b: OrderCancelRequestView,
    t0: Civil,
)
    requires
        m.body == BodyView::OrderCancelRequest(b),
        b.wf(),
        s.body == BodyView::OrderCancelRequest(OrderCancelRequestView::initial(t0)),
    ensures
        taken(s, FieldList { fields: m.body.fields() }, m, with_body(s, m.body), 100, 200),
{
    let b0 = OrderCancelRequestView::initial(t0);
    let l0 = FieldList::new();
    let s0 = s;
    lemma_taken_nothing(s, m, 100);

    let l1 = l0.with(41, b.orig_cl_ord_id);
    let b1 = OrderCancelRequestView { orig_cl_ord_id: b.orig_cl_ord_id, ..b0 };
    let s1 = with_body(s, BodyView::OrderCancelRequest(b1));
    lemma_order_cancel_request_takes_orig_cl_ord_id(s0, b0, b);
    lemma_taken_with(s, l0, m, s0, 100, 100, 41, b.orig_cl_ord_id, s1);

    let l2 = l1.with_optional(37, b.order_id);
    let b2 = OrderCancelRequestView { order_id: b.order_id, ..b1 };
    let s2 = with_body(s, BodyView::OrderCancelRequest(b2));
    lemma_order_cancel_request_takes_order_id(s1, b1, b);
    lemma_taken_with_optional(s, l1, m, s1, 100, 101, 37, b.order_id, s2);

    let l3 = l2.with(11, b.cl_ord_id);
    let b3 = OrderCancelRequestView { cl_ord_id: b.cl_ord_id, ..b2 };
    let s3 = with_body(s, BodyView::OrderCancelRequest(b3));
    lemma_order_cancel_request_takes_cl_ord_id(s2, b2, b);
    lemma_taken_with(s, l2, m, s2, 100, 102, 11, b.cl_ord_id, s3);

    let l4 = l3.with(55, b.symbol);
    let b4 = OrderCancelRequestView { symbol: b.symbol, ..b3 };
    let s4 = with_body(s, BodyView::OrderCancelRequest(b4));
    lemma_order_cancel_request_takes_symbol(s3, b3, b);
    lemma_taken_with(s, l3, m, s3, 100, 103, 55, b.symbol, s4);

    let l5 = l4.with(54, b.side.wire_code());
    let b5 = OrderCancelRequestView { side: b.side, ..b4 };
    let s5 = with_body(s, BodyView::OrderCancelRequest(b5));
    lemma_order_cancel_request_takes_side(s4, b4, b);
    lemma_taken_with(s, l4, m, s4, 100, 104, 54, b.side.wire_code(), s5);

    let l6 = l5.with(60, b.transact_time.text());
    let b6 = OrderCancelRequestView { transact_time: b.transact_time, ..b5 };
    let s6 = with_body(s, BodyView::OrderCancelRequest(b6));
    lemma_order_cancel_request_takes_transact_time(s5, b5, b);
    lemma_taken_with(s, l5, m, s5, 100, 105, 60, b.transact_time.text(), s6);

    let l7 = l6.with_optional(38, optional_decimal_text(b.order_qty));
    let b7 = OrderCancelRequestView { order_qty: b.order_qty, ..b6 };
    let s7 = with_body(s, BodyView::OrderCancelRequest(b7));
    lemma_order_cancel_request_takes_order_qty(s6, b6, b);
    lemma_taken_with_optional(s, l6, m, s6, 100, 106, 38, optional_decimal_text(b.order_qty), s7);

    let l8 = l7.with_optional(152, optional_decimal_text(b.cash_order_qty));
    let b8 = OrderCancelRequestView { cash_order_qty: b.cash_order_qty, ..b7 };
    let s8 = with_body(s, BodyView::OrderCancelRequest(b8));
    lemma_order_cancel_request_takes_cash_order_qty(s7, b7, b);
    lemma_taken_with_optional(
        s,
        l7,
        m,
        s7,
        100,
        107,
        152,
        optional_decimal_text(b.cash_order_qty),
        s8,
    );

    let l9 = l8.with_optional(1, b.account);
    let b9 = OrderCancelRequestView { account: b.account, ..b8 };
    let s9 = with_body(s, BodyView::OrderCancelRequest(b9));
    lemma_order_cancel_request_takes_account(s8, b8, b);
    lemma_taken_with_optional(s, l8, m, s8, 100, 108, 1, b.account, s9);

    let l10 = l9.with_optional(58, b.text);
    let b10 = OrderCancelRequestView { text: b.text, ..b9 };
    let s10 = with_body(s, BodyView::OrderCancelRequest(b10));
    lemma_order_cancel_request_takes_text(s9, b9, b);
    lemma_taken_with_optional(s, l9, m, s9, 100, 109, 58, b.text, s10);

    assert(l10.fields == b.fields());
    assert(b10 == b);
    lemma_taken_within(s, l10, m, s10, 100, 110, 200);
}

} // verus!
