//! Order messages: New Order Single, Execution Report and Order Cancel Request.

pub mod executionreport;
pub mod newordersingle;
pub mod ordercancelrequest;

pub use executionreport::ExecutionReportBody;
pub use newordersingle::NewOrderSingleBody;
pub use ordercancelrequest::OrderCancelRequestBody;
