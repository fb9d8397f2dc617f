//! Operation-counting instrumentation: wrap a batch of values so that every
//! construction, duplication, destruction, equality test, partial-order test
//! and total-order test is tallied in a shared counter, without changing the
//! observable behaviour of the values themselves.

pub mod counter;
pub mod digits;
pub mod session;
pub mod sort;
pub mod wrapper;

pub use counter::InstrumentedBase;
pub use counter::OpKind;
pub use session::count_operations;
pub use session::count_operations_values;
pub use session::Session;
pub use sort::sort_ascending;
pub use wrapper::Instrumented;
