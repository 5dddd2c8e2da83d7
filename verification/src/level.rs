use vstd::prelude::*;

verus! {

/// The verbosity of a span or an event, from the most verbose (`TRACE`) to
/// the least verbose (`ERROR`).
#[allow(non_camel_case_types)]
#[derive(Clone, Copy, Debug, PartialEq, Eq, Structural)]
pub enum Level {
    TRACE,
    DEBUG,
    INFO,
    WARN,
    ERROR,
}

} // verus!
