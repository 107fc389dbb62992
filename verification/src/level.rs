use vstd::prelude::*;

verus! {

/// How much a logging sink lets through, from nothing at all to every record.
///
/// The variants are those of the `log` facade's level filter, in its order.
#[derive(Clone, Copy, Debug, PartialEq, Eq, Structural)]
pub enum LogLevel {
    Off,
    Error,
    Warn,
    Info,
    Debug,
    Trace,
}

} // verus!
