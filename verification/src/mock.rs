//! A source for fault injection: it is configured like any other source and
//! fails as soon as it runs.

use vstd::prelude::*;

verus! {

/// The kind of events that an output carries.
#[derive(Debug, Clone, Copy, PartialEq, Eq)]
pub enum DataType {
    Log,
    Metric,
    Trace,
}

/// Configuration of the source that fails when it runs.
#[derive(Debug, Clone, PartialEq, Eq)]
pub struct PanicSourceConfig {
    /// Carries no meaning: a change of it makes two configurations differ,
    /// which is what a reload of the topology looks for.
    data: Option<String>,
}

impl PanicSourceConfig {
    /// The text that the configuration holds.
    pub closed spec fn data(&self) -> Option<Seq<char>> {
        crate::uri::optional_text(self.data)
    }

    /// A configuration that holds `data`.
    pub fn new(data: Option<String>) -> (r: PanicSourceConfig)
        ensures
            r.data() == crate::uri::optional_text(data),
    {
        PanicSourceConfig { data }
    }

    /// The outputs of the source: one, of logs.
    pub fn outputs(&self) -> (r: Vec<DataType>)
        ensures
            r@ == seq![DataType::Log],
    {
        let mut outputs = Vec::new();
        outputs.push(DataType::Log);
        assert(outputs@ =~= seq![DataType::Log]);
        outputs
    }

    /// Whether the source acknowledges events: it never does.
    pub fn can_acknowledge(&self) -> (r: bool)
        ensures
            !r,
    {
        false
    }
}

impl Default for PanicSourceConfig {
    fn default() -> (r: PanicSourceConfig)
        ensures
            r.data() is None,
    {
        PanicSourceConfig { data: None }
    }
}

} // verus!
