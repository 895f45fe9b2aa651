use crate::date::Date;
use vstd::prelude::*;

verus! {

/// The state kept between runs: the task in progress, if any, the tasks
/// finished today in the order they were finished, and the day the record
/// was last reset.
#[derive(Clone, Debug, PartialEq, Eq)]
pub struct DoneConf {
    pub started: Option<String>,
    pub done: Vec<String>,
    pub date: Date,
}

/// The record with its strings seen as character sequences.
pub struct DoneConfView {
    pub started: Option<Seq<char>>,
    pub done: Seq<Seq<char>>,
    pub date: Date,
}

pub open spec fn started_view(o: Option<String>) -> Option<Seq<char>> {
    match o {
        Some(s) => Some(s@),
        None => None,
    }
}

impl View for DoneConf {
    type V = DoneConfView;

    open spec fn view(&self) -> DoneConfView {
        DoneConfView {
            started: started_view(self.started),
            done: self.done@.map_values(|s: String| s@),
            date: self.date,
        }
    }
}

} // verus!
