//! A hub for several open workbooks.
//!
//! The server is one door for all of them: it takes actions and reports
//! events.

use vstd::prelude::*;
use crate::base::messages::Action;
use crate::base::workbook::Workbook;
use crate::csv::instance::CsvWorkbook;
use crate::errors::Kind;
use crate::errors::SubparError;
use crate::errors::plain_error;

verus! {

/// The message of a server that cannot act yet.
pub open spec fn msg_no_run() -> Seq<char> {
    "SubparServer::run is not implemented"@
}

/// The hub: the workbooks that are open, each under its identifier.
#[derive(Debug)]
pub struct SubparServer {
    handles: Vec<(u128, Workbook<CsvWorkbook>)>,
}

impl SubparServer {
    /// How many workbooks are open.
    pub closed spec fn open_count(self) -> nat {
        self.handles@.len()
    }

    /// A server without any open workbook.
    pub fn new() -> (server: SubparServer)
        ensures
            server.open_count() == 0,
    {
        SubparServer { handles: Vec::new() }
    }

    /// Takes an action. No action can be taken yet: the call says so.
    pub fn run(&self, _act: Action) -> (done: Result<(), SubparError>)
        ensures
            done matches Err(e) && e@ == plain_error(Kind::NotImplemented, msg_no_run()),
    {
        Err(SubparError::of(Kind::NotImplemented, "SubparServer::run is not implemented"))
    }
}

} // verus!
