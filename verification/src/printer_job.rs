//! Raw print-job decision logic.
//!
//! Delivering a receipt to a named printer is a fixed sequence of OS
//! calls: open the printer, start a raw document, start a page, write the
//! whole buffer, then end the page, end the document and close the
//! handle. The calls themselves happen outside the library; this machine
//! decides which call comes next and guarantees the scoped-acquisition
//! discipline: whatever was opened is closed again on every exit path,
//! success or failure, so no spooler resource is ever leaked.

use vstd::prelude::*;

use crate::transport::TransportError;

verus! {

/// Where a print job stands.
#[derive(Clone, Copy, Debug, PartialEq, Eq, Structural)]
pub enum PrintStage {
    /// About to open the printer handle.
    Opening,
    /// About to start the raw document.
    StartingDoc,
    /// About to start the page.
    StartingPage,
    /// About to write the byte buffer.
    Writing,
    /// About to end the page.
    EndingPage,
    /// About to end the document.
    EndingDoc,
    /// About to close the printer handle.
    Closing,
    /// Finished; ready to report.
    Done,
}

/// The next OS call the caller must perform.
#[derive(Clone, Copy, Debug, PartialEq, Eq, Structural)]
pub enum PrintAction {
    /// Open the named printer.
    OpenPrinter,
    /// Start the raw print document.
    StartDoc,
    /// Start the page.
    StartPage,
    /// Write the whole byte buffer.
    WriteAll,
    /// End the page.
    EndPage,
    /// End the document.
    EndDoc,
    /// Close the printer handle.
    ClosePrinter,
    /// Nothing left to call; collect the report.
    Report,
}

/// Whether the text holds an interior NUL, which no device name may.
pub open spec fn has_nul(s: Seq<char>) -> bool {
    exists|i: int| 0 <= i < s.len() && s[i] as int == 0
}

/// Check a printer name before any OS call: a name with an interior NUL
/// cannot be passed to the spooler and is rejected as a configuration
/// error naming the device.
pub fn validate_printer_name(name: &str) -> (r: Result<(), TransportError>)
    ensures
        r is Ok <==> !has_nul(name@),
        r matches Err(e) ==> (e matches TransportError::ConfigurationError(n) && n@ == name@),
{
    let len = name.unicode_len();
    let mut i: usize = 0;
    while i < len
        invariant
            0 <= i <= len,
            len == name@.len(),
            forall|j: int| 0 <= j < i ==> name@[j] as int != 0,
        decreases len - i,
    {
        if name.get_char(i) as u32 == 0 {
            return Err(TransportError::ConfigurationError(name.to_owned()));
        }
        i += 1;
    }
    Ok(())
}

/// One raw print job in progress. The caller asks for the next action,
/// performs the OS call, and records whether it succeeded; the machine
/// routes every failure through the release calls that are still owed.
pub struct PrintJob {
    printer_name: String,
    stage: PrintStage,
    handle_open: bool,
    doc_started: bool,
    page_started: bool,
    failure: Option<TransportError>,
}

impl PrintJob {
    /// The device name this job prints to.
    pub closed spec fn spec_name(&self) -> Seq<char> {
        self.printer_name@
    }

    /// The stage the job stands in.
    pub closed spec fn spec_stage(&self) -> PrintStage {
        self.stage
    }

    /// Whether the printer handle is currently held.
    pub closed spec fn spec_handle_open(&self) -> bool {
        self.handle_open
    }

    /// Whether the raw document is currently started.
    pub closed spec fn spec_doc_started(&self) -> bool {
        self.doc_started
    }

    /// Whether the page is currently started.
    pub closed spec fn spec_page_started(&self) -> bool {
        self.page_started
    }

    /// The failure recorded so far, if any.
    pub closed spec fn spec_failure(&self) -> Option<TransportError> {
        self.failure
    }

    /// Resource soundness: what is held is exactly what the stage says is
    /// held, so the terminal stage holds nothing.
    pub open spec fn wf(&self) -> bool {
        &&& self.spec_handle_open() <==> !(self.spec_stage() is Opening || self.spec_stage()
            is Done)
        &&& self.spec_doc_started() <==> (self.spec_stage() is StartingPage || self.spec_stage()
            is Writing || self.spec_stage() is EndingPage || self.spec_stage() is EndingDoc)
        &&& self.spec_page_started() <==> (self.spec_stage() is Writing || self.spec_stage()
            is EndingPage)
    }

    /// Start a job against one named printer.
    pub fn new(printer_name: String) -> (j: PrintJob)
        ensures
            j.wf(),
            j.spec_stage() is Opening,
            j.spec_name() == printer_name@,
            !j.spec_handle_open(),
            j.spec_failure() is None,
    {
        PrintJob {
            printer_name,
            stage: PrintStage::Opening,
            handle_open: false,
            doc_started: false,
            page_started: false,
            failure: None,
        }
    }

    /// The stage the job stands in.
    pub fn stage(&self) -> (s: PrintStage)
        ensures
            s == self.spec_stage(),
    {
        self.stage
    }

    /// Whether the printer handle is currently held.
    pub fn handle_open(&self) -> (r: bool)
        ensures
            r == self.spec_handle_open(),
    {
        self.handle_open
    }

    /// The OS call the caller must perform next.
    pub fn next_action(&self) -> (a: PrintAction)
        ensures
            a == match self.spec_stage() {
                PrintStage::Opening => PrintAction::OpenPrinter,
                PrintStage::StartingDoc => PrintAction::StartDoc,
                PrintStage::StartingPage => PrintAction::StartPage,
                PrintStage::Writing => PrintAction::WriteAll,
                PrintStage::EndingPage => PrintAction::EndPage,
                PrintStage::EndingDoc => PrintAction::EndDoc,
                PrintStage::Closing => PrintAction::ClosePrinter,
                PrintStage::Done => PrintAction::Report,
            },
    {
        match self.stage {
            PrintStage::Opening => PrintAction::OpenPrinter,
            PrintStage::StartingDoc => PrintAction::StartDoc,
            PrintStage::StartingPage => PrintAction::StartPage,
            PrintStage::Writing => PrintAction::WriteAll,
            PrintStage::EndingPage => PrintAction::EndPage,
            PrintStage::EndingDoc => PrintAction::EndDoc,
            PrintStage::Closing => PrintAction::ClosePrinter,
            PrintStage::Done => PrintAction::Report,
        }
    }

    /// Record the outcome of the call the machine asked for, and move on.
    /// A failure while acquiring routes the job through the release calls
    /// still owed before it finishes; the outcomes of the release calls
    /// themselves are ignored, as releasing is best-effort.
    pub fn apply(&mut self, ok: bool)
        requires
            old(self).wf(),
            !(old(self).spec_stage() is Done),
        ensures
            final(self).wf(),
            final(self).spec_name() == old(self).spec_name(),
            match old(self).spec_stage() {
                PrintStage::Opening => {
                    if ok {
                        &&& final(self).spec_stage() is StartingDoc
                        &&& final(self).spec_failure() == old(self).spec_failure()
                    } else {
                        &&& final(self).spec_stage() is Done
                        &&& (final(self).spec_failure() matches Some(e) && e matches
                            TransportError::OpenFailed(n) && n@ == old(self).spec_name())
                    }
                },
                PrintStage::StartingDoc => {
                    if ok {
                        &&& final(self).spec_stage() is StartingPage
                        &&& final(self).spec_failure() == old(self).spec_failure()
                    } else {
                        &&& final(self).spec_stage() is Closing
                        &&& (final(self).spec_failure() matches Some(e) && e matches
                            TransportError::JobStartFailed(n) && n@ == old(self).spec_name())
                    }
                },
                PrintStage::StartingPage => {
                    if ok {
                        &&& final(self).spec_stage() is Writing
                        &&& final(self).spec_failure() == old(self).spec_failure()
                    } else {
                        &&& final(self).spec_stage() is EndingDoc
                        &&& (final(self).spec_failure() matches Some(e) && e matches
                            TransportError::JobStartFailed(n) && n@ == old(self).spec_name())
                    }
                },
                PrintStage::Writing => {
                    &&& final(self).spec_stage() is EndingPage
                    &&& if ok {
                        final(self).spec_failure() == old(self).spec_failure()
                    } else {
                        final(self).spec_failure() matches Some(e) && e matches
                            TransportError::WriteFailed(n) && n@ == old(self).spec_name()
                    }
                },
                PrintStage::EndingPage => {
                    &&& final(self).spec_stage() is EndingDoc
                    &&& final(self).spec_failure() == old(self).spec_failure()
                },
                PrintStage::EndingDoc => {
                    &&& final(self).spec_stage() is Closing
                    &&& final(self).spec_failure() == old(self).spec_failure()
                },
                PrintStage::Closing => {
                    &&& final(self).spec_stage() is Done
                    &&& final(self).spec_failure() == old(self).spec_failure()
                },
                PrintStage::Done => false,
            },
    {
        match self.stage {
            PrintStage::Opening => {
                if ok {
                    self.stage = PrintStage::StartingDoc;
                    self.handle_open = true;
                } else {
                    self.stage = PrintStage::Done;
                    self.failure = Some(TransportError::OpenFailed(self.printer_name.clone()));
                }
            },
            PrintStage::StartingDoc => {
                if ok {
                    self.stage = PrintStage::StartingPage;
                    self.doc_started = true;
                } else {
                    self.stage = PrintStage::Closing;
                    self.failure = Some(TransportError::JobStartFailed(self.printer_name.clone()));
                }
            },
            PrintStage::StartingPage => {
                if ok {
                    self.stage = PrintStage::Writing;
                    self.page_started = true;
                } else {
                    self.stage = PrintStage::EndingDoc;
                    self.failure = Some(TransportError::JobStartFailed(self.printer_name.clone()));
                }
            },
            PrintStage::Writing => {
                self.stage = PrintStage::EndingPage;
                if !ok {
                    self.failure = Some(TransportError::WriteFailed(self.printer_name.clone()));
                }
            },
            PrintStage::EndingPage => {
                self.stage = PrintStage::EndingDoc;
                self.page_started = false;
            },
            PrintStage::EndingDoc => {
                self.stage = PrintStage::Closing;
                self.doc_started = false;
            },
            PrintStage::Closing => {
                self.stage = PrintStage::Done;
                self.handle_open = false;
            },
            PrintStage::Done => {
                proof {
                    assert(false);
                }
            },
        }
    }

    /// Collect the job's outcome once it is done: success, or the first
    /// failure that was recorded.
    pub fn report(self) -> (r: Result<(), TransportError>)
        requires
            self.spec_stage() is Done,
        ensures
            match self.spec_failure() {
                None => r is Ok,
                Some(e) => r == Result::<(), TransportError>::Err(e),
            },
    {
        match self.failure {
            None => Ok(()),
            Some(e) => Err(e),
        }
    }
}

/// Scoped-acquisition law: a job that has reached its terminal stage
/// holds no printer resource — handle, document and page have all been
/// released, on the success path and on every failure path alike.
pub proof fn lemma_done_releases_resources(j: &PrintJob)
    requires
        j.wf(),
        j.spec_stage() is Done,
    ensures
        !j.spec_handle_open(),
        !j.spec_doc_started(),
        !j.spec_page_started(),
{
}

} // verus!
