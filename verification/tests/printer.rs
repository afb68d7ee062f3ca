use smart_parking::printer_job::{validate_printer_name, PrintAction, PrintJob};
use smart_parking::transport::TransportError;

#[test]
fn successful_job_walks_every_stage_and_closes() {
    let mut job = PrintJob::new("EPSON TM-T20".to_string());
    let expected = [
        PrintAction::OpenPrinter,
        PrintAction::StartDoc,
        PrintAction::StartPage,
        PrintAction::WriteAll,
        PrintAction::EndPage,
        PrintAction::EndDoc,
        PrintAction::ClosePrinter,
    ];
    for action in expected {
        assert_eq!(job.next_action(), action);
        job.apply(true);
    }
    assert_eq!(job.next_action(), PrintAction::Report);
    assert!(!job.handle_open());
    assert!(job.report().is_ok());
}

#[test]
fn write_failure_still_releases_the_handle() {
    let mut job = PrintJob::new("EPSON".to_string());
    job.apply(true); // open
    job.apply(true); // start doc
    job.apply(true); // start page
    assert_eq!(job.next_action(), PrintAction::WriteAll);
    job.apply(false); // write fails
    // The machine still owes the release calls, in order.
    assert_eq!(job.next_action(), PrintAction::EndPage);
    job.apply(true);
    assert_eq!(job.next_action(), PrintAction::EndDoc);
    job.apply(true);
    assert_eq!(job.next_action(), PrintAction::ClosePrinter);
    job.apply(true);
    assert_eq!(job.next_action(), PrintAction::Report);
    assert!(!job.handle_open());
    let err = job.report().unwrap_err();
    assert_eq!(err.message(), "Failed to write to EPSON");

    // The handle was released: a subsequent job on the same device in the
    // same process starts from the open call again.
    let mut retry = PrintJob::new("EPSON".to_string());
    assert_eq!(retry.next_action(), PrintAction::OpenPrinter);
    retry.apply(true);
    assert!(retry.handle_open());
}

#[test]
fn open_failure_finishes_without_holding_anything() {
    let mut job = PrintJob::new("GHOST".to_string());
    job.apply(false);
    assert_eq!(job.next_action(), PrintAction::Report);
    assert!(!job.handle_open());
    let err = job.report().unwrap_err();
    assert_eq!(err.message(), "Failed to open GHOST");
}

#[test]
fn doc_start_failure_closes_the_handle_first() {
    let mut job = PrintJob::new("EPSON".to_string());
    job.apply(true); // open
    job.apply(false); // start doc fails
    assert_eq!(job.next_action(), PrintAction::ClosePrinter);
    job.apply(true);
    assert!(!job.handle_open());
    let err = job.report().unwrap_err();
    assert_eq!(err.message(), "Failed to start print job on EPSON");
}

#[test]
fn page_start_failure_ends_doc_then_closes() {
    let mut job = PrintJob::new("EPSON".to_string());
    job.apply(true); // open
    job.apply(true); // start doc
    job.apply(false); // start page fails
    assert_eq!(job.next_action(), PrintAction::EndDoc);
    job.apply(true);
    assert_eq!(job.next_action(), PrintAction::ClosePrinter);
    job.apply(true);
    assert!(!job.handle_open());
    assert!(job.report().is_err());
}

#[test]
fn printer_name_with_nul_is_a_configuration_error() {
    assert!(validate_printer_name("EPSON TM-T20").is_ok());
    let err = validate_printer_name("EP\0SON").unwrap_err();
    match &err {
        TransportError::ConfigurationError(n) => assert_eq!(n, "EP\0SON"),
        _ => panic!("expected ConfigurationError"),
    }
    assert_eq!(err.message(), "Invalid printer name: EP\0SON");
}
