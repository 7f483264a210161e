use lex_upload::amount::Amount;
use lex_upload::date::Date;
use lex_upload::invoice::{attachment_path, voucher_request, voucher_request_with_tax, CompletedInvoices, InvoiceCSV, UploadError};
use lex_upload::sync::{ledger_contains, pending_invoices, try_read_done_invoices_csv, SyncRun};
use lex_upload::upload::{UploadAction, UploadEvent, UploadSession, UploadStage};

fn amount(mantissa: i128, scale: u32) -> Amount {
    Amount::new(mantissa, scale).unwrap()
}

fn invoice(number: &str, currency: &str) -> InvoiceCSV {
    InvoiceCSV {
        invoice_number: number.to_string(),
        internal_reference: None,
        invoice_date: Date::new(2023, 5, 17).unwrap(),
        delivery_date: Date::new(2023, 5, 16).unwrap(),
        net: amount(11900, 2),
        vat: amount(1900, 2),
        final_amount: amount(10000, 2),
        currency: currency.to_string(),
        transaction_type: "b2b".to_string(),
        billing_adress: "Main Street 1, Berlin".to_string(),
    }
}

fn ledger(numbers: &[&str]) -> Vec<CompletedInvoices> {
    try_read_done_invoices_csv(Some(numbers.iter().map(|n| n.to_string()).collect()))
}

fn numbers(entries: &[CompletedInvoices]) -> Vec<String> {
    entries.iter().map(|e| e.invoice_number().to_string()).collect()
}

/// What a scripted remote saw during one upload.
#[derive(Default)]
struct Calls {
    voucher_posts: usize,
    file_posts: usize,
    refreshes: usize,
    attachment_checks: usize,
}

/// Drives one upload; `voucher_statuses` are the answers to successive
/// voucher posts, `file_status` the answer to the attachment post.
fn drive(
    inv: &InvoiceCSV,
    attachment: (bool, u64),
    voucher_statuses: &[u16],
    file_status: u16,
    calls: &mut Calls,
) -> Result<(), UploadError> {
    let mut session = UploadSession::new();
    let mut action = session.step(inv, UploadEvent::Begin);
    loop {
        let event = match action {
            UploadAction::ResolvePrefix { prefix } => {
                assert_eq!(prefix, "INV");
                UploadEvent::PrefixResolved(Some("/data/invoices".to_string()))
            }
            UploadAction::CheckAttachment { path } => {
                calls.attachment_checks += 1;
                assert!(path.ends_with(".pdf"));
                UploadEvent::AttachmentChecked { exists: attachment.0, size: attachment.1 }
            }
            UploadAction::ResolveContact { address } => {
                assert_eq!(address, "Main Street 1, Berlin");
                UploadEvent::ContactResolved(Some("6a1c0f3e-5b7e-4c0e-9d8b-2f1a3c4d5e6f".to_string()))
            }
            UploadAction::SendVoucher { request } => {
                assert_eq!(request.voucher_number, inv.invoice_number);
                let status = voucher_statuses[calls.voucher_posts];
                calls.voucher_posts += 1;
                let id = if status == 201 { Some("v1".to_string()) } else { None };
                UploadEvent::VoucherAnswered { status, voucher_id: id, message: None }
            }
            UploadAction::RefreshCredential => {
                calls.refreshes += 1;
                UploadEvent::CredentialRefreshed
            }
            UploadAction::SendAttachment { voucher_id, path } => {
                assert_eq!(voucher_id, "v1");
                assert!(path.ends_with(".pdf"));
                calls.file_posts += 1;
                UploadEvent::AttachmentAnswered { status: file_status }
            }
            UploadAction::Finished { outcome } => {
                assert_eq!(session.stage, UploadStage::Done);
                return outcome;
            }
        };
        action = session.step(inv, event);
    }
}

#[test]
fn validate_rejects_other_currency() {
    assert!(invoice("INV-1", "EUR").validate());
    assert!(!invoice("INV-1", "USD").validate());
    assert!(!invoice("INV-1", "eur").validate());
    assert!(!invoice("INV-1", "").validate());
}

#[test]
fn invalid_invoice_never_pending() {
    let invoices = vec![invoice("INV-1", "USD"), invoice("INV-2", "EUR"), invoice("INV-3", "CHF")];
    let pending = pending_invoices(&invoices, &Vec::new());
    assert_eq!(pending, vec![1]);
}

#[test]
fn pending_keeps_source_order_and_skips_ledger() {
    let invoices = vec![invoice("INV-3", "EUR"), invoice("INV-1", "EUR"), invoice("INV-2", "EUR")];
    let pending = pending_invoices(&invoices, &ledger(&["INV-1"]));
    assert_eq!(pending, vec![0, 2]);
}

#[test]
fn second_run_uploads_nothing() {
    let invoices = vec![invoice("INV-1", "EUR"), invoice("INV-2", "EUR")];
    let mut run = SyncRun::start(&invoices, Vec::new());
    while let Some(_) = run.next_invoice() {
        run.record_result(&invoices, true);
    }
    let after = run.into_ledger();
    assert_eq!(numbers(&after), vec!["INV-1", "INV-2"]);
    let again = SyncRun::start(&invoices, after);
    assert_eq!(again.next_invoice(), None);
    assert!(again.pending.is_empty());
}

#[test]
fn ledger_keeps_loaded_entries() {
    let invoices = vec![invoice("INV-2", "EUR"), invoice("INV-3", "EUR")];
    let mut run = SyncRun::start(&invoices, ledger(&["INV-1", "OLD-7"]));
    run.record_result(&invoices, false);
    run.record_result(&invoices, false);
    assert_eq!(run.failed, 2);
    assert_eq!(run.succeeded, 0);
    assert_eq!(numbers(&run.into_ledger()), vec!["INV-1", "OLD-7"]);
}

#[test]
fn failed_upload_not_recorded() {
    let invoices = vec![invoice("INV-A", "EUR"), invoice("INV-B", "EUR")];
    let mut run = SyncRun::start(&invoices, Vec::new());
    assert_eq!(run.next_invoice(), Some(0));
    run.record_result(&invoices, false);
    assert_eq!(run.next_invoice(), Some(1));
    run.record_result(&invoices, true);
    assert_eq!(run.next_invoice(), None);
    let after = run.into_ledger();
    assert!(ledger_contains(&after, &"INV-B".to_string()));
    assert!(!ledger_contains(&after, &"INV-A".to_string()));
}

#[test]
fn ledger_records_raw_number() {
    let mut inv = invoice("INV-9", "EUR");
    inv.internal_reference = Some("REF-77".to_string());
    assert_eq!(inv.get_invoice_number(), "REF-77");
    assert_eq!(inv.invoice_number(), "INV-9");
    assert_eq!(CompletedInvoices::new(&inv).invoice_number(), "INV-9");
}

#[test]
fn read_ledger_absent_is_empty() {
    assert!(try_read_done_invoices_csv(None).is_empty());
    assert_eq!(numbers(&ledger(&["A-1", "B-2"])), vec!["A-1", "B-2"]);
}

#[test]
fn tax_amount_positive() {
    let inv = invoice("INV-1", "EUR");
    let req = voucher_request(&inv, "c".to_string()).unwrap();
    assert_eq!(req.total_tax_amount, amount(1900, 2));
    assert_eq!(req.total_gross_amount, amount(10000, 2));
    assert_eq!(req.voucher_items.len(), 1);
    assert_eq!(req.voucher_items[0].tax_amount, amount(1900, 2));
    assert_eq!(req.voucher_items[0].tax_rate_percent, amount(1900, 2));
    assert_eq!(req.voucher_items[0].category_id, "9075a4e3-66de-4795-a016-3889feca0d20");
}

#[test]
fn tax_amount_negative() {
    let mut inv = invoice("INV-1", "EUR");
    inv.net = amount(10000, 2);
    inv.final_amount = amount(11900, 2);
    let req = voucher_request(&inv, "c".to_string()).unwrap();
    assert_eq!(req.total_tax_amount, amount(-1900, 2));
}

#[test]
fn tax_amount_mixed_scales() {
    let mut inv = invoice("INV-1", "EUR");
    inv.net = amount(1195, 1);
    inv.final_amount = amount(10025, 2);
    let req = voucher_request(&inv, "c".to_string()).unwrap();
    assert_eq!(req.total_tax_amount, amount(1925, 2));
}

#[test]
fn voucher_request_fields() {
    let mut inv = invoice("INV-4", "EUR");
    let req = voucher_request(&inv, "contact-1".to_string()).unwrap();
    assert_eq!(req.type_of_voucher, "salesinvoice");
    assert_eq!(req.voucher_number, "INV-4");
    assert_eq!(req.voucher_date, "2023-05-17");
    assert_eq!(req.shipping_date, Some("2023-05-16".to_string()));
    assert_eq!(req.due_date, None);
    assert_eq!(req.tax_type, "net");
    assert_eq!(req.contact_id, "contact-1");
    inv.transaction_type = "b2c".to_string();
    let req = voucher_request(&inv, "contact-1".to_string()).unwrap();
    assert_eq!(req.tax_type, "gross");
}

#[test]
fn attachment_path_layout() {
    let inv = invoice("INV-12", "EUR");
    assert_eq!(attachment_path(&inv, &"/srv/pdf".to_string()), "/srv/pdf/05-2023/INV-12.pdf");
}

#[test]
fn prefix_of_resolved_number() {
    let mut inv = invoice("INV-2023-1", "EUR");
    assert_eq!(inv.get_invoice_prefix().unwrap(), "INV");
    inv.internal_reference = Some("AB-9".to_string());
    assert_eq!(inv.get_invoice_prefix().unwrap(), "AB");
    inv.internal_reference = Some("-9".to_string());
    assert_eq!(inv.get_invoice_prefix().unwrap(), "");
    inv.internal_reference = Some("NODASH".to_string());
    assert!(matches!(inv.get_invoice_prefix(), Err(UploadError::MalformedInvoiceNumber)));
}

#[test]
fn refresh_after_401_then_success() {
    let mut calls = Calls::default();
    let r = drive(&invoice("INV-1", "EUR"), (true, 1000), &[401, 201], 202, &mut calls);
    assert!(r.is_ok());
    assert_eq!(calls.refreshes, 1);
    assert_eq!(calls.voucher_posts, 2);
    assert_eq!(calls.file_posts, 1);
}

#[test]
fn second_401_exhausts_refresh() {
    let mut calls = Calls::default();
    let r = drive(&invoice("INV-1", "EUR"), (true, 1000), &[401, 401], 202, &mut calls);
    assert!(matches!(r, Err(UploadError::AuthRefreshExhausted)));
    assert_eq!(calls.refreshes, 1);
    assert_eq!(calls.voucher_posts, 2);
    assert_eq!(calls.file_posts, 0);
}

#[test]
fn missing_attachment_stops_before_network() {
    let mut calls = Calls::default();
    let r = drive(&invoice("INV-1", "EUR"), (false, 0), &[], 202, &mut calls);
    assert!(matches!(r, Err(UploadError::AttachmentMissing)));
    assert_eq!(calls.voucher_posts, 0);
    assert_eq!(calls.file_posts, 0);
}

#[test]
fn attachment_size_limits() {
    let inv = invoice("INV-1", "EUR");
    let mut calls = Calls::default();
    let r = drive(&inv, (true, 0), &[], 202, &mut calls);
    assert!(matches!(r, Err(UploadError::AttachmentSizeInvalid)));
    let r = drive(&inv, (true, 5_000_001), &[], 202, &mut calls);
    assert!(matches!(r, Err(UploadError::AttachmentSizeInvalid)));
    assert_eq!(calls.voucher_posts, 0);
    let r = drive(&inv, (true, 5_000_000), &[201], 202, &mut Calls::default());
    assert!(r.is_ok());
    let r = drive(&inv, (true, 1), &[201], 202, &mut Calls::default());
    assert!(r.is_ok());
}

#[test]
fn voucher_rejected_keeps_status_and_message() {
    let inv = invoice("INV-1", "EUR");
    let mut s = UploadSession::new();
    assert!(matches!(s.step(&inv, UploadEvent::Begin), UploadAction::ResolvePrefix { .. }));
    s.step(&inv, UploadEvent::PrefixResolved(Some("/p".to_string())));
    s.step(&inv, UploadEvent::AttachmentChecked { exists: true, size: 10 });
    assert!(matches!(
        s.step(&inv, UploadEvent::ContactResolved(Some("c".to_string()))),
        UploadAction::SendVoucher { .. }
    ));
    let a = s.step(
        &inv,
        UploadEvent::VoucherAnswered { status: 422, voucher_id: None, message: Some("bad".to_string()) },
    );
    match a {
        UploadAction::Finished { outcome: Err(UploadError::VoucherRejected { status, message }) } => {
            assert_eq!(status, 422);
            assert_eq!(message, Some("bad".to_string()));
        }
        other => panic!("unexpected {:?}", other),
    }
    assert!(matches!(
        s.step(&inv, UploadEvent::Begin),
        UploadAction::Finished { outcome: Err(UploadError::UnexpectedEvent) }
    ));
}

#[test]
fn success_without_voucher_id_is_malformed() {
    let inv = invoice("INV-1", "EUR");
    let mut s = UploadSession::new();
    s.step(&inv, UploadEvent::Begin);
    s.step(&inv, UploadEvent::PrefixResolved(Some("/p".to_string())));
    s.step(&inv, UploadEvent::AttachmentChecked { exists: true, size: 10 });
    s.step(&inv, UploadEvent::ContactResolved(Some("c".to_string())));
    let a = s.step(&inv, UploadEvent::VoucherAnswered { status: 200, voucher_id: None, message: None });
    assert!(matches!(
        a,
        UploadAction::Finished { outcome: Err(UploadError::MalformedResponse { status: 200 }) }
    ));
}

#[test]
fn attachment_upload_needs_202() {
    let mut calls = Calls::default();
    let r = drive(&invoice("INV-1", "EUR"), (true, 10), &[201], 200, &mut calls);
    assert!(matches!(r, Err(UploadError::AttachmentUploadRejected { status: 200 })));
    assert_eq!(calls.file_posts, 1);
}

#[test]
fn resolution_failures() {
    let inv = invoice("INV-1", "EUR");
    let mut s = UploadSession::new();
    s.step(&inv, UploadEvent::Begin);
    assert!(matches!(
        s.step(&inv, UploadEvent::PrefixResolved(None)),
        UploadAction::Finished { outcome: Err(UploadError::PrefixNotConfigured) }
    ));
    let mut s = UploadSession::new();
    s.step(&inv, UploadEvent::Begin);
    s.step(&inv, UploadEvent::PrefixResolved(Some("/p".to_string())));
    s.step(&inv, UploadEvent::AttachmentChecked { exists: true, size: 10 });
    assert!(matches!(
        s.step(&inv, UploadEvent::ContactResolved(None)),
        UploadAction::Finished { outcome: Err(UploadError::ContactNotResolved) }
    ));
    let mut nodash = invoice("INV1", "EUR");
    nodash.invoice_number = "INV1".to_string();
    let mut s = UploadSession::new();
    assert!(matches!(
        s.step(&nodash, UploadEvent::Begin),
        UploadAction::Finished { outcome: Err(UploadError::MalformedInvoiceNumber) }
    ));
}

#[test]
fn transport_failure_and_timeout() {
    let inv = invoice("INV-1", "EUR");
    let mut s = UploadSession::new();
    s.step(&inv, UploadEvent::Begin);
    assert!(matches!(
        s.step(&inv, UploadEvent::TransportFailed),
        UploadAction::Finished { outcome: Err(UploadError::Transport) }
    ));
    let mut s = UploadSession::new();
    s.step(&inv, UploadEvent::Begin);
    assert!(matches!(
        s.step(&inv, UploadEvent::TimedOut),
        UploadAction::Finished { outcome: Err(UploadError::Timeout) }
    ));
    let mut s = UploadSession::new();
    assert!(matches!(
        s.step(&inv, UploadEvent::CredentialRefreshed),
        UploadAction::Finished { outcome: Err(UploadError::UnexpectedEvent) }
    ));
}

#[test]
fn end_to_end_scenario() {
    let invoices = vec![invoice("INV-1", "EUR"), invoice("INV-2", "EUR")];
    let mut run = SyncRun::start(&invoices, ledger(&["INV-1"]));
    let mut calls = Calls::default();
    while let Some(i) = run.next_invoice() {
        let ok = drive(&invoices[i], (true, 2048), &[201], 202, &mut calls).is_ok();
        run.record_result(&invoices, ok);
    }
    assert_eq!(calls.voucher_posts, 1);
    assert_eq!(calls.file_posts, 1);
    assert_eq!(run.succeeded, 1);
    assert_eq!(numbers(&run.into_ledger()), vec!["INV-1", "INV-2"]);
}

#[test]
fn voucher_request_with_given_tax() {
    let inv = invoice("INV-5", "EUR");
    let tax = amount(-123456789012345678901234567, 4);
    let req = voucher_request_with_tax(&inv, "k".to_string(), tax);
    assert_eq!(req.total_tax_amount, tax);
    assert_eq!(req.voucher_items[0].tax_amount, tax);
    assert_eq!(req.voucher_items[0].amount, inv.final_amount);
    assert_eq!(req.contact_id, "k");
}

#[test]
fn tax_amount_large_operands() {
    let mut inv = invoice("INV-1", "EUR");
    inv.net = amount(30_000_000_000_000_000_000_000, 2);
    inv.final_amount = amount(10_000_000_000_000_000_000_000, 2);
    let req = voucher_request(&inv, "c".to_string()).unwrap();
    assert_eq!(req.total_tax_amount, amount(20_000_000_000_000_000_000_000, 2));
}
