//! Invoice records, the voucher request built from them and ledger entries.
use vstd::prelude::*;
use vstd::string::{StrSliceExecFns, StringExecFns};
use crate::amount::{Amount, checked_difference, decimal_difference, exact_sub_range, is_difference};
use crate::date::{Date, iso_date_text, month_year_text};

verus! {

/// The one currency that is accepted.
pub open spec fn accepted_currency() -> Seq<char> {
    "EUR"@
}

/// The transaction type of business-to-business sales.
pub open spec fn b2b_tag() -> Seq<char> {
    "b2b"@
}

/// The voucher type of every request.
pub open spec fn sales_invoice_type() -> Seq<char> {
    "salesinvoice"@
}

/// The tax treatment of a voucher whose transaction type is `tt`.
pub open spec fn tax_type_for(tt: Seq<char>) -> Seq<char> {
    if tt == b2b_tag() {
        "net"@
    } else {
        "gross"@
    }
}

/// The booking category of every voucher line: intra-community supply.
pub const CATEGORY_ID: &'static str = "9075a4e3-66de-4795-a016-3889feca0d20";

/// One invoice as read from the invoice source.
#[derive(Clone, Debug)]
pub struct InvoiceCSV {
    pub invoice_number: String,
    pub internal_reference: Option<String>,
    pub invoice_date: Date,
    pub delivery_date: Date,
    pub net: Amount,
    pub vat: Amount,
    pub final_amount: Amount,
    pub currency: String,
    pub transaction_type: String,
    pub billing_adress: String,
}

/// One ledger entry: an invoice number already synchronized.
#[derive(Clone, Debug)]
pub struct CompletedInvoices {
    pub invoice_number: String,
}

/// The single line of a voucher.
#[derive(Clone, Debug)]
pub struct VoucherItem {
    pub amount: Amount,
    pub tax_amount: Amount,
    pub tax_rate_percent: Amount,
    pub category_id: String,
}

/// The body of the request that creates a voucher.
#[derive(Clone, Debug)]
pub struct VoucherCreateRequest {
    pub type_of_voucher: String,
    pub voucher_number: String,
    pub voucher_date: String,
    pub shipping_date: Option<String>,
    pub due_date: Option<String>,
    pub total_gross_amount: Amount,
    pub total_tax_amount: Amount,
    pub tax_type: String,
    pub contact_id: String,
    pub voucher_items: Vec<VoucherItem>,
}

/// Why the upload of one invoice failed.
#[derive(Clone, Debug)]
pub enum UploadError {
    /// The resolved invoice number holds no `-` before which a prefix stands.
    MalformedInvoiceNumber,
    /// No folder is known for the invoice's prefix.
    PrefixNotConfigured,
    /// No attachment file exists at the resolved path.
    AttachmentMissing,
    /// The attachment is empty or larger than the remote limit.
    AttachmentSizeInvalid,
    /// No contact is known for the billing address.
    ContactNotResolved,
    /// The tax amount could not be computed as a decimal.
    AmountOutOfRange,
    /// The voucher was refused with a status other than 401.
    VoucherRejected { status: u16, message: Option<String> },
    /// A success status came without a voucher identifier.
    MalformedResponse { status: u16 },
    /// The attachment was refused.
    AttachmentUploadRejected { status: u16 },
    /// The credential was refused again after it was renewed.
    AuthRefreshExhausted,
    /// The network call failed.
    Transport,
    /// The network call did not finish in time.
    Timeout,
    /// An event came that the current step does not wait for.
    UnexpectedEvent,
}

/// The index of the first `-` of `s`, when there is one.
pub open spec fn is_first_dash(s: Seq<char>, i: int) -> bool {
    &&& 0 <= i < s.len()
    &&& s[i] == '-'
    &&& forall|j: int| 0 <= j < i ==> s[j] != '-'
}

/// `p` is what stands before the first `-` of `s`.
pub open spec fn is_prefix_before_dash(s: Seq<char>, p: Seq<char>) -> bool {
    is_first_dash(s, p.len() as int) && p == s.subrange(0, p.len() as int)
}

impl InvoiceCSV {
    /// Dates and amounts lie in their ranges.
    pub open spec fn wf(&self) -> bool {
        &&& self.invoice_date.wf()
        &&& self.delivery_date.wf()
        &&& self.net.wf()
        &&& self.vat.wf()
        &&& self.final_amount.wf()
    }

    /// The currency is the accepted one.
    pub open spec fn is_valid(&self) -> bool {
        self.currency@ == accepted_currency()
    }

    /// The display number: the internal reference when present.
    pub open spec fn resolved_number(&self) -> Seq<char> {
        match self.internal_reference {
            Some(r) => r@,
            None => self.invoice_number@,
        }
    }

    /// The tax amount `net - final_amount` is computed exactly by the decimal library.
    pub open spec fn exact_tax(&self) -> bool {
        exact_sub_range(self.net, self.final_amount)
    }

    /// Whether the dates and amounts lie in their ranges.
    pub fn is_well_formed(&self) -> (r: bool)
        ensures
            r == self.wf(),
    {
        Date::new(self.invoice_date.year, self.invoice_date.month, self.invoice_date.day).is_some()
            && Date::new(self.delivery_date.year, self.delivery_date.month, self.delivery_date.day).is_some()
            && Amount::new(self.net.mantissa, self.net.scale).is_some()
            && Amount::new(self.vat.mantissa, self.vat.scale).is_some()
            && Amount::new(self.final_amount.mantissa, self.final_amount.scale).is_some()
    }

    /// The display number: the internal reference when present, else the invoice number.
    pub fn get_invoice_number(&self) -> (r: &String)
        ensures
            r@ == self.resolved_number(),
    {
        match &self.internal_reference {
            Some(x) => x,
            None => &self.invoice_number,
        }
    }

    /// Whether the currency is the accepted one.
    pub fn validate(&self) -> (r: bool)
        ensures
            r == self.is_valid(),
    {
        let accepted = String::from_str("EUR");
        self.currency.eq(&accepted)
    }

    /// The invoice date as `YYYY-MM-DD`.
    pub fn get_invoice_date_formatted(&self) -> (r: String)
        requires
            self.invoice_date.wf(),
        ensures
            r@ == self.invoice_date.iso_text(),
    {
        iso_date_text(self.invoice_date)
    }

    /// The delivery date as `YYYY-MM-DD`.
    pub fn get_shipping_date_formatted(&self) -> (r: String)
        requires
            self.delivery_date.wf(),
        ensures
            r@ == self.delivery_date.iso_text(),
    {
        iso_date_text(self.delivery_date)
    }

    /// The prefix of the resolved number: what stands before its first `-`.
    pub fn get_invoice_prefix(&self) -> (r: Result<String, UploadError>)
        ensures
            r is Ok <==> self.resolved_number().contains('-'),
            r is Ok ==> is_prefix_before_dash(self.resolved_number(), r->Ok_0@),
            r is Err ==> r->Err_0 is MalformedInvoiceNumber,
    {
        let number = self.get_invoice_number().as_str();
        let n = number.unicode_len();
        let mut i: usize = 0;
        while i < n
            invariant
                n == number@.len(),
                number@ == self.resolved_number(),
                i <= n,
                forall|j: int| 0 <= j < i ==> number@[j] != '-',
            decreases n - i,
        {
            if number.get_char(i) == '-' {
                let p = number.substring_char(0, i);
                return Ok(String::from_str(p));
            }
            i = i + 1;
        }
        assert forall|c: char| number@.contains(c) implies c != '-' by {
            let j = choose|j: int| 0 <= j < number@.len() && number@[j] == c;
        }
        Err(UploadError::MalformedInvoiceNumber)
    }

    /// The ledger key: the raw invoice number.
    pub fn invoice_number(&self) -> (r: &str)
        ensures
            r@ == self.invoice_number@,
    {
        self.invoice_number.as_str()
    }
}

/// `root/MM-YYYY/number.pdf`.
pub open spec fn attachment_path_text(root: Seq<char>, inv: InvoiceCSV) -> Seq<char> {
    root + seq!['/'] + inv.invoice_date.month_year_text() + seq!['/'] + inv.invoice_number@ + seq![
        '.',
        'p',
        'd',
        'f',
    ]
}

/// The local path of the invoice's attachment under the folder of its prefix.
pub fn attachment_path(inv: &InvoiceCSV, root: &String) -> (r: String)
    requires
        inv.invoice_date.wf(),
    ensures
        r@ == attachment_path_text(root@, *inv),
{
    proof {
        reveal_strlit("/");
        reveal_strlit(".pdf");
    }
    let folder = month_year_text(inv.invoice_date);
    let mut p = root.clone();
    p.append("/");
    p.append(folder.as_str());
    p.append("/");
    p.append(inv.invoice_number.as_str());
    p.append(".pdf");
    p
}

/// The voucher request for `inv`, addressed to the contact `contact_id`,
/// with tax total `tax`: a sales invoice numbered and dated as the invoice,
/// whose gross total is the final amount, with one line that repeats those
/// totals and the VAT rate.
pub open spec fn is_request_with_tax(
    req: VoucherCreateRequest,
    inv: InvoiceCSV,
    contact_id: Seq<char>,
    tax: Amount,
) -> bool {
    &&& req.type_of_voucher@ == sales_invoice_type()
    &&& req.voucher_number@ == inv.invoice_number@
    &&& req.voucher_date@ == inv.invoice_date.iso_text()
    &&& req.shipping_date is Some
    &&& req.shipping_date->0@ == inv.delivery_date.iso_text()
    &&& req.due_date is None
    &&& req.total_gross_amount == inv.final_amount
    &&& req.total_tax_amount == tax
    &&& req.tax_type@ == tax_type_for(inv.transaction_type@)
    &&& req.contact_id@ == contact_id
    &&& req.voucher_items@.len() == 1
    &&& req.voucher_items@[0].amount == inv.final_amount
    &&& req.voucher_items@[0].tax_amount == tax
    &&& req.voucher_items@[0].tax_rate_percent == inv.vat
    &&& req.voucher_items@[0].category_id@ == CATEGORY_ID@
}

/// The decimal library computes `net - final_amount` for `inv`.
pub open spec fn has_tax(inv: InvoiceCSV) -> bool {
    decimal_difference(inv.net.parts(), inv.final_amount.parts()) is Some
}

/// The voucher request for `inv` and `contact_id` whose tax total is
/// `net - final_amount` as the decimal library computes it; that amount is
/// exact whenever the operands lie in its exact range.
pub open spec fn is_request_for(req: VoucherCreateRequest, inv: InvoiceCSV, contact_id: Seq<char>) -> bool {
    &&& has_tax(inv)
    &&& req.total_tax_amount.wf()
    &&& req.total_tax_amount.parts() == decimal_difference(inv.net.parts(), inv.final_amount.parts())->0
    &&& (inv.exact_tax() ==> is_difference(req.total_tax_amount, inv.net, inv.final_amount))
    &&& is_request_with_tax(req, inv, contact_id, req.total_tax_amount)
}

/// Builds the voucher request of `inv` for the contact `contact_id` with
/// the tax total `tax`.
pub fn voucher_request_with_tax(inv: &InvoiceCSV, contact_id: String, tax: Amount) -> (r: VoucherCreateRequest)
    requires
        inv.invoice_date.wf(),
        inv.delivery_date.wf(),
    ensures
        is_request_with_tax(r, *inv, contact_id@, tax),
{
    let b2b = String::from_str("b2b");
    let tax_type = if inv.transaction_type.eq(&b2b) {
        String::from_str("net")
    } else {
        String::from_str("gross")
    };
    let item = VoucherItem {
        amount: inv.final_amount,
        tax_amount: tax,
        tax_rate_percent: inv.vat,
        category_id: String::from_str(CATEGORY_ID),
    };
    let mut items: Vec<VoucherItem> = Vec::new();
    items.push(item);
    VoucherCreateRequest {
        type_of_voucher: String::from_str("salesinvoice"),
        voucher_number: inv.invoice_number.clone(),
        voucher_date: inv.get_invoice_date_formatted(),
        shipping_date: Some(inv.get_shipping_date_formatted()),
        due_date: None,
        total_gross_amount: inv.final_amount,
        total_tax_amount: tax,
        tax_type,
        contact_id,
        voucher_items: items,
    }
}

/// Builds the voucher request of `inv` for the contact `contact_id`, with
/// tax total `net - final_amount`; fails exactly when the decimal library
/// cannot represent that difference, which cannot happen in its exact range.
pub fn voucher_request(inv: &InvoiceCSV, contact_id: String) -> (r: Result<VoucherCreateRequest, UploadError>)
    requires
        inv.wf(),
    ensures
        r is Ok <==> has_tax(*inv),
        r is Ok ==> is_request_for(r->Ok_0, *inv, contact_id@),
        r is Err ==> r->Err_0 is AmountOutOfRange,
        inv.exact_tax() ==> r is Ok,
{
    match checked_difference(inv.net, inv.final_amount) {
        Some(tax) => Ok(voucher_request_with_tax(inv, contact_id, tax)),
        None => Err(UploadError::AmountOutOfRange),
    }
}

impl CompletedInvoices {
    /// The synchronized invoice number.
    pub fn invoice_number(&self) -> (r: &str)
        ensures
            r@ == self.invoice_number@,
    {
        self.invoice_number.as_str()
    }

    /// The ledger entry of an uploaded invoice, keyed by its raw invoice number.
    pub fn new(invoice: &InvoiceCSV) -> (r: Self)
        ensures
            r.invoice_number@ == invoice.invoice_number@,
    {
        CompletedInvoices { invoice_number: invoice.invoice_number.clone() }
    }
}

} // verus!
