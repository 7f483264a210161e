//! The upload of one invoice as a state machine: each step takes what the
//! outside world answered and says what to do next. The caller performs the
//! actions (path and contact resolution, file checks, network calls).
use vstd::prelude::*;
use vstd::string::StringExecFns;
use crate::amount::{decimal_difference, is_difference};
use crate::invoice::{
    InvoiceCSV, UploadError, VoucherCreateRequest, attachment_path, attachment_path_text, has_tax,
    is_prefix_before_dash, is_request_for, voucher_request,
};

verus! {

/// The largest attachment the remote service takes, in bytes.
pub const MAX_ATTACHMENT_BYTES: u64 = 5000000;

/// How many times the voucher is submitted at most: the first try and one
/// more after the credential was renewed.
pub const MAX_ATTEMPTS: u32 = 2;

/// The status that answers a request with a refused credential.
pub const STATUS_UNAUTHORIZED: u16 = 401;

/// The status that accepts an attachment.
pub const STATUS_ACCEPTED: u16 = 202;

/// What the outside world answered to the last action.
#[derive(Clone, Debug)]
pub enum UploadEvent {
    /// Starts the upload.
    Begin,
    /// The folder of the prefix, if the resolver produced one.
    PrefixResolved(Option<String>),
    /// Whether the attachment exists, and its size in bytes.
    AttachmentChecked { exists: bool, size: u64 },
    /// The contact identifier of the billing address, if the resolver produced one.
    ContactResolved(Option<String>),
    /// The answer to the voucher request: its status, the identifier of the
    /// created voucher and the error message of the body, when present.
    VoucherAnswered { status: u16, voucher_id: Option<String>, message: Option<String> },
    /// The credential was renewed.
    CredentialRefreshed,
    /// The status of the answer to the attachment upload.
    AttachmentAnswered { status: u16 },
    /// The network call failed.
    TransportFailed,
    /// The network call did not finish in time.
    TimedOut,
}

/// What to do next.
#[derive(Debug)]
pub enum UploadAction {
    /// Resolve the folder of this invoice-number prefix.
    ResolvePrefix { prefix: String },
    /// Check that the attachment exists and measure it.
    CheckAttachment { path: String },
    /// Resolve the contact identifier of this billing address.
    ResolveContact { address: String },
    /// Submit the voucher request.
    SendVoucher { request: VoucherCreateRequest },
    /// Invalidate and renew the credential.
    RefreshCredential,
    /// Upload the attachment at `path` to the voucher `voucher_id`.
    SendAttachment { voucher_id: String, path: String },
    /// The upload is over, with this outcome.
    Finished { outcome: Result<(), UploadError> },
}

/// Where the upload stands.
#[derive(Clone, Copy, Debug, PartialEq, Eq, Structural)]
pub enum UploadStage {
    Start,
    AwaitPrefix,
    AwaitAttachment,
    AwaitContact,
    AwaitVoucher,
    AwaitRefresh,
    AwaitFile,
    Done,
}

/// The state of the upload of one invoice.
#[derive(Debug)]
pub struct UploadSession {
    pub stage: UploadStage,
    /// The voucher submission in progress, counted from 1.
    pub attempt: u32,
    /// The attachment path, once resolved.
    pub path: String,
}

/// The step ends the upload with the error `err`.
pub open spec fn fails_with(t: UploadSession, a: UploadAction, err: UploadError) -> bool {
    &&& t.stage == UploadStage::Done
    &&& a == UploadAction::Finished { outcome: Err(err) }
}

/// A submission starts: the prefix of the resolved number is asked for, or
/// the upload fails when that number has no `-`.
pub open spec fn starts_attempt(inv: InvoiceCSV, t: UploadSession, a: UploadAction) -> bool {
    if inv.resolved_number().contains('-') {
        &&& t.stage == UploadStage::AwaitPrefix
        &&& a is ResolvePrefix
        &&& is_prefix_before_dash(inv.resolved_number(), a->prefix@)
    } else {
        fails_with(t, a, UploadError::MalformedInvoiceNumber)
    }
}

/// The attachment size lies in what the remote service takes.
pub open spec fn size_accepted(size: u64) -> bool {
    0 < size <= MAX_ATTACHMENT_BYTES
}

/// A status of the 2xx range.
pub open spec fn is_success(status: u16) -> bool {
    200 <= status <= 299
}

/// One step of the upload of `inv`: from state `s`, on event `e`, the state
/// becomes `t` and the action is `a`. The submission counter grows by one
/// when a renewed credential arrives, and stays put otherwise.
pub open spec fn step_spec(s: UploadSession, inv: InvoiceCSV, e: UploadEvent, t: UploadSession, a: UploadAction) -> bool {
    &&& if e is CredentialRefreshed && s.stage == UploadStage::AwaitRefresh {
        t.attempt == s.attempt + 1
    } else {
        t.attempt == s.attempt
    }
    &&& match (s.stage, e) {
        (UploadStage::Done, _) => fails_with(t, a, UploadError::UnexpectedEvent),
        (_, UploadEvent::TransportFailed) => fails_with(t, a, UploadError::Transport),
        (_, UploadEvent::TimedOut) => fails_with(t, a, UploadError::Timeout),
        (UploadStage::Start, UploadEvent::Begin) => starts_attempt(inv, t, a),
        (UploadStage::AwaitRefresh, UploadEvent::CredentialRefreshed) => starts_attempt(inv, t, a),
        (UploadStage::AwaitPrefix, UploadEvent::PrefixResolved(root)) => match root {
            None => fails_with(t, a, UploadError::PrefixNotConfigured),
            Some(root) => {
                &&& t.stage == UploadStage::AwaitAttachment
                &&& t.path@ == attachment_path_text(root@, inv)
                &&& a == UploadAction::CheckAttachment { path: t.path }
            },
        },
        (UploadStage::AwaitAttachment, UploadEvent::AttachmentChecked { exists, size }) => {
            if !exists {
                fails_with(t, a, UploadError::AttachmentMissing)
            } else if !size_accepted(size) {
                fails_with(t, a, UploadError::AttachmentSizeInvalid)
            } else {
                &&& t.stage == UploadStage::AwaitContact
                &&& t.path == s.path
                &&& a is ResolveContact
                &&& a->address@ == inv.billing_adress@
            }
        },
        (UploadStage::AwaitContact, UploadEvent::ContactResolved(id)) => match id {
            None => fails_with(t, a, UploadError::ContactNotResolved),
            Some(id) => {
                if has_tax(inv) {
                    &&& t.stage == UploadStage::AwaitVoucher
                    &&& t.path == s.path
                    &&& a is SendVoucher
                    &&& is_request_for(a->request, inv, id@)
                } else {
                    fails_with(t, a, UploadError::AmountOutOfRange)
                }
            },
        },
        (UploadStage::AwaitVoucher, UploadEvent::VoucherAnswered { status, voucher_id, message }) => {
            if status == STATUS_UNAUTHORIZED {
                if s.attempt < MAX_ATTEMPTS {
                    &&& t.stage == UploadStage::AwaitRefresh
                    &&& a is RefreshCredential
                } else {
                    fails_with(t, a, UploadError::AuthRefreshExhausted)
                }
            } else if is_success(status) {
                match voucher_id {
                    Some(id) => {
                        &&& t.stage == UploadStage::AwaitFile
                        &&& t.path == s.path
                        &&& a == UploadAction::SendAttachment { voucher_id: id, path: s.path }
                    },
                    None => fails_with(t, a, UploadError::MalformedResponse { status }),
                }
            } else {
                fails_with(t, a, UploadError::VoucherRejected { status, message })
            }
        },
        (UploadStage::AwaitFile, UploadEvent::AttachmentAnswered { status }) => {
            if status == STATUS_ACCEPTED {
                &&& t.stage == UploadStage::Done
                &&& a == UploadAction::Finished { outcome: Ok(()) }
            } else {
                fails_with(t, a, UploadError::AttachmentUploadRejected { status })
            }
        },
        _ => fails_with(t, a, UploadError::UnexpectedEvent),
    }
}

/// `states`, `events` and `actions` record an upload of `inv` from a new
/// session: step `k` takes `states[k]` and `events[k]` to `states[k + 1]`
/// and `actions[k]`.
pub open spec fn is_trace(
    inv: InvoiceCSV,
    states: Seq<UploadSession>,
    events: Seq<UploadEvent>,
    actions: Seq<UploadAction>,
) -> bool {
    &&& states.len() == events.len() + 1
    &&& actions.len() == events.len()
    &&& states[0].stage == UploadStage::Start
    &&& states[0].attempt == 1
    &&& forall|k: int| 0 <= k < events.len() ==> #[trigger] step_spec(states[k], inv, events[k], states[k + 1], actions[k])
}

/// How many of `actions` renew the credential.
pub open spec fn refresh_count(actions: Seq<UploadAction>) -> nat
    decreases actions.len(),
{
    if actions.len() == 0 {
        0
    } else {
        refresh_count(actions.drop_last()) + if actions.last() is RefreshCredential {
            1nat
        } else {
            0nat
        }
    }
}

/// After the first `n` steps of a trace, the session is well formed, and
/// once the credential was renewed no further renewal can be asked for.
proof fn lemma_trace_prefix(
    inv: InvoiceCSV,
    states: Seq<UploadSession>,
    events: Seq<UploadEvent>,
    actions: Seq<UploadAction>,
    n: int,
)
    requires
        is_trace(inv, states, events, actions),
        0 <= n <= events.len(),
    ensures
        states[n].wf(),
        refresh_count(actions.subrange(0, n)) <= 1,
        refresh_count(actions.subrange(0, n)) == 0 || states[n].attempt == MAX_ATTEMPTS
            || states[n].stage == UploadStage::AwaitRefresh || states[n].stage == UploadStage::Done,
    decreases n,
{
    if n == 0 {
        assert(actions.subrange(0, 0).len() == 0);
    } else {
        lemma_trace_prefix(inv, states, events, actions, n - 1);
        let k = n - 1;
        assert(step_spec(states[k], inv, events[k], states[k + 1], actions[k]));
        assert(k + 1 == n);
        assert(actions.subrange(0, n).drop_last() =~= actions.subrange(0, n - 1));
        assert(actions.subrange(0, n).last() == actions[k]);
        if actions[k] is RefreshCredential {
            assert(states[k].stage == UploadStage::AwaitVoucher);
            assert(states[n].stage == UploadStage::AwaitRefresh);
        } else if states[k].stage == UploadStage::AwaitRefresh {
            if events[k] is CredentialRefreshed {
                assert(states[n].attempt == MAX_ATTEMPTS);
            } else {
                assert(states[n].stage == UploadStage::Done);
            }
        } else if states[k].stage == UploadStage::Done {
            assert(states[n].stage == UploadStage::Done);
        }
    }
}

/// The credential is renewed at most once during the upload of one invoice:
/// a second refusal ends the upload instead of asking again.
pub proof fn law_at_most_one_refresh(
    inv: InvoiceCSV,
    states: Seq<UploadSession>,
    events: Seq<UploadEvent>,
    actions: Seq<UploadAction>,
)
    requires
        is_trace(inv, states, events, actions),
    ensures
        refresh_count(actions) <= 1,
{
    lemma_trace_prefix(inv, states, events, actions, events.len() as int);
    assert(actions.subrange(0, events.len() as int) =~= actions);
}

/// Step `j` of the trace accepted an existing attachment of a size the
/// remote service takes.
pub open spec fn attachment_accepted_at(states: Seq<UploadSession>, events: Seq<UploadEvent>, j: int) -> bool {
    &&& states[j].stage == UploadStage::AwaitAttachment
    &&& events[j] matches UploadEvent::AttachmentChecked { exists, size }
    &&& exists
    &&& size_accepted(size)
}

/// Once past the attachment check, some earlier step accepted the attachment.
proof fn lemma_network_stages_follow_check(
    inv: InvoiceCSV,
    states: Seq<UploadSession>,
    events: Seq<UploadEvent>,
    actions: Seq<UploadAction>,
    n: int,
)
    requires
        is_trace(inv, states, events, actions),
        0 <= n <= events.len(),
    ensures
        states[n].stage == UploadStage::AwaitContact || states[n].stage == UploadStage::AwaitVoucher
            || states[n].stage == UploadStage::AwaitFile ==> exists|j: int|
            0 <= j < n && attachment_accepted_at(states, events, j),
    decreases n,
{
    if n > 0 {
        let k = n - 1;
        lemma_network_stages_follow_check(inv, states, events, actions, k);
        assert(step_spec(states[k], inv, events[k], states[k + 1], actions[k]));
        if states[k].stage == UploadStage::AwaitAttachment && states[n].stage == UploadStage::AwaitContact {
            assert(attachment_accepted_at(states, events, k));
        }
    }
}

/// No network call is made for an invoice before its attachment was found
/// and its size accepted: every voucher or attachment upload follows such a
/// check. An invoice whose attachment is absent thus reaches the remote
/// service not at all.
pub proof fn law_no_network_call_without_attachment(
    inv: InvoiceCSV,
    states: Seq<UploadSession>,
    events: Seq<UploadEvent>,
    actions: Seq<UploadAction>,
    k: int,
)
    requires
        is_trace(inv, states, events, actions),
        0 <= k < events.len(),
        actions[k] is SendVoucher || actions[k] is SendAttachment,
    ensures
        exists|j: int| 0 <= j < k && attachment_accepted_at(states, events, j),
{
    lemma_network_stages_follow_check(inv, states, events, actions, k);
    assert(step_spec(states[k], inv, events[k], states[k + 1], actions[k]));
}

/// Once an upload is over, every later step keeps it over.
proof fn lemma_done_stays(
    inv: InvoiceCSV,
    states: Seq<UploadSession>,
    events: Seq<UploadEvent>,
    actions: Seq<UploadAction>,
    k: int,
    j: int,
)
    requires
        is_trace(inv, states, events, actions),
        0 <= k <= j <= events.len(),
        states[k].stage == UploadStage::Done,
    ensures
        states[j].stage == UploadStage::Done,
    decreases j - k,
{
    if j > k {
        let i = j - 1;
        lemma_done_stays(inv, states, events, actions, k, i);
        assert(step_spec(states[i], inv, events[i], states[i + 1], actions[i]));
    }
}

/// Renewals counted over a longer prefix are at least as many.
proof fn lemma_refresh_count_grows(actions: Seq<UploadAction>, n: int, m: int)
    requires
        0 <= n <= m <= actions.len(),
    ensures
        refresh_count(actions.subrange(0, n)) <= refresh_count(actions.subrange(0, m)),
    decreases m - n,
{
    if n < m {
        lemma_refresh_count_grows(actions, n, m - 1);
        assert(actions.subrange(0, m).drop_last() =~= actions.subrange(0, m - 1));
    }
}

/// An upload whose voucher was refused with 401 at step `k` and which
/// still ended in success renewed the credential exactly once.
pub proof fn law_unauthorized_then_success(
    inv: InvoiceCSV,
    states: Seq<UploadSession>,
    events: Seq<UploadEvent>,
    actions: Seq<UploadAction>,
    k: int,
)
    requires
        is_trace(inv, states, events, actions),
        0 <= k < events.len(),
        states[k].stage == UploadStage::AwaitVoucher,
        events[k] matches UploadEvent::VoucherAnswered { status, .. } && status == STATUS_UNAUTHORIZED,
        actions.last() == (UploadAction::Finished { outcome: Ok(()) }),
    ensures
        refresh_count(actions) == 1,
{
    law_at_most_one_refresh(inv, states, events, actions);
    lemma_trace_prefix(inv, states, events, actions, k);
    assert(step_spec(states[k], inv, events[k], states[k + 1], actions[k]));
    let last = events.len() - 1;
    assert(step_spec(states[last], inv, events[last], states[last + 1], actions[last]));
    if states[k].attempt >= MAX_ATTEMPTS {
        lemma_done_stays(inv, states, events, actions, k + 1, last);
        assert(false);
    }
    assert(actions[k] is RefreshCredential);
    assert(actions.subrange(0, k + 1).drop_last() =~= actions.subrange(0, k));
    assert(actions.subrange(0, k + 1).last() == actions[k]);
    lemma_refresh_count_grows(actions, k + 1, actions.len() as int);
    assert(actions.subrange(0, actions.len() as int) =~= actions);
}

/// Every voucher the upload submits carries as tax total, on the request and
/// on its line, `net - final_amount` as the decimal library computes it,
/// which is the exact difference in the library's exact range.
pub proof fn law_submitted_tax(
    inv: InvoiceCSV,
    states: Seq<UploadSession>,
    events: Seq<UploadEvent>,
    actions: Seq<UploadAction>,
    k: int,
)
    requires
        is_trace(inv, states, events, actions),
        0 <= k < events.len(),
        actions[k] is SendVoucher,
    ensures
        actions[k]->request.total_tax_amount.parts() == decimal_difference(
            inv.net.parts(),
            inv.final_amount.parts(),
        )->0,
        actions[k]->request.voucher_items@.len() == 1,
        actions[k]->request.voucher_items@[0].tax_amount == actions[k]->request.total_tax_amount,
        inv.exact_tax() ==> is_difference(actions[k]->request.total_tax_amount, inv.net, inv.final_amount),
{
    assert(step_spec(states[k], inv, events[k], states[k + 1], actions[k]));
}

impl UploadSession {
    /// The submission counter lies in its bounds, with room for one more
    /// submission while the credential is renewed.
    pub open spec fn wf(&self) -> bool {
        &&& 1 <= self.attempt <= MAX_ATTEMPTS
        &&& self.stage == UploadStage::AwaitRefresh ==> self.attempt < MAX_ATTEMPTS
    }

    /// A session that waits for `Begin`.
    pub fn new() -> (r: UploadSession)
        ensures
            r.wf(),
            r.stage == UploadStage::Start,
            r.attempt == 1,
    {
        UploadSession { stage: UploadStage::Start, attempt: 1, path: String::new() }
    }

    /// Ends the upload with `err`.
    fn fail(&mut self, err: UploadError) -> (a: UploadAction)
        ensures
            fails_with(*final(self), a, err),
            final(self).attempt == old(self).attempt,
    {
        self.stage = UploadStage::Done;
        UploadAction::Finished { outcome: Err(err) }
    }

    /// Starts a submission of the voucher of `inv`.
    fn start_attempt(&mut self, inv: &InvoiceCSV) -> (a: UploadAction)
        ensures
            starts_attempt(*inv, *final(self), a),
            final(self).attempt == old(self).attempt,
    {
        match inv.get_invoice_prefix() {
            Ok(prefix) => {
                self.stage = UploadStage::AwaitPrefix;
                UploadAction::ResolvePrefix { prefix }
            },
            Err(_) => self.fail(UploadError::MalformedInvoiceNumber),
        }
    }

    /// Takes the answer `event` to the last action and returns the next one.
    pub fn step(&mut self, inv: &InvoiceCSV, event: UploadEvent) -> (a: UploadAction)
        requires
            old(self).wf(),
            inv.wf(),
        ensures
            final(self).wf(),
            step_spec(*old(self), *inv, event, *final(self), a),
    {
        if self.stage == UploadStage::Done {
            return self.fail(UploadError::UnexpectedEvent);
        }
        match event {
            UploadEvent::TransportFailed => self.fail(UploadError::Transport),
            UploadEvent::TimedOut => self.fail(UploadError::Timeout),
            UploadEvent::Begin => {
                if self.stage == UploadStage::Start {
                    self.start_attempt(inv)
                } else {
                    self.fail(UploadError::UnexpectedEvent)
                }
            },
            UploadEvent::CredentialRefreshed => {
                if self.stage == UploadStage::AwaitRefresh {
                    self.attempt = self.attempt + 1;
                    self.start_attempt(inv)
                } else {
                    self.fail(UploadError::UnexpectedEvent)
                }
            },
            UploadEvent::PrefixResolved(root) => {
                if self.stage != UploadStage::AwaitPrefix {
                    return self.fail(UploadError::UnexpectedEvent);
                }
                match root {
                    None => self.fail(UploadError::PrefixNotConfigured),
                    Some(root) => {
                        let path = attachment_path(inv, &root);
                        self.path = path.clone();
                        self.stage = UploadStage::AwaitAttachment;
                        UploadAction::CheckAttachment { path }
                    },
                }
            },
            UploadEvent::AttachmentChecked { exists, size } => {
                if self.stage != UploadStage::AwaitAttachment {
                    return self.fail(UploadError::UnexpectedEvent);
                }
                if !exists {
                    self.fail(UploadError::AttachmentMissing)
                } else if size == 0 || size > MAX_ATTACHMENT_BYTES {
                    self.fail(UploadError::AttachmentSizeInvalid)
                } else {
                    self.stage = UploadStage::AwaitContact;
                    UploadAction::ResolveContact { address: inv.billing_adress.clone() }
                }
            },
            UploadEvent::ContactResolved(id) => {
                if self.stage != UploadStage::AwaitContact {
                    return self.fail(UploadError::UnexpectedEvent);
                }
                match id {
                    None => self.fail(UploadError::ContactNotResolved),
                    Some(id) => match voucher_request(inv, id) {
                        Ok(request) => {
                            self.stage = UploadStage::AwaitVoucher;
                            UploadAction::SendVoucher { request }
                        },
                        Err(_) => self.fail(UploadError::AmountOutOfRange),
                    },
                }
            },
            UploadEvent::VoucherAnswered { status, voucher_id, message } => {
                if self.stage != UploadStage::AwaitVoucher {
                    return self.fail(UploadError::UnexpectedEvent);
                }
                if status == STATUS_UNAUTHORIZED {
                    if self.attempt < MAX_ATTEMPTS {
                        self.stage = UploadStage::AwaitRefresh;
                        UploadAction::RefreshCredential
                    } else {
                        self.fail(UploadError::AuthRefreshExhausted)
                    }
                } else if 200 <= status && status <= 299 {
                    match voucher_id {
                        Some(id) => {
                            self.stage = UploadStage::AwaitFile;
                            UploadAction::SendAttachment { voucher_id: id, path: self.path.clone() }
                        },
                        None => self.fail(UploadError::MalformedResponse { status }),
                    }
                } else {
                    self.fail(UploadError::VoucherRejected { status, message })
                }
            },
            UploadEvent::AttachmentAnswered { status } => {
                if self.stage != UploadStage::AwaitFile {
                    return self.fail(UploadError::UnexpectedEvent);
                }
                if status == STATUS_ACCEPTED {
                    self.stage = UploadStage::Done;
                    UploadAction::Finished { outcome: Ok(()) }
                } else {
                    self.fail(UploadError::AttachmentUploadRejected { status })
                }
            },
        }
    }
}

} // verus!
