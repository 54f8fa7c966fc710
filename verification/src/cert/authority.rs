//! The ACME certificate authority: where it lives, and the decisions of the
//! DNS-01 flow.  The exchanges with the authority run in the application.
use vstd::prelude::*;
use vstd::string::*;

use crate::outside::lets_encrypt_url;
use crate::text::concat_str;

verus! {

/// An ACME certificate authority, by its directory address.
pub struct CertificateAuthority {
    acme_url: String,
}

impl CertificateAuthority {
    /// The directory address.
    pub closed spec fn url(&self) -> Seq<char> {
        self.acme_url@
    }

    /// The authority whose directory is at `acme_url`.
    pub fn new(acme_url: String) -> (r: Self)
        ensures
            r.url() == acme_url@,
    {
        CertificateAuthority { acme_url }
    }

    /// Let's Encrypt's staging authority.
    pub fn staging() -> (r: Self)
        ensures
            r.url() == "https://acme-staging-v02.api.letsencrypt.org/directory"@,
    {
        Self::new(String::from_str(lets_encrypt_url(true)))
    }

    /// Let's Encrypt's production authority.
    pub fn production() -> (r: Self)
        ensures
            r.url() == "https://acme-v02.api.letsencrypt.org/directory"@,
    {
        Self::new(String::from_str(lets_encrypt_url(false)))
    }

    /// The directory address, to open an account with.
    pub fn acme_url(&self) -> (u: &str)
        ensures
            u@ == self.url(),
    {
        self.acme_url.as_str()
    }
}

/// The name of the TXT record that answers the challenge for `identifier`.
pub fn challenge_record_name(identifier: &str) -> (n: String)
    ensures
        n@ == "_acme-challenge."@ + identifier@,
{
    concat_str("_acme-challenge.", identifier)
}

/// The state of an authorization of an ACME order.
#[derive(Clone, Copy, PartialEq, Eq, Structural, Debug)]
pub enum AuthorizationState {
    Pending,
    Valid,
    Invalid,
    Revoked,
    Expired,
    Deactivated,
}

/// What the DNS-01 flow does with an authorization.
#[derive(Clone, Copy, PartialEq, Eq, Structural, Debug)]
pub enum AuthorizationAction {
    /// Already valid: nothing to prove.
    Skip,
    /// Pending: publish the TXT record and mark the challenge ready.
    Answer,
    /// Any other state: the order cannot go on.
    Fail,
}

/// Valid authorizations are skipped, pending ones answered, any other
/// state ends the flow.
pub fn authorization_action(state: AuthorizationState) -> (a: AuthorizationAction)
    ensures
        a == (match state {
            AuthorizationState::Valid => AuthorizationAction::Skip,
            AuthorizationState::Pending => AuthorizationAction::Answer,
            _ => AuthorizationAction::Fail,
        }),
{
    match state {
        AuthorizationState::Valid => AuthorizationAction::Skip,
        AuthorizationState::Pending => AuthorizationAction::Answer,
        _ => AuthorizationAction::Fail,
    }
}

/// The state of an ACME order.
#[derive(Clone, Copy, PartialEq, Eq, Structural, Debug)]
pub enum OrderState {
    Pending,
    Ready,
    Processing,
    Valid,
    Invalid,
}

/// An order can be finalized only once it is ready.
pub fn may_finalize(state: OrderState) -> (b: bool)
    ensures
        b == (state == OrderState::Ready),
{
    match state {
        OrderState::Ready => true,
        _ => false,
    }
}

/// The flow can ask for the certificate only when it published at least
/// one challenge record.
pub fn challenges_published(record_ids: &Vec<String>) -> (b: bool)
    ensures
        b == (record_ids@.len() > 0),
{
    record_ids.len() > 0
}

/// Where the issuing of a certificate stands once the challenges are
/// answered.
#[derive(Clone, Copy, PartialEq, Eq, Structural, Debug)]
pub enum IssueStage {
    /// Every authorization was gone through; whether any challenge record
    /// was published.
    ChallengesAnswered { published: bool },
    /// Finalizing the order ended, with or without a certificate.
    Finalized { succeeded: bool },
    /// The published records were removed; whether finalizing succeeded.
    RecordsRemoved { succeeded: bool },
}

/// What the flow does next.
#[derive(Clone, Copy, PartialEq, Eq, Structural, Debug)]
pub enum IssueAction {
    /// Give up: nothing was published, so there is nothing to finalize.
    Abandon,
    /// Wait for the order to be ready and finalize it.
    Finalize,
    /// Remove the published challenge records.
    RemoveRecords,
    /// End with the outcome of finalizing.
    Finish { succeeded: bool },
}

/// The step of the flow from each stage: without a published record it
/// gives up; otherwise it finalizes, then removes the records whatever
/// finalizing gave, then ends with finalizing's outcome.
pub open spec fn next_issue_action(stage: IssueStage) -> IssueAction {
    match stage {
        IssueStage::ChallengesAnswered { published } => if published {
            IssueAction::Finalize
        } else {
            IssueAction::Abandon
        },
        IssueStage::Finalized { .. } => IssueAction::RemoveRecords,
        IssueStage::RecordsRemoved { succeeded } => IssueAction::Finish { succeeded },
    }
}

/// Decides the next step of the flow.
pub fn issue_action(stage: IssueStage) -> (a: IssueAction)
    ensures
        a == next_issue_action(stage),
{
    match stage {
        IssueStage::ChallengesAnswered { published } => if published {
            IssueAction::Finalize
        } else {
            IssueAction::Abandon
        },
        IssueStage::Finalized { .. } => IssueAction::RemoveRecords,
        IssueStage::RecordsRemoved { succeeded } => IssueAction::Finish { succeeded },
    }
}

/// Once a record is published, the flow finalizes, removes the records
/// whether or not finalizing succeeded, and only then ends, with
/// finalizing's outcome; it never ends straight after finalizing.
pub proof fn lemma_records_removed_before_finish(succeeded: bool)
    ensures
        next_issue_action(IssueStage::ChallengesAnswered { published: true }) == IssueAction::Finalize,
        next_issue_action(IssueStage::Finalized { succeeded }) == IssueAction::RemoveRecords,
        next_issue_action(IssueStage::RecordsRemoved { succeeded }) == (IssueAction::Finish {
            succeeded,
        }),
{
}

} // verus!
