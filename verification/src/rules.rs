//! Rule administration: how storage failures read as rule errors, the
//! checks before a draft is saved or published, and the preview's checks
//! and Pixiv failures.

use vstd::prelude::*;
use crate::domain::{DbError, PixivAccountState, PixivErrorClass};
use crate::text::{chars_of, spec_trim, string_from_range, trim_bounds};

verus! {

/// Why a rule command failed.
#[derive(Clone, Debug, PartialEq, Eq)]
pub enum RuleServiceError {
    Rule,
    Evaluation,
    NotFound,
    InvalidRequest(String),
    Conflict,
    RevisionConflict,
    Storage,
}

pub open spec fn spec_rule_error_from_db(error: DbError) -> RuleServiceError {
    match error {
        DbError::NotFound => RuleServiceError::NotFound,
        DbError::InvalidValue(message) => RuleServiceError::InvalidRequest(message),
        DbError::Constraint(_) => RuleServiceError::Conflict,
        DbError::RevisionConflict => RuleServiceError::RevisionConflict,
        _ => RuleServiceError::Storage,
    }
}

impl From<DbError> for RuleServiceError {
    /// A missing row is a missing rule, an invalid value a bad request (with
    /// its message), a constraint a conflict, a stale revision a revision
    /// conflict; anything else is a storage failure.
    fn from(error: DbError) -> (e: Self) {
        match error {
            DbError::NotFound => RuleServiceError::NotFound,
            DbError::InvalidValue(message) => RuleServiceError::InvalidRequest(message),
            DbError::Constraint(_) => RuleServiceError::Conflict,
            DbError::RevisionConflict => RuleServiceError::RevisionConflict,
            _ => RuleServiceError::Storage,
        }
    }
}

impl vstd::std_specs::convert::FromSpecImpl<DbError> for RuleServiceError {
    open spec fn obeys_from_spec() -> bool {
        true
    }

    open spec fn from_spec(error: DbError) -> Self {
        spec_rule_error_from_db(error)
    }
}

/// A rule definition must belong to the rule it is saved under.
pub fn check_definition_id(definition_id: u128, rule_id: u128) -> (r: Result<(), RuleServiceError>)
    ensures
        r is Ok <==> definition_id == rule_id,
        r matches Err(e) ==> e matches RuleServiceError::InvalidRequest(m) && m@ == "rule definition ID does not match route"@,
{
    if definition_id != rule_id {
        return Err(RuleServiceError::InvalidRequest(String::from_str("rule definition ID does not match route")));
    }
    Ok(())
}

/// A draft can be published only when it exists and is still the draft
/// the author saw: the same base version and the same revision.
pub fn check_publish_draft(draft: Option<(Option<i64>, i64)>, base_version: Option<i64>, expected_draft_revision: i64) -> (r: Result<(), RuleServiceError>)
    ensures
        r == (match draft {
            None => Err(RuleServiceError::RevisionConflict),
            Some((b, rev)) => if b != base_version || rev != expected_draft_revision {
                Err(RuleServiceError::RevisionConflict)
            } else {
                Ok(())
            },
        }),
{
    match draft {
        None => Err(RuleServiceError::RevisionConflict),
        Some((b, rev)) => {
            let same_base = match (b, base_version) {
                (Some(x), Some(y)) => x == y,
                (None, None) => true,
                _ => false,
            };
            if !same_base || rev != expected_draft_revision {
                Err(RuleServiceError::RevisionConflict)
            } else {
                Ok(())
            }
        },
    }
}

/// An imported definition builds on the draft's base version when there is
/// a draft, else on the published version, if any.
pub fn import_base_version(draft_base_version: Option<Option<i64>>, current_version: Option<i64>) -> (v: Option<i64>)
    ensures
        v == (match draft_base_version {
            Some(b) => b,
            None => current_version,
        }),
{
    match draft_base_version {
        Some(b) => b,
        None => current_version,
    }
}

/// A rule's name without surrounding white space.
pub fn rule_name(name: &str) -> (n: String)
    ensures
        n@ == spec_trim(name@),
{
    let chars = chars_of(name);
    let (a, b) = trim_bounds(&chars, 0, chars.len());
    string_from_range(&chars, a, b)
}

/// Why a rule preview failed.
#[derive(Clone, Debug, PartialEq, Eq)]
pub enum RulePreviewError {
    InvalidPixivWorkId,
    AccountNotConfigured,
    AccountUnavailable,
    WorkNotFound,
    CredentialInvalid,
    Temporary,
    Unavailable,
    Storage(DbError),
    Rule,
    Evaluation,
}

impl RulePreviewError {
    /// A hidden, deleted or age-restricted work is not found; a refused
    /// credential or CSRF token means the credential is invalid; anything
    /// else is temporary.
    pub fn from_pixiv(class: PixivErrorClass) -> (e: Self)
        ensures
            e == (match class {
                PixivErrorClass::HiddenOrNotFound | PixivErrorClass::AgeRestrictedDisabled => RulePreviewError::WorkNotFound,
                PixivErrorClass::CredentialInvalid | PixivErrorClass::CsrfFailed => RulePreviewError::CredentialInvalid,
                _ => RulePreviewError::Temporary,
            }),
    {
        match class {
            PixivErrorClass::HiddenOrNotFound | PixivErrorClass::AgeRestrictedDisabled => RulePreviewError::WorkNotFound,
            PixivErrorClass::CredentialInvalid | PixivErrorClass::CsrfFailed => RulePreviewError::CredentialInvalid,
            _ => RulePreviewError::Temporary,
        }
    }
}

/// Before previewing: the work id must be positive and a normal account
/// must be configured.
pub fn preview_precheck(pixiv_work_id: i64, account_state: Option<PixivAccountState>) -> (r: Result<(), RulePreviewError>)
    ensures
        r == (if pixiv_work_id <= 0 {
            Err(RulePreviewError::InvalidPixivWorkId)
        } else {
            match account_state {
                None => Err(RulePreviewError::AccountNotConfigured),
                Some(s) => if s != PixivAccountState::Normal { Err(RulePreviewError::AccountUnavailable) } else { Ok(()) },
            }
        }),
{
    if pixiv_work_id <= 0 {
        return Err(RulePreviewError::InvalidPixivWorkId);
    }
    match account_state {
        None => Err(RulePreviewError::AccountNotConfigured),
        Some(s) => if s != PixivAccountState::Normal { Err(RulePreviewError::AccountUnavailable) } else { Ok(()) },
    }
}

/// The preview port used when Pixiv requests are switched off.
#[derive(Clone, Copy, Debug, Default)]
pub struct DisabledRulePreviewPort;

impl DisabledRulePreviewPort {
    pub fn preview(&self, pixiv_work_id: i64) -> (r: Result<(), RulePreviewError>)
        ensures
            r == Err::<(), RulePreviewError>(RulePreviewError::Unavailable),
    {
        Err(RulePreviewError::Unavailable)
    }
}

} // verus!
