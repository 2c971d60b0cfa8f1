//! Terms of service that users have to accept.

use vstd::prelude::*;
use vstd::string::StrSliceExecFns;

use crate::post::POST_MESSAGE_MAX_RUNES_V2;
use crate::text::{cat, cat3};
use crate::utils::{ensure_id, get_millis, is_valid_id, AppError, AppResult};
use crate::value::Value;

verus! {

/// Terms of service.
#[derive(Debug, Clone, Default, PartialEq, Eq)]
pub struct TermsOfService {
    pub id: String,
    pub create_at: i64,
    pub user_id: String,
    pub text: String,
}

/// The error of a field of terms of service. Every one says how long a text may be.
pub open spec fn terms_fault(field: Seq<char>, terms_id: Seq<char>) -> crate::utils::ErrorModel {
    crate::utils::ErrorModel {
        params: Some(
            seq![("MaxLength"@, crate::value::Json::Int(POST_MESSAGE_MAX_RUNES_V2 as int))],
        ),
        ..crate::utils::plain_error(
            "TermsOfService.IsValid"@,
            "model.terms_of_service.is_valid."@ + field + ".app_error"@,
            if terms_id.len() == 0 {
                ""@
            } else {
                "terms_of_service_id="@ + terms_id
            },
            400,
        )
    }
}

/// The error of a field of terms of service.
pub fn invalid_terms_of_service_error(field_name: &str, terms_of_service_id: &str) -> (e: Box<
    AppError,
>)
    ensures
        e@ == terms_fault(field_name@, terms_of_service_id@),
{
    let id: String = cat3("model.terms_of_service.is_valid.", field_name, ".app_error");
    let details: String = if terms_of_service_id.is_empty() {
        "".to_owned()
    } else {
        cat("terms_of_service_id=", terms_of_service_id)
    };
    let params: Vec<(String, Value)> = vec![
        ("MaxLength".to_string(), Value::Int(POST_MESSAGE_MAX_RUNES_V2 as i64)),
    ];
    let e: Box<AppError> = AppError::boxed(
        "TermsOfService.IsValid",
        id.as_str(),
        Some(params),
        details.as_str(),
        400,
    );
    assert(e@.params->0 =~= terms_fault(field_name@, terms_of_service_id@).params->0);
    e
}

impl TermsOfService {
    /// The first thing that is wrong with the terms.
    pub open spec fn fault(&self) -> Option<crate::utils::ErrorModel> {
        if !crate::utils::valid_id(self.id@) {
            Some(terms_fault("id"@, ""@))
        } else if self.create_at == 0 {
            Some(terms_fault("create_at"@, self.id@))
        } else if !crate::utils::valid_id(self.user_id@) {
            Some(terms_fault("user_id"@, self.id@))
        } else if self.text@.len() > POST_MESSAGE_MAX_RUNES_V2 {
            Some(terms_fault("text"@, self.id@))
        } else {
            None
        }
    }

    /// Whether the terms are in order.
    pub fn is_valid(&self) -> (r: AppResult)
        ensures
            crate::utils::fault_of(r) == self.fault(),
    {
        if !is_valid_id(self.id.as_str()) {
            return Err(invalid_terms_of_service_error("id", ""));
        }
        if self.create_at == 0 {
            return Err(invalid_terms_of_service_error("create_at", self.id.as_str()));
        }
        if !is_valid_id(self.user_id.as_str()) {
            return Err(invalid_terms_of_service_error("user_id", self.id.as_str()));
        }
        if self.text.as_str().unicode_len() > POST_MESSAGE_MAX_RUNES_V2 {
            return Err(invalid_terms_of_service_error("text", self.id.as_str()));
        }
        Ok(())
    }

    /// Whether these are terms that were made ready for storing at an instant.
    pub open spec fn is_saved(&self, before: TermsOfService, now: int) -> bool {
        &&& *self == (TermsOfService { id: self.id, create_at: self.create_at, ..before })
        &&& crate::utils::kept_or_new_id(self.id@, before.id@)
        &&& self.create_at == now
    }

    /// Makes the terms ready for storing at an instant.
    pub fn pre_save_at(&mut self, now: i64)
        ensures
            final(self).is_saved(*old(self), now as int),
    {
        ensure_id(&mut self.id);
        self.create_at = now;
    }

    /// Makes the terms ready for storing: an id where there is none, and the time.
    pub fn pre_save(&mut self)
        ensures
            exists|now: int|
                crate::utils::is_clock(now) && #[trigger] final(self).is_saved(*old(self), now),
    {
        let now: i64 = get_millis();
        self.pre_save_at(now);
    }
}

/// Terms of a user, not too long, that were made ready for storing are in order, unless the clock
/// stands at the epoch.
pub proof fn saved_terms_are_valid(before: TermsOfService, after: TermsOfService, now: int)
    requires
        after.is_saved(before, now),
        now != 0,
        before.id@.len() == 0 || crate::utils::valid_id(before.id@),
        crate::utils::valid_id(before.user_id@),
        before.text@.len() <= POST_MESSAGE_MAX_RUNES_V2,
    ensures
        after.fault() is None,
{
}

/// Terms are in order if and only if all of these hold.
pub proof fn valid_terms(t: TermsOfService)
    ensures
        (t.fault() is None) == (crate::utils::valid_id(t.id@) && t.create_at != 0
            && crate::utils::valid_id(t.user_id@) && t.text@.len() <= 16383),
{
}

/// Terms that were made ready keep what they say and who wrote them.
pub proof fn saved_terms_keep_their_text(before: TermsOfService, after: TermsOfService, now: int)
    requires
        after.is_saved(before, now),
    ensures
        after.text == before.text && after.user_id == before.user_id,
        after.create_at == now,
        before.id@.len() > 0 ==> after.id@ == before.id@,
{
}

} // verus!
