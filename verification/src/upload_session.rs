//! Uploads of files that can be resumed.

use vstd::prelude::*;

use crate::text::{cat, cat3, same};
use crate::utils::{ensure_id, get_millis, is_valid_id, AppError, AppResult};

verus! {

/// What an upload is for.
#[derive(Debug, Clone, Default, PartialEq, Eq, PartialOrd, Ord, Hash)]
pub struct UploadType(pub String);

/// A kind of upload that there is not.
#[derive(Debug, Clone, PartialEq, Eq)]
pub enum UploadSessionError {
    InvalidUploadType(String),
}

impl UploadSessionError {
    /// The error in words.
    pub fn to_text(&self) -> (r: String)
        ensures
            r@ == "invalid UploadType "@ + self->InvalidUploadType_0@,
    {
        match self {
            UploadSessionError::InvalidUploadType(name) => cat("invalid UploadType ", name.as_str()),
        }
    }
}

impl UploadType {
    pub const ATTACHMENT: &'static str = "attachment";

    pub const IMPORT: &'static str = "import";

    pub fn as_str(&self) -> (r: &str)
        ensures
            r@ == self.0@,
    {
        self.0.as_str()
    }

    /// Whether there is such a kind of upload.
    pub open spec fn is_kind(&self) -> bool {
        self.0@ == Self::ATTACHMENT@ || self.0@ == Self::IMPORT@
    }

    /// Refuses what is no kind of upload.
    pub fn is_valid(&self) -> (r: Result<(), UploadSessionError>)
        ensures
            match r {
                Ok(_) => self.is_kind(),
                Err(UploadSessionError::InvalidUploadType(name)) => !self.is_kind() && name@
                    == self.0@,
            },
    {
        if same(self.0.as_str(), Self::ATTACHMENT) || same(self.0.as_str(), Self::IMPORT) {
            Ok(())
        } else {
            Err(UploadSessionError::InvalidUploadType(self.0.clone()))
        }
    }
}

impl From<&str> for UploadType {
    fn from(s: &str) -> (r: UploadType)
        ensures
            r.0@ == s@,
    {
        UploadType(s.to_string())
    }
}

impl vstd::std_specs::convert::FromSpecImpl<&str> for UploadType {
    open spec fn obeys_from_spec() -> bool {
        false
    }

    open spec fn from_spec(s: &str) -> UploadType {
        arbitrary()
    }
}

/// The end of the path of a file that is not complete.
pub const INCOMPLETE_UPLOAD_SUFFIX: &'static str = ".tmp";

/// The user of an upload that no user started.
pub const UPLOAD_NO_USER_ID: &'static str = "nouser";

/// An upload that is under way.
#[derive(Debug, Clone, Default, PartialEq, Eq)]
pub struct UploadSession {
    pub id: String,
    pub type_: UploadType,
    pub create_at: i64,
    pub user_id: String,
    pub channel_id: String,
    pub filename: String,
    /// Where the file is stored. It is never sent.
    pub path: String,
    pub file_size: i64,
    /// How much of the file is there.
    pub file_offset: i64,
    pub remote_id: String,
    pub req_file_id: String,
}

/// The error of a field of an upload.
pub open spec fn upload_fault(field: Seq<char>, details: Seq<char>) -> crate::utils::ErrorModel {
    crate::utils::plain_error(
        "UploadSession.IsValid"@,
        "model.upload_session.is_valid."@ + field + ".app_error"@,
        details,
        400,
    )
}

fn upload_error(field: &str, details: &str) -> (e: Box<AppError>)
    ensures
        e@ == upload_fault(field@, details@),
{
    let id: String = cat3("model.upload_session.is_valid.", field, ".app_error");
    AppError::boxed("UploadSession.IsValid", id.as_str(), None, details, 400)
}

impl UploadSession {
    /// The first thing that is wrong with the upload.
    pub open spec fn fault(&self) -> Option<crate::utils::ErrorModel> {
        let details = "id="@ + self.id@;
        if !crate::utils::valid_id(self.id@) {
            Some(upload_fault("id"@, ""@))
        } else if !self.type_.is_kind() {
            Some(
                crate::utils::ErrorModel {
                    wrapped: Some("invalid UploadType "@ + self.type_.0@),
                    ..upload_fault("type"@, ""@)
                },
            )
        } else if !crate::utils::valid_id(self.user_id@) && self.user_id@ != UPLOAD_NO_USER_ID@ {
            Some(upload_fault("user_id"@, details))
        } else if self.type_.0@ == UploadType::ATTACHMENT@ && !crate::utils::valid_id(
            self.channel_id@,
        ) {
            Some(upload_fault("channel_id"@, details))
        } else if self.create_at == 0 {
            Some(upload_fault("create_at"@, details))
        } else if self.filename@.len() == 0 {
            Some(upload_fault("filename"@, details))
        } else if self.file_size <= 0 {
            Some(upload_fault("file_size"@, details))
        } else if !(0 <= self.file_offset <= self.file_size) {
            Some(upload_fault("file_offset"@, details))
        } else if self.path@.len() == 0 {
            Some(upload_fault("path"@, details))
        } else {
            None
        }
    }

    /// Whether this is an upload that was made ready for storing at an instant: it has an id and a
    /// time, its own where it had them.
    pub open spec fn is_saved(&self, before: UploadSession, now: int) -> bool {
        &&& *self == (UploadSession { id: self.id, create_at: self.create_at, ..before })
        &&& crate::utils::kept_or_new_id(self.id@, before.id@)
        &&& self.create_at == (if before.create_at == 0 {
            now
        } else {
            before.create_at as int
        })
    }

    /// Gives the upload an id where it has none, and an instant as its time.
    pub fn pre_save_at(&mut self, now: i64)
        ensures
            final(self).is_saved(*old(self), now as int),
    {
        ensure_id(&mut self.id);
        if self.create_at == 0 {
            self.create_at = now;
        }
    }

    /// Gives the upload an id and a time where it has none.
    pub fn pre_save(&mut self)
        ensures
            exists|now: int|
                crate::utils::is_clock(now) && #[trigger] final(self).is_saved(*old(self), now),
    {
        let now: i64 = get_millis();
        self.pre_save_at(now);
    }

    /// Whether the upload is in order. An attachment needs a channel, an import does not.
    pub fn is_valid(&self) -> (r: AppResult)
        ensures
            crate::utils::fault_of(r) == self.fault(),
    {
        let details: String = cat("id=", self.id.as_str());
        if !is_valid_id(self.id.as_str()) {
            return Err(upload_error("id", ""));
        }
        match self.type_.is_valid() {
            Ok(_) => {},
            Err(inner) => {
                let e: Box<AppError> = upload_error("type", "");
                return Err(Box::new((*e).wrap(inner.to_text())));
            },
        }
        if !is_valid_id(self.user_id.as_str()) && !same(self.user_id.as_str(), UPLOAD_NO_USER_ID) {
            return Err(upload_error("user_id", details.as_str()));
        }
        if same(self.type_.as_str(), UploadType::ATTACHMENT) && !is_valid_id(
            self.channel_id.as_str(),
        ) {
            return Err(upload_error("channel_id", details.as_str()));
        }
        if self.create_at == 0 {
            return Err(upload_error("create_at", details.as_str()));
        }
        if self.filename.as_str().is_empty() {
            return Err(upload_error("filename", details.as_str()));
        }
        if self.file_size <= 0 {
            return Err(upload_error("file_size", details.as_str()));
        }
        if self.file_offset < 0 || self.file_offset > self.file_size {
            return Err(upload_error("file_offset", details.as_str()));
        }
        if self.path.as_str().is_empty() {
            return Err(upload_error("path", details.as_str()));
        }
        Ok(())
    }
}

/// To make an upload ready for storing a second time changes nothing.
pub proof fn saving_is_idempotent(
    before: UploadSession,
    once: UploadSession,
    twice: UploadSession,
    now: int,
    later: int,
)
    requires
        once.is_saved(before, now),
        twice.is_saved(once, later),
        now != 0,
    ensures
        twice == (UploadSession { id: twice.id, ..once }),
        twice.id@ == once.id@,
        twice.is_saved(before, now),
{
}

/// An upload is in order if and only if all of these hold: an attachment needs a channel, and no
/// more of a file can be there than there is.
pub proof fn valid_uploads(u: UploadSession)
    ensures
        (u.fault() is None) == ({
            &&& crate::utils::valid_id(u.id@)
            &&& u.type_.0@ == "attachment"@ || u.type_.0@ == "import"@
            &&& crate::utils::valid_id(u.user_id@) || u.user_id@ == "nouser"@
            &&& u.type_.0@ == "attachment"@ ==> crate::utils::valid_id(u.channel_id@)
            &&& u.create_at != 0
            &&& u.filename@.len() > 0
            &&& u.file_size > 0
            &&& 0 <= u.file_offset <= u.file_size
            &&& u.path@.len() > 0
        }),
{
}

/// An upload that was made ready keeps all that it had.
pub proof fn saved_uploads_keep_the_rest(before: UploadSession, after: UploadSession, now: int)
    requires
        after.is_saved(before, now),
    ensures
        before.id@.len() > 0 ==> after.id@ == before.id@,
        before.create_at != 0 ==> after.create_at == before.create_at,
        before.create_at == 0 ==> after.create_at == now,
        after == (UploadSession { id: after.id, create_at: after.create_at, ..before }),
{
}

/// Where one field alone has to change for an upload to be in order, the error is that
/// of the field.
pub proof fn faults_of_an_upload_are_named(bad: UploadSession, good: UploadSession)
    requires
        bad.fault() is Some,
        good.fault() is None,
    ensures
        good == (UploadSession { id: good.id, ..bad }) ==> crate::utils::reports(
            bad.fault()->0,
            "UploadSession.IsValid"@,
            "model.upload_session.is_valid."@ + "id"@ + ".app_error"@,
            ""@,
            400,
        ),
        good == (UploadSession { user_id: good.user_id, ..bad }) ==> crate::utils::reports(
            bad.fault()->0,
            "UploadSession.IsValid"@,
            "model.upload_session.is_valid."@ + "user_id"@ + ".app_error"@,
            "id="@ + bad.id@,
            400,
        ),
        good == (UploadSession { channel_id: good.channel_id, ..bad }) ==> crate::utils::reports(
            bad.fault()->0,
            "UploadSession.IsValid"@,
            "model.upload_session.is_valid."@ + "channel_id"@ + ".app_error"@,
            "id="@ + bad.id@,
            400,
        ),
        good == (UploadSession { create_at: good.create_at, ..bad }) ==> crate::utils::reports(
            bad.fault()->0,
            "UploadSession.IsValid"@,
            "model.upload_session.is_valid."@ + "create_at"@ + ".app_error"@,
            "id="@ + bad.id@,
            400,
        ),
        good == (UploadSession { filename: good.filename, ..bad }) ==> crate::utils::reports(
            bad.fault()->0,
            "UploadSession.IsValid"@,
            "model.upload_session.is_valid."@ + "filename"@ + ".app_error"@,
            "id="@ + bad.id@,
            400,
        ),
        good == (UploadSession { file_offset: good.file_offset, ..bad }) ==> crate::utils::reports(
            bad.fault()->0,
            "UploadSession.IsValid"@,
            "model.upload_session.is_valid."@ + "file_offset"@ + ".app_error"@,
            "id="@ + bad.id@,
            400,
        ),
        good == (UploadSession { path: good.path, ..bad }) ==> crate::utils::reports(
            bad.fault()->0,
            "UploadSession.IsValid"@,
            "model.upload_session.is_valid."@ + "path"@ + ".app_error"@,
            "id="@ + bad.id@,
            400,
        ),
        good == (UploadSession { file_size: good.file_size, ..bad })
            && bad.file_size <= 0 ==> crate::utils::reports(
            bad.fault()->0,
            "UploadSession.IsValid"@,
            "model.upload_session.is_valid."@ + "file_size"@ + ".app_error"@,
            "id="@ + bad.id@,
            400,
        ),
        good == (UploadSession { file_size: good.file_size, ..bad })
            && bad.file_size > 0 ==> crate::utils::reports(
            bad.fault()->0,
            "UploadSession.IsValid"@,
            "model.upload_session.is_valid."@ + "file_offset"@ + ".app_error"@,
            "id="@ + bad.id@,
            400,
        ),
{
}

/// What is wrong with the first fields of an upload is reported whatever the fields behind
/// them are.
pub proof fn faults_of_an_upload_come_in_order(all: UploadSession, good: UploadSession)
    requires
        good.fault() is None,
    ensures
        ({
            let first = UploadSession { id: all.id, ..good };
            first.fault() is Some ==> all.fault() == first.fault()
        }),
        ({
            let first = UploadSession {
                id: all.id,
                type_: all.type_,
                user_id: all.user_id,
                channel_id: all.channel_id,
                ..good
            };
            first.fault() is Some ==> all.fault() == first.fault()
        }),
        ({
            let first = UploadSession {
                id: all.id,
                type_: all.type_,
                user_id: all.user_id,
                channel_id: all.channel_id,
                create_at: all.create_at,
                ..good
            };
            first.fault() is Some ==> all.fault() == first.fault()
        }),
        ({
            let first = UploadSession {
                id: all.id,
                type_: all.type_,
                user_id: all.user_id,
                channel_id: all.channel_id,
                create_at: all.create_at,
                filename: all.filename,
                ..good
            };
            first.fault() is Some ==> all.fault() == first.fault()
        }),
        ({
            let first = UploadSession {
                id: all.id,
                type_: all.type_,
                user_id: all.user_id,
                channel_id: all.channel_id,
                create_at: all.create_at,
                filename: all.filename,
                file_size: all.file_size,
                ..good
            };
            first.fault() is Some && all.file_size <= 0 ==> all.fault() == first.fault()
        }),
        ({
            let first = UploadSession {
                id: all.id,
                type_: all.type_,
                user_id: all.user_id,
                channel_id: all.channel_id,
                create_at: all.create_at,
                filename: all.filename,
                file_size: all.file_size,
                file_offset: all.file_offset,
                ..good
            };
            first.fault() is Some ==> all.fault() == first.fault()
        }),
{
}

} // verus!
