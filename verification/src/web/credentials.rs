//! The credentials of capabilities.
use vstd::prelude::*;
use vstd::string::*;
use crate::text;
use crate::text::{blank, opt_text, trimmed};
use crate::web::people;
use crate::web::people::{StoredName, UserOption};
use crate::web::response;
use crate::web::response::{Sent, Verdict, WebAnswer};

verus! {

#[derive(Debug, Clone)]
pub struct SysCredRow {
    pub capability_id: String,
    pub credential_name: String,
    pub created_at: String,
}

#[derive(Debug, Clone)]
pub struct UserCredRow {
    pub user_id: String,
    pub username: String,
    pub capability_id: String,
    pub credential_name: String,
    pub created_at: String,
}

#[derive(Debug)]
pub struct CredentialsQuery {
    pub error: Option<String>,
    pub success: Option<String>,
}

#[derive(Debug)]
pub struct SetSystemCredForm {
    pub capability_id: String,
    pub credential_name: String,
    pub value: String,
}

#[derive(Debug)]
pub struct SetUserCredForm {
    pub user_id: String,
    pub capability_id: String,
    pub credential_name: String,
    pub value: String,
}

/// A credential to save: of a user, or of the system.
#[derive(Debug, PartialEq, Eq)]
pub struct NewCredential {
    pub user_id: Option<String>,
    pub capability_id: String,
    pub credential_name: String,
    pub value: String,
}

/// The credential of the system that a form asks for: all fields are filled in.
pub fn credentials_set_system(form: &SetSystemCredForm) -> (r: Verdict<NewCredential>)
    ensures
        if blank(form.capability_id@) || blank(form.credential_name@) || form.value@.len() == 0 {
            r.answers(Sent::Redirect("/credentials?error=All+fields+are+required."@))
        } else {
            r matches Verdict::Proceed(c) && c.user_id is None && c.capability_id@
                == form.capability_id@ && c.credential_name@ == form.credential_name@ && c.value@
                == form.value@
        },
{
    if text::is_blank(form.capability_id.as_str()) || text::is_blank(
        form.credential_name.as_str(),
    ) || form.value.as_str().is_empty() {
        return Verdict::Answer(
            WebAnswer::Redirect("/credentials?error=All+fields+are+required.".to_string()),
        );
    }
    Verdict::Proceed(
        NewCredential {
            user_id: None,
            capability_id: form.capability_id.clone(),
            credential_name: form.credential_name.clone(),
            value: form.value.clone(),
        },
    )
}

/// The credential of a user that a form asks for: all fields are filled in.
pub fn credentials_set_user(form: &SetUserCredForm) -> (r: Verdict<NewCredential>)
    ensures
        if form.user_id@.len() == 0 || blank(form.capability_id@) || blank(form.credential_name@)
            || form.value@.len() == 0 {
            r.answers(Sent::Redirect("/credentials?error=All+fields+are+required."@))
        } else {
            r matches Verdict::Proceed(c) && opt_text(c.user_id) == Some(form.user_id@)
                && c.capability_id@ == form.capability_id@ && c.credential_name@
                == form.credential_name@ && c.value@ == form.value@
        },
{
    if form.user_id.as_str().is_empty() || text::is_blank(form.capability_id.as_str())
        || text::is_blank(form.credential_name.as_str()) || form.value.as_str().is_empty() {
        return Verdict::Answer(
            WebAnswer::Redirect("/credentials?error=All+fields+are+required.".to_string()),
        );
    }
    Verdict::Proceed(
        NewCredential {
            user_id: Some(form.user_id.clone()),
            capability_id: form.capability_id.clone(),
            credential_name: form.credential_name.clone(),
            value: form.value.clone(),
        },
    )
}

/// Where a credential that was to be saved leads.
pub fn credential_saved(of_system: bool, done: bool) -> (r: WebAnswer)
    ensures
        r@ == Sent::Redirect(
            if !done {
                "/credentials?error=Failed+to+save+credential.+Please+try+again."@
            } else if of_system {
                "/credentials?success=System+credential+saved."@
            } else {
                "/credentials?success=User+credential+saved."@
            },
        ),
{
    let to = if !done {
        "/credentials?error=Failed+to+save+credential.+Please+try+again."
    } else if of_system {
        "/credentials?success=System+credential+saved."
    } else {
        "/credentials?success=User+credential+saved."
    };
    WebAnswer::Redirect(to.to_string())
}

// ── The page ─────────────────────────────────────────────────────────────────

/// The page of the credentials.
#[derive(Debug)]
pub struct CredentialsPage {
    pub sys_creds: Vec<SysCredRow>,
    pub user_creds: Vec<UserCredRow>,
    pub users: Vec<UserOption>,
    pub error: Option<String>,
    pub success: Option<String>,
}

/// The page of the credentials: those of the system, those of users, and the users who can
/// be given one.
pub fn credentials_index(
    sys_creds: Vec<SysCredRow>,
    user_creds: Vec<UserCredRow>,
    users: Vec<StoredName>,
    query: CredentialsQuery,
) -> (r: CredentialsPage)
    ensures
        r.sys_creds == sys_creds,
        r.user_creds == user_creds,
        r.users@.len() == users@.len(),
        forall|i: int|
            0 <= i < users@.len() ==> people::offers_user(#[trigger] r.users@[i], users@[i]),
        r.error == query.error,
        r.success == query.success,
{
    CredentialsPage {
        sys_creds,
        user_creds,
        users: people::user_options(users),
        error: query.error,
        success: query.success,
    }
}

// ── Laws ─────────────────────────────────────────────────────────────────────

/// A credential is stored as entered: for the form's user or for everybody, under its capability and
/// name, with its value; and only where every field is filled in.
pub proof fn law_credential_is_stored_as_entered(
    sys: SetSystemCredForm,
    own: SetUserCredForm,
    r: Verdict<NewCredential>,
    s: Verdict<NewCredential>,
)
    requires
        call_ensures(credentials_set_system, (&sys,), r),
        call_ensures(credentials_set_user, (&own,), s),
    ensures
        r is Proceed <==> trimmed(sys.capability_id@).len() > 0 && trimmed(
            sys.credential_name@,
        ).len() > 0 && sys.value@.len() > 0,
        s is Proceed <==> own.user_id@.len() > 0 && trimmed(own.capability_id@).len() > 0
            && trimmed(own.credential_name@).len() > 0 && own.value@.len() > 0,
        r matches Verdict::Proceed(c) ==> c.user_id is None && c.capability_id@
            == sys.capability_id@ && c.credential_name@ == sys.credential_name@ && c.value@
            == sys.value@,
        s matches Verdict::Proceed(c) ==> c.user_id is Some && c.user_id->0@ == own.user_id@
            && c.capability_id@ == own.capability_id@ && c.credential_name@ == own.credential_name@
            && c.value@ == own.value@,
{
    text::lemma_blank(sys.capability_id@);
    text::lemma_blank(sys.credential_name@);
    text::lemma_blank(own.capability_id@);
    text::lemma_blank(own.credential_name@);
}

} // verus!
