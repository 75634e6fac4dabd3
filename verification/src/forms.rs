//! What the window's dialogs do with an answer: the form that opens, and
//! whether an accepted form closes.
use vstd::prelude::*;

verus! {

/// Which form an edit action opens.
#[derive(Clone, Copy, PartialEq, Eq, Debug, Structural)]
pub enum EditTarget {
    /// The thing asked about is gone: nothing opens, the banner says so.
    Gone,
    /// A form for a new one.
    New,
    /// A form filled from the stored one.
    Existing,
}

/// The form an edit opens: for an identifier that no longer names anything
/// none at all, otherwise the stored one's, or a blank one when no identifier
/// was given.
pub fn edit_target(requested: bool, found: bool) -> (t: EditTarget)
    ensures
        t == (if requested && !found {
            EditTarget::Gone
        } else if found {
            EditTarget::Existing
        } else {
            EditTarget::New
        }),
{
    if requested && !found {
        EditTarget::Gone
    } else if found {
        EditTarget::Existing
    } else {
        EditTarget::New
    }
}

/// How an accepted form fared.
pub enum Saved {
    /// Stored.
    Accepted,
    /// The form itself refused to build what it holds, with the reason.
    FormRefused(String),
    /// The service refused what the form built, with the reason.
    ServiceRefused(String),
}

/// What the dialog does next.
pub struct FormOutcome {
    /// Whether the dialog closes.
    pub close: bool,
    /// The reason shown in the form, which is where the mistake is.
    pub form_error: Option<String>,
    /// The reason also shown in the banner, for a refusal by the service.
    pub banner: Option<String>,
}

/// Both ways of refusing end the same way: the dialog stays open and says
/// why. A refusal from the service is shown in the banner as well; an
/// accepted form closes with its error cleared.
pub fn form_outcome(saved: Saved) -> (o: FormOutcome)
    ensures
        match saved {
            Saved::Accepted => o.close && o.form_error is None && o.banner is None,
            Saved::FormRefused(m) => !o.close && o.form_error == Some(m) && o.banner is None,
            Saved::ServiceRefused(m) => !o.close && o.form_error == Some(m) && o.banner == Some(m),
        },
{
    match saved {
        Saved::Accepted => FormOutcome { close: true, form_error: None, banner: None },
        Saved::FormRefused(message) => FormOutcome { close: false, form_error: Some(message), banner: None },
        Saved::ServiceRefused(message) => {
            let banner = message.clone();
            FormOutcome { close: false, form_error: Some(message), banner: Some(banner) }
        },
    }
}

/// What a dialog calls a profile: its name, or its identifier when it is
/// already gone.
pub fn name_or_id(name: Option<String>, id: u64) -> (r: String)
    ensures
        match name {
            Some(n) => r@ == n@,
            None => r@ == crate::text::decimal(id as nat),
        },
{
    match name {
        Some(n) => n,
        None => {
            let mut r = String::new();
            crate::text::push_decimal(&mut r, id as u128);
            assert(r@ =~= crate::text::decimal(id as nat));
            r
        },
    }
}

/// What a delete dialog says.
pub enum DeleteNotice {
    /// Nothing uses it: asks whether to delete, naming it.
    Confirm { name: String, detail: String },
    /// It is in use: says by whom, the users joined with commas.
    InUse { name: String, users: String },
}

/// Deleting something still in use is refused, and says by whom.
pub fn delete_notice(name: String, detail: String, used_by: &Vec<String>) -> (n: DeleteNotice)
    ensures
        used_by@.len() == 0 ==> (n matches DeleteNotice::Confirm { name: a, detail: b } && a@ == name@
            && b@ == detail@),
        used_by@.len() > 0 ==> (n matches DeleteNotice::InUse { name: a, users } && a@ == name@
            && users@ == crate::text::joined(crate::text::texts(used_by@), ", "@)),
{
    if used_by.len() == 0 {
        DeleteNotice::Confirm { name, detail }
    } else {
        DeleteNotice::InUse { name, users: crate::text::join(used_by, ", ") }
    }
}

} // verus!
