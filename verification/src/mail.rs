//! Notification payload and mail account data. The actual relay submission is
//! outside the library; everything the message is built from is prepared and
//! specified here.

use vstd::prelude::*;

verus! {

/// A summary email: an optional subject line and an HTML body.
pub struct EmailPayload {
    pub subject: Option<String>,
    pub content: String,
}

/// Credentials of the outbound mail account.
pub struct Outlook {
    username: String,
    password: String,
}

impl Outlook {
    /// The account name the mailer authenticates with.
    pub closed spec fn username_spec(&self) -> Seq<char> {
        self.username@
    }

    /// The account password the mailer authenticates with.
    pub closed spec fn password_spec(&self) -> Seq<char> {
        self.password@
    }

    pub fn new(username: &str, password: &str) -> (r: Self)
        ensures
            r.username_spec() == username@,
            r.password_spec() == password@,
    {
        Self { username: username.to_owned(), password: password.to_owned() }
    }

    pub fn username(&self) -> (r: &str)
        ensures
            r@ == self.username_spec(),
    {
        self.username.as_str()
    }

    pub fn password(&self) -> (r: &str)
        ensures
            r@ == self.password_spec(),
    {
        self.password.as_str()
    }
}

/// The subject a message is sent under: the payload's own subject, or the
/// fixed fallback when none was set.
pub fn effective_subject(subject: &Option<String>) -> (r: String)
    ensures
        subject matches Some(s) ==> r@ == s@,
        subject is None ==> r@ == "新邮件"@,
{
    match subject {
        Some(s) => s.clone(),
        None => String::from_str("新邮件"),
    }
}

/// The fixed sender identity built around the account name.
pub fn sender_identity(username: &str) -> (r: String)
    ensures
        r@ == "RS Bot <"@ + username@ + ">"@,
{
    let r = String::from_str("RS Bot <").concat(username).concat(">");
    proof {
        assert(r@ =~= "RS Bot <"@ + username@ + ">"@);
    }
    r
}

} // verus!
