//! What sending the report by e-mail needs: whether to send, the checked
//! settings, addresses and credentials.
use crate::calendar::Day;
use crate::config::{configured_or_env, opt_view, views, EmailConfig};
use crate::text::{chars_of, nonempty_trimmed, push_str, string_of};
use vstd::prelude::*;

verus! {

/// The `Display` text of the error lettre gives when the text does not parse
/// as a mailbox (`lettre::message::Mailbox`), or nothing when it parses.
pub uninterp spec fn lettre_mailbox_error(text: Seq<char>) -> Option<Seq<char>>;

/// `text.parse::<lettre::message::Mailbox>()`; the contract names the error
/// text and says nothing more of lettre's address grammar.
#[verifier::external_body]
fn mailbox_error(text: &str) -> (r: Option<String>)
    ensures
        opt_view(r) == lettre_mailbox_error(text@),
{
    match text.parse::<lettre::message::Mailbox>() {
        Ok(_) => None,
        Err(e) => Some(e.to_string()),
    }
}

/// Whether `run-daily` mails the report.
pub fn sends_daily(email: &EmailConfig) -> (b: bool)
    ensures
        b == (email.enabled && email.send_on_daily),
{
    email.enabled && email.send_on_daily
}

/// The first address that lettre refuses, with lettre's error text.
pub open spec fn first_bad_address(addresses: Seq<Seq<char>>) -> Option<(Seq<char>, Seq<char>)>
    decreases addresses.len(),
{
    if addresses.len() == 0 {
        None
    } else {
        match lettre_mailbox_error(addresses[0]) {
            Some(e) => Some((addresses[0], e)),
            None => first_bad_address(addresses.drop_first()),
        }
    }
}

/// Everything a report mail is sent with.
#[derive(Debug)]
pub struct EmailPlan {
    pub from: String,
    pub to: Vec<String>,
    pub subject: String,
    pub username: String,
    pub password: String,
}

/// The settings of a report mail for `date`, after the checks made before
/// sending: the settings themselves, the sender's address, each recipient's
/// address; `user_from_env` and `password_from_env` are the values of the
/// environment variables the settings name.
pub fn email_plan(
    email: &EmailConfig,
    date: Day,
    user_from_env: Option<String>,
    password_from_env: Option<String>,
) -> (r: Result<EmailPlan, String>)
    ensures
        match email.problem(opt_view(user_from_env), opt_view(password_from_env)) {
            Some(m) => r matches Err(e) && e@ == m,
            None => match lettre_mailbox_error(email.from@) {
                Some(err) => r matches Err(e) && e@ == "invalid report.email.from: "@ + email.from@
                    + ": "@ + err,
                None => match first_bad_address(nonempty_trimmed(views(email.to@))) {
                    Some(bad) => r matches Err(e) && e@ == "invalid report.email.to address: "@
                        + bad.0 + ": "@ + bad.1,
                    None => r matches Ok(p) && p.from@ == email.from@ && views(p.to@)
                        == nonempty_trimmed(views(email.to@)) && p.subject@ == email.subject_of(
                        date,
                    ) && configured_or_env(email.username@, opt_view(user_from_env)) == Some(
                        p.username@,
                    ) && configured_or_env(email.password@, opt_view(password_from_env)) == Some(
                        p.password@,
                    ),
                },
            },
        },
{
    match email.validate(user_from_env.clone(), password_from_env.clone()) {
        Err(e) => {
            return Err(e.message);
        },
        Ok(()) => {},
    }
    match mailbox_error(email.from.as_str()) {
        Some(err) => {
            let mut m = chars_of("invalid report.email.from: ");
            push_str(&mut m, email.from.as_str());
            push_str(&mut m, ": ");
            push_str(&mut m, err.as_str());
            return Err(string_of(&m));
        },
        None => {},
    }
    let to = email.recipients();
    let ghost all = nonempty_trimmed(views(email.to@));
    assert(views(to@) =~= all);
    let mut i: usize = 0;
    assert(all.skip(0) == all);
    while i < to.len()
        invariant
            i <= to@.len() == all.len(),
            all == views(to@),
            first_bad_address(all) == first_bad_address(all.skip(i as int)),
            email.problem(opt_view(user_from_env), opt_view(password_from_env)) is None,
            lettre_mailbox_error(email.from@) is None,
            all == nonempty_trimmed(views(email.to@)),
        decreases to@.len() - i,
    {
        assert(all.skip(i as int)[0] == to@[i as int]@);
        assert(all.skip(i as int).drop_first() == all.skip(i + 1));
        match mailbox_error(to[i].as_str()) {
            Some(err) => {
                assert(all.skip(i as int).len() > 0);
                assert(first_bad_address(all.skip(i as int)) == Some((to@[i as int]@, err@)));
                let mut m = chars_of("invalid report.email.to address: ");
                push_str(&mut m, to[i].as_str());
                push_str(&mut m, ": ");
                push_str(&mut m, err.as_str());
                return Err(string_of(&m));
            },
            None => {},
        }
        i = i + 1;
    }
    let username = match email.smtp_username(user_from_env) {
        Some(u) => u,
        None => {
            return Err("missing SMTP username".to_owned());
        },
    };
    let password = match email.smtp_password(password_from_env) {
        Some(p) => p,
        None => {
            return Err("missing SMTP password".to_owned());
        },
    };
    Ok(EmailPlan { from: email.from.clone(), to, subject: email.subject_for(date), username, password })
}

/// Mail is only sent over TLS.
pub fn require_tls(email: &EmailConfig) -> (r: Result<(), String>)
    ensures
        r is Ok <==> email.use_tls,
        r matches Err(m) ==> m@
            == "report.email.use_tls=false is not supported; please use STARTTLS on port 587"@,
{
    if !email.use_tls {
        return Err(
            "report.email.use_tls=false is not supported; please use STARTTLS on port 587".to_owned(),
        );
    }
    Ok(())
}

} // verus!
