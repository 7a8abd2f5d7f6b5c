//! The seeded superadmin account: what is done to it at start-up, and the
//! checks on its e-mail address.
use vstd::prelude::*;

use crate::config::Config;

verus! {

/// An e-mail address as accepted here: exactly one `@`, something before it,
/// and a `.` somewhere after it.
pub open spec fn plausible_email(s: Seq<char>) -> bool {
    exists|i: int|
        0 < i < s.len() && s[i] == '@' && (forall|j: int| 0 <= j < s.len() && j != i ==> s[j] != '@')
            && #[trigger] s.subrange(i + 1, s.len() as int).contains('.')
}

pub fn validate_email(email: &str) -> (r: bool)
    ensures
        r == plausible_email(email@),
{
    let cs = crate::text::chars_of(email);
    let mut at: Option<usize> = None;
    let mut ats: usize = 0;
    for i in 0..cs.len()
        invariant
            cs@ == email@,
            ats <= i,
            ats == 0 ==> at is None && forall|j: int| 0 <= j < i ==> cs@[j] != '@',
            ats >= 1 ==> (at matches Some(k) && k < i && cs@[k as int] == '@'
                && forall|j: int| 0 <= j < k ==> cs@[j] != '@'),
            ats == 1 ==> (at matches Some(k) && forall|j: int| 0 <= j < i && j != k ==> cs@[j] != '@'),
            ats >= 2 ==> exists|j: int| 0 <= j < i && cs@[j] == '@' && j != at->0,
    {
        if cs[i] == '@' {
            if ats == 0 {
                at = Some(i);
            }
            ats = ats + 1;
        }
    }
    if ats != 1 {
        proof {
            if ats == 0 {
                assert(!plausible_email(email@));
            } else {
                assert forall|i: int| 0 < i < email@.len() && email@[i] == '@' implies
                    !(forall|j: int| 0 <= j < email@.len() && j != i ==> email@[j] != '@') by {
                    let k = at->0;
                    if i != k as int {
                        assert(email@[k as int] == '@');
                    } else {
                        let j2 = choose|j: int| 0 <= j < cs@.len() && cs@[j] == '@' && j != at->0;
                        assert(email@[j2] == '@');
                    }
                }
            }
        }
        return false;
    }
    let k = match at {
        Some(k) => k,
        None => return false,
    };
    if k == 0 {
        return false;
    }
    let domain = crate::text::chars_slice(&cs, k + 1, cs.len());
    let r = crate::text::chars_has(&domain, '.');
    proof {
        if r {
            assert(email@.subrange(k + 1, email@.len() as int) == domain@);
            assert(plausible_email(email@));
        } else if plausible_email(email@) {
            let i = choose|i: int|
                0 < i < email@.len() && email@[i] == '@' && (forall|j: int| 0 <= j < email@.len() && j != i ==> email@[j] != '@')
                    && #[trigger] email@.subrange(i + 1, email@.len() as int).contains('.');
            assert(i == k as int);
            assert(email@.subrange(k + 1, email@.len() as int) == domain@);
        }
    }
    r
}

/// What start-up does to the superadmin account.
#[derive(Clone, Debug)]
pub enum SuperadminStep {
    /// Set the existing superadmin's password, which is then no longer the
    /// default one.
    SetPassword { user_id: String, password: String },
    /// Mark the existing superadmin's password as the default one.
    MarkDefault { user_id: String },
    /// Create the superadmin with this e-mail and password.
    Create { email: String, password: String, password_is_default: bool },
}

/// The start-up step for the superadmin: with a password configured, the
/// existing account takes it; without one, the existing account is marked
/// as using the default password; with no account yet, one is created
/// with the configured password or the default `admin`.
pub fn superadmin_step(existing_id: Option<String>, config: &Config) -> (r: SuperadminStep)
    ensures
        match existing_id {
            Some(id) => match config.superadmin_password {
                Some(pw) => r matches SuperadminStep::SetPassword { user_id, password } && user_id@ == id@ && password@ == pw@,
                None => r matches SuperadminStep::MarkDefault { user_id } && user_id@ == id@,
            },
            None => r matches SuperadminStep::Create { email, password, password_is_default } && email@
                == config.superadmin_email@ && password_is_default == (config.superadmin_password is None) && password@
                == match config.superadmin_password {
                Some(pw) => pw@,
                None => "admin"@,
            },
        },
{
    match existing_id {
        Some(user_id) => match &config.superadmin_password {
            Some(pw) => SuperadminStep::SetPassword { user_id, password: pw.clone() },
            None => SuperadminStep::MarkDefault { user_id },
        },
        None => {
            let (password, password_is_default) = match &config.superadmin_password {
                Some(pw) => (pw.clone(), false),
                None => (String::from_str("admin"), true),
            };
            SuperadminStep::Create { email: config.superadmin_email.clone(), password, password_is_default }
        },
    }
}

} // verus!
