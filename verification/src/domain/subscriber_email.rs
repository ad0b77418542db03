use crate::errors::Error;
use vstd::prelude::*;

verus! {

/// Whether `validator::validate_email` accepts a string.
pub uninterp spec fn email_is_valid(s: Seq<char>) -> bool;

/// The index of the last `@` in `s`, or -1 when there is none.
pub open spec fn last_at_index(s: Seq<char>) -> int
    decreases s.len(),
{
    if s.len() == 0 {
        -1
    } else if s.last() == '@' {
        s.len() - 1
    } else {
        last_at_index(s.drop_last())
    }
}

/// What comes before the last `@`: the user part of an address.
pub open spec fn user_part(s: Seq<char>) -> Seq<char> {
    s.take(last_at_index(s))
}

/// What comes after the last `@`: the domain part of an address.
pub open spec fn domain_part(s: Seq<char>) -> Seq<char> {
    s.skip(last_at_index(s) + 1)
}

/// Calls `validator::validate_email`. Trusted: the result is the named
/// `email_is_valid` of the characters. As its source shows, it rejects a
/// string with no `@`, one whose part before the last `@` is empty or longer
/// than 64 characters, and one whose part after it is longer than 255
/// characters. The regular expressions and the IDNA conversion that decide
/// the other cases are not stated.
#[verifier::external_body]
fn validate_email(s: &str) -> (b: bool)
    ensures
        b == email_is_valid(s@),
        !s@.contains('@') ==> !b,
        s@.contains('@') && user_part(s@).len() == 0 ==> !b,
        s@.contains('@') && user_part(s@).len() > 64 ==> !b,
        s@.contains('@') && domain_part(s@).len() > 255 ==> !b,
{
    validator::validate_email(s)
}

pub open spec fn invalid_email_message(s: Seq<char>) -> Seq<char> {
    s + " is not a valid subscriber email."@
}

/// The error that a rejected email `s` gives.
pub open spec fn is_email_error(e: Error, s: Seq<char>) -> bool {
    e matches Error::ValidateSubscriberEmailError(m) && m@ == invalid_email_message(s)
}

/// A rejected email `s` is answered with exactly the error
/// `ValidateSubscriberEmailError("{s} is not a valid subscriber email.")`.
pub proof fn lemma_email_error_text(e: Error, s: Seq<char>)
    ensures
        is_email_error(e, s) <==> (e matches Error::ValidateSubscriberEmailError(m) && m@ == s
            + " is not a valid subscriber email."@),
{
}

/// The last `@` splits an address: there is none exactly when the string
/// holds no `@`; otherwise it stands at `last_at_index`, the user part and
/// the domain part are what comes before and after it, and the domain part
/// holds no `@`.
pub proof fn lemma_last_at_splits_the_address(s: Seq<char>)
    ensures
        last_at_index(s) == -1 <==> !s.contains('@'),
        s.contains('@') ==> {
            &&& 0 <= last_at_index(s) < s.len()
            &&& s[last_at_index(s)] == '@'
            &&& !domain_part(s).contains('@')
            &&& user_part(s) + seq!['@'] + domain_part(s) == s
        },
    decreases s.len(),
{
    if s.len() > 0 {
        let t = s.drop_last();
        lemma_last_at_splits_the_address(t);
        if s.last() == '@' {
            assert(s[s.len() - 1] == '@');
            assert(domain_part(s) =~= Seq::<char>::empty());
            assert(user_part(s) + seq!['@'] + domain_part(s) =~= s);
        } else {
            assert(s.contains('@') <==> t.contains('@')) by {
                if s.contains('@') {
                    let i = choose|i: int| 0 <= i < s.len() && s[i] == '@';
                    assert(t[i] == '@');
                }
                if t.contains('@') {
                    let i = choose|i: int| 0 <= i < t.len() && t[i] == '@';
                    assert(s[i] == '@');
                }
            }
            if s.contains('@') {
                let k = last_at_index(t);
                assert(last_at_index(s) == k);
                assert(domain_part(s) =~= domain_part(t).push(s.last()));
                assert(user_part(s) =~= user_part(t));
                if domain_part(s).contains('@') {
                    let i = choose|i: int| 0 <= i < domain_part(s).len() && domain_part(s)[i] == '@';
                    if i < domain_part(t).len() {
                        assert(domain_part(t)[i] == '@');
                    }
                }
                assert(user_part(s) + seq!['@'] + domain_part(s) =~= s) by {
                    assert(user_part(t) + seq!['@'] + domain_part(t) == t);
                }
            }
        }
    }
}

/// A subscriber's email address. `parse` makes one only from an address that
/// `validator` accepts; `parse_with_verdict` trusts the verdict it is given,
/// so a value does not by itself prove that its text is valid.
#[derive(Debug)]
pub struct SubscriberEmail(String);

impl View for SubscriberEmail {
    type V = Seq<char>;

    closed spec fn view(&self) -> Seq<char> {
        self.0@
    }
}

impl SubscriberEmail {
    /// Returns a `SubscriberEmail` when `validator` accepts `s` as an email
    /// address, an error that quotes `s` otherwise.
    pub fn parse(s: &str) -> (r: Result<SubscriberEmail, Error>)
        ensures
            r is Ok <==> email_is_valid(s@),
            r matches Ok(m) ==> m@ == s@,
            r matches Err(e) ==> is_email_error(e, s@),
            !s@.contains('@') ==> r is Err,
            s@.contains('@') && user_part(s@).len() == 0 ==> r is Err,
    {
        let valid = validate_email(s);
        Self::parse_with_verdict(s, valid)
    }

    /// The rule of `parse`, given whether `s` is a valid email address.
    pub fn parse_with_verdict(s: &str, valid: bool) -> (r: Result<SubscriberEmail, Error>)
        ensures
            r is Ok <==> valid,
            r matches Ok(m) ==> m@ == s@,
            r matches Err(e) ==> is_email_error(e, s@),
    {
        if valid {
            Ok(SubscriberEmail(String::from_str(s)))
        } else {
            let mut message = String::from_str(s);
            message.append(" is not a valid subscriber email.");
            Err(Error::ValidateSubscriberEmailError(message))
        }
    }
}

impl Clone for SubscriberEmail {
    fn clone(&self) -> (r: Self)
        ensures
            r@ == self@,
    {
        SubscriberEmail(self.0.clone())
    }
}

impl AsRef<str> for SubscriberEmail {
    fn as_ref(&self) -> (r: &str)
        ensures
            r@ == self@,
    {
        self.0.as_str()
    }
}

} // verus!
