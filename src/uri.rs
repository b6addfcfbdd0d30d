//! rsync URIs as text, checked by the `rpki` crate.
use vstd::prelude::*;

verus! {

#[verifier::external_type_specification]
#[verifier::external_body]
pub struct ExUriError(rpki::uri::Error);

/// Whether a text is a valid rsync URI as the `rpki` crate's parser sees it.
pub uninterp spec fn is_rsync_uri(s: Seq<char>) -> bool;

/// Relies on `rpki::uri::Rsync::from_string`: it accepts a text exactly when
/// the text is an rsync URI, and the outcome depends on the text alone.
#[verifier::external_body]
fn check_rsync(s: &String) -> (r: Result<(), rpki::uri::Error>)
    ensures
        r is Ok <==> is_rsync_uri(s@),
{
    match rpki::uri::Rsync::from_string(s.clone()) {
        Ok(_) => Ok(()),
        Err(e) => Err(e),
    }
}

/// Relies on `String::push_str`: appends the text of `t`.
#[verifier::external_body]
pub(crate) fn push_str(s: &mut String, t: &str)
    ensures
        final(s)@ == old(s)@ + t@,
{
    s.push_str(t)
}

/// An rsync URI, held as its text. The text is always one that the `rpki`
/// crate accepts as an rsync URI; it is kept exactly as it was given.
pub struct RsyncUri {
    text: String,
}

impl View for RsyncUri {
    type V = Seq<char>;

    closed spec fn view(&self) -> Seq<char> {
        self.text@
    }
}

impl RsyncUri {
    /// The text is an rsync URI.
    pub closed spec fn wf(&self) -> bool {
        is_rsync_uri(self.text@)
    }

    /// Checks `s` and keeps it as the URI's text.
    pub fn from_string(s: String) -> (r: Result<RsyncUri, rpki::uri::Error>)
        ensures
            r is Ok <==> is_rsync_uri(s@),
            r matches Ok(u) ==> u@ == s@ && u.wf(),
    {
        match check_rsync(&s) {
            Ok(()) => Ok(RsyncUri { text: s }),
            Err(e) => Err(e),
        }
    }

    /// The URI's text.
    pub fn as_str(&self) -> (r: &str)
        ensures
            r@ == self@,
    {
        self.text.as_str()
    }

    /// The URI's text, as an owned string.
    pub fn to_text(&self) -> (r: String)
        ensures
            r@ == self@,
    {
        self.text.clone()
    }

    pub fn clone(&self) -> (r: RsyncUri)
        ensures
            r@ == self@,
            self.wf() ==> r.wf(),
    {
        RsyncUri { text: self.text.clone() }
    }
}

} // verus!
