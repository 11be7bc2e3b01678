//! Secrets: text that is kept out of debugging output.
use vstd::prelude::*;

verus! {

/// An API key, or any other semi-secret text.
///
/// The type has no `Debug`; [`Secret::redacted`] gives what a log may show.
/// Use [`Secret::revealed`] to get the text itself.
#[derive(Clone)]
pub struct Secret(String);

impl View for Secret {
    type V = Seq<char>;

    closed spec fn view(&self) -> Seq<char> {
        self.0@
    }
}

impl Secret {
    /// The text of this secret.
    pub fn revealed(&self) -> (r: &str)
        ensures
            r@ == self@,
    {
        self.0.as_str()
    }

    /// A secret holding a copy of `s`.
    #[allow(clippy::should_implement_trait)]
    pub fn from_str(s: &str) -> (r: Self)
        ensures
            r@ == s@,
    {
        Secret(s.to_owned())
    }

    /// A secret holding `s`.
    pub fn from_string(s: String) -> (r: Self)
        ensures
            r@ == s@,
    {
        Secret(s)
    }

    /// What debugging output shows of a secret: never its text.
    pub fn redacted(&self) -> (r: String)
        ensures
            r@ == "Secret(****)"@,
    {
        "Secret(****)".to_owned()
    }
}

impl From<String> for Secret {
    fn from(value: String) -> (r: Self) {
        Secret(value)
    }
}

impl vstd::std_specs::convert::FromSpecImpl<String> for Secret {
    open spec fn obeys_from_spec() -> bool {
        true
    }

    closed spec fn from_spec(value: String) -> Secret {
        Secret(value)
    }
}

} // verus!
