use vstd::prelude::*;

verus! {

/// What `url::Url::parse` makes of a text: the serialization of the URL it
/// reads, or `None` where it rejects the text.
pub uninterp spec fn url_parse(text: Seq<char>) -> Option<Seq<char>>;

/// `url::Url::parse` followed by `String::from`: the result is the
/// serialization that the parser produced for `text`, absent exactly when the
/// parser rejected it.
#[verifier::external_body]
fn parse_url(text: &str) -> (r: Option<String>)
    ensures
        r.deep_view() == url_parse(text@),
{
    match url::Url::parse(text) {
        Ok(url) => Some(String::from(url)),
        Err(_) => None,
    }
}

/// An absolute URL in its canonical serialization. Two identities are the
/// same exactly when their serializations are.
#[derive(Debug)]
pub struct Uri {
    text: String,
}

impl View for Uri {
    type V = Seq<char>;

    closed spec fn view(&self) -> Seq<char> {
        self.text@
    }
}

impl DeepView for Uri {
    type V = Seq<char>;

    open spec fn deep_view(&self) -> Seq<char> {
        self@
    }
}

impl Clone for Uri {
    fn clone(&self) -> (r: Self)
        ensures
            r == *self,
    {
        Uri { text: self.text.clone() }
    }
}

impl Uri {
    /// Reads `text` as an absolute URL.
    pub fn parse(text: &str) -> (r: Option<Uri>)
        ensures
            r.deep_view() == url_parse(text@),
    {
        match parse_url(text) {
            Some(text) => Some(Uri { text }),
            None => None,
        }
    }

    /// The canonical serialization.
    pub fn as_str(&self) -> (r: &str)
        ensures
            r@ == self@,
    {
        self.text.as_str()
    }

    /// Whether two identities are the same.
    pub fn same(&self, other: &Uri) -> (r: bool)
        ensures
            r == (self@ == other@),
    {
        self.text == other.text
    }
}

} // verus!
