//! Requests, and the URLs that their targets stand for.
use vstd::prelude::*;
use vstd::string::*;

use crate::decoder::{RequestHead, RequestHeadView};
use crate::status::ErrorKind;

verus! {

/// `url::ParseError`, carried through.
#[verifier::external_type_specification]
#[verifier::external_body]
pub struct ExParseError(url::ParseError);

/// The serialization of the absolute URL that `text` denotes; `None` where it denotes none.
pub uninterp spec fn url_parsed(text: Seq<char>) -> Option<Seq<char>>;

/// The serialization and the path of the URL that `input` denotes relative to the URL `base`;
/// `None` where it denotes none.
pub uninterp spec fn url_joined(base: Seq<char>, input: Seq<char>) -> Option<(Seq<char>, Seq<char>)>;

/// `url::Url::parse`.
///
/// Claimed of it: the outcome depends on the text alone, and is what [`url_parsed`] names.
#[verifier::external_body]
pub(crate) fn parse_url(text: &str) -> (r: Result<String, url::ParseError>)
    ensures
        match url_parsed(text@) {
            Some(url) => r matches Ok(s) && s@ == url,
            None => r is Err,
        },
{
    url::Url::parse(text).map(String::from)
}

/// `url::Url::join`, on a base that is given by its serialization.
///
/// Claimed of it: the outcome depends on the base and the input alone, and is what
/// [`url_joined`] names. The base is parsed anew, so a text that is no URL is an error too.
#[verifier::external_body]
pub(crate) fn join_url(base: &str, input: &str) -> (r: Result<(String, String), url::ParseError>)
    ensures
        match url_joined(base@, input@) {
            Some((url, path)) => r matches Ok((s, p)) && s@ == url && p@ == path,
            None => r is Err,
        },
{
    let url = url::Url::parse(base)?.join(input)?;
    Ok((url.as_str().to_owned(), url.path().to_owned()))
}

/// A request without its body: its head, and the URL that its target stands for.
#[derive(Debug)]
pub struct Req {
    pub head: RequestHead,
    /// The whole URL.
    pub url: String,
    /// The path of the URL.
    pub path: String,
}

/// What a [`Req`] says.
pub struct ReqView {
    pub head: RequestHeadView,
    pub url: Seq<char>,
    pub path: Seq<char>,
}

impl View for Req {
    type V = ReqView;

    open spec fn view(&self) -> ReqView {
        ReqView { head: self.head@, url: self.url@, path: self.path@ }
    }
}

impl Req {
    /// The request that `head` makes, given what its target was resolved to.
    pub open spec fn resolved(head: RequestHeadView, joined: Option<(Seq<char>, Seq<char>)>) -> Option<
        ReqView,
    > {
        match joined {
            Some((url, path)) => Some(ReqView { head, url, path }),
            None => None,
        }
    }

    /// Resolves the target of a request against the base URL of its connection.
    ///
    /// # Errors
    ///
    /// If the target does not make a URL, the answer is `ErrorKind::InvalidInput`.
    pub fn new(head: RequestHead, base_url: &str) -> (r: Result<Req, ErrorKind>)
        ensures
            match Req::resolved(head@, url_joined(base_url@, head@.target)) {
                Some(req) => r matches Ok(q) && q@ == req,
                None => r == Err::<Req, ErrorKind>(ErrorKind::InvalidInput),
            },
            r is Ok <==> url_joined(base_url@, head@.target) is Some,
            r matches Ok(q) ==> q.head == head && url_joined(base_url@, head@.target) == Some(
                (q.url@, q.path@),
            ),
    {
        match join_url(base_url, head.target.as_str()) {
            Ok((url, path)) => Ok(Req { head, url, path }),
            Err(_) => Err(ErrorKind::InvalidInput),
        }
    }
}

/// The text of the base URL of a connection whose local address reads `local_addr`.
pub open spec fn base_url_text(local_addr: Seq<char>) -> Seq<char> {
    "http://"@ + local_addr + "/"@
}

/// Writes the base URL of a connection whose local address reads `local_addr`.
pub fn base_url(local_addr: &str) -> (r: String)
    ensures
        r@ == base_url_text(local_addr@),
        r@ == "http://"@ + local_addr@ + "/"@,
{
    let mut text = "http://".to_owned();
    text.append(local_addr);
    text.append("/");
    text
}

} // verus!
