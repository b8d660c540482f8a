//! Looking up the license of one dependency.
//!
//! A lookup never fails: whatever goes wrong on the way is written into the
//! record that it ends with. The library decides and the caller acts: each
//! step hands the caller what to fetch or what to analyse, and takes what came
//! of it.

use vstd::prelude::*;
use vstd::string::*;
use crate::dependency::{RetrievedDependency, RetrievedDependencyView};
use crate::score::Score;

pub mod crates_io;
pub mod docs_rs;
pub mod hosted;
pub mod npm;

verus! {

/// The header by which every request names its sender.
pub const USER_AGENT: &'static str = "licensebat-cli (licensebat.com)";

/// A GET request.
#[derive(Debug, PartialEq, Eq)]
pub struct Request {
    /// Where to send it.
    pub url: String,
    /// The value of the `User-Agent` header.
    pub user_agent: String,
}

/// What a `Request` holds.
pub struct RequestView {
    pub url: Seq<char>,
    pub user_agent: Seq<char>,
}

impl View for Request {
    type V = RequestView;

    open spec fn view(&self) -> RequestView {
        RequestView { url: self.url@, user_agent: self.user_agent@ }
    }
}

impl Request {
    /// The request for `url`.
    pub fn to(url: String) -> (r: Request)
        ensures
            r@ == (RequestView { url: url@, user_agent: USER_AGENT@ }),
    {
        Request { url, user_agent: String::from_str(USER_AGENT) }
    }
}

/// The known license that a text comes closest to.
#[derive(Debug, PartialEq, Eq)]
pub struct LicenseMatch {
    /// The name of the license.
    pub name: String,
    /// How close the text comes to it.
    pub score: Score,
}

/// What a `LicenseMatch` holds.
pub struct LicenseMatchView {
    pub name: Seq<char>,
    pub score: Score,
}

impl View for LicenseMatch {
    type V = LicenseMatchView;

    open spec fn view(&self) -> LicenseMatchView {
        LicenseMatchView { name: self.name@, score: self.score }
    }
}

/// What a lookup asks of its caller next.
#[derive(Debug, PartialEq, Eq)]
pub enum Next {
    /// Send the request, and hand back the body of the answer or the error.
    Fetch(Request),
    /// Compare the text with the known licenses, and hand back the match.
    Analyze(String),
    /// The lookup has ended with this record.
    Done(RetrievedDependency),
}

/// What a `Next` holds.
pub enum NextView {
    Fetch(RequestView),
    Analyze(Seq<char>),
    Done(RetrievedDependencyView),
}

impl View for Next {
    type V = NextView;

    open spec fn view(&self) -> NextView {
        match self {
            Next::Fetch(request) => NextView::Fetch(request@),
            Next::Analyze(text) => NextView::Analyze(text@),
            Next::Done(record) => NextView::Done(record@),
        }
    }
}

/// The single license of a record.
pub fn one_license(license: &str) -> (r: Vec<String>)
    ensures
        r.deep_view() == seq![license@],
{
    let mut r: Vec<String> = Vec::new();
    r.push(String::from_str(license));
    assert(r.deep_view() =~= seq![license@]);
    r
}

/// `a` followed by `b`.
pub fn concat2(a: &str, b: &str) -> (r: String)
    ensures
        r@ == a@ + b@,
{
    let mut r = String::from_str(a);
    r.append(b);
    r
}

/// `a`, `b` and `c`, one after the other.
pub fn concat3(a: &str, b: &str, c: &str) -> (r: String)
    ensures
        r@ == a@ + b@ + c@,
{
    let mut r = String::from_str(a);
    r.append(b);
    r.append(c);
    r
}

/// `a`, `b`, `c` and `d`, one after the other.
pub fn concat4(a: &str, b: &str, c: &str, d: &str) -> (r: String)
    ensures
        r@ == a@ + b@ + c@ + d@,
{
    let mut r = String::from_str(a);
    r.append(b);
    r.append(c);
    r.append(d);
    r
}

} // verus!
