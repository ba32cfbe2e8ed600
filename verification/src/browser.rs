//! Opening the authorization URL in the user's browser. The attempt itself
//! is the caller's; what follows from its outcome is decided here.

use vstd::prelude::*;
use crate::error::{ErrorModel, OidcError};
use crate::text::lines_of;

verus! {

/// Something that can be asked to open a URL.
pub trait BrowserOpener {
    /// Asks for `url` to be opened. A failure to open it is no error of the
    /// flow: the user is shown the URL instead, unless `quiet`.
    fn open_with_fallback(&mut self, url: &str, quiet: bool) -> (r: Result<(), OidcError>)
        ensures
            r is Ok,
    ;
}

/// The outcome of the attempt as the flow sees it: a failure is
/// `BrowserFailed`.
pub fn open_browser(opened: bool) -> (r: Result<(), OidcError>)
    ensures
        r is Ok <==> opened,
        r matches Err(e) ==> e@ == ErrorModel::BrowserFailed,
{
    if opened {
        Ok(())
    } else {
        Err(OidcError::BrowserFailed)
    }
}

/// What the user is told after the attempt: nothing when `quiet`; that the
/// browser opens; or that it did not, with the URL to open by hand.
pub open spec fn browser_notice(opened: bool, url: Seq<char>, quiet: bool) -> Seq<Seq<char>> {
    if quiet {
        Seq::empty()
    } else if opened {
        seq!["Opening browser for authentication..."@]
    } else {
        seq![
            "Unable to open browser automatically."@,
            "Please manually open the following URL in your browser:"@,
            ""@,
            url,
            ""@,
        ]
    }
}

/// Takes the outcome of the attempt to open `url` and never fails: a browser
/// that did not open degrades to showing the URL. The lines are for the
/// caller to print.
pub fn open_browser_with_fallback(attempt: Result<(), OidcError>, url: &str, quiet: bool) -> (r:
    Result<Vec<String>, OidcError>)
    ensures
        r matches Ok(lines) && lines_of(lines@) == browser_notice(attempt is Ok, url@, quiet),
{
    let mut lines: Vec<String> = Vec::new();
    if !quiet {
        match attempt {
            Ok(_) => {
                lines.push("Opening browser for authentication...".to_string());
            },
            Err(_) => {
                lines.push("Unable to open browser automatically.".to_string());
                lines.push("Please manually open the following URL in your browser:".to_string());
                lines.push("".to_string());
                lines.push(url.to_string());
                lines.push("".to_string());
            },
        }
    }
    assert(lines_of(lines@) =~= browser_notice(attempt is Ok, url@, quiet));
    Ok(lines)
}

/// An opener that opens nothing and remembers what it was asked to open.
#[derive(Debug)]
pub struct MockBrowserOpener {
    pub opened_urls: Vec<String>,
}

impl MockBrowserOpener {
    /// An opener that was asked nothing yet.
    pub fn new() -> (r: Self)
        ensures
            r.opened_urls@.len() == 0,
    {
        MockBrowserOpener { opened_urls: Vec::new() }
    }

    /// The URLs that the opener was asked to open, in order.
    pub fn get_opened_urls(&self) -> (r: Vec<String>)
        ensures
            r@.len() == self.opened_urls@.len(),
            forall|i: int| 0 <= i < r@.len() ==> (#[trigger] r@[i])@ == self.opened_urls@[i]@,
    {
        let mut urls: Vec<String> = Vec::new();
        let mut i: usize = 0;
        while i < self.opened_urls.len()
            invariant
                i <= self.opened_urls@.len(),
                urls@.len() == i,
                forall|j: int| 0 <= j < i ==> (#[trigger] urls@[j])@ == self.opened_urls@[j]@,
            decreases self.opened_urls@.len() - i,
        {
            urls.push(self.opened_urls[i].clone());
            i = i + 1;
        }
        urls
    }

    /// Remembers `url` and succeeds.
    pub fn record(&mut self, url: &str) -> (r: Result<(), OidcError>)
        ensures
            r is Ok,
            final(self).opened_urls@.len() == old(self).opened_urls@.len() + 1,
            final(self).opened_urls@.last()@ == url@,
            final(self).opened_urls@.drop_last() == old(self).opened_urls@,
    {
        self.opened_urls.push(url.to_string());
        assert(self.opened_urls@.drop_last() =~= old(self).opened_urls@);
        Ok(())
    }
}

impl BrowserOpener for MockBrowserOpener {
    /// Remembers `url` and succeeds.
    fn open_with_fallback(&mut self, url: &str, quiet: bool) -> (r: Result<(), OidcError>)
        ensures
            final(self).opened_urls@.len() == old(self).opened_urls@.len() + 1,
            final(self).opened_urls@.last()@ == url@,
            final(self).opened_urls@.drop_last() == old(self).opened_urls@,
    {
        self.record(url)
    }
}

} // verus!
