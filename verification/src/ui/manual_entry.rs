//! The authorization code as the user enters it by hand, for a redirect URI
//! that no local listener can serve.

use vstd::prelude::*;
use crate::server::param;
use crate::text::{chars_of, slice_string, trim_bounds, trimmed};
use crate::trusted::{parse_url, url_parse};
use crate::utils::url::{parse_query_params, query_params};

verus! {

/// What a line of input gives.
#[derive(Debug)]
pub enum ManualEntry {
    /// The authorization code.
    Code(String),
    /// Nothing was entered: ask again.
    Empty,
    /// A URL without a code: ask again.
    Unusable,
}

/// The model of a `ManualEntry`.
pub enum EntryModel {
    Code(Seq<char>),
    Empty,
    Unusable,
}

impl View for ManualEntry {
    type V = EntryModel;

    open spec fn view(&self) -> EntryModel {
        match self {
            ManualEntry::Code(code) => EntryModel::Code(code@),
            ManualEntry::Empty => EntryModel::Empty,
            ManualEntry::Unusable => EntryModel::Unusable,
        }
    }
}

/// Whether `://` stands at position `i` of a text.
pub open spec fn mark_at(text: Seq<char>, i: int) -> bool {
    0 <= i && i + 3 <= text.len() && text[i] == ':' && text[i + 1] == '/' && text[i + 2] == '/'
}

/// Whether a text holds `://`.
pub open spec fn has_mark(text: Seq<char>) -> bool {
    exists|i: int| mark_at(text, i)
}

/// The code in the query of a callback URL, if the text is a URL with a query
/// that has a parameter `code`.
pub open spec fn code_in_url(text: Seq<char>) -> Option<Seq<char>> {
    match url_parse(text) {
        Some(url) => match url.query {
            Some(query) => param(query_params(query), "code"@),
            None => None,
        },
        None => None,
    }
}

/// What a line of input gives, whitespace at its ends aside: nothing where it
/// is empty; the code of a callback URL; the text itself where it holds no
/// `://`; else nothing usable.
pub open spec fn entered(input: Seq<char>) -> EntryModel {
    let text = trimmed(input);
    if text.len() == 0 {
        EntryModel::Empty
    } else {
        match code_in_url(text) {
            Some(code) => EntryModel::Code(code),
            None => if has_mark(text) {
                EntryModel::Unusable
            } else {
                EntryModel::Code(text)
            },
        }
    }
}

/// Whether the characters `from..to` hold `://`.
fn holds_mark(chars: &Vec<char>, from: usize, to: usize) -> (r: bool)
    requires
        from <= to <= chars@.len(),
    ensures
        r == has_mark(chars@.subrange(from as int, to as int)),
{
    let ghost text = chars@.subrange(from as int, to as int);
    let mut i: usize = from;
    while to - i >= 3
        invariant
            from <= i <= to <= chars@.len(),
            text == chars@.subrange(from as int, to as int),
            forall|j: int| 0 <= j < i - from ==> !mark_at(text, j),
        decreases to - i,
    {
        if chars[i] == ':' && chars[i + 1] == '/' && chars[i + 2] == '/' {
            assert(mark_at(text, i - from));
            return true;
        }
        i = i + 1;
    }
    false
}

/// Reads the authorization code from a line of input.
pub fn handle_manual_code_entry(input: &str) -> (r: ManualEntry)
    ensures
        r@ == entered(input@),
{
    let chars = chars_of(input);
    let (start, end) = trim_bounds(&chars);
    if start == end {
        return ManualEntry::Empty;
    }
    let text = slice_string(input, start, end);
    match parse_url(text.as_str()) {
        Ok(url) => match &url.query {
            Some(query) => {
                let params = parse_query_params(query.as_str());
                match params.get("code") {
                    Some(code) => {
                        return ManualEntry::Code(code.clone());
                    },
                    None => {},
                }
            },
            None => {},
        },
        Err(_) => {},
    }
    if !holds_mark(&chars, start, end) {
        return ManualEntry::Code(text);
    }
    ManualEntry::Unusable
}

} // verus!
