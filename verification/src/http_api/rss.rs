//! The RSS bridge: which source a request names, which of its items are
//! rendered, and what an item's description is made of.

use vstd::prelude::*;
use vstd::string::StringExecFns;

use crate::uri::{canonical_uri, canonicalize_uri};

verus! {

/// Number of items of a channel where the request names none.
pub const DEFAULT_ITEM_COUNT: usize = 20;

/// The URI of the source that a request names by its domain and its path:
/// the canonical form of `<domain>:///<path>`.
pub fn source_uri(domain: &str, path: &str) -> (res: Result<String, ()>)
    ensures
        match canonical_uri(domain@ + "://"@ + "/"@ + path@) {
            Some(u) => res matches Ok(uri) && uri@ == u.text,
            None => res is Err,
        },
{
    let mut uri = String::from_str(domain);
    uri.append("://");
    uri.append("/");
    uri.append(path);
    match canonicalize_uri(uri.as_str()) {
        Ok(u) => Ok(u.text),
        Err(_) => Err(()),
    }
}

/// The places of the items of a channel, in the order in which they are
/// rendered: the last `limit` of `len` items, the last one first.
pub open spec fn rendered_items(len: nat, limit: nat) -> Seq<usize> {
    Seq::new(
        if limit < len {
            limit
        } else {
            len
        },
        |i: int| (len - 1 - i) as usize,
    )
}

/// The places of the items that are rendered.
pub fn latest_items(len: usize, limit: usize) -> (places: Vec<usize>)
    ensures
        places@ == rendered_items(len as nat, limit as nat),
{
    let count = if limit < len {
        limit
    } else {
        len
    };
    let mut places: Vec<usize> = Vec::new();
    let mut i: usize = 0;
    while i < count
        invariant
            i <= count <= len,
            places@.len() == i,
            forall|j: int| 0 <= j < i ==> places@[j] == (len - 1 - j) as usize,
        decreases count - i,
    {
        places.push(len - 1 - i);
        i += 1;
    }
    assert(places@ =~= rendered_items(len as nat, limit as nat));
    places
}

/// One part of the preface or the appendix of an item: a heading and a text.
#[derive(Debug)]
pub struct Note {
    pub heading: String,
    pub text: String,
}

/// A note as a quotation with its heading.
pub open spec fn quoted(heading: Seq<char>, text: Seq<char>) -> Seq<char> {
    "<blockquote><h3>"@ + heading + "</h3>"@ + text + "</blockquote>"@
}

/// The notes as quotations, one after the other.
pub open spec fn quotations(notes: Seq<Note>) -> Seq<char>
    decreases notes.len(),
{
    if notes.len() == 0 {
        Seq::empty()
    } else {
        quotations(notes.drop_last()) + quoted(notes.last().heading@, notes.last().text@)
    }
}

/// Writes notes as quotations.
pub fn blockquotes(notes: &Vec<Note>) -> (html: String)
    ensures
        html@ == quotations(notes@),
{
    let mut contents = String::new();
    let mut i: usize = 0;
    assert(notes@.take(0) =~= Seq::<Note>::empty());
    while i < notes.len()
        invariant
            i <= notes@.len(),
            contents@ == quotations(notes@.take(i as int)),
        decreases notes@.len() - i,
    {
        proof {
            assert(notes@.take(i + 1).drop_last() =~= notes@.take(i as int));
            assert(notes@.take(i + 1).last() == notes@[i as int]);
        }
        let ghost before = contents@;
        contents.append("<blockquote><h3>");
        contents.append(notes[i].heading.as_str());
        contents.append("</h3>");
        contents.append(notes[i].text.as_str());
        contents.append("</blockquote>");
        assert(contents@ =~= before + quoted(notes@[i as int].heading@, notes@[i as int].text@));
        i += 1;
    }
    assert(notes@.take(i as int) =~= notes@);
    contents
}

/// The text of an optional string, or the empty text.
pub open spec fn text_or_empty(s: Option<String>) -> Seq<char> {
    match s {
        Some(s) => s@,
        None => Seq::empty(),
    }
}

/// The description of an item: its preface, its contents and its appendix,
/// one after the other; nothing where it has none of them.
pub fn item_contents(preface: Option<String>, main: Option<String>, appendix: Option<String>) -> (contents:
    Option<String>)
    ensures
        match contents {
            Some(c) => (preface is Some || main is Some || appendix is Some) && c@
                == text_or_empty(preface) + text_or_empty(main) + text_or_empty(appendix),
            None => preface is None && main is None && appendix is None,
        },
{
    if preface.is_some() || main.is_some() || appendix.is_some() {
        let mut c = String::new();
        if let Some(pre) = &preface {
            c.append(pre.as_str());
        }
        if let Some(m) = &main {
            c.append(m.as_str());
        }
        if let Some(app) = &appendix {
            c.append(app.as_str());
        }
        assert(c@ =~= text_or_empty(preface) + text_or_empty(main) + text_or_empty(appendix));
        Some(c)
    } else {
        None
    }
}

} // verus!
