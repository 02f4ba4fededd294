//! The paginated response envelope: a payload and optional navigation links.

use vstd::prelude::*;

verus! {

/// The mathematical value of an optional text.
pub open spec fn opt_text(text: Option<String>) -> Option<Seq<char>> {
    match text {
        Some(t) => Some(t@),
        None => None,
    }
}

/// The mapping that a list of entries stands for: a later entry replaces an
/// earlier one of the same name.
pub open spec fn entries_map(entries: Seq<(String, Option<String>)>) -> Map<
    Seq<char>,
    Option<Seq<char>>,
>
    decreases entries.len(),
{
    if entries.len() == 0 {
        Map::empty()
    } else {
        entries_map(entries.drop_last()).insert(entries.last().0@, opt_text(entries.last().1))
    }
}

/// Navigation links of a response: a mapping from a link's name (`next`,
/// `prev`, ...) to its target, which is a URL or absent.
#[derive(Debug)]
pub struct Links {
    entries: Vec<(String, Option<String>)>,
}

impl View for Links {
    type V = Map<Seq<char>, Option<Seq<char>>>;

    closed spec fn view(&self) -> Map<Seq<char>, Option<Seq<char>>> {
        entries_map(self.entries@)
    }
}

impl Links {
    /// The empty mapping.
    pub fn new() -> (links: Links)
        ensures
            links@ == Map::<Seq<char>, Option<Seq<char>>>::empty(),
    {
        Links { entries: Vec::new() }
    }

    /// Maps `name` to `target`, replacing what `name` was mapped to before.
    pub fn insert(&mut self, name: String, target: Option<String>)
        ensures
            final(self)@ == old(self)@.insert(name@, opt_text(target)),
    {
        let ghost before = self.entries@;
        self.entries.push((name, target));
        assert(self.entries@.drop_last() =~= before);
    }

    /// Gives up the mapping for a list of entries that stands for it.
    pub fn into_entries(self) -> (entries: Vec<(String, Option<String>)>)
        ensures
            entries_map(entries@) == self@,
    {
        self.entries
    }

    /// What `name` is mapped to: `None` where the mapping has no such name,
    /// `Some(None)` where the name is there and its target is absent.
    pub fn get(&self, name: &str) -> (found: Option<&Option<String>>)
        ensures
            match found {
                Some(target) => self@.contains_key(name@) && self@[name@] == opt_text(*target),
                None => !self@.contains_key(name@),
            },
    {
        let wanted = String::from_str(name);
        let mut i: usize = self.entries.len();
        assert(self.entries@.take(i as int) =~= self.entries@);
        while i > 0
            invariant
                i <= self.entries.len(),
                wanted@ == name@,
                entries_map(self.entries@).contains_key(name@) == entries_map(
                    self.entries@.take(i as int),
                ).contains_key(name@),
                entries_map(self.entries@).contains_key(name@) ==> entries_map(self.entries@)[name@]
                    == entries_map(self.entries@.take(i as int))[name@],
            decreases i,
        {
            let ghost prefix = self.entries@.take(i as int);
            assert(prefix.drop_last() =~= self.entries@.take(i - 1));
            i = i - 1;
            if self.entries[i].0 == wanted {
                return Some(&self.entries[i].1);
            }
        }
        None
    }
}

/// The mathematical value of one page of a listing: its records in the
/// server's order, and the URL of the page that follows, if one does.
pub struct Page<T> {
    pub data: Seq<T>,
    pub next: Option<Seq<char>>,
}

/// One response of the API: the payload and, on a paginated listing, the
/// navigation links. A single-resource response has no links at all.
#[derive(Debug)]
pub struct Envelope<D> {
    pub data: D,
    pub links: Option<Links>,
}

impl<D> Envelope<D> {
    /// The URL of the page that follows this one: the target of the link
    /// named `next`. There is none where the envelope has no links, where the
    /// links have no `next`, or where `next` has no target.
    pub open spec fn next(&self) -> Option<Seq<char>> {
        match self.links {
            Some(links) => if links@.contains_key("next"@) {
                links@["next"@]
            } else {
                None
            },
            None => None,
        }
    }

    /// Whether a page follows this one.
    pub fn has_next(&self) -> (yes: bool)
        ensures
            yes == self.next().is_some(),
    {
        match &self.links {
            Some(links) => match links.get("next") {
                Some(target) => target.is_some(),
                None => false,
            },
            None => false,
        }
    }

    /// The URL of the page that follows this one, if one does.
    pub fn next_link(&self) -> (url: Option<String>)
        ensures
            opt_text(url) == self.next(),
    {
        match &self.links {
            Some(links) => match links.get("next") {
                Some(target) => target.clone(),
                None => None,
            },
            None => None,
        }
    }
}

impl<T> Envelope<Vec<T>> {
    /// The page that a list response stands for.
    pub open spec fn page(&self) -> Page<T> {
        Page { data: self.data@, next: self.next() }
    }
}

} // verus!
