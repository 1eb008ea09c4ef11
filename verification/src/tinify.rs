//! The entry point: it holds the configuration and makes clients.

use vstd::prelude::*;
use crate::client::Client;
use crate::address::shrink_address;
use crate::error::TinifyError;
use crate::error::TinifyErrorView;
use crate::http::Request;
use crate::source::fetching;
use crate::source::shrinking;
use crate::source::Pending;
use crate::source::LoneTransform;
use crate::source::SourceView;

verus! {

/// The configuration of the clients to be made.
#[derive(Debug)]
pub struct Tinify {
    pub key: String,
    /// What becomes of a transform that no convert accompanies.
    pub lone_transform: LoneTransform,
}

impl Default for Tinify {
    fn default() -> (r: Tinify)
        ensures
            r.key@ == Seq::<char>::empty(),
            r.lone_transform == LoneTransform::Reject,
    {
        Tinify::new()
    }
}

impl Tinify {
    /// A configuration with an empty key, set to reject a lone transform.
    pub fn new() -> (r: Tinify)
        ensures
            r.key@ == Seq::<char>::empty(),
            r.lone_transform == LoneTransform::Reject,
    {
        Tinify { key: String::new(), lone_transform: LoneTransform::Reject }
    }

    /// Sets the key.
    pub fn set_key(self, key: &str) -> (r: Tinify)
        ensures
            r.key@ == key@,
            r.lone_transform == self.lone_transform,
    {
        Tinify { key: String::from_str(key), lone_transform: self.lone_transform }
    }

    /// Sets what becomes of a transform that no convert accompanies.
    pub fn set_lone_transform(self, lone_transform: LoneTransform) -> (r: Tinify)
        ensures
            r.key@ == self.key@,
            r.lone_transform == lone_transform,
    {
        Tinify { key: self.key, lone_transform }
    }

    /// A new client with this configuration.
    pub fn get_client(&self) -> (r: Result<Client, TinifyError>)
        ensures
            r matches Ok(client) && client@ == SourceView::fresh(
                Some(self.key@),
                self.lone_transform,
            ),
    {
        Ok(Client::configured(self.key.as_str(), self.lone_transform))
    }
}

/// The name under which the key is kept among the options.
pub const KEY: &'static str = "key";

/// Named settings: each name has at most one value.
#[derive(Debug)]
pub struct Options {
    entries: Vec<(String, String)>,
}

impl View for Options {
    type V = Map<Seq<char>, Seq<char>>;

    /// The value of each name that has one.
    closed spec fn view(&self) -> Map<Seq<char>, Seq<char>> {
        Map::new(
            |name: Seq<char>| self.index_of(name) is Some,
            |name: Seq<char>| self.entries[self.index_of(name).unwrap()].1@,
        )
    }
}

impl Options {
    #[verifier::type_invariant]
    spec fn distinct(self) -> bool {
        forall|i: int, j: int|
            0 <= i < j < self.entries.len() ==> self.entries[i].0@ != self.entries[j].0@
    }

    spec fn index_of(self, name: Seq<char>) -> Option<int> {
        if exists|i: int| 0 <= i < self.entries.len() && self.entries[i].0@ == name {
            Some(choose|i: int| 0 <= i < self.entries.len() && self.entries[i].0@ == name)
        } else {
            None
        }
    }

    /// No settings at all.
    pub fn new() -> (r: Options)
        ensures
            r@ == Map::<Seq<char>, Seq<char>>::empty(),
    {
        let r = Options { entries: Vec::new() };
        assert(r@ =~= Map::<Seq<char>, Seq<char>>::empty());
        r
    }

    fn position(&self, name: &String) -> (r: Option<usize>)
        ensures
            match r {
                Some(i) => i < self.entries.len() && self.entries[i as int].0@ == name@
                    && self.index_of(name@) == Some(i as int),
                None => self.index_of(name@) is None,
            },
    {
        proof {
            use_type_invariant(self);
        }
        let mut i: usize = 0;
        while i < self.entries.len()
            invariant
                i <= self.entries.len(),
                forall|k: int| 0 <= k < i ==> self.entries[k].0@ != name@,
            decreases self.entries.len() - i,
        {
            if self.entries[i].0 == *name {
                proof {
                    use_type_invariant(self);
                    assert(self.entries[i as int].0@ == name@);
                    let k = self.index_of(name@).unwrap();
                    assert(k == i) by {
                        if k < i {
                            assert(self.entries[k].0@ != self.entries[i as int].0@);
                        } else if i < k {
                            assert(self.entries[i as int].0@ != self.entries[k].0@);
                        }
                    }
                }
                return Some(i);
            }
            i = i + 1;
        }
        None
    }

    /// Whether the name has a value.
    pub fn contains_key(&self, name: &str) -> (r: bool)
        ensures
            r == self@.contains_key(name@),
    {
        self.position(&String::from_str(name)).is_some()
    }

    /// The value of the name, if it has one.
    pub fn get(&self, name: &str) -> (r: Option<&String>)
        ensures
            match r {
                Some(value) => self@.contains_key(name@) && self@[name@] == value@,
                None => !self@.contains_key(name@),
            },
    {
        match self.position(&String::from_str(name)) {
            Some(i) => Some(&self.entries[i].1),
            None => None,
        }
    }

    /// Gives the name a value, in place of any that it had, and returns the
    /// value that it had.
    pub fn insert(&mut self, name: &str, value: String) -> (r: Option<String>)
        ensures
            final(self)@ == old(self)@.insert(name@, value@),
            match r {
                Some(before) => old(self)@.contains_key(name@) && old(self)@[name@] == before@,
                None => !old(self)@.contains_key(name@),
            },
    {
        proof {
            use_type_invariant(&*self);
        }
        let name = String::from_str(name);
        let ghost before = *self;
        match self.position(&name) {
            Some(i) => {
                let previous = self.entries[i].1.clone();
                let mut entries: Vec<(String, String)> = Vec::new();
                std::mem::swap(&mut self.entries, &mut entries);
                entries.set(i, (name, value));
                std::mem::swap(&mut self.entries, &mut entries);
                proof {
                    assert forall|n: Seq<char>| #[trigger] self.index_of(n) == before.index_of(n) by {
                        if before.index_of(n) is Some {
                            let k = before.index_of(n).unwrap();
                            assert(self.entries[k].0@ == n);
                        }
                        if self.index_of(n) is Some {
                            let k = self.index_of(n).unwrap();
                            assert(before.entries[k].0@ == n);
                        }
                    }
                    assert(self@ =~= before@.insert(name@, value@));
                }
                Some(previous)
            },
            None => {
                let mut entries: Vec<(String, String)> = Vec::new();
                std::mem::swap(&mut self.entries, &mut entries);
                entries.push((name, value));
                std::mem::swap(&mut self.entries, &mut entries);
                proof {
                    let last = before.entries.len() as int;
                    assert(self.entries[last].0@ == name@);
                    assert forall|n: Seq<char>| n != name@ implies #[trigger] self.index_of(n)
                        == before.index_of(n) by {
                        if before.index_of(n) is Some {
                            let k = before.index_of(n).unwrap();
                            assert(self.entries[k].0@ == n);
                        }
                        if self.index_of(n) is Some {
                            let k = self.index_of(n).unwrap();
                            assert(before.entries[k].0@ == n);
                        }
                    }
                    assert(self.index_of(name@) == Some(last));
                    assert(self@ =~= before@.insert(name@, value@));
                }
                None
            },
        }
    }
}

/// Sets the key among the options.
pub fn set_key(options: &mut Options, new_key: &str)
    ensures
        final(options)@ == old(options)@.insert(KEY@, new_key@),
{
    let _ = options.insert(KEY, String::from_str(new_key));
}

/// A new client with the key that the options hold.
pub fn get_client(options: &Options) -> (r: Client)
    requires
        options@.contains_key(KEY@),
    ensures
        r@ == SourceView::fresh(Some(options@[KEY@]), LoneTransform::Reject),
{
    match options.get(KEY) {
        Some(key) => Client::new(key.as_str()),
        None => vstd::pervasive::unreached(),
    }
}

/// Chooses a file to compress with the key that the options hold, given
/// what reading the file gave.
pub fn from_file(options: &Options, contents: Result<Vec<u8>, std::io::Error>) -> (r: Result<
    (Pending, Request),
    TinifyError,
>)
    requires
        options@.contains_key(KEY@),
    ensures
        match contents {
            Ok(image) => match r {
                Ok(begun) => shrink_address() matches Some(target) && (begun.0@, begun.1@)
                    == shrinking(
                    SourceView::fresh(Some(options@[KEY@]), LoneTransform::Reject),
                    target,
                    image@,
                ),
                Err(e) => shrink_address() is None && e@ is UrlParseError,
            },
            Err(cause) => r matches Err(e) && e@ == TinifyErrorView::IOError(cause),
        },
{
    get_client(options).from_file(contents)
}

/// Chooses a buffer to compress with the key that the options hold.
pub fn from_buffer(options: &Options, buffer: &[u8]) -> (r: Result<(Pending, Request), TinifyError>)
    requires
        options@.contains_key(KEY@),
    ensures
        match r {
            Ok(begun) => shrink_address() matches Some(target) && (begun.0@, begun.1@)
                == shrinking(
                SourceView::fresh(Some(options@[KEY@]), LoneTransform::Reject),
                target,
                buffer@,
            ),
            Err(e) => shrink_address() is None && e@ is UrlParseError,
        },
{
    get_client(options).from_buffer(buffer)
}

/// Chooses an image on the web to compress with the key that the options
/// hold.
pub fn from_url(options: &Options, url: &str) -> (r: Result<(Pending, Request), TinifyError>)
    requires
        options@.contains_key(KEY@),
    ensures
        match r {
            Ok(begun) => shrink_address() matches Some(target) && (begun.0@, begun.1@)
                == fetching(
                SourceView::fresh(Some(options@[KEY@]), LoneTransform::Reject),
                target,
                url@,
            ),
            Err(e) => shrink_address() is None && e@ is UrlParseError,
        },
{
    get_client(options).from_url(url)
}

} // verus!
