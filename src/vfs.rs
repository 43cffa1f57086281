//! The virtual file system's path specs: `prefix/relative`, resolved
//! against named search paths.

use crate::config::lookup;
use crate::text::{chars_of, find, find_char};
use vstd::prelude::*;

verus! {

/// std's I/O error, carried through as an opaque value in the errors of
/// reads that the caller performs.
#[verifier::external_type_specification]
#[verifier::external_body]
pub struct ExIoError(std::io::Error);

#[derive(Debug)]
pub enum Error {
    Read { path_spec: String, error: std::io::Error },
    IllFormedPathSpec(String),
    PathPrefixNotFound(String),
    Io(std::io::Error),
}

/// The separator between a path spec's prefix and its relative path.
pub const PREFIX_SEPARATOR: char = '/';

/// Whether a path spec is well formed: it holds a separator.
pub open spec fn well_formed(s: Seq<char>) -> bool {
    find(s, PREFIX_SEPARATOR, 0, s.len() as int) < s.len()
}

/// The prefix of a well-formed path spec: what comes before the first separator.
pub open spec fn spec_prefix(s: Seq<char>) -> Seq<char> {
    s.subrange(0, find(s, PREFIX_SEPARATOR, 0, s.len() as int))
}

/// The relative path of a well-formed path spec: what follows the first separator.
pub open spec fn spec_relative(s: Seq<char>) -> Seq<char> {
    s.subrange(find(s, PREFIX_SEPARATOR, 0, s.len() as int) + 1, s.len() as int)
}

/// `relative` under `base`: an absolute `relative` stands alone; otherwise
/// the two are joined by one separator (none is added after an empty base or
/// one that already ends in a separator).
pub open spec fn joined(base: Seq<char>, relative: Seq<char>) -> Seq<char> {
    if relative.len() > 0 && relative[0] == PREFIX_SEPARATOR {
        relative
    } else if base.len() == 0 || base.last() == PREFIX_SEPARATOR {
        base + relative
    } else {
        base + seq![PREFIX_SEPARATOR] + relative
    }
}

/// Whether `e` reports `text` as an ill-formed path spec.
pub open spec fn ill_formed_error(e: Error, text: Seq<char>) -> bool {
    match e {
        Error::IllFormedPathSpec(t) => t@ == text,
        _ => false,
    }
}

/// A path of the form `prefix/relative`, where `prefix` names a search path.
#[derive(Debug, Clone, Copy)]
pub struct PathSpec<'a>(&'a str);

impl<'a> View for PathSpec<'a> {
    type V = Seq<char>;

    closed spec fn view(&self) -> Seq<char> {
        self.0@
    }
}

impl<'a> PathSpec<'a> {
    /// Checks that `s` holds a separator.
    pub fn parse(s: &'a str) -> (r: Result<PathSpec<'a>, Error>)
        ensures
            r is Ok <==> well_formed(s@),
            r matches Ok(p) ==> p@ == s@,
            r matches Err(e) ==> ill_formed_error(e, s@),
    {
        let chars = chars_of(s);
        let k = find_char(&chars, PREFIX_SEPARATOR, 0, chars.len());
        if k < chars.len() {
            Ok(PathSpec(s))
        } else {
            Err(Error::IllFormedPathSpec(String::from_str(s)))
        }
    }

    pub fn as_str(&self) -> (r: &'a str)
        ensures
            r@ == self@,
    {
        self.0
    }

    /// The prefix and the relative path, split at the first separator.
    pub fn split(&self) -> (r: (&'a str, &'a str))
        requires
            well_formed(self@),
        ensures
            r.0@ == spec_prefix(self@),
            r.1@ == spec_relative(self@),
    {
        let chars = chars_of(self.0);
        let k = find_char(&chars, PREFIX_SEPARATOR, 0, chars.len());
        (self.0.substring_char(0, k), self.0.substring_char(k + 1, chars.len()))
    }
}

/// What can name a file of the virtual file system.
pub trait IntoPathSpec {
    /// The text of the path.
    spec fn path_text(&self) -> Seq<char>;

    fn as_path_spec(&self) -> (r: Result<PathSpec<'_>, Error>)
        ensures
            r is Ok <==> well_formed(self.path_text()),
            r matches Ok(p) ==> p@ == self.path_text(),
            r matches Err(e) ==> ill_formed_error(e, self.path_text()),
    ;
}

impl IntoPathSpec for String {
    open spec fn path_text(&self) -> Seq<char> {
        self@
    }

    fn as_path_spec(&self) -> (r: Result<PathSpec<'_>, Error>) {
        PathSpec::parse(self.as_str())
    }
}

impl<'b> IntoPathSpec for &'b str {
    open spec fn path_text(&self) -> Seq<char> {
        (*self)@
    }

    fn as_path_spec(&self) -> (r: Result<PathSpec<'_>, Error>) {
        PathSpec::parse(*self)
    }
}

impl<'b> IntoPathSpec for PathSpec<'b> {
    open spec fn path_text(&self) -> Seq<char> {
        self@
    }

    fn as_path_spec(&self) -> (r: Result<PathSpec<'_>, Error>) {
        PathSpec::parse(self.0)
    }
}

/// Where a well-formed path spec leads, given the search paths: its relative
/// path under the search path of its prefix, if that prefix is known.
pub open spec fn resolved(search_paths: Seq<(Seq<char>, Seq<char>)>, s: Seq<char>) -> Option<
    Seq<char>,
> {
    match lookup(search_paths, spec_prefix(s)) {
        Some(base) => Some(joined(base, spec_relative(s))),
        None => None,
    }
}

/// What resolving the path spec `text` gives: the resolved path when `text`
/// is well formed and its prefix known, `IllFormedPathSpec` with the text when
/// it lacks a separator, `PathPrefixNotFound` with the prefix when that is
/// unknown.
pub open spec fn resolution(
    r: Result<String, Error>,
    search_paths: Seq<(Seq<char>, Seq<char>)>,
    text: Seq<char>,
) -> bool {
    match r {
        Ok(q) => well_formed(text) && resolved(search_paths, text) == Some(q@),
        Err(Error::IllFormedPathSpec(t)) => !well_formed(text) && t@ == text,
        Err(Error::PathPrefixNotFound(t)) => well_formed(text) && resolved(search_paths, text) is None
            && t@ == spec_prefix(text),
        Err(_) => false,
    }
}

/// Named search paths under which path specs are resolved.
pub struct VirtualFs {
    search_paths: Vec<(String, String)>,
}

impl View for VirtualFs {
    /// The search paths in the order they were added; a later one for the
    /// same prefix takes precedence.
    type V = Seq<(Seq<char>, Seq<char>)>;

    closed spec fn view(&self) -> Seq<(Seq<char>, Seq<char>)> {
        self.search_paths@.map_values(|p: (String, String)| (p.0@, p.1@))
    }
}

impl VirtualFs {
    pub fn new() -> (r: Self)
        ensures
            r@ == Seq::<(Seq<char>, Seq<char>)>::empty(),
    {
        VirtualFs { search_paths: Vec::new() }
    }

    /// Maps `prefix` to the directory `path`, replacing an earlier mapping.
    pub fn add_search_path(&mut self, prefix: &str, path: &str)
        ensures
            final(self)@ == old(self)@.push((prefix@, path@)),
    {
        self.search_paths.push((String::from_str(prefix), String::from_str(path)));
        assert(self@ =~= old(self)@.push((prefix@, path@)));
    }

    fn search_path(&self, prefix: &str) -> (r: Option<&String>)
        ensures
            match r {
                Some(v) => lookup(self@, prefix@) == Some(v@),
                None => lookup(self@, prefix@) is None,
            },
    {
        let wanted = String::from_str(prefix);
        let mut i = self.search_paths.len();
        assert(self@.subrange(0, i as int) =~= self@);
        while i > 0
            invariant
                wanted@ == prefix@,
                i <= self.search_paths@.len(),
                lookup(self@, prefix@) == lookup(self@.subrange(0, i as int), prefix@),
            decreases i,
        {
            let ghost head = self@.subrange(0, i as int);
            assert(head.last() == (self.search_paths@[i - 1].0@, self.search_paths@[i - 1].1@));
            assert(head.drop_last() =~= self@.subrange(0, i - 1));
            let found = self.search_paths[i - 1].0 == wanted;
            if found {
                return Some(&self.search_paths[i - 1].1);
            }
            i = i - 1;
        }
        None
    }

    /// Resolves `prefix/relative` to the file it names: an ill-formed spec
    /// gives `IllFormedPathSpec`, an unknown prefix `PathPrefixNotFound`.
    pub fn resolve_path_spec<P: IntoPathSpec>(&self, path: P) -> (r: Result<String, Error>)
        ensures
            resolution(r, self@, path.path_text()),
    {
        let spec = match path.as_path_spec() {
            Ok(s) => s,
            Err(e) => {
                return Err(e);
            },
        };
        let (prefix, relative) = spec.split();
        let base = match self.search_path(prefix) {
            Some(b) => b,
            None => {
                return Err(Error::PathPrefixNotFound(String::from_str(prefix)));
            },
        };
        Ok(join(base.as_str(), relative))
    }
}

/// Joins a relative path onto a directory, as `joined` says.
pub fn join(base: &str, relative: &str) -> (r: String)
    ensures
        r@ == joined(base@, relative@),
{
    let rel = chars_of(relative);
    if rel.len() > 0 && rel[0] == PREFIX_SEPARATOR {
        return String::from_str(relative);
    }
    let b = chars_of(base);
    if b.len() == 0 || b[b.len() - 1] == PREFIX_SEPARATOR {
        String::from_str(base).concat(relative)
    } else {
        let r = String::from_str(base).concat("/").concat(relative);
        proof {
            reveal_strlit("/");
        }
        assert(r@ =~= base@ + seq![PREFIX_SEPARATOR] + relative@);
        r
    }
}

} // verus!
