//! The registry of the supervisor servers that the front end drives: each
//! server is known by the host of its XML-RPC URL.

use vstd::prelude::*;
use vstd::string::*;

verus! {

/// The host of `url` when `dxr_client::Url::parse` reads it as an absolute URL
/// that has a host; `None` when parsing fails or the URL has no host.
pub uninterp spec fn url_host_name(url: Seq<char>) -> Option<Seq<char>>;

/// Parses `url` with `dxr_client::Url::parse` (the `url` crate's parser, which
/// `dxr_client` re-exports) and takes `host_str` of the result. The contract
/// claims only that the result is the named value `url_host_name` of the
/// argument: `None` on a parse error or when the URL has no host, the host
/// otherwise. What the host of a given text is, is left to the `url` crate.
#[verifier::external_body]
fn url_host(url: &str) -> (host: Option<String>)
    ensures
        match host {
            Some(h) => url_host_name(url@) == Some(h@),
            None => url_host_name(url@) is None,
        },
{
    match dxr_client::Url::parse(url) {
        Ok(parsed) => parsed.host_str().map(String::from),
        Err(_) => None,
    }
}

/// The registry that a list of server URLs gives: each URL registered under
/// its host, in order, a later URL replacing an earlier one with the same
/// host; `None` when some URL has no host.
pub open spec fn registry_from(urls: Seq<Seq<char>>) -> Option<Map<Seq<char>, Seq<char>>>
    decreases urls.len(),
{
    if urls.len() == 0 {
        Some(Map::empty())
    } else {
        match registry_from(urls.drop_last()) {
            Some(m) => match url_host_name(urls.last()) {
                Some(h) => Some(m.insert(h, urls.last())),
                None => None,
            },
            None => None,
        }
    }
}

/// The message with which a list holding a URL without a host is refused.
pub open spec fn invalid_url_message() -> Seq<char> {
    "Invalid Url."@
}

/// The configured servers, as a map from host to XML-RPC URL.
///
/// The entries are kept as a vector of (host, URL) pairs, each host once, with
/// the map they stand for as a ghost value. A `HashMap` keyed by `String` would
/// have no usable specification here: vstd gives a key model for integer and
/// `bool` keys only, and `String` is not among them.
pub struct ServerRegistry {
    entries: Vec<(String, String)>,
    model: Ghost<Map<Seq<char>, Seq<char>>>,
}

impl View for ServerRegistry {
    type V = Map<Seq<char>, Seq<char>>;

    closed spec fn view(&self) -> Map<Seq<char>, Seq<char>> {
        self.model@
    }
}

/// The entries hold each host once, and they are exactly the map.
spec fn entries_match(entries: Seq<(String, String)>, model: Map<Seq<char>, Seq<char>>) -> bool {
    &&& forall|i: int, j: int|
        0 <= i < j < entries.len() ==> #[trigger] entries[i].0@ != #[trigger] entries[j].0@
    &&& forall|i: int|
        0 <= i < entries.len() ==> model.contains_key((#[trigger] entries[i]).0@)
            && model[entries[i].0@] == entries[i].1@
    &&& forall|h: Seq<char>|
        #[trigger] model.contains_key(h) ==> exists|i: int|
            0 <= i < entries.len() && (#[trigger] entries[i]).0@ == h
}

impl ServerRegistry {
    #[verifier::type_invariant]
    spec fn wf(self) -> bool {
        entries_match(self.entries@, self.model@)
    }

    /// An empty registry.
    pub fn new() -> (r: ServerRegistry)
        ensures
            r@ == Map::<Seq<char>, Seq<char>>::empty(),
    {
        ServerRegistry { entries: Vec::new(), model: Ghost(Map::empty()) }
    }

    /// Registers `url` under `host`, replacing what was registered under it.
    pub fn insert(&mut self, host: String, url: String)
        ensures
            final(self)@ == old(self)@.insert(host@, url@),
    {
        let mut taken = ServerRegistry::new();
        std::mem::swap(&mut taken, self);
        proof {
            use_type_invariant(&taken);
        }
        let ghost before = taken.model@;
        let ServerRegistry { mut entries, model: _ } = taken;
        let ghost after = before.insert(host@, url@);
        let n = entries.len();
        let mut i: usize = 0;
        while i < n
            invariant
                0 <= i <= n,
                n == entries@.len(),
                entries_match(entries@, before),
                after == before.insert(host@, url@),
                before == old(self)@,
                forall|k: int| 0 <= k < i ==> entries@[k].0@ != host@,
            decreases n - i,
        {
            if entries[i].0 == host {
                let ghost old_entries = entries@;
                assert(old_entries[i as int].0@ == host@);
                entries[i] = (host, url);
                assert(entries@ == old_entries.update(i as int, entries@[i as int]));
                assert forall|h: Seq<char>| #[trigger]
                    after.contains_key(h) implies exists|k: int|
                    0 <= k < entries@.len() && (#[trigger] entries@[k]).0@ == h by {
                    if h != host@ {
                        assert(before.contains_key(h));
                        assert(entries_match(old_entries, before));
                        let k = choose|k: int|
                            0 <= k < old_entries.len() && (#[trigger] old_entries[k]).0@ == h;
                        assert(entries@[k] == old_entries[k]);
                    } else {
                        assert(entries@[i as int].0@ == h);
                    }
                }
                assert(entries_match(entries@, after));
                *self = ServerRegistry { entries, model: Ghost(after) };
                return;
            }
            i = i + 1;
        }
        let ghost old_entries = entries@;
        entries.push((host, url));
        assert forall|h: Seq<char>| #[trigger]
            after.contains_key(h) implies exists|k: int|
            0 <= k < entries@.len() && (#[trigger] entries@[k]).0@ == h by {
            if h != host@ {
                assert(before.contains_key(h));
                assert(entries_match(old_entries, before));
                let k = choose|k: int|
                    0 <= k < old_entries.len() && (#[trigger] old_entries[k]).0@ == h;
                assert(entries@[k] == old_entries[k]);
            } else {
                assert(entries@[n as int].0@ == h);
            }
        }
        assert forall|a: int, b: int|
            0 <= a < b < entries@.len() implies #[trigger] entries@[a].0@
            != #[trigger] entries@[b].0@ by {
            if b < n {
                assert(entries@[a] == old_entries[a]);
                assert(entries@[b] == old_entries[b]);
            }
        }
        assert(entries_match(entries@, after));
        *self = ServerRegistry { entries, model: Ghost(after) };
    }

    /// The URL registered under `host`, if any.
    pub fn lookup(&self, host: &String) -> (r: Option<String>)
        ensures
            r is Some <==> self@.contains_key(host@),
            r matches Some(u) ==> u@ == self@[host@],
    {
        proof {
            use_type_invariant(self);
        }
        let n = self.entries.len();
        let mut i: usize = 0;
        while i < n
            invariant
                0 <= i <= n,
                n == self.entries@.len(),
                entries_match(self.entries@, self.model@),
                forall|k: int| 0 <= k < i ==> self.entries@[k].0@ != host@,
            decreases n - i,
        {
            if self.entries[i].0 == *host {
                return Some(self.entries[i].1.clone());
            }
            i = i + 1;
        }
        proof {
            if self@.contains_key(host@) {
                let k = choose|k: int|
                    0 <= k < self.entries@.len() && (#[trigger] self.entries@[k]).0@ == host@;
                assert(self.entries@[k].0@ != host@);
            }
        }
        None
    }

    /// The registered hosts, each once.
    pub fn hosts(&self) -> (r: Vec<String>)
        ensures
            forall|i: int| 0 <= i < r@.len() ==> self@.contains_key(#[trigger] r@[i]@),
            forall|h: Seq<char>|
                #[trigger] self@.contains_key(h) ==> exists|i: int| 0 <= i < r@.len() && #[trigger] r@[i]@ == h,
            forall|i: int, j: int| 0 <= i < j < r@.len() ==> #[trigger] r@[i]@ != #[trigger] r@[j]@,
    {
        proof {
            use_type_invariant(self);
        }
        let n = self.entries.len();
        let mut r: Vec<String> = Vec::new();
        let mut i: usize = 0;
        while i < n
            invariant
                0 <= i <= n,
                n == self.entries@.len(),
                entries_match(self.entries@, self.model@),
                r@.len() == i,
                forall|k: int| 0 <= k < i ==> #[trigger] r@[k]@ == self.entries@[k].0@,
            decreases n - i,
        {
            r.push(self.entries[i].0.clone());
            i = i + 1;
        }
        assert forall|h: Seq<char>| #[trigger]
            self@.contains_key(h) implies exists|k: int| 0 <= k < r@.len() && #[trigger] r@[k]@ == h by {
            let k = choose|k: int| 0 <= k < self.entries@.len() && (#[trigger] self.entries@[k]).0@ == h;
            assert(r@[k]@ == h);
        }
        assert forall|a: int, b: int| 0 <= a < b < r@.len() implies #[trigger] r@[a]@ != #[trigger] r@[b]@ by {
            assert(self.entries@[a].0@ != self.entries@[b].0@);
        }
        assert forall|k: int| 0 <= k < r@.len() implies self@.contains_key(#[trigger] r@[k]@) by {
            assert(self.model@.contains_key(self.entries@[k].0@));
        }
        r
    }

    /// Registers `url` under its host. A URL without a host is not registered,
    /// and the result says so.
    pub fn register_url(&mut self, url: String) -> (added: bool)
        ensures
            added <==> url_host_name(url@) is Some,
            added ==> final(self)@ == old(self)@.insert(url_host_name(url@)->Some_0, url@),
            !added ==> final(self)@ == old(self)@,
    {
        match url_host(url.as_str()) {
            Some(host) => {
                self.insert(host, url);
                true
            },
            None => false,
        }
    }

    /// The registry of the server URLs `urls` (see `registry_from`); a list
    /// that holds a URL without a host is refused.
    pub fn from_urls(urls: &Vec<String>) -> (r: Result<ServerRegistry, String>)
        ensures
            registry_from(urls@.map_values(|u: String| u@)) is Some <==> r is Ok,
            (forall|i: int| 0 <= i < urls@.len() ==> (#[trigger] url_host_name(urls@[i]@)) is Some)
                ==> r is Ok,
            r matches Ok(reg) ==> Some(reg@) == registry_from(
                urls@.map_values(|u: String| u@),
            ),
            r matches Err(e) ==> e@ == invalid_url_message(),
    {
        let ghost views = urls@.map_values(|u: String| u@);
        proof {
            if forall|i: int| 0 <= i < urls@.len() ==> (#[trigger] url_host_name(urls@[i]@)) is Some {
                assert forall|i: int| 0 <= i < views.len() implies (#[trigger] url_host_name(
                    views[i],
                )) is Some by {
                    assert(views[i] == urls@[i]@);
                }
                lemma_registry_built_when_every_url_has_a_host(views);
            }
        }
        let mut reg = ServerRegistry::new();
        let n = urls.len();
        let mut i: usize = 0;
        while i < n
            invariant
                0 <= i <= n,
                n == urls@.len(),
                views == urls@.map_values(|u: String| u@),
                registry_from(views.take(i as int)) == Some(reg@),
            decreases n - i,
        {
            assert(views.take(i + 1).drop_last() =~= views.take(i as int));
            if !reg.register_url(urls[i].clone()) {
                proof {
                    lemma_registry_from_prefix_fails(views, i as int + 1);
                    assert(views.take(n as int) =~= views);
                }
                return Err(String::from_str("Invalid Url."));
            }
            i = i + 1;
        }
        assert(views.take(n as int) =~= views);
        Ok(reg)
    }

    /// The registry of the server URLs that follow the first two command-line
    /// arguments (the program's name and the listening port).
    pub fn from_args(args: &Vec<String>) -> (r: Result<ServerRegistry, String>)
        requires
            args@.len() >= 2,
        ensures
            registry_from(args@.skip(2).map_values(|u: String| u@)) is Some <==> r is Ok,
            (forall|i: int| 2 <= i < args@.len() ==> (#[trigger] url_host_name(args@[i]@)) is Some)
                ==> r is Ok,
            r matches Ok(reg) ==> Some(reg@) == registry_from(
                args@.skip(2).map_values(|u: String| u@),
            ),
            r matches Err(e) ==> e@ == invalid_url_message(),
    {
        let mut urls: Vec<String> = Vec::new();
        let n = args.len();
        let mut i: usize = 2;
        while i < n
            invariant
                2 <= i <= n,
                n == args@.len(),
                urls@ == args@.subrange(2, i as int),
            decreases n - i,
        {
            urls.push(args[i].clone());
            assert(args@.subrange(2, i + 1) =~= args@.subrange(2, i as int).push(args@[i as int]));
            i = i + 1;
        }
        assert(urls@ =~= args@.skip(2));
        proof {
            assert forall|i: int| 0 <= i < urls@.len() && 2 <= i + 2 < args@.len() implies urls@[i]
                == args@[i + 2] by {}
        }
        ServerRegistry::from_urls(&urls)
    }
}

/// Once a prefix of the list is refused, the whole list is.
proof fn lemma_registry_from_prefix_fails(urls: Seq<Seq<char>>, k: int)
    requires
        0 <= k <= urls.len(),
        registry_from(urls.take(k)) is None,
    ensures
        registry_from(urls) is None,
    decreases urls.len() - k,
{
    if k < urls.len() {
        assert(urls.take(k + 1).drop_last() =~= urls.take(k));
        lemma_registry_from_prefix_fails(urls, k + 1);
    } else {
        assert(urls.take(k) =~= urls);
    }
}

/// In the registry of a list of server URLs, every URL's host is registered,
/// each registered host is the host of a URL of the list, and a host is mapped
/// to the last URL of the list that has it.
pub proof fn lemma_registry_maps_host_to_last_url(urls: Seq<Seq<char>>)
    requires
        registry_from(urls) is Some,
    ensures
        forall|i: int| 0 <= i < urls.len() ==> (#[trigger] url_host_name(urls[i])) is Some
            && registry_from(urls)->Some_0.contains_key(url_host_name(urls[i])->Some_0),
        forall|i: int|
            0 <= i < urls.len() && (forall|j: int|
                i < j < urls.len() ==> url_host_name(urls[j]) != #[trigger] url_host_name(
                    urls[i],
                )) ==> registry_from(urls)->Some_0[url_host_name(urls[i])->Some_0] == urls[i],
        forall|h: Seq<char>| #[trigger]
            registry_from(urls)->Some_0.contains_key(h) ==> exists|i: int|
                0 <= i < urls.len() && url_host_name(#[trigger] urls[i]) == Some(h),
    decreases urls.len(),
{
    if urls.len() > 0 {
        let init = urls.drop_last();
        lemma_registry_maps_host_to_last_url(init);
        let m0 = registry_from(init)->Some_0;
        let m = registry_from(urls)->Some_0;
        let last = urls.len() - 1;
        assert forall|i: int| 0 <= i < urls.len() implies (#[trigger] url_host_name(urls[i])) is Some
            && m.contains_key(url_host_name(urls[i])->Some_0) by {
            if i < last {
                assert(urls[i] == init[i]);
            }
        }
        assert forall|i: int|
            0 <= i < urls.len() && (forall|j: int|
                i < j < urls.len() ==> url_host_name(urls[j]) != #[trigger] url_host_name(
                    urls[i],
                )) implies m[url_host_name(urls[i])->Some_0] == urls[i] by {
            if i < last {
                assert(urls[i] == init[i]);
                assert(url_host_name(urls[last]) != url_host_name(urls[i]));
                assert forall|j: int| i < j < init.len() implies url_host_name(init[j])
                    != #[trigger] url_host_name(init[i]) by {
                    assert(init[j] == urls[j]);
                }
            }
        }
        assert forall|h: Seq<char>| #[trigger] m.contains_key(h) implies exists|i: int|
            0 <= i < urls.len() && url_host_name(#[trigger] urls[i]) == Some(h) by {
            if h != url_host_name(urls[last])->Some_0 {
                let i = choose|i: int| 0 <= i < init.len() && url_host_name(#[trigger] init[i]) == Some(h);
                assert(urls[i] == init[i]);
            } else {
                assert(url_host_name(urls[last]) == Some(h));
            }
        }
    }
}

/// A list of server URLs is refused only for a URL without a host: when every
/// URL has a host the registry is built, whatever the URLs repeat.
pub proof fn lemma_registry_built_when_every_url_has_a_host(urls: Seq<Seq<char>>)
    requires
        forall|i: int| 0 <= i < urls.len() ==> (#[trigger] url_host_name(urls[i])) is Some,
    ensures
        registry_from(urls) is Some,
    decreases urls.len(),
{
    if urls.len() > 0 {
        let init = urls.drop_last();
        assert forall|i: int| 0 <= i < init.len() implies (#[trigger] url_host_name(init[i])) is Some by {
            assert(init[i] == urls[i]);
        }
        lemma_registry_built_when_every_url_has_a_host(init);
        assert(url_host_name(urls[urls.len() - 1]) is Some);
    }
}

} // verus!
