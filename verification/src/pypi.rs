//! Outdated-package checks against PyPI: the cache of latest versions and the
//! decision for each package. Fetching from the network is left to the caller.
use vstd::prelude::*;
use crate::models::PypiVersionInfo;
use crate::parser::{entries_view, lookup_last};
use crate::text::{lowercase, str_eq, to_lowercase};

verus! {

broadcast use vstd::string::group_string_axioms;

/// Latest versions already fetched, keyed by lowercased package name.
///
/// Held as (name, version) pairs in the order they were stored; for a name, the
/// last pair stored is the one that counts. The view is the map from name to
/// version.
pub struct PypiCache {
    entries: Vec<(String, String)>,
}

impl View for PypiCache {
    type V = Map<Seq<char>, Seq<char>>;

    closed spec fn view(&self) -> Map<Seq<char>, Seq<char>> {
        Map::new(
            |k: Seq<char>| lookup_last(entries_view(self.entries@), k) is Some,
            |k: Seq<char>| lookup_last(entries_view(self.entries@), k)->0,
        )
    }
}

impl PypiCache {
    /// An empty cache.
    pub fn new() -> (r: PypiCache)
        ensures
            r@ == Map::<Seq<char>, Seq<char>>::empty(),
    {
        let r = PypiCache { entries: Vec::new() };
        assert(r@ =~= Map::<Seq<char>, Seq<char>>::empty()) by {
            assert(entries_view(r.entries@) =~= Seq::<(Seq<char>, Seq<char>)>::empty());
        }
        r
    }

    /// The cached latest version stored under exactly `key`.
    pub fn lookup_key(&self, key: &str) -> (r: Option<String>)
        ensures
            match r {
                Some(v) => self@.contains_key(key@) && self@[key@] == v@,
                None => !self@.contains_key(key@),
            },
    {
        let ghost es = entries_view(self.entries@);
        let mut i = self.entries.len();
        assert(es.subrange(0, i as int) =~= es);
        while i > 0
            invariant
                i <= self.entries.len(),
                es == entries_view(self.entries@),
                lookup_last(es, key@) == lookup_last(es.subrange(0, i as int), key@),
            decreases i,
        {
            let ghost pre = es.subrange(0, i as int);
            assert(pre.drop_last() =~= es.subrange(0, i - 1));
            assert(pre.last() == (self.entries@[i - 1].0@, self.entries@[i - 1].1@));
            if str_eq(self.entries[i - 1].0.as_str(), key) {
                return Some(self.entries[i - 1].1.clone());
            }
            i -= 1;
        }
        None
    }

    /// Stores `latest` under exactly `key`, replacing what was there.
    pub fn insert_key(&mut self, key: String, latest: String)
        ensures
            final(self)@ == old(self)@.insert(key@, latest@),
    {
        let ghost es = entries_view(self.entries@);
        let ghost k = key@;
        let ghost v = latest@;
        self.entries.push((key, latest));
        assert(entries_view(self.entries@) =~= es.push((k, v)));
        assert(entries_view(self.entries@).drop_last() =~= es);
        assert(self@ =~= old(self)@.insert(k, v));
    }

    /// The cached latest version for the package `name` (matched case-insensitively
    /// through its lowercase form).
    pub fn cached_latest(&self, name: &str) -> (r: Option<String>)
        ensures
            match r {
                Some(v) => self@.contains_key(lowercase(name@)) && self@[lowercase(name@)] == v@,
                None => !self@.contains_key(lowercase(name@)),
            },
    {
        let key = to_lowercase(name);
        self.lookup_key(key.as_str())
    }

    /// Remembers `latest` as the latest version of the package `name`.
    pub fn remember(&mut self, name: &str, latest: String)
        ensures
            final(self)@ == old(self)@.insert(lowercase(name@), latest@),
    {
        let key = to_lowercase(name);
        self.insert_key(key, latest);
    }

    /// The result for `name` when its latest version is already cached.
    pub fn check_cached(&self, name: &String, installed: &String) -> (r: Option<PypiVersionInfo>)
        ensures
            match r {
                Some(info) => self@.contains_key(lowercase(name@)) && info_spec(
                    info,
                    name@,
                    installed@,
                    Ok(self@[lowercase(name@)]),
                ),
                None => !self@.contains_key(lowercase(name@)),
            },
    {
        match self.cached_latest(name.as_str()) {
            Some(latest) => Some(version_info(name.clone(), installed.clone(), Ok(latest))),
            None => None,
        }
    }

    /// The result for `name` once PyPI has answered; a version that was found is
    /// remembered, an error leaves the cache as it was.
    pub fn record_fetch(
        &mut self,
        name: String,
        installed: String,
        fetched: Result<String, String>,
    ) -> (r: PypiVersionInfo)
        ensures
            info_spec(r, name@, installed@, answer_view(fetched)),
            match fetched {
                Ok(latest) => final(self)@ == old(self)@.insert(lowercase(name@), latest@),
                Err(_) => final(self)@ == old(self)@,
            },
    {
        match fetched {
            Ok(latest) => {
                self.remember(name.as_str(), latest.clone());
                version_info(name, installed, Ok(latest))
            },
            Err(e) => version_info(name, installed, Err(e)),
        }
    }
}

/// PyPI's answer as character sequences.
pub open spec fn answer_view(a: Result<String, String>) -> Result<Seq<char>, Seq<char>> {
    match a {
        Ok(v) => Ok(v@),
        Err(e) => Err(e@),
    }
}

/// What is reported for a package given PyPI's answer (a version or an error):
/// with a version, the package is outdated exactly when that version differs
/// from the installed one; with an error, it is not outdated and the error is
/// kept.
pub open spec fn info_spec(
    info: PypiVersionInfo,
    name: Seq<char>,
    installed: Seq<char>,
    answer: Result<Seq<char>, Seq<char>>,
) -> bool {
    &&& info.package_name@ == name
    &&& info.installed_version@ == installed
    &&& match answer {
        Ok(latest) => {
            &&& info.latest_version.deep_view() == Some(latest)
            &&& info.is_outdated == (latest != installed)
            &&& info.error is None
        },
        Err(e) => {
            &&& info.latest_version is None
            &&& !info.is_outdated
            &&& info.error.deep_view() == Some(e)
        },
    }
}

/// The report for one package given PyPI's answer.
pub fn version_info(name: String, installed: String, answer: Result<String, String>) -> (r:
    PypiVersionInfo)
    ensures
        info_spec(r, name@, installed@, answer_view(answer)),
{
    match answer {
        Ok(latest) => {
            let is_outdated = !str_eq(latest.as_str(), installed.as_str());
            PypiVersionInfo {
                package_name: name,
                installed_version: installed,
                latest_version: Some(latest),
                is_outdated,
                error: None,
            }
        },
        Err(e) => PypiVersionInfo {
            package_name: name,
            installed_version: installed,
            latest_version: None,
            is_outdated: false,
            error: Some(e),
        },
    }
}

/// Once a version fetched for a package is recorded, the cache answers with it
/// for that package, whatever the case of the name asked for, as long as it
/// lowercases the same.
pub proof fn lemma_fetched_version_is_cached(
    cache: Map<Seq<char>, Seq<char>>,
    name: Seq<char>,
    other: Seq<char>,
    latest: Seq<char>,
)
    requires
        lowercase(other) == lowercase(name),
    ensures
        cache.insert(lowercase(name), latest).contains_key(lowercase(other)),
        cache.insert(lowercase(name), latest)[lowercase(other)] == latest,
{
}

/// What `serde_json` makes of a response body read as a JSON value: a parse
/// error's message, or the text at `info.version` when there is one.
pub uninterp spec fn json_info_version(body: Seq<u8>) -> Result<Option<Seq<char>>, Seq<char>>;

/// The parsed answer as character sequences.
pub open spec fn parsed_view(p: Result<Option<String>, String>) -> Result<Option<Seq<char>>, Seq<char>> {
    match p {
        Ok(Some(v)) => Ok(Some(v@)),
        Ok(None) => Ok(None),
        Err(e) => Err(e@),
    }
}

/// `serde_json::from_slice::<serde_json::Value>` on the body, then
/// `value["info"]["version"].as_str()`: the version text when the body is JSON
/// with a string there, `None` when it is JSON without one, and the parse
/// error's message otherwise. The result is named by `json_info_version`; what
/// the parser accepts, and the wording of its messages, are not stated.
#[verifier::external_body]
fn info_version(body: &[u8]) -> (r: Result<Option<String>, String>)
    ensures
        parsed_view(r) == json_info_version(body@),
{
    match serde_json::from_slice::<serde_json::Value>(body) {
        Ok(value) => Ok(value["info"]["version"].as_str().map(String::from)),
        Err(e) => Err(e.to_string()),
    }
}

/// The answer to report for `name`, given what was read from PyPI's response.
pub open spec fn answer_of(
    name: Seq<char>,
    status_ok: bool,
    status_text: Seq<char>,
    parsed: Result<Option<Seq<char>>, Seq<char>>,
) -> Result<Seq<char>, Seq<char>> {
    if !status_ok {
        Err("PyPI returned "@ + status_text + " for "@ + name)
    } else {
        match parsed {
            Err(e) => Err("Failed to parse JSON for "@ + name + ": "@ + e),
            Ok(None) => Err("No version found for "@ + name),
            Ok(Some(v)) => Ok(v),
        }
    }
}

/// The latest version of `name`, or the error to report, from the response's
/// status and what its body was parsed into.
pub fn latest_version_from_parsed(
    name: &str,
    status_ok: bool,
    status_text: &str,
    parsed: Result<Option<String>, String>,
) -> (r: Result<String, String>)
    ensures
        answer_view(r) == answer_of(name@, status_ok, status_text@, parsed_view(parsed)),
{
    if !status_ok {
        let mut e = "PyPI returned ".to_owned();
        e.append(status_text);
        e.append(" for ");
        e.append(name);
        return Err(e);
    }
    match parsed {
        Err(detail) => {
            let mut e = "Failed to parse JSON for ".to_owned();
            e.append(name);
            e.append(": ");
            e.append(detail.as_str());
            Err(e)
        },
        Ok(None) => {
            let mut e = "No version found for ".to_owned();
            e.append(name);
            Err(e)
        },
        Ok(Some(v)) => Ok(v),
    }
}

/// The latest version of `name`, or the error to report, from PyPI's response:
/// whether its status was a success, the status as text, and the body. The body
/// is read as JSON only after a successful status.
pub fn latest_version_from_response(name: &str, status_ok: bool, status_text: &str, body: &[u8]) -> (r:
    Result<String, String>)
    ensures
        answer_view(r) == answer_of(
            name@,
            status_ok,
            status_text@,
            if status_ok {
                json_info_version(body@)
            } else {
                Ok(None)
            },
        ),
{
    if !status_ok {
        return latest_version_from_parsed(name, false, status_text, Ok(None));
    }
    let parsed = info_version(body);
    latest_version_from_parsed(name, true, status_text, parsed)
}

/// The address of a package's JSON description on PyPI.
pub fn pypi_json_url(name: &str) -> (r: String)
    ensures
        r@ == "https://pypi.org/pypi/"@ + name@ + "/json"@,
{
    let mut s = "https://pypi.org/pypi/".to_owned();
    s.append(name);
    s.append("/json");
    s
}

} // verus!
