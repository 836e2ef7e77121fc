//! The task registry: the deduplicated list of download tasks together with
//! the run's configuration (destination root, hash-check, binary-only and
//! auto-rename flags, headers, proxy rules, concurrency limit).

use vstd::prelude::*;

use crate::errors::Error;

verus! {

/// One unit of download work: a URL, a directory path relative to the
/// destination root, and an optional explicit filename.
#[derive(Debug)]
pub struct DownloadTask {
    pub url: String,
    pub path: String,
    pub filename: Option<String>,
}

/// Which scheme a proxy rule applies to.
#[derive(Debug, Clone, Copy, PartialEq, Eq, Structural)]
pub enum ProxyType {
    Http,
    Https,
    All,
}

/// A proxy rule whose URL has already been accepted by the HTTP client's
/// proxy parser.
#[derive(Debug)]
pub struct ProxyRule {
    pub scheme: ProxyType,
    pub url: String,
}

/// One task that did not end in success: the task's identity plus the failure
/// kind. Tasks that succeed produce no record.
#[derive(Debug)]
pub struct DownloadFailed {
    pub url: String,
    pub path: String,
    pub filename: Option<String>,
    pub err: Error,
}

pub open spec fn opt_str_view(o: Option<String>) -> Option<Seq<char>> {
    match o {
        Option::None => Option::<Seq<char>>::None,
        Option::Some(s) => Option::Some(s@),
    }
}

impl DownloadTask {
    /// The identity under which tasks are deduplicated.
    pub open spec fn id(&self) -> (Seq<char>, Seq<char>, Option<Seq<char>>) {
        (self.url@, self.path@, opt_str_view(self.filename))
    }
}

/// Whether some task in `s` has the identity `id`.
pub open spec fn has_task(s: Seq<DownloadTask>, id: (Seq<char>, Seq<char>, Option<Seq<char>>)) -> bool {
    exists|i: int| 0 <= i < s.len() && s[i].id() == id
}

/// What registering a task does to the list: nothing when an identical triple
/// is already present, an append otherwise.
pub open spec fn spec_append_task(s: Seq<DownloadTask>, t: DownloadTask) -> Seq<DownloadTask> {
    if has_task(s, t.id()) {
        s
    } else {
        s.push(t)
    }
}

/// Registering the same triple twice changes nothing after the first
/// registration: in particular the registry's size stays the same.
pub proof fn lemma_append_task_idempotent(s: Seq<DownloadTask>, t: DownloadTask)
    ensures
        spec_append_task(spec_append_task(s, t), t) == spec_append_task(s, t),
{
    let s1 = spec_append_task(s, t);
    if has_task(s, t.id()) {
    } else {
        assert(s1[s.len() as int].id() == t.id());
        assert(has_task(s1, t.id()));
    }
}

/// Result of validating a proxy URL, `None` when the URL is accepted.
///
/// Relies on reqwest::Proxy::http, Proxy::https and Proxy::all: each succeeds
/// exactly when its argument converts to a proxy URL (reqwest's IntoProxy for
/// strings), a deterministic function of the URL string that is the same for
/// all three constructors.
#[verifier::external_body]
fn try_parse_proxy(scheme: &ProxyType, url: &String) -> (r: Option<String>)
    ensures
        r is None <==> proxy_scheme_ok(url@),
{
    let built = match scheme {
        ProxyType::Http => reqwest::Proxy::http(url.as_str()),
        ProxyType::Https => reqwest::Proxy::https(url.as_str()),
        ProxyType::All => reqwest::Proxy::all(url.as_str()),
    };
    match built {
        Ok(_) => None,
        Err(e) => Some(e.to_string()),
    }
}

pub uninterp spec fn proxy_scheme_ok(url: Seq<char>) -> bool;

/// The registry: the deduplicated task list and the configuration the run
/// will be executed under. Frozen once a run starts by being consumed.
#[derive(Debug)]
pub struct Downloader {
    pub list: Vec<DownloadTask>,
    pub folder: String,
    pub timeout_ms: Option<u64>,
    pub headers: Vec<(String, String)>,
    pub hash_check: bool,
    pub only_binary: bool,
    pub auto_rename: bool,
    pub proxies: Vec<ProxyRule>,
    pub task_count: usize,
    pub disable_default_proxy: bool,
}

impl Downloader {
    /// A fresh registry: no tasks, a ten second timeout, hash checking off,
    /// the binary-only filter and auto-rename on, and a concurrency limit of
    /// eight.
    pub fn new() -> (r: Downloader)
        ensures
            r.list@ == Seq::<DownloadTask>::empty(),
            r.folder@ == Seq::<char>::empty(),
            r.timeout_ms == Option::Some(10000u64),
            r.headers@ == Seq::<(String, String)>::empty(),
            r.hash_check == false,
            r.only_binary == true,
            r.auto_rename == true,
            r.proxies@ == Seq::<ProxyRule>::empty(),
            r.task_count == 8,
            r.disable_default_proxy == false,
    {
        Downloader {
            list: Vec::new(),
            folder: String::new(),
            timeout_ms: Option::Some(10000),
            headers: Vec::new(),
            hash_check: false,
            only_binary: true,
            auto_rename: true,
            proxies: Vec::new(),
            task_count: 8,
            disable_default_proxy: false,
        }
    }

    /// Sets the destination root under which every task's path is resolved.
    pub fn set_destination(&mut self, folder: String)
        ensures
            *final(self) == (Downloader { folder, ..*old(self) }),
    {
        self.folder = folder;
    }

    /// Sets the per-request timeout, in milliseconds.
    pub fn set_timeout(&mut self, timeout_ms: u64)
        ensures
            *final(self) == (Downloader { timeout_ms: Option::Some(timeout_ms), ..*old(self) }),
    {
        self.timeout_ms = Option::Some(timeout_ms);
    }

    /// Turns hash-based verification of existing files on or off.
    pub fn set_hash_check(&mut self, hash_check: bool)
        ensures
            *final(self) == (Downloader { hash_check, ..*old(self) }),
    {
        self.hash_check = hash_check;
    }

    /// Turns the binary-only content-type filter on or off.
    pub fn set_binary_only(&mut self, only_binary: bool)
        ensures
            *final(self) == (Downloader { only_binary, ..*old(self) }),
    {
        self.only_binary = only_binary;
    }

    /// Turns extension auto-renaming on or off.
    pub fn set_auto_rename(&mut self, auto_rename: bool)
        ensures
            *final(self) == (Downloader { auto_rename, ..*old(self) }),
    {
        self.auto_rename = auto_rename;
    }

    /// Suppresses picking up ambient proxy settings from the environment.
    pub fn disable_default_proxy(&mut self)
        ensures
            *final(self) == (Downloader { disable_default_proxy: true, ..*old(self) }),
    {
        self.disable_default_proxy = true;
    }

    /// Lets the HTTP client pick up ambient proxy settings again.
    pub fn enable_default_proxy(&mut self)
        ensures
            *final(self) == (Downloader { disable_default_proxy: false, ..*old(self) }),
    {
        self.disable_default_proxy = false;
    }

    /// Sets the concurrency limit: how many workers may run at once.
    pub fn set_task_count(&mut self, task_count: usize)
        ensures
            *final(self) == (Downloader { task_count, ..*old(self) }),
    {
        self.task_count = task_count;
    }

    /// Appends a default header sent with every request. Repeatable: a key
    /// may be given several values.
    pub fn add_header(&mut self, key: String, value: String)
        ensures
            final(self).headers@ == old(self).headers@.push((key, value)),
            *final(self) == (Downloader { headers: final(self).headers, ..*old(self) }),
    {
        self.headers.push((key, value));
    }

    /// Validates a proxy URL and, when it is accepted, appends the rule.
    /// A URL the client's proxy parser refuses yields `ProxyError` and leaves
    /// the registry unchanged.
    pub fn add_proxy(&mut self, proxy_type: ProxyType, proxy: String) -> (r: Result<(), Error>)
        ensures
            proxy_scheme_ok(proxy@) ==> r is Ok
                && final(self).proxies@ == old(self).proxies@.push(ProxyRule { scheme: proxy_type, url: proxy })
                && *final(self) == (Downloader { proxies: final(self).proxies, ..*old(self) }),
            !proxy_scheme_ok(proxy@) ==> (r matches Err(e) && e is ProxyError)
                && *final(self) == *old(self),
    {
        match try_parse_proxy(&proxy_type, &proxy) {
            Option::None => {
                self.proxies.push(ProxyRule { scheme: proxy_type, url: proxy });
                Ok(())
            },
            Option::Some(msg) => Err(Error::ProxyError(msg)),
        }
    }

    /// Registers a task unless an identical (url, path, filename) triple is
    /// already registered, in which case nothing changes.
    pub fn append_task(&mut self, url: String, path: String, filename: Option<String>)
        ensures
            final(self).list@ == spec_append_task(
                old(self).list@,
                (DownloadTask { url, path, filename }),
            ),
            *final(self) == (Downloader { list: final(self).list, ..*old(self) }),
    {
        let ghost t = DownloadTask { url, path, filename };
        let n = self.list.len();
        let mut i: usize = 0;
        while i < n
            invariant
                0 <= i <= n,
                n == self.list@.len(),
                self == old(self),
                t == (DownloadTask { url, path, filename }),
                forall|j: int| 0 <= j < i ==> (#[trigger] self.list@[j].id()) != t.id(),
            decreases n - i,
        {
            let same = self.list[i].url == url && self.list[i].path == path
                && opt_name_eq(&self.list[i].filename, &filename);
            if same {
                proof {
                    assert(self.list@[i as int].id() =~= t.id());
                    assert(has_task(self.list@, t.id()));
                }
                return ;
            }
            i += 1;
        }
        proof {
            assert(!has_task(self.list@, t.id()));
        }
        self.list.push(DownloadTask { url, path, filename });
    }
}

/// Equality of optional filenames, compared by contents.
fn opt_name_eq(a: &Option<String>, b: &Option<String>) -> (r: bool)
    ensures
        r == (opt_str_view(*a) == opt_str_view(*b)),
{
    match (a, b) {
        (Option::None, Option::None) => true,
        (Option::Some(x), Option::Some(y)) => *x == *y,
        _ => false,
    }
}

} // verus!
