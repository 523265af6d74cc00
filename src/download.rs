//! Locating and naming the server distribution offered by the vendor's page.
use vstd::prelude::*;
use vstd::string::*;
use rand::Rng;
use crate::text::{chars_of, decimal, find_char, find_seq, find_from, push_decimal, split_on};

verus! {

pub open spec fn windows_prefix() -> Seq<char> {
    "https://www.minecraft.net/bedrockdedicatedserver/bin-win/"@
}

pub open spec fn linux_prefix() -> Seq<char> {
    "https://www.minecraft.net/bedrockdedicatedserver/bin-linux/"@
}

/// Where the distribution for `os` is linked from, for the supported systems.
pub open spec fn url_prefix(os: Seq<char>) -> Option<Seq<char>> {
    if os == "windows"@ {
        Some(windows_prefix())
    } else if os == "linux"@ {
        Some(linux_prefix())
    } else {
        None
    }
}

/// The known release used when the page holds no link.
pub open spec fn fallback_url(os: Seq<char>) -> Seq<char> {
    if os == "windows"@ {
        "https://www.minecraft.net/bedrockdedicatedserver/bin-win/bedrock-server-1.21.51.02.zip"@
    } else {
        "https://www.minecraft.net/bedrockdedicatedserver/bin-linux/bedrock-server-1.21.51.02.zip"@
    }
}

/// The download link for `os` in `html`: from the first occurrence of the
/// system's prefix up to the next `"`; the known release when there is none;
/// nothing for an unsupported system.
pub open spec fn download_url(html: Seq<char>, os: Seq<char>) -> Option<Seq<char>> {
    match url_prefix(os) {
        None => None,
        Some(p) => match find_from(html, p, 0) {
            Some(s) => match find_from(html, seq!['"'], s) {
                Some(e) => Some(html.subrange(s, e)),
                None => Some(fallback_url(os)),
            },
            None => Some(fallback_url(os)),
        },
    }
}

/// The name under which a download is saved: the last `/`-separated piece of the URL.
pub open spec fn download_file_name_spec(url: Seq<char>) -> Seq<char> {
    split_on(url, '/').last()
}

/// The browser identification sent with the page request, with build number `n`.
pub open spec fn user_agent_spec(n: nat) -> Seq<char> {
    "Mozilla/5.0 (Windows NT 10.0; Win64; x64) AppleWebKit/537.36 (KHTML, like Gecko) Chrome/90.0."@
        + decimal(n) + ".212 Safari/537.36"@
}

/// The text of `a` equals the text of `b`.
pub fn same_text(a: &str, b: &str) -> (r: bool)
    ensures
        r == (a@ == b@),
{
    let x = chars_of(a);
    let y = chars_of(b);
    if x.len() != y.len() {
        return false;
    }
    let mut i: usize = 0;
    while i < x.len()
        invariant
            x@ == a@,
            y@ == b@,
            x.len() == y.len(),
            i <= x.len(),
            forall|k: int| 0 <= k < i ==> x@[k] == y@[k],
        decreases x.len() - i,
    {
        if x[i] != y[i] {
            assert(x@[i as int] != y@[i as int]);
            return false;
        }
        i += 1;
    }
    assert(x@ =~= y@);
    true
}

/// Relies on rand's `Rng::gen_range` on the thread-local generator: a value
/// drawn from the half-open range `lo..hi`, which must not be empty.
#[verifier::external_body]
fn random_in(lo: u32, hi: u32) -> (r: u32)
    requires
        lo < hi,
    ensures
        lo <= r < hi,
{
    rand::thread_rng().gen_range(lo..hi)
}

/// Where the server distribution is fetched to and unpacked.
pub struct Config {
    work_dir: String,
}

impl Config {
    pub closed spec fn work_dir_spec(&self) -> Seq<char> {
        self.work_dir@
    }

    /// The configuration for the `server` directory.
    pub fn new() -> (r: Config)
        ensures
            r.work_dir_spec() == "server"@,
    {
        Config { work_dir: String::from_str("server") }
    }

    pub fn work_dir(&self) -> (r: &str)
        ensures
            r@ == self.work_dir_spec(),
    {
        self.work_dir.as_str()
    }

    /// The browser identification with build number `n`.
    pub fn user_agent(n: u32) -> (r: String)
        ensures
            r@ == user_agent_spec(n as nat),
    {
        let mut s = String::from_str(
            "Mozilla/5.0 (Windows NT 10.0; Win64; x64) AppleWebKit/537.36 (KHTML, like Gecko) Chrome/90.0.",
        );
        push_decimal(&mut s, n as u64);
        s.append(".212 Safari/537.36");
        s
    }

    /// A browser identification with a build number drawn from `1..5000`.
    pub fn random_user_agent(&self) -> (r: String)
        ensures
            exists|n: nat| 1 <= n < 5000 && r@ == user_agent_spec(n),
    {
        let n = random_in(1, 5000);
        Config::user_agent(n)
    }

    /// The download link for `os_type` found in `html`.
    pub fn extract_download_url(&self, html: &str, os_type: &str) -> (r: Option<String>)
        ensures
            r matches Some(u) ==> download_url(html@, os_type@) == Some(u@),
            r is None ==> download_url(html@, os_type@) is None,
    {
        let windows = same_text(os_type, "windows");
        let linux = same_text(os_type, "linux");
        let prefix = if windows {
            "https://www.minecraft.net/bedrockdedicatedserver/bin-win/"
        } else if linux {
            "https://www.minecraft.net/bedrockdedicatedserver/bin-linux/"
        } else {
            return None;
        };
        let h = chars_of(html);
        let p = chars_of(prefix);
        match find_seq(&h, &p, 0) {
            Some(s) => match find_char(&h, '"', s) {
                Some(e) => {
                    return Some(String::from_str(html.substring_char(s, e)));
                },
                None => {},
            },
            None => {},
        }
        if windows {
            Some(
                String::from_str(
                    "https://www.minecraft.net/bedrockdedicatedserver/bin-win/bedrock-server-1.21.51.02.zip",
                ),
            )
        } else {
            Some(
                String::from_str(
                    "https://www.minecraft.net/bedrockdedicatedserver/bin-linux/bedrock-server-1.21.51.02.zip",
                ),
            )
        }
    }

    /// An archive entry named `name` is a directory: its name ends in `/`.
    pub fn entry_is_directory(name: &str) -> (r: bool)
        ensures
            r == (name@.len() > 0 && name@.last() == '/'),
    {
        let v = chars_of(name);
        v.len() > 0 && v[v.len() - 1] == '/'
    }

    /// The file name under which the download at `url` is saved.
    pub fn download_file_name(url: &str) -> (r: String)
        ensures
            r@ == download_file_name_spec(url@),
    {
        let u = chars_of(url);
        let mut start: usize = 0;
        let mut i: usize = 0;
        assert(u@.subrange(0, 0) =~= Seq::<char>::empty());
        while i < u.len()
            invariant
                u@ == url@,
                start <= i <= u.len(),
                split_on(u@.subrange(0, i as int), '/').last() == u@.subrange(start as int, i as int),
            decreases u.len() - i,
        {
            assert(u@.subrange(0, i + 1).drop_last() =~= u@.subrange(0, i as int));
            proof { crate::text::lemma_split_nonempty(u@.subrange(0, i as int), '/'); }
            if u[i] == '/' {
                start = i + 1;
                assert(u@.subrange(i + 1, i + 1) =~= Seq::<char>::empty());
            } else {
                assert(u@.subrange(start as int, i + 1) =~= u@.subrange(start as int, i as int).push(
                    u@[i as int],
                ));
            }
            i += 1;
        }
        assert(u@.subrange(0, i as int) =~= u@);
        String::from_str(url.substring_char(start, i))
    }
}

} // verus!
