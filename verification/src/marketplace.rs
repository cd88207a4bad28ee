//! Plugin marketplaces: named sources of installable plugins.
//!
//! The library only models marketplaces and validates references to them;
//! fetching their content over the network is no concern of this crate, and
//! the listing operations reflect that: they return nothing, or report the
//! operation as unavailable.

use vstd::prelude::*;
use vstd::string::*;

use crate::error::Error;
use crate::text::{str_starts_with, chars_of, string_from_chars};

verus! {

/// Default marketplace URL.
pub const DEFAULT_MARKETPLACE_URL: &'static str =
    "https://github.com/community/marketplace";

/// A plugin marketplace: a name and the URL it is reached under.
#[derive(Debug, Clone)]
pub struct Marketplace {
    /// Marketplace name, derived from the last URL segment.
    pub name: String,
    /// Marketplace URL.
    pub url: String,
}

/// A plugin as a marketplace describes it.
#[derive(Debug, Clone)]
pub struct Plugin {
    /// Plugin name.
    pub name: String,
    /// Name of the marketplace it belongs to.
    pub marketplace: String,
    /// Plugin description.
    pub description: String,
    /// Plugin version, when known.
    pub version: Option<String>,
    /// Homepage URL, when known.
    pub homepage: Option<String>,
    /// Repository URL, when known.
    pub repository: Option<String>,
    /// Author, when known.
    pub author: Option<String>,
    /// Tags, when known.
    pub tags: Option<Vec<String>>,
}

/// The text with its trailing `/` characters removed.
pub open spec fn spec_trim_trailing_slashes(s: Seq<char>) -> Seq<char>
    decreases s.len(),
{
    if s.len() > 0 && s[s.len() - 1] == '/' {
        spec_trim_trailing_slashes(s.drop_last())
    } else {
        s
    }
}

/// The suffix of `s` after its last `/`; all of `s` when it has none.
pub open spec fn spec_after_last_slash(s: Seq<char>) -> Seq<char>
    decreases s.len(),
{
    if s.len() == 0 {
        s
    } else if s[s.len() - 1] == '/' {
        Seq::<char>::empty()
    } else {
        spec_after_last_slash(s.drop_last()).push(s[s.len() - 1])
    }
}

/// The last non-empty slash-separated segment of a URL: the suffix after the
/// last `/` once trailing slashes are removed.
pub open spec fn spec_last_url_segment(s: Seq<char>) -> Seq<char> {
    spec_after_last_slash(spec_trim_trailing_slashes(s))
}

/// Trimming stops exactly at the last non-slash character.
proof fn lemma_trim_at(s: Seq<char>, end: int)
    requires
        0 <= end <= s.len(),
        forall|k: int| end <= k < s.len() ==> s[k] == '/',
        end > 0 ==> s[end - 1] != '/',
    ensures
        spec_trim_trailing_slashes(s) == s.take(end),
    decreases s.len(),
{
    if s.len() == end {
        assert(s.take(end) =~= s);
    } else {
        assert(s[s.len() - 1] == '/');
        lemma_trim_at(s.drop_last(), end);
        assert(s.drop_last().take(end) =~= s.take(end));
    }
}

/// The suffix after the last slash starts exactly at the character after the
/// last slash.
proof fn lemma_after_at(s: Seq<char>, start: int)
    requires
        0 <= start <= s.len(),
        forall|k: int| start <= k < s.len() ==> s[k] != '/',
        start > 0 ==> s[start - 1] == '/',
    ensures
        spec_after_last_slash(s) == s.skip(start),
    decreases s.len(),
{
    if s.len() == 0 {
        assert(s.skip(0) =~= s);
    } else if start == s.len() {
        assert(s[s.len() - 1] == '/');
        assert(s.skip(start) =~= Seq::<char>::empty());
    } else {
        assert(s[s.len() - 1] != '/');
        lemma_after_at(s.drop_last(), start);
        assert(s.drop_last().skip(start).push(s[s.len() - 1]) =~= s.skip(start));
    }
}

impl Marketplace {
    /// Create a marketplace from its URL.
    ///
    /// Succeeds exactly when the URL is non-empty and starts with `http://`
    /// or `https://`; the marketplace name is the last non-empty
    /// slash-separated segment of the URL.
    pub fn from_url(url: &str) -> (r: Result<Marketplace, Error>)
        ensures
            (r is Ok) <==> (url@.len() > 0 && (url@.len() >= 7 && url@.subrange(0, 7)
                == "http://"@ || url@.len() >= 8 && url@.subrange(0, 8) == "https://"@)),
            r matches Ok(m) ==> m.url@ == url@,
            r matches Ok(m) ==> m.name@ == (if spec_last_url_segment(url@).len() == 0 {
                "unknown"@
            } else {
                spec_last_url_segment(url@)
            }),
            r matches Err(e) ==> e matches Error::InvalidMarketplace(_),
    {
        if url.unicode_len() == 0 {
            return Err(Error::InvalidMarketplace("URL cannot be empty".to_owned()));
        }
        if !str_starts_with(url, "http://") && !str_starts_with(url, "https://") {
            proof {
                reveal_strlit("http://");
                reveal_strlit("https://");
                assert("http://"@.len() == 7);
                assert("https://"@.len() == 8);
            }
            return Err(
                Error::InvalidMarketplace("URL must start with http:// or https://".to_owned()),
            );
        }
        proof {
            reveal_strlit("http://");
            reveal_strlit("https://");
            assert("http://"@.len() == 7);
            assert("https://"@.len() == 8);
        }
        let chars = chars_of(url);
        // Trim trailing slashes, then take the suffix after the last slash.
        let mut end: usize = chars.len();
        while end > 0 && chars[end - 1] == '/'
            invariant
                end <= chars@.len(),
                forall|k: int| end <= k < chars@.len() ==> chars@[k] == '/',
            decreases end,
        {
            end = end - 1;
        }
        let mut start: usize = end;
        while start > 0 && chars[start - 1] != '/'
            invariant
                start <= end,
                end <= chars@.len(),
                forall|k: int| start <= k < end ==> chars@[k] != '/',
            decreases start,
        {
            start = start - 1;
        }
        let mut seg: Vec<char> = Vec::new();
        let mut i: usize = start;
        while i < end
            invariant
                start <= i <= end,
                end <= chars@.len(),
                seg@ == chars@.subrange(start as int, i as int),
            decreases end - i,
        {
            let ghost prev = seg@;
            seg.push(chars[i]);
            proof {
                assert(seg@ =~= chars@.subrange(start as int, i + 1 as int));
            }
            i = i + 1;
        }
        proof {
            lemma_trim_at(chars@, end as int);
            lemma_after_at(chars@.take(end as int), start as int);
            assert(chars@.take(end as int).skip(start as int) =~= chars@.subrange(
                start as int,
                end as int,
            ));
            assert(spec_last_url_segment(url@) == seg@);
        }
        let name = if seg.len() == 0 {
            "unknown".to_owned()
        } else {
            string_from_chars(&seg)
        };
        Ok(Marketplace { name, url: url.to_owned() })
    }

    /// List the plugins of this marketplace.
    ///
    /// Network fetching is outside this library; the list is always empty.
    pub fn list_plugins(&self) -> (r: Result<Vec<Plugin>, Error>)
        ensures
            r matches Ok(v) && v@.len() == 0,
    {
        Ok(Vec::new())
    }

    /// Fetch one plugin by name.
    ///
    /// An empty name is rejected as an invalid plugin; any other name is
    /// rejected as unavailable, since network fetching is outside this
    /// library.
    pub fn get_plugin(&self, name: &str) -> (r: Result<Plugin, Error>)
        ensures
            r is Err,
            name@.len() == 0 ==> (r->Err_0 matches Error::InvalidPlugin(m) && m@
                == "Plugin name cannot be empty"@),
            name@.len() > 0 ==> (r->Err_0 matches Error::MarketplaceError(m) && m@
                == "Marketplace fetch is not available in this build"@),
    {
        if name.unicode_len() == 0 {
            return Err(Error::InvalidPlugin("Plugin name cannot be empty".to_owned()));
        }
        Err(
            Error::MarketplaceError(
                "Marketplace fetch is not available in this build".to_owned(),
            ),
        )
    }

    /// The marketplace rendered as `name (url)`.
    pub fn display_string(&self) -> (r: String)
        ensures
            r@ == self.name@ + " ("@ + self.url@ + ")"@,
    {
        let mut out = self.name.clone();
        out.append(" (");
        out.append(self.url.as_str());
        out.append(")");
        out
    }
}

impl Default for Marketplace {
    /// The default marketplace.
    fn default() -> (r: Self)
        ensures
            r.name@ == "community"@,
            r.url@ == DEFAULT_MARKETPLACE_URL@,
    {
        Marketplace { name: "community".to_owned(), url: DEFAULT_MARKETPLACE_URL.to_owned() }
    }
}

impl Plugin {
    /// A plugin with the required fields; everything optional starts unset.
    pub fn new(name: String, marketplace: String, description: String) -> (r: Plugin)
        ensures
            r.name == name,
            r.marketplace == marketplace,
            r.description == description,
            r.version is None,
            r.homepage is None,
            r.repository is None,
            r.author is None,
            r.tags is None,
    {
        Plugin {
            name,
            marketplace,
            description,
            version: None,
            homepage: None,
            repository: None,
            author: None,
            tags: None,
        }
    }

    /// Set the version.
    pub fn with_version(self, version: String) -> (r: Plugin)
        ensures
            r == (Plugin { version: Some(version), ..self }),
    {
        Plugin { version: Some(version), ..self }
    }

    /// Set the homepage URL.
    pub fn with_homepage(self, homepage: String) -> (r: Plugin)
        ensures
            r == (Plugin { homepage: Some(homepage), ..self }),
    {
        Plugin { homepage: Some(homepage), ..self }
    }

    /// Set the repository URL.
    pub fn with_repository(self, repository: String) -> (r: Plugin)
        ensures
            r == (Plugin { repository: Some(repository), ..self }),
    {
        Plugin { repository: Some(repository), ..self }
    }

    /// Set the author.
    pub fn with_author(self, author: String) -> (r: Plugin)
        ensures
            r == (Plugin { author: Some(author), ..self }),
    {
        Plugin { author: Some(author), ..self }
    }

    /// Set the tags.
    pub fn with_tags(self, tags: Vec<String>) -> (r: Plugin)
        ensures
            r == (Plugin { tags: Some(tags), ..self }),
    {
        Plugin { tags: Some(tags), ..self }
    }

    /// Whether the plugin carries `tag`, compared byte for byte without
    /// regard to ASCII case.
    pub fn has_tag(&self, tag: &str) -> (r: bool)
        ensures
            r == (self.tags is Some && exists|i: int|
                0 <= i < self.tags->Some_0@.len() && spec_ascii_eq_ignore_case(
                    (#[trigger] self.tags->Some_0@[i])@,
                    tag@,
                )),
    {
        match &self.tags {
            Some(ts) => {
                let mut i: usize = 0;
                while i < ts.len()
                    invariant
                        self.tags is Some,
                        ts@ == self.tags->Some_0@,
                        i <= ts@.len(),
                        forall|k: int|
                            0 <= k < i ==> !spec_ascii_eq_ignore_case(
                                (#[trigger] self.tags->Some_0@[k])@,
                                tag@,
                            ),
                    decreases ts@.len() - i,
                {
                    if ascii_eq_ignore_case(ts[i].as_str(), tag) {
                        proof {
                            assert(spec_ascii_eq_ignore_case(
                                (self.tags->Some_0@[i as int])@,
                                tag@,
                            ));
                        }
                        return true;
                    }
                    i = i + 1;
                }
                false
            },
            None => false,
        }
    }

    /// The plugin rendered as `name@version from marketplace - description`,
    /// with `latest` for an unset version.
    pub fn display_string(&self) -> (r: String)
        ensures
            r@ == self.name@ + "@"@ + (match self.version {
                Some(v) => v@,
                None => "latest"@,
            }) + " from "@ + self.marketplace@ + " - "@ + self.description@,
    {
        let mut out = self.name.clone();
        out.append("@");
        match &self.version {
            Some(v) => out.append(v.as_str()),
            None => out.append("latest"),
        }
        out.append(" from ");
        out.append(self.marketplace.as_str());
        out.append(" - ");
        out.append(self.description.as_str());
        out
    }
}

/// The character with an ASCII uppercase letter mapped to its lowercase
/// form.
pub open spec fn spec_ascii_lower(c: char) -> char {
    if 'A' <= c && c <= 'Z' {
        (((c as u32) + 32) as u8) as char
    } else {
        c
    }
}

/// Whether two texts are equal after mapping ASCII letters to lowercase.
pub open spec fn spec_ascii_eq_ignore_case(a: Seq<char>, b: Seq<char>) -> bool {
    a.map_values(|c: char| spec_ascii_lower(c)) == b.map_values(|c: char| spec_ascii_lower(c))
}

/// Map an ASCII uppercase letter to lowercase, leaving any other character
/// alone.
pub fn ascii_lower(c: char) -> (r: char)
    ensures
        r == spec_ascii_lower(c),
{
    if 'A' <= c && c <= 'Z' {
        (((c as u32) + 32) as u8) as char
    } else {
        c
    }
}

/// Compare two strings for equality without regard to ASCII case.
pub fn ascii_eq_ignore_case(a: &str, b: &str) -> (r: bool)
    ensures
        r == spec_ascii_eq_ignore_case(a@, b@),
{
    let an = a.unicode_len();
    let bn = b.unicode_len();
    if an != bn {
        proof {
            assert(a@.map_values(|c: char| spec_ascii_lower(c)).len() == a@.len());
            assert(b@.map_values(|c: char| spec_ascii_lower(c)).len() == b@.len());
        }
        return false;
    }
    let mut i: usize = 0;
    while i < an
        invariant
            i <= an,
            an == a@.len(),
            an == b@.len(),
            forall|k: int| 0 <= k < i ==> spec_ascii_lower(a@[k]) == spec_ascii_lower(b@[k]),
        decreases an - i,
    {
        if ascii_lower(a.get_char(i)) != ascii_lower(b.get_char(i)) {
            proof {
                assert(a@.map_values(|c: char| spec_ascii_lower(c))[i as int] != b@.map_values(
                    |c: char| spec_ascii_lower(c),
                )[i as int]);
            }
            return false;
        }
        i = i + 1;
    }
    proof {
        assert(a@.map_values(|c: char| spec_ascii_lower(c)) =~= b@.map_values(
            |c: char| spec_ascii_lower(c),
        ));
    }
    true
}

} // verus!
