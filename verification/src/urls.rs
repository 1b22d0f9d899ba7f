//! Validation of externally-opened URLs.
//!
//! A URL handed to the platform's opener must be plain HTTP or HTTPS, name
//! a host, and carry no shell metacharacters (defense in depth: the opener
//! is spawned without a shell, but a hostile URL should fail loudly here).

use vstd::prelude::*;

verus! {

/// Why a URL was refused.
#[derive(Debug, Clone, Copy, PartialEq, Eq, Structural)]
pub enum UrlError {
    /// The scheme is neither `http://` nor `https://`.
    NotHttp,
    /// Nothing, or a bare path, follows the scheme.
    MissingHost,
    /// A shell metacharacter occurs somewhere in the URL.
    BadChars,
}

impl UrlError {
    /// The display string of this refusal.
    pub open spec fn message_spec(&self) -> Seq<char> {
        match self {
            UrlError::NotHttp => "Only HTTP/HTTPS URLs are allowed"@,
            UrlError::MissingHost => "Invalid URL: missing host"@,
            UrlError::BadChars => "URL contains invalid characters"@,
        }
    }

    pub fn message(&self) -> (r: String)
        ensures
            r@ == self.message_spec(),
    {
        match self {
            UrlError::NotHttp => String::from_str("Only HTTP/HTTPS URLs are allowed"),
            UrlError::MissingHost => String::from_str("Invalid URL: missing host"),
            UrlError::BadChars => String::from_str("URL contains invalid characters"),
        }
    }
}

/// A character the validator refuses anywhere in a URL.
pub open spec fn forbidden_char(c: char) -> bool {
    ||| c == '`'
    ||| c == '|'
    ||| c == ';'
    ||| c == '&'
    ||| c == '$'
    ||| c == '('
    ||| c == ')'
    ||| c == '{'
    ||| c == '}'
    ||| c == '<'
    ||| c == '>'
    ||| c == '\n'
    ||| c == '\r'
}

pub open spec fn has_https_scheme(s: Seq<char>) -> bool {
    s.len() >= 8 && s.subrange(0, 8) == "https://"@
}

pub open spec fn has_http_scheme(s: Seq<char>) -> bool {
    s.len() >= 7 && s.subrange(0, 7) == "http://"@
}

/// What follows the scheme.
pub open spec fn after_scheme(s: Seq<char>) -> Seq<char> {
    if has_https_scheme(s) {
        s.subrange(8, s.len() as int)
    } else {
        s.subrange(7, s.len() as int)
    }
}

/// The first refusal a URL earns, or none: scheme first, then a host, then
/// the character scan.
pub open spec fn spec_validate_url(s: Seq<char>) -> Option<UrlError> {
    if !has_https_scheme(s) && !has_http_scheme(s) {
        Some(UrlError::NotHttp)
    } else if after_scheme(s).len() == 0 || after_scheme(s)[0] == '/' {
        Some(UrlError::MissingHost)
    } else if exists|i: int| 0 <= i < s.len() && forbidden_char(#[trigger] s[i]) {
        Some(UrlError::BadChars)
    } else {
        None
    }
}

proof fn lemma_https_chars(s: Seq<char>)
    requires
        has_https_scheme(s),
    ensures
        s.len() >= 8,
        s[0] == 'h' && s[1] == 't' && s[2] == 't' && s[3] == 'p' && s[4] == 's' && s[5] == ':'
            && s[6] == '/' && s[7] == '/',
{
    reveal_strlit("https://");
    assert(s.subrange(0, 8)[0] == s[0]);
    assert(s.subrange(0, 8)[1] == s[1]);
    assert(s.subrange(0, 8)[2] == s[2]);
    assert(s.subrange(0, 8)[3] == s[3]);
    assert(s.subrange(0, 8)[4] == s[4]);
    assert(s.subrange(0, 8)[5] == s[5]);
    assert(s.subrange(0, 8)[6] == s[6]);
    assert(s.subrange(0, 8)[7] == s[7]);
}

proof fn lemma_chars_https(s: Seq<char>)
    requires
        s.len() >= 8,
        s[0] == 'h' && s[1] == 't' && s[2] == 't' && s[3] == 'p' && s[4] == 's' && s[5] == ':'
            && s[6] == '/' && s[7] == '/',
    ensures
        has_https_scheme(s),
{
    reveal_strlit("https://");
    assert(s.subrange(0, 8) =~= "https://"@);
}

proof fn lemma_http_chars(s: Seq<char>)
    requires
        has_http_scheme(s),
    ensures
        s.len() >= 7,
        s[0] == 'h' && s[1] == 't' && s[2] == 't' && s[3] == 'p' && s[4] == ':' && s[5] == '/'
            && s[6] == '/',
{
    reveal_strlit("http://");
    assert(s.subrange(0, 7)[0] == s[0]);
    assert(s.subrange(0, 7)[1] == s[1]);
    assert(s.subrange(0, 7)[2] == s[2]);
    assert(s.subrange(0, 7)[3] == s[3]);
    assert(s.subrange(0, 7)[4] == s[4]);
    assert(s.subrange(0, 7)[5] == s[5]);
    assert(s.subrange(0, 7)[6] == s[6]);
}

proof fn lemma_chars_http(s: Seq<char>)
    requires
        s.len() >= 7,
        s[0] == 'h' && s[1] == 't' && s[2] == 't' && s[3] == 'p' && s[4] == ':' && s[5] == '/'
            && s[6] == '/',
    ensures
        has_http_scheme(s),
{
    reveal_strlit("http://");
    assert(s.subrange(0, 7) =~= "http://"@);
}

fn forbidden(c: char) -> (r: bool)
    ensures
        r == forbidden_char(c),
{
    c == '`' || c == '|' || c == ';' || c == '&' || c == '$' || c == '(' || c == ')' || c == '{'
        || c == '}' || c == '<' || c == '>' || c == '\n' || c == '\r'
}

/// Validates a URL for the external opener.
pub fn validate_open_url(url: &str) -> (r: Result<(), UrlError>)
    ensures
        (r is Ok) == (spec_validate_url(url@) is None),
        r matches Err(e) ==> spec_validate_url(url@) == Some(e),
{
    let n = url.unicode_len();
    let https = n >= 8 && url.get_char(0) == 'h' && url.get_char(1) == 't' && url.get_char(2)
        == 't' && url.get_char(3) == 'p' && url.get_char(4) == 's' && url.get_char(5) == ':'
        && url.get_char(6) == '/' && url.get_char(7) == '/';
    let http = n >= 7 && url.get_char(0) == 'h' && url.get_char(1) == 't' && url.get_char(2)
        == 't' && url.get_char(3) == 'p' && url.get_char(4) == ':' && url.get_char(5) == '/'
        && url.get_char(6) == '/';
    proof {
        if https {
            lemma_chars_https(url@);
        }
        if http {
            lemma_chars_http(url@);
        }
        if has_https_scheme(url@) {
            lemma_https_chars(url@);
        }
        if has_http_scheme(url@) {
            lemma_http_chars(url@);
        }
        assert(https == has_https_scheme(url@));
        assert(http == has_http_scheme(url@));
    }
    if !https && !http {
        return Err(UrlError::NotHttp);
    }
    let k: usize = if https {
        8
    } else {
        7
    };
    proof {
        assert(after_scheme(url@) == url@.subrange(k as int, n as int));
    }
    if n == k {
        assert(after_scheme(url@).len() == 0);
        return Err(UrlError::MissingHost);
    }
    if url.get_char(k) == '/' {
        assert(after_scheme(url@)[0] == url@[k as int]);
        return Err(UrlError::MissingHost);
    }
    assert(after_scheme(url@).len() > 0 && after_scheme(url@)[0] != '/') by {
        assert(after_scheme(url@)[0] == url@[k as int]);
    }
    let mut i: usize = 0;
    while i < n
        invariant
            n == url@.len(),
            i <= n,
            has_https_scheme(url@) || has_http_scheme(url@),
            after_scheme(url@).len() > 0,
            after_scheme(url@)[0] != '/',
            forall|j: int| 0 <= j < i ==> !forbidden_char(#[trigger] url@[j]),
        decreases n - i,
    {
        if forbidden(url.get_char(i)) {
            assert(forbidden_char(url@[i as int]));
            return Err(UrlError::BadChars);
        }
        i = i + 1;
    }
    Ok(())
}

} // verus!
