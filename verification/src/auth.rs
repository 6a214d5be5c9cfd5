use vstd::prelude::*;

verus! {

/// The authentication mode of one invocation. Exactly one mode is
/// selected from the connection options, with a fixed precedence:
/// credentials embedded in the URL, else a cookie file, else a
/// username/password pair, else none.
#[derive(Clone, Debug)]
pub enum AuthMode {
    /// The URL itself carries credentials; it is used as given.
    UrlCredentials,
    /// Authenticate with the secret read from this cookie file.
    CookieFile(String),
    /// Authenticate with this username and password.
    UserPass(String, String),
    /// No authentication.
    NoAuth,
}

/// The scheme separator `://` starts at position `i` of `s`.
pub open spec fn sep_at(s: Seq<u8>, i: int) -> bool {
    &&& 0 <= i
    &&& i + 3 <= s.len()
    &&& s[i] == 58
    &&& s[i + 1] == 47
    &&& s[i + 2] == 47
}

/// No scheme separator starts anywhere in `lo <= j < hi`.
pub open spec fn no_sep_in(s: Seq<u8>, lo: int, hi: int) -> bool {
    forall|j: int| lo <= j < hi ==> !sep_at(s, j)
}

/// Position `f` is the first scheme separator of `s`, and position `k`
/// holds an `@` that lies after it and before any further separator:
/// the text between the first `://` and the next one (or the end)
/// contains an `@`.
pub open spec fn credential_marker_at(s: Seq<u8>, f: int, k: int) -> bool {
    &&& sep_at(s, f)
    &&& no_sep_in(s, 0, f)
    &&& f + 3 <= k < s.len()
    &&& s[k] == 64
    &&& no_sep_in(s, f + 3, k + 1)
}

/// The URL carries embedded credentials under the lenient scan the
/// client uses: it contains `://`, and the text from there to the next
/// `://` (or the end) contains an `@`. The scan does not insist that
/// the `@` precede the true host part.
pub open spec fn url_embeds_credentials_spec(s: Seq<u8>) -> bool {
    exists|f: int, k: int| credential_marker_at(s, f, k)
}

/// Find the first scheme separator at or after `from`.
fn find_sep(s: &[u8], from: usize) -> (r: Option<usize>)
    requires
        from <= s@.len(),
    ensures
        r matches Some(i) ==> from <= i && sep_at(s@, i as int) && no_sep_in(
            s@,
            from as int,
            i as int,
        ),
        r is None ==> no_sep_in(s@, from as int, s@.len() as int),
{
    if s.len() < 3 || from > s.len() - 3 {
        return None;
    }
    let mut i: usize = from;
    while i <= s.len() - 3
        invariant
            s@.len() >= 3,
            from <= i <= s@.len() - 2,
            no_sep_in(s@, from as int, i as int),
        decreases s@.len() - i,
    {
        if s[i] == 58 && s[i + 1] == 47 && s[i + 2] == 47 {
            return Some(i);
        }
        i = i + 1;
    }
    None
}

/// Whether the URL text carries embedded credentials: it contains `://`
/// and an `@` between the first `://` and the next one (or the end).
pub fn url_embeds_credentials(url: &[u8]) -> (r: bool)
    ensures
        r == url_embeds_credentials_spec(url@),
{
    let f = match find_sep(url, 0) {
        Some(f) => f,
        None => {
            proof {
                assert forall|f2: int, k: int| !credential_marker_at(url@, f2, k) by {
                    if credential_marker_at(url@, f2, k) {
                        assert(!sep_at(url@, f2));
                    }
                }
            }
            return false;
        },
    };
    let n = url.len();
    assert(f + 3 <= n);
    let g = match find_sep(url, f + 3) {
        Some(g) => g,
        None => n,
    };
    let mut i: usize = f + 3;
    while i < g
        invariant
            f + 3 <= i <= g <= url@.len(),
            sep_at(url@, f as int),
            no_sep_in(url@, 0, f as int),
            no_sep_in(url@, f + 3, g as int),
            g < url@.len() ==> sep_at(url@, g as int),
            forall|j: int| f + 3 <= j < i ==> url@[j] != 64,
        decreases g - i,
    {
        if url[i] == 64 {
            proof {
                assert(credential_marker_at(url@, f as int, i as int));
            }
            return true;
        }
        i = i + 1;
    }
    proof {
        assert forall|f2: int, k: int| !credential_marker_at(url@, f2, k) by {
            if credential_marker_at(url@, f2, k) {
                assert(sep_at(url@, f as int));
                assert(f2 == f);
                if k < g {
                    assert(url@[k] != 64);
                } else {
                    assert(g < url@.len());
                    assert(sep_at(url@, g as int));
                    assert(f + 3 <= g < k + 1);
                }
            }
        }
    }
    false
}

/// The mode that the decision table selects from the connection options.
pub open spec fn resolve_auth_spec(
    url: Seq<u8>,
    user: Option<String>,
    password: Option<String>,
    cookie_file: Option<String>,
) -> AuthMode {
    if url_embeds_credentials_spec(url) {
        AuthMode::UrlCredentials
    } else if cookie_file is Some {
        AuthMode::CookieFile(cookie_file->0)
    } else if user is Some && password is Some {
        AuthMode::UserPass(user->0, password->0)
    } else {
        AuthMode::NoAuth
    }
}

/// Select exactly one authentication mode from the connection options.
///
/// Precedence: credentials embedded in the URL win; else an explicit
/// cookie file; else an explicit username and password pair (both must
/// be present); else no authentication. Never fails.
pub fn resolve_auth(
    url: &[u8],
    user: Option<String>,
    password: Option<String>,
    cookie_file: Option<String>,
) -> (r: AuthMode)
    ensures
        r == resolve_auth_spec(url@, user, password, cookie_file),
{
    if url_embeds_credentials(url) {
        AuthMode::UrlCredentials
    } else if let Some(c) = cookie_file {
        AuthMode::CookieFile(c)
    } else if user.is_some() && password.is_some() {
        AuthMode::UserPass(user.unwrap(), password.unwrap())
    } else {
        AuthMode::NoAuth
    }
}

/// Credential resolution is total and deterministic, and follows the
/// stated precedence order: embedded URL credentials, else cookie file,
/// else username/password pair, else none. For every combination of
/// options exactly one of the four modes results.
pub proof fn lemma_auth_resolution_total(
    url: Seq<u8>,
    user: Option<String>,
    password: Option<String>,
    cookie_file: Option<String>,
)
    ensures
        url_embeds_credentials_spec(url) ==> resolve_auth_spec(url, user, password, cookie_file)
            is UrlCredentials,
        !url_embeds_credentials_spec(url) && cookie_file is Some ==> resolve_auth_spec(
            url,
            user,
            password,
            cookie_file,
        ) == AuthMode::CookieFile(cookie_file->0),
        !url_embeds_credentials_spec(url) && cookie_file is None && user is Some && password
            is Some ==> resolve_auth_spec(url, user, password, cookie_file) == AuthMode::UserPass(
            user->0,
            password->0,
        ),
        !url_embeds_credentials_spec(url) && cookie_file is None && (user is None || password
            is None) ==> resolve_auth_spec(url, user, password, cookie_file) is NoAuth,
{
}

} // verus!
