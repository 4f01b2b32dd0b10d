//! Rules of the account login and of imported cookie files.
use vstd::prelude::*;

verus! {

/// How many times a QR-code login is polled before giving up.
pub const LOGIN_POLL_LIMIT: u32 = 120;

/// Login status: confirmed.
pub const LOGIN_CONFIRMED: i64 = 0;

/// Login status: the code was not scanned yet.
pub const LOGIN_NOT_SCANNED: i64 = 86101;

/// Login status: scanned, not confirmed yet.
pub const LOGIN_NOT_CONFIRMED: i64 = 86090;

/// What one login poll means.
#[derive(Clone, Copy, PartialEq, Eq, Structural)]
pub enum LoginPoll {
    /// Logged in: take the cookies of this reply.
    LoggedIn,
    /// Not yet: wait a second and poll again.
    Waiting,
    /// The login failed.
    Failed,
}

/// Reads the status code of a login poll; a reply without one waits.
pub fn login_poll_step(code: Option<i64>) -> (r: LoginPoll)
    ensures
        r == match code {
            Some(c) => if c == LOGIN_CONFIRMED {
                LoginPoll::LoggedIn
            } else if c == LOGIN_NOT_SCANNED || c == LOGIN_NOT_CONFIRMED {
                LoginPoll::Waiting
            } else {
                LoginPoll::Failed
            },
            None => LoginPoll::Waiting,
        },
{
    match code {
        Some(c) => if c == LOGIN_CONFIRMED {
            LoginPoll::LoggedIn
        } else if c == LOGIN_NOT_SCANNED || c == LOGIN_NOT_CONFIRMED {
            LoginPoll::Waiting
        } else {
            LoginPoll::Failed
        },
        None => LoginPoll::Waiting,
    }
}

/// The cookies `name=value` of the pairs with a non-empty name.
pub open spec fn cookie_texts(pairs: Seq<(String, String)>) -> Seq<Seq<char>>
    decreases pairs.len(),
{
    if pairs.len() == 0 {
        Seq::empty()
    } else {
        let rest = cookie_texts(pairs.drop_last());
        let (n, v) = pairs.last();
        if n@.len() > 0 { rest.push(n@ + "="@ + v@) } else { rest }
    }
}

/// Cookies from the name and value pairs of a cookie file, skipping pairs
/// without a name; `None` when no cookie is left.
pub fn cookies_from_pairs(pairs: &Vec<(String, String)>) -> (r: Option<Vec<String>>)
    ensures
        cookie_texts(pairs@).len() == 0 <==> r is None,
        r matches Some(v) ==> v@.map_values(|c: String| c@) == cookie_texts(pairs@),
{
    let mut out: Vec<String> = Vec::new();
    let mut i: usize = 0;
    while i < pairs.len()
        invariant
            i <= pairs@.len(),
            out@.map_values(|c: String| c@) == cookie_texts(pairs@.subrange(0, i as int)),
        decreases pairs@.len() - i,
    {
        let (n, v) = &pairs[i];
        proof {
            assert(pairs@.subrange(0, i + 1).drop_last() =~= pairs@.subrange(0, i as int));
        }
        if n.as_str().unicode_len() > 0 {
            let c = n.clone().concat("=").concat(v.as_str());
            out.push(c);
            assert(out@.map_values(|c: String| c@) =~= cookie_texts(pairs@.subrange(0, i + 1)));
        }
        i += 1;
    }
    assert(pairs@.subrange(0, i as int) =~= pairs@);
    if out.len() == 0 {
        None
    } else {
        Some(out)
    }
}

/// The text before the first `c` (all of it when there is none).
pub open spec fn before_char(s: Seq<char>, c: char) -> Seq<char>
    decreases s.len(),
{
    if s.len() == 0 {
        s
    } else if s[0] == c {
        Seq::empty()
    } else {
        seq![s[0]] + before_char(s.drop_first(), c)
    }
}

proof fn lemma_before_char(s: Seq<char>, c: char, k: int)
    requires
        0 <= k <= s.len(),
        forall|j: int| 0 <= j < k ==> s[j] != c,
        k < s.len() ==> s[k] == c,
    ensures
        before_char(s, c) == s.subrange(0, k),
    decreases s.len(),
{
    if s.len() > 0 && k > 0 {
        lemma_before_char(s.drop_first(), c, k - 1);
        assert(s.subrange(0, k) =~= seq![s[0]] + s.drop_first().subrange(0, k - 1));
    } else {
        assert(s.subrange(0, k) =~= Seq::<char>::empty());
    }
}

/// Name for a text without its leading and trailing whitespace.
pub uninterp spec fn trimmed_of(s: Seq<char>) -> Seq<char>;

/// Relies on `str::trim`: the text without leading and trailing whitespace,
/// a function of the text alone.
#[verifier::external_body]
fn trim_text(s: &str) -> (r: String)
    ensures
        r@ == trimmed_of(s@),
{
    s.trim().to_string()
}

/// The position of the first `c`, or the length when there is none.
fn index_of(s: &str, c: char) -> (r: usize)
    ensures
        r <= s@.len(),
        forall|j: int| 0 <= j < r ==> s@[j] != c,
        r < s@.len() ==> s@[r as int] == c,
{
    let n = s.unicode_len();
    let mut i: usize = 0;
    while i < n
        invariant
            n == s@.len(),
            i <= n,
            forall|j: int| 0 <= j < i ==> s@[j] != c,
        decreases n - i,
    {
        if s.get_char(i) == c {
            return i;
        }
        i += 1;
    }
    n
}

/// The name and value of a cookie (`name=value; attributes`): the part
/// before the first `;` must hold a `=`; name and value are the text around
/// its first `=`, trimmed.
pub open spec fn cookie_pair_of(c: Seq<char>) -> Option<(Seq<char>, Seq<char>)> {
    let first = before_char(c, ';');
    let name = before_char(first, '=');
    if name.len() < first.len() {
        Some((trimmed_of(name), trimmed_of(first.subrange(name.len() as int + 1, first.len() as int))))
    } else {
        None
    }
}

/// Reads the name and value of a cookie, by [`cookie_pair_of`].
pub fn cookie_name_value(c: &str) -> (r: Option<(String, String)>)
    ensures
        r is None <==> cookie_pair_of(c@) is None,
        r matches Some((n, v)) ==> cookie_pair_of(c@) == Some((n@, v@)),
{
    let semi = index_of(c, ';');
    proof {
        lemma_before_char(c@, ';', semi as int);
    }
    let first = c.substring_char(0, semi);
    let eq = index_of(first, '=');
    proof {
        lemma_before_char(first@, '=', eq as int);
    }
    if eq < semi {
        let name = trim_text(first.substring_char(0, eq));
        let value = trim_text(first.substring_char(eq + 1, semi));
        Some((name, value))
    } else {
        None
    }
}

} // verus!
