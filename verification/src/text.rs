//! Textual presentation helpers: the window title, the greeting page's
//! username fallback, and the about panel's commit link pieces.

use vstd::prelude::*;
use vstd::string::StrSliceExecFns;
use vstd::string::StringExecFns;

verus! {

/// The window title: the application title, an em-dash separator, and the
/// active page's label.
pub fn window_title(app_title: &str, page_text: &str) -> (r: String)
    ensures
        r@ == app_title@ + " — "@ + page_text@,
{
    let mut t = app_title.to_owned();
    t.append(" — ");
    t.append(page_text);
    t
}

/// The name greeted on the third page: the configured username when one is
/// set, else the first OS-provided user name available, else a fixed marker.
pub fn display_username(configured: &str, os_user: Option<String>, os_username: Option<String>) -> (r:
    String)
    ensures
        configured@.len() > 0 ==> r@ == configured@,
        configured@.len() == 0 ==> (os_user matches Some(u) ==> r@ == u@),
        configured@.len() == 0 && os_user is None ==> (os_username matches Some(u) ==> r@ == u@),
        configured@.len() == 0 && os_user is None && os_username is None ==> r@
            == "Unknown User"@,
{
    if !configured.is_empty() {
        configured.to_owned()
    } else {
        match os_user {
            Some(u) => u,
            None => match os_username {
                Some(u) => u,
                None => String::from_str("Unknown User"),
            },
        }
    }
}

/// The abbreviated commit hash shown on the about panel: the first seven
/// characters, or the whole hash when it is shorter.
pub fn short_hash(hash: &str) -> (r: String)
    ensures
        hash@.len() >= 7 ==> r@ == hash@.subrange(0, 7),
        hash@.len() < 7 ==> r@ == hash@,
{
    let n = hash.unicode_len();
    let k = if n < 7 {
        n
    } else {
        7
    };
    let r = hash.substring_char(0, k).to_owned();
    proof {
        if hash@.len() < 7 {
            assert(r@ =~= hash@);
        }
    }
    r
}

/// The URL of a commit: the repository URL, the commits path, and the hash.
pub fn commit_url(repository: &str, hash: &str) -> (r: String)
    ensures
        r@ == repository@ + "/commits/"@ + hash@,
{
    let mut t = repository.to_owned();
    t.append("/commits/");
    t.append(hash);
    t
}

} // verus!
