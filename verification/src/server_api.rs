//! Verified helpers behind the management server's endpoints: the request
//! and response record types, the playlist file naming convention (building
//! a document path from a playlist name, and recovering a playlist name
//! from a file name), path sanitisation for directory listing, and bearer
//! token extraction.

use vstd::prelude::*;
use vstd::string::StringExecFns;

use crate::server_config::NodeConfig;
use crate::strutil::{find_first, find_last, occurs_at, push_char, spec_starts_with, str_starts_with};

verus! {

#[derive(Debug)]
pub struct MessageResponse {
    pub message: String,
}

#[derive(Debug)]
pub struct TokenClaims {
    pub iat: usize,
    pub exp: usize,
}

#[derive(Debug)]
pub struct LoginUserSchema {
    pub password: String,
}

#[derive(Debug)]
pub struct GetListFilesParams {
    pub requested_path: Option<String>,
    pub folders_only: Option<bool>,
}

#[derive(Debug)]
pub struct FolderEntry {
    pub name: String,
    pub path: String,
    pub is_file: bool,
}

impl TokenClaims {
    /// Claims issued at `iat`, expiring sixty minutes later.
    pub fn for_issue_time(iat: usize) -> (c: TokenClaims)
        requires
            iat + 3600 <= usize::MAX,
        ensures
            c.iat == iat,
            c.exp == iat + 3600,
    {
        TokenClaims { iat, exp: iat + 3600 }
    }
}

/// The folder holding the playlist documents under the media root.
pub fn get_configs_folder_path(config: &NodeConfig) -> (r: String)
    ensures
        r@ == config.media.folder@ + "/cfg"@,
{
    let mut r = config.media.folder.clone();
    r.append("/cfg");
    r
}

/// `s` with every dot removed.
pub open spec fn spec_remove_dots(s: Seq<char>) -> Seq<char>
    decreases s.len(),
{
    if s.len() == 0 {
        Seq::empty()
    } else if s.first() == '.' {
        spec_remove_dots(s.drop_first())
    } else {
        seq![s.first()] + spec_remove_dots(s.drop_first())
    }
}

/// The file path of the named playlist document: the default name maps to
/// the default document; any other name, with its dots removed, selects the
/// per-node override document.
pub open spec fn spec_playlist_file_path(config: NodeConfig, name: Seq<char>) -> Seq<char> {
    if name == "default"@ {
        config.media.folder@ + "/cfg"@ + "/playlist.toml"@
    } else {
        config.media.folder@ + "/cfg"@ + "/playlist_"@ + spec_remove_dots(name) + ".toml"@
    }
}

pub fn get_playlist_file_path(config: &NodeConfig, playlist_name: String) -> (r: String)
    ensures
        r@ == spec_playlist_file_path(*config, playlist_name@),
{
    let mut r = get_configs_folder_path(config);
    let default_name = String::from_str("default");
    if playlist_name == default_name {
        r.append("/playlist.toml");
        r
    } else {
        r.append("/playlist_");
        let ghost base = r@;
        let name = playlist_name.as_str();
        let n = name.unicode_len();
        let mut i: usize = 0;
        proof {
            assert(playlist_name@.skip(0) =~= playlist_name@);
        }
        while i < n
            invariant
                n == playlist_name@.len(),
                name@ == playlist_name@,
                i <= n,
                r@ + spec_remove_dots(playlist_name@.skip(i as int)) =~= base
                    + spec_remove_dots(playlist_name@),
            decreases n - i,
        {
            proof {
                assert(playlist_name@.skip(i as int).first() == playlist_name@[i as int]);
                assert(playlist_name@.skip(i as int).drop_first() =~= playlist_name@.skip(
                    i as int + 1,
                ));
            }
            let c = name.get_char(i);
            if c != '.' {
                push_char(&mut r, c);
                proof {
                    assert(r@ + spec_remove_dots(playlist_name@.skip(i as int + 1)) =~= base
                        + spec_remove_dots(playlist_name@));
                }
            }
            i += 1;
        }
        proof {
            assert(playlist_name@.skip(n as int) =~= Seq::<char>::empty());
            assert(r@ =~= base + spec_remove_dots(playlist_name@));
        }
        r.append(".toml");
        r
    }
}

/// Whether the name selects the default playlist document, which is never
/// deletable.
pub fn is_default_playlist(name: &String) -> (r: bool)
    ensures
        r == (name@ == "default"@),
{
    let default_name = String::from_str("default");
    *name == default_name
}

/// `pat` occurs at `i` and nowhere earlier.
pub open spec fn spec_first_at(s: Seq<char>, pat: Seq<char>, i: int) -> bool {
    occurs_at(s, pat, i) && forall|j: int| 0 <= j < i ==> !occurs_at(s, pat, j)
}

/// `pat` occurs at `i` and nowhere later.
pub open spec fn spec_last_at(s: Seq<char>, pat: Seq<char>, i: int) -> bool {
    occurs_at(s, pat, i) && forall|j: int| j > i ==> !occurs_at(s, pat, j)
}

/// A file name yields a playlist name when it holds "playlist_" somewhere
/// and, in the remainder after the first such occurrence, "toml" occurs
/// again no earlier than two characters in; the name is everything of that
/// remainder up to the character before the last such "toml".
pub open spec fn spec_file_name_parses(s: Seq<char>, i: int, q: int) -> bool {
    spec_first_at(s, "playlist_"@, i) && spec_last_at(s.skip(i + "playlist_"@.len()), "toml"@, q)
        && q >= 2
}

pub fn playlist_name_from_file_name(file_name: &str) -> (r: Option<String>)
    ensures
        (r matches Some(name) ==> exists|i: int, q: int|
            #[trigger] spec_file_name_parses(file_name@, i, q) && name@ == file_name@.skip(
                i + "playlist_"@.len(),
            ).subrange(0, q - 1)),
        r is None ==> forall|i: int, q: int| !spec_file_name_parses(file_name@, i, q),
{
    proof {
        reveal_strlit("playlist_");
        reveal_strlit("toml");
    }
    let i = match find_first(file_name, "playlist_") {
        Some(i) => i,
        None => {
            return None;
        },
    };
    let n = file_name.unicode_len();
    let rest = file_name.substring_char(i + 9, n);
    proof {
        assert(rest@ =~= file_name@.skip(i + 9));
    }
    let q = match find_last(rest, "toml") {
        Some(q) => q,
        None => {
            proof {
                assert forall|i2: int, q2: int| !spec_file_name_parses(file_name@, i2, q2) by {
                    if spec_first_at(file_name@, "playlist_"@, i2) {
                        assert(i2 == i);
                    }
                }
            }
            return None;
        },
    };
    if q < 2 {
        proof {
            assert forall|i2: int, q2: int| !spec_file_name_parses(file_name@, i2, q2) by {
                if spec_first_at(file_name@, "playlist_"@, i2) {
                    assert(i2 == i);
                    if spec_last_at(file_name@.skip(i2 + 9), "toml"@, q2) {
                        assert(q2 == q);
                    }
                }
            }
        }
        return None;
    }
    let name = rest.substring_char(0, q - 1);
    let result = String::from_str(name);
    proof {
        assert(spec_file_name_parses(file_name@, i as int, q as int));
    }
    Some(result)
}

/// `s` with each non-overlapping ".." collapsed, left to right, into a
/// single dot.
pub open spec fn spec_collapse_dot_pairs(s: Seq<char>) -> Seq<char>
    decreases s.len(),
{
    if s.len() >= 2 && s[0] == '.' && s[1] == '.' {
        seq!['.'] + spec_collapse_dot_pairs(s.skip(2))
    } else if s.len() >= 1 {
        seq![s[0]] + spec_collapse_dot_pairs(s.drop_first())
    } else {
        Seq::empty()
    }
}

/// Sanitises a requested listing path by collapsing every ".." into ".",
/// so a request cannot climb out of the media root.
pub fn sanitize_requested_path(requested: &String) -> (r: String)
    ensures
        r@ == spec_collapse_dot_pairs(requested@),
{
    let mut r = String::new();
    let s = requested.as_str();
    let n = s.unicode_len();
    let mut i: usize = 0;
    proof {
        assert(requested@.skip(0) =~= requested@);
    }
    while i < n
        invariant
            n == requested@.len(),
            s@ == requested@,
            i <= n,
            r@ + spec_collapse_dot_pairs(requested@.skip(i as int)) =~= spec_collapse_dot_pairs(
                requested@,
            ),
        decreases n - i,
    {
        proof {
            assert(requested@.skip(i as int)[0] == requested@[i as int]);
            assert(requested@.skip(i as int).drop_first() =~= requested@.skip(i as int + 1));
            if i + 1 < n {
                assert(requested@.skip(i as int)[1] == requested@[i as int + 1]);
                assert(requested@.skip(i as int).skip(2) =~= requested@.skip(i as int + 2));
            }
        }
        let c = s.get_char(i);
        if c == '.' && i + 1 < n && s.get_char(i + 1) == '.' {
            push_char(&mut r, '.');
            proof {
                assert(r@ + spec_collapse_dot_pairs(requested@.skip(i as int + 2))
                    =~= spec_collapse_dot_pairs(requested@));
            }
            i += 2;
        } else {
            push_char(&mut r, c);
            proof {
                assert(r@ + spec_collapse_dot_pairs(requested@.skip(i as int + 1))
                    =~= spec_collapse_dot_pairs(requested@));
            }
            i += 1;
        }
    }
    proof {
        assert(requested@.skip(n as int) =~= Seq::<char>::empty());
        assert(r@ =~= spec_collapse_dot_pairs(requested@));
    }
    r
}

/// Extracts the token from an authorization header value carrying the
/// "Bearer " scheme.
pub fn bearer_token(auth_value: &str) -> (r: Option<String>)
    ensures
        spec_starts_with(auth_value@, "Bearer "@) ==> (r matches Some(t) && t@ == auth_value@.skip(
            "Bearer "@.len() as int,
        )),
        !spec_starts_with(auth_value@, "Bearer "@) ==> r is None,
{
    proof {
        reveal_strlit("Bearer ");
    }
    if str_starts_with(auth_value, "Bearer ") {
        let n = auth_value.unicode_len();
        let t = auth_value.substring_char(7, n);
        proof {
            assert(t@ =~= auth_value@.skip(7));
        }
        Some(String::from_str(t))
    } else {
        None
    }
}

} // verus!
