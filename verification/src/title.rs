//! The window title shown for a session: the resource path with the user's
//! home directory prefix collapsed to a short alias, wrapped in the
//! program's title text. Paths are handled as byte strings with `/` as the
//! component separator; the caller hands in the canonical absolute path.

use vstd::prelude::*;

use crate::startup::StartupError;

verus! {

/// The alias that replaces the home directory prefix: `~`.
pub const HOME_ALIAS: u8 = 126;

/// The path component separator: `/`.
pub const PATH_SEPARATOR: u8 = 47;

/// The displayed form of a path: the home directory itself becomes the
/// alias; a path inside the home directory keeps only the alias and the part
/// below the home directory; every other path is shown unmodified.
pub open spec fn home_collapsed(path: Seq<u8>, home: Seq<u8>) -> Seq<u8> {
    if home.len() > 0 && path == home {
        seq![HOME_ALIAS]
    } else if home.len() > 0 && path.len() > home.len() && path.take(home.len() as int) == home
        && path[home.len() as int] == PATH_SEPARATOR {
        seq![HOME_ALIAS] + path.skip(home.len() as int)
    } else {
        path
    }
}

/// Whether `prefix` is a leading byte-for-byte prefix of `s`.
fn is_prefix(prefix: &Vec<u8>, s: &Vec<u8>) -> (r: bool)
    ensures
        r == (prefix@.len() <= s@.len() && s@.take(prefix@.len() as int) == prefix@),
{
    if prefix.len() > s.len() {
        return false;
    }
    let mut i: usize = 0;
    while i < prefix.len()
        invariant
            i <= prefix@.len(),
            prefix@.len() <= s@.len(),
            forall|j: int| 0 <= j < i ==> s@[j] == prefix@[j],
        decreases prefix@.len() - i,
    {
        if s[i] != prefix[i] {
            proof {
                assert(s@.take(prefix@.len() as int)[i as int] == s@[i as int]);
            }
            return false;
        }
        i += 1;
    }
    proof {
        assert(s@.take(prefix@.len() as int) =~= prefix@);
    }
    true
}

/// Collapses the home directory prefix of a canonical absolute path to the
/// short alias; paths outside the home directory come back unmodified.
pub fn abbreviate_home(path: &Vec<u8>, home: &Vec<u8>) -> (r: Vec<u8>)
    ensures
        r@ == home_collapsed(path@, home@),
{
    if home.len() > 0 && is_prefix(home, path) {
        if path.len() == home.len() {
            proof {
                assert(path@.take(home@.len() as int) =~= path@);
            }
            let mut alias: Vec<u8> = Vec::new();
            alias.push(HOME_ALIAS);
            proof {
                assert(alias@ =~= seq![HOME_ALIAS]);
            }
            return alias;
        }
        if path[home.len()] == PATH_SEPARATOR {
            let mut collapsed: Vec<u8> = Vec::new();
            collapsed.push(HOME_ALIAS);
            proof {
                assert(collapsed@ =~= seq![HOME_ALIAS] + path@.subrange(
                    home@.len() as int,
                    home@.len() as int,
                ));
            }
            let mut i: usize = home.len();
            while i < path.len()
                invariant
                    home@.len() <= i <= path@.len(),
                    collapsed@ == seq![HOME_ALIAS] + path@.subrange(home@.len() as int, i as int),
                decreases path@.len() - i,
            {
                collapsed.push(path[i]);
                i += 1;
                proof {
                    assert(collapsed@ =~= seq![HOME_ALIAS] + path@.subrange(
                        home@.len() as int,
                        i as int,
                    ));
                }
            }
            proof {
                assert(path@.subrange(home@.len() as int, path@.len() as int) =~= path@.skip(
                    home@.len() as int,
                ));
                assert(path@ != home@);
            }
            return collapsed;
        }
        proof {
            assert(path@ != home@);
        }
    } else {
        proof {
            if home@.len() > 0 && path@ == home@ {
                assert(path@.take(home@.len() as int) =~= home@);
            }
        }
    }
    let mut copy: Vec<u8> = Vec::new();
    let mut i: usize = 0;
    while i < path.len()
        invariant
            i <= path@.len(),
            copy@ == path@.take(i as int),
        decreases path@.len() - i,
    {
        copy.push(path[i]);
        i += 1;
        proof {
            assert(copy@ =~= path@.take(i as int));
        }
    }
    proof {
        assert(path@.take(path@.len() as int) =~= path@);
    }
    copy
}

/// The fixed text in front of the displayed path: `gitui (`.
pub open spec fn title_prefix() -> Seq<u8> {
    seq![103u8, 105u8, 116u8, 117u8, 105u8, 32u8, 40u8]
}

/// The whole window title: the program name, then the collapsed path in
/// parentheses.
pub open spec fn title_text(path: Seq<u8>, home: Seq<u8>) -> Seq<u8> {
    title_prefix() + home_collapsed(path, home) + seq![41u8]
}

/// Builds the window title for the given canonical resource path and home
/// directory.
pub fn window_title(path: &Vec<u8>, home: &Vec<u8>) -> (r: Vec<u8>)
    ensures
        r@ == title_text(path@, home@),
{
    let collapsed = abbreviate_home(path, home);
    let mut title: Vec<u8> = Vec::new();
    title.push(103);
    title.push(105);
    title.push(116);
    title.push(117);
    title.push(105);
    title.push(32);
    title.push(40);
    proof {
        assert(title@ =~= title_prefix());
        assert(collapsed@.take(0) =~= Seq::<u8>::empty());
        assert(title@ =~= title_prefix() + collapsed@.take(0));
    }
    let mut i: usize = 0;
    while i < collapsed.len()
        invariant
            i <= collapsed@.len(),
            title@ == title_prefix() + collapsed@.take(i as int),
        decreases collapsed@.len() - i,
    {
        title.push(collapsed[i]);
        i += 1;
        proof {
            assert(title@ =~= title_prefix() + collapsed@.take(i as int));
        }
    }
    proof {
        assert(collapsed@.take(collapsed@.len() as int) =~= collapsed@);
    }
    title.push(41);
    proof {
        assert(title@ =~= title_prefix() + collapsed@ + seq![41u8]);
    }
    title
}

/// Relies on dirs::home_dir: the platform's notion of the user's home
/// directory, if it reports one; the result is the byte text of that path.
#[verifier::external_body]
fn home_directory() -> (r: Option<Vec<u8>>) {
    dirs::home_dir().map(|p| p.to_string_lossy().into_owned().into_bytes())
}

/// Builds the session's window title from the canonical resource path and
/// the home directory the platform reports; with no home directory to
/// collapse against, startup fails as it always has.
pub fn session_title(path: &Vec<u8>) -> (r: Result<Vec<u8>, StartupError>)
    ensures
        r matches Ok(t) ==> exists|h: Seq<u8>| t@ == #[trigger] title_text(path@, h),
        r matches Err(e) ==> e == StartupError::MissingHome,
{
    match home_directory() {
        Some(home) => {
            let t = window_title(path, &home);
            proof {
                assert(t@ == title_text(path@, home@));
            }
            Ok(t)
        },
        None => Err(StartupError::MissingHome),
    }
}

} // verus!
