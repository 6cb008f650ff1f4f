//! Repository identifiers of the form `owner/name`, parsed from a single
//! input token, and the release endpoint URL built from one.

use vstd::prelude::*;

verus! {

/// A repository identifier: the owner and the repository name, both
/// non-empty and free of `/`.
pub struct RepoId {
    pub owner: String,
    pub name: String,
}

/// Index `i` is the unique `/` of `s`, with a non-empty part on either
/// side.
pub open spec fn is_valid_split(s: Seq<char>, i: int) -> bool {
    &&& 1 <= i <= s.len() - 2
    &&& s[i] == '/'
    &&& forall|j: int| 0 <= j < s.len() && j != i ==> s[j] != '/'
}

/// `s` is a well-formed identifier token: exactly one `/`, with non-empty
/// owner and name parts around it.
pub open spec fn valid_repo_str(s: Seq<char>) -> bool {
    exists|i: int| is_valid_split(s, i)
}

/// The endpoint URL queried for the latest release of a repository.
pub open spec fn release_url_of(owner: Seq<char>, name: Seq<char>) -> Seq<char> {
    "https://api.github.com/repos/"@ + owner + "/"@ + name + "/releases/latest"@
}

impl RepoId {
    /// Both parts are non-empty and contain no `/`.
    pub open spec fn wf(self) -> bool {
        &&& self.owner@.len() > 0
        &&& self.name@.len() > 0
        &&& forall|j: int| 0 <= j < self.owner@.len() ==> self.owner@[j] != '/'
        &&& forall|j: int| 0 <= j < self.name@.len() ==> self.name@[j] != '/'
    }

    /// Builds the latest-release endpoint URL for this repository.
    pub fn release_url(&self) -> (r: String)
        ensures
            r@ == release_url_of(self.owner@, self.name@),
    {
        let mut u = String::new();
        u.append("https://api.github.com/repos/");
        u.append(self.owner.as_str());
        u.append("/");
        u.append(self.name.as_str());
        u.append("/releases/latest");
        u
    }
}

/// Parses an `owner/name` token. Returns the identifier when the token
/// splits on its unique `/` into two non-empty parts, and nothing when
/// the token has no `/`, more than one, or an empty part.
pub fn parse_repo_id(s: &str) -> (r: Option<RepoId>)
    ensures
        match r {
            Some(id) => {
                &&& valid_repo_str(s@)
                &&& id.wf()
                &&& forall|i: int|
                    is_valid_split(s@, i) ==> id.owner@ == s@.subrange(0, i) && id.name@
                        == s@.subrange(i + 1, s@.len() as int)
            },
            None => !valid_repo_str(s@),
        },
{
    let len = s.unicode_len();
    let mut i: usize = 0;
    let mut slash: Option<usize> = None;
    while i < len
        invariant
            len == s@.len(),
            len <= usize::MAX,
            0 <= i <= len,
            match slash {
                Some(k) => {
                    &&& k < i
                    &&& s@[k as int] == '/'
                    &&& forall|j: int| 0 <= j < i && j != k ==> s@[j] != '/'
                },
                None => forall|j: int| 0 <= j < i ==> s@[j] != '/',
            },
        decreases len - i,
    {
        let c = s.get_char(i);
        if c == '/' {
            if slash.is_some() {
                proof {
                    let k = slash->0 as int;
                    assert forall|m: int| !is_valid_split(s@, m) by {
                        if is_valid_split(s@, m) {
                            if m != k {
                                assert(s@[k] == '/');
                            } else {
                                assert(s@[i as int] == '/');
                            }
                        }
                    }
                }
                return None;
            }
            slash = Some(i);
        }
        i += 1;
    }
    match slash {
        None => {
            proof {
                assert forall|m: int| !is_valid_split(s@, m) by {
                    if is_valid_split(s@, m) {
                        assert(s@[m] == '/');
                    }
                }
            }
            None
        },
        Some(k) => {
            if k == 0 || k + 1 == len {
                proof {
                    assert forall|m: int| !is_valid_split(s@, m) by {
                        if is_valid_split(s@, m) && m != k {
                            assert(s@[k as int] == '/');
                        }
                    }
                }
                return None;
            }
            let owner = s.substring_char(0, k);
            let name = s.substring_char(k + 1, len);
            let id = RepoId { owner: owner.to_owned(), name: name.to_owned() };
            proof {
                assert(is_valid_split(s@, k as int));
                assert forall|m: int| is_valid_split(s@, m) implies m == k as int by {
                    if m != k {
                        assert(s@[k as int] == '/');
                    }
                }
                assert forall|j: int| 0 <= j < id.owner@.len() implies id.owner@[j] != '/' by {
                    assert(id.owner@[j] == s@[j]);
                }
                assert forall|j: int| 0 <= j < id.name@.len() implies id.name@[j] != '/' by {
                    assert(id.name@[j] == s@[k + 1 + j]);
                }
            }
            Some(id)
        },
    }
}

} // verus!
