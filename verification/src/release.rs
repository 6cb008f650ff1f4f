//! Release metadata: the version tag and the downloadable assets of one
//! published release, and the selection of at most one asset per
//! platform.

use vstd::prelude::*;
use crate::platform::{classify, classify_of, Platform};

verus! {

/// One downloadable file attached to a release. The digest may be empty
/// when the provider omits it.
pub struct ReleaseAsset {
    pub name: String,
    pub digest: String,
    pub browser_download_url: String,
}

/// The latest release of a repository: its version tag and its assets,
/// in the provider's order.
pub struct ReleaseResponse {
    pub tag_name: String,
    pub assets: Vec<ReleaseAsset>,
}

/// The asset retained for platform `p`: the last asset in iteration
/// order whose filename classifies under `p`, if any. Later assets
/// overwrite earlier ones that match the same platform.
pub open spec fn last_match(assets: Seq<ReleaseAsset>, p: Platform) -> Option<ReleaseAsset>
    decreases assets.len(),
{
    if assets.len() == 0 {
        None
    } else if classify_of(assets.last().name@) == Some(p) {
        Some(assets.last())
    } else {
        last_match(assets.drop_last(), p)
    }
}

/// Finds the index of the last asset classified under `p`, if any.
pub fn find_last_match(assets: &Vec<ReleaseAsset>, p: Platform) -> (r: Option<usize>)
    ensures
        match r {
            Some(i) => i < assets@.len() && last_match(assets@, p) == Some(assets@[i as int]),
            None => last_match(assets@, p) is None,
        },
{
    let mut best: Option<usize> = None;
    let mut i: usize = 0;
    while i < assets.len()
        invariant
            0 <= i <= assets@.len(),
            match best {
                Some(b) => b < i && last_match(assets@.take(i as int), p) == Some(
                    assets@[b as int],
                ),
                None => last_match(assets@.take(i as int), p) is None,
            },
        decreases assets@.len() - i,
    {
        let c = classify(assets[i].name.as_str());
        proof {
            let next = assets@.take(i + 1);
            assert(next.drop_last() =~= assets@.take(i as int));
            assert(next.last() == assets@[i as int]);
        }
        if let Some(q) = c {
            if q == p {
                best = Some(i);
            }
        }
        i += 1;
    }
    proof {
        assert(assets@.take(assets@.len() as int) =~= assets@);
    }
    best
}

} // verus!
