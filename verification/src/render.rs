//! Rendering of the source-pinning document: a nested attribute-set text
//! mapping each repository to its version and, per platform, the URL and
//! hash of the retained asset. The document text is specified exactly,
//! character for character, by the spec functions here; the exec
//! functions produce precisely that text.

use vstd::prelude::*;
use crate::platform::{classify, classify_of, key_of, Platform};
use crate::release::{last_match, ReleaseAsset, ReleaseResponse};
use crate::text::{append_quoted, quoted};

verus! {

/// One repository's entry in the batch document: the repository name the
/// block is keyed by, and the release rendered inside it.
pub struct RepoEntry {
    pub name: String,
    pub release: ReleaseResponse,
}

/// The warning comment and the opening brace of the outer attribute set.
pub open spec fn header_text() -> Seq<char> {
    "# This file was automatically generated. Do not edit manually.\n{\n"@
}

/// The closing brace of the outer attribute set.
pub open spec fn footer_text() -> Seq<char> {
    "}\n"@
}

/// One platform's block: the quoted platform key bound to the asset's
/// quoted URL and hash. `ind` is the indentation of the key line; inner
/// lines are indented two further spaces.
pub open spec fn asset_block(ind: Seq<char>, p: Platform, a: ReleaseAsset) -> Seq<char> {
    ind + quoted(key_of(p)) + " = {\n"@ + ind + "  url = "@ + quoted(a.browser_download_url@)
        + ";\n"@ + ind + "  hash = "@ + quoted(a.digest@) + ";\n"@ + ind + "};\n"@
}

/// Asset `i` is the one retained for its platform: it classifies under
/// a platform, and no later asset classifies under the same one (a
/// later match silently overwrites an earlier one).
pub open spec fn retained(assets: Seq<ReleaseAsset>, i: int) -> bool {
    &&& 0 <= i < assets.len()
    &&& classify_of(assets[i].name@) is Some
    &&& forall|j: int|
        i < j < assets.len() ==> classify_of(assets[j].name@) != classify_of(assets[i].name@)
}

/// What asset `i` contributes to the assets mapping: its platform's
/// block when it is the retained asset for that platform, nothing
/// otherwise.
pub open spec fn asset_entry(assets: Seq<ReleaseAsset>, ind: Seq<char>, i: int) -> Seq<char> {
    if retained(assets, i) {
        asset_block(ind, classify_of(assets[i].name@)->0, assets[i])
    } else {
        Seq::empty()
    }
}

/// The contributions of the first `n` assets, in asset order.
pub open spec fn section_upto(assets: Seq<ReleaseAsset>, ind: Seq<char>, n: int) -> Seq<char>
    decreases n,
{
    if n <= 0 {
        Seq::empty()
    } else {
        section_upto(assets, ind, n - 1) + asset_entry(assets, ind, n - 1)
    }
}

/// The body of the assets mapping: one block per matched platform,
/// carrying that platform's last matching asset, in the order in which
/// the retained assets stand in the asset list.
pub open spec fn platform_section(assets: Seq<ReleaseAsset>, ind: Seq<char>) -> Seq<char> {
    section_upto(assets, ind, assets.len() as int)
}

/// Law: duplicate platform matches resolve last-write-wins. The asset
/// retained for a platform is that platform's last matching asset in
/// iteration order, so the emitted url and hash are the later asset's.
pub proof fn lemma_retained_is_last_match(assets: Seq<ReleaseAsset>, i: int, p: Platform)
    requires
        retained(assets, i),
        classify_of(assets[i].name@) == Some(p),
    ensures
        last_match(assets, p) == Some(assets[i]),
    decreases assets.len(),
{
    if i < assets.len() - 1 {
        let sub = assets.drop_last();
        assert(classify_of(assets.last().name@) != Some(p));
        assert(retained(sub, i));
        lemma_retained_is_last_match(sub, i, p);
    }
}

/// Law: an asset with an empty digest still gets a hash field, written
/// as an empty quoted string rather than omitted.
pub proof fn lemma_empty_digest_hash_field(ind: Seq<char>, p: Platform, a: ReleaseAsset)
    requires
        a.digest@.len() == 0,
    ensures
        asset_block(ind, p, a) == ind + quoted(key_of(p)) + " = {\n"@ + ind + "  url = "@
            + quoted(a.browser_download_url@) + ";\n"@ + ind + "  hash = \"\";\n"@ + ind
            + "};\n"@,
{
    reveal_strlit("  hash = ");
    reveal_strlit(";\n");
    reveal_strlit("  hash = \"\";\n");
    assert(quoted(a.digest@) =~= seq!['"', '"']);
    assert("  hash = "@ + quoted(a.digest@) + ";\n"@ =~= "  hash = \"\";\n"@);
    assert(asset_block(ind, p, a) =~= ind + quoted(key_of(p)) + " = {\n"@ + ind + "  url = "@
        + quoted(a.browser_download_url@) + ";\n"@ + ind + "  hash = \"\";\n"@ + ind + "};\n"@);
}

/// Law: at most one asset is retained per platform, so the section
/// holds at most one block under each platform key.
pub proof fn lemma_retained_unique(assets: Seq<ReleaseAsset>, i: int, j: int)
    requires
        retained(assets, i),
        retained(assets, j),
        classify_of(assets[i].name@) == classify_of(assets[j].name@),
    ensures
        i == j,
{
    if i < j {
        assert(classify_of(assets[j].name@) != classify_of(assets[i].name@));
    }
    if j < i {
        assert(classify_of(assets[i].name@) != classify_of(assets[j].name@));
    }
}

/// One repository's block in the batch document.
pub open spec fn repo_block(name: Seq<char>, tag: Seq<char>, assets: Seq<ReleaseAsset>) -> Seq<
    char,
> {
    "  "@ + quoted(name) + " = {\n"@ + "    version = "@ + quoted(tag) + ";\n"@
        + "    assets = {\n"@ + platform_section(assets, "      "@) + "    };\n"@ + "  };\n"@
}

/// The concatenation of the repository blocks, in input order.
pub open spec fn blocks(entries: Seq<RepoEntry>) -> Seq<char>
    decreases entries.len(),
{
    if entries.len() == 0 {
        Seq::empty()
    } else {
        blocks(entries.drop_last()) + repo_block(
            entries.last().name@,
            entries.last().release.tag_name@,
            entries.last().release.assets@,
        )
    }
}

/// The whole batch document: header, one block per entry, footer.
pub open spec fn document(entries: Seq<RepoEntry>) -> Seq<char> {
    header_text() + blocks(entries) + footer_text()
}

/// The single-repository document: version and assets as top-level keys,
/// without the per-repository wrapper.
pub open spec fn flat_document(tag: Seq<char>, assets: Seq<ReleaseAsset>) -> Seq<char> {
    header_text() + "  version = "@ + quoted(tag) + ";\n"@ + "  assets = {\n"@
        + platform_section(assets, "    "@) + "  };\n"@ + footer_text()
}

/// Law: serialization is deterministic. The document text is a function
/// of the ordered input entries alone, so the same input always yields
/// byte-identical output.
pub proof fn lemma_document_deterministic(e1: Seq<RepoEntry>, e2: Seq<RepoEntry>)
    requires
        e1 == e2,
    ensures
        document(e1) == document(e2),
{
}

/// Renders the document header.
pub fn render_header() -> (r: String)
    ensures
        r@ == header_text(),
{
    let mut out = String::new();
    out.append("# This file was automatically generated. Do not edit manually.\n{\n");
    proof {
        assert(out@ =~= header_text());
    }
    out
}

/// Renders the document footer.
pub fn render_footer() -> (r: String)
    ensures
        r@ == footer_text(),
{
    let mut out = String::new();
    out.append("}\n");
    proof {
        assert(out@ =~= footer_text());
    }
    out
}

/// Appends the block for one platform's retained asset.
fn append_asset_block(out: &mut String, ind: &str, p: Platform, a: &ReleaseAsset)
    ensures
        final(out)@ == old(out)@ + asset_block(ind@, p, *a),
{
    out.append(ind);
    append_quoted(out, p.key_str());
    out.append(" = {\n");
    out.append(ind);
    out.append("  url = ");
    append_quoted(out, a.browser_download_url.as_str());
    out.append(";\n");
    out.append(ind);
    out.append("  hash = ");
    append_quoted(out, a.digest.as_str());
    out.append(";\n");
    out.append(ind);
    out.append("};\n");
    proof {
        assert(out@ =~= old(out)@ + asset_block(ind@, p, *a));
    }
}

/// Decides whether some asset after position `i` classifies under `p`.
fn has_later_match(assets: &Vec<ReleaseAsset>, i: usize, p: Platform) -> (r: bool)
    requires
        i < assets@.len() <= usize::MAX,
    ensures
        r == exists|j: int| i < j < assets@.len() && classify_of(assets@[j].name@) == Some(p),
{
    let mut j: usize = i + 1;
    while j < assets.len()
        invariant
            i < j <= assets@.len(),
            forall|k: int| i < k < j ==> classify_of(assets@[k].name@) != Some(p),
        decreases assets@.len() - j,
    {
        let c = classify(assets[j].name.as_str());
        if let Some(q) = c {
            if q == p {
                proof {
                    assert(classify_of(assets@[j as int].name@) == Some(p));
                }
                return true;
            }
        }
        j += 1;
    }
    false
}

/// Appends the blocks of the retained assets, in asset order: each
/// asset that classifies under a platform contributes its block at its
/// own position, unless a later asset matches the same platform and
/// overwrites it.
fn append_platform_section(out: &mut String, ind: &str, assets: &Vec<ReleaseAsset>)
    ensures
        final(out)@ == old(out)@ + platform_section(assets@, ind@),
{
    let mut i: usize = 0;
    while i < assets.len()
        invariant
            0 <= i <= assets@.len(),
            out@ == old(out)@ + section_upto(assets@, ind@, i as int),
        decreases assets@.len() - i,
    {
        let ghost before: Seq<char> = out@;
        let c = classify(assets[i].name.as_str());
        if let Some(p) = c {
            if !has_later_match(assets, i, p) {
                proof {
                    assert(retained(assets@, i as int));
                }
                append_asset_block(out, ind, p, &assets[i]);
            } else {
                proof {
                    assert(!retained(assets@, i as int));
                }
            }
        } else {
            proof {
                assert(!retained(assets@, i as int));
            }
        }
        proof {
            assert(out@ =~= before + asset_entry(assets@, ind@, i as int));
            assert(out@ =~= old(out)@ + section_upto(assets@, ind@, i + 1));
        }
        i += 1;
    }
}

/// Appends one repository's block to the document being built.
pub fn append_repo_block(out: &mut String, name: &str, release: &ReleaseResponse)
    ensures
        final(out)@ == old(out)@ + repo_block(name@, release.tag_name@, release.assets@),
{
    out.append("  ");
    append_quoted(out, name);
    out.append(" = {\n");
    out.append("    version = ");
    append_quoted(out, release.tag_name.as_str());
    out.append(";\n");
    out.append("    assets = {\n");
    append_platform_section(out, "      ", &release.assets);
    out.append("    };\n");
    out.append("  };\n");
    proof {
        assert(out@ =~= old(out)@ + repo_block(name@, release.tag_name@, release.assets@));
    }
}

/// Renders one repository's block on its own.
pub fn render_repo_block(name: &str, release: &ReleaseResponse) -> (r: String)
    ensures
        r@ == repo_block(name@, release.tag_name@, release.assets@),
{
    let mut out = String::new();
    append_repo_block(&mut out, name, release);
    proof {
        assert(out@ =~= repo_block(name@, release.tag_name@, release.assets@));
    }
    out
}

/// Renders the whole batch document for the given entries, in order.
pub fn render_document(entries: &Vec<RepoEntry>) -> (r: String)
    ensures
        r@ == document(entries@),
{
    let mut out = render_header();
    let mut i: usize = 0;
    while i < entries.len()
        invariant
            0 <= i <= entries@.len(),
            out@ == header_text() + blocks(entries@.take(i as int)),
        decreases entries@.len() - i,
    {
        let e = &entries[i];
        append_repo_block(&mut out, e.name.as_str(), &e.release);
        proof {
            let next = entries@.take(i + 1);
            assert(next.drop_last() =~= entries@.take(i as int));
            assert(next.last() == entries@[i as int]);
            assert(out@ =~= header_text() + blocks(next));
        }
        i += 1;
    }
    proof {
        assert(entries@.take(entries@.len() as int) =~= entries@);
    }
    let footer = render_footer();
    out.append(footer.as_str());
    proof {
        assert(out@ =~= document(entries@));
    }
    out
}

/// Renders the single-repository document for one release.
pub fn render_release_flat(release: &ReleaseResponse) -> (r: String)
    ensures
        r@ == flat_document(release.tag_name@, release.assets@),
{
    let mut out = render_header();
    out.append("  version = ");
    append_quoted(&mut out, release.tag_name.as_str());
    out.append(";\n");
    out.append("  assets = {\n");
    append_platform_section(&mut out, "    ", &release.assets);
    out.append("  };\n");
    out.append("}\n");
    proof {
        assert(out@ =~= flat_document(release.tag_name@, release.assets@));
    }
    out
}

} // verus!
