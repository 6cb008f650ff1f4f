//! The closed set of supported platforms, the triple substring that
//! identifies each in an asset filename, and the classifier that maps a
//! filename to its platform key.

use vstd::prelude::*;
use crate::text::{contains_seq, contains_sub};

verus! {

/// One of the four supported target platforms.
#[derive(Clone, Copy, PartialEq, Eq, Structural, Debug)]
pub enum Platform {
    X8664Linux,
    Aarch64Linux,
    X8664Darwin,
    Aarch64Darwin,
}

/// The platform-triple substring whose presence in an asset filename
/// identifies the platform.
pub open spec fn triple_of(p: Platform) -> Seq<char> {
    match p {
        Platform::X8664Linux => "x86_64-unknown-linux-musl"@,
        Platform::Aarch64Linux => "aarch64-unknown-linux-musl"@,
        Platform::X8664Darwin => "x86_64-apple-darwin"@,
        Platform::Aarch64Darwin => "aarch64-apple-darwin"@,
    }
}

/// The canonical key under which the platform appears in the output
/// document.
pub open spec fn key_of(p: Platform) -> Seq<char> {
    match p {
        Platform::X8664Linux => "x86_64-linux"@,
        Platform::Aarch64Linux => "aarch64-linux"@,
        Platform::X8664Darwin => "x86_64-darwin"@,
        Platform::Aarch64Darwin => "aarch64-darwin"@,
    }
}

impl Platform {
    /// The canonical key as a string slice.
    pub fn key_str(self) -> (r: &'static str)
        ensures
            r@ == key_of(self),
    {
        match self {
            Platform::X8664Linux => "x86_64-linux",
            Platform::Aarch64Linux => "aarch64-linux",
            Platform::X8664Darwin => "x86_64-darwin",
            Platform::Aarch64Darwin => "aarch64-darwin",
        }
    }
}

/// The platform an asset filename is classified under: the first of the
/// four triples, in the fixed order below, that occurs in the filename;
/// no platform if none occurs.
pub open spec fn classify_of(name: Seq<char>) -> Option<Platform> {
    if contains_seq(name, triple_of(Platform::X8664Linux)) {
        Some(Platform::X8664Linux)
    } else if contains_seq(name, triple_of(Platform::Aarch64Linux)) {
        Some(Platform::Aarch64Linux)
    } else if contains_seq(name, triple_of(Platform::X8664Darwin)) {
        Some(Platform::X8664Darwin)
    } else if contains_seq(name, triple_of(Platform::Aarch64Darwin)) {
        Some(Platform::Aarch64Darwin)
    } else {
        None
    }
}

/// Classifies an asset filename by testing it for each platform triple in
/// the fixed order, returning the first match.
pub fn classify(name: &str) -> (r: Option<Platform>)
    ensures
        r == classify_of(name@),
{
    if contains_sub(name, "x86_64-unknown-linux-musl") {
        Some(Platform::X8664Linux)
    } else if contains_sub(name, "aarch64-unknown-linux-musl") {
        Some(Platform::Aarch64Linux)
    } else if contains_sub(name, "x86_64-apple-darwin") {
        Some(Platform::X8664Darwin)
    } else if contains_sub(name, "aarch64-apple-darwin") {
        Some(Platform::Aarch64Darwin)
    } else {
        None
    }
}

/// Law: a filename containing the x86_64 linux triple always classifies
/// as the x86_64 linux platform (that triple is tested first).
pub proof fn lemma_classify_x86_64_linux(name: Seq<char>)
    requires
        contains_seq(name, triple_of(Platform::X8664Linux)),
    ensures
        classify_of(name) == Some(Platform::X8664Linux),
{
}

/// Law: a filename containing the aarch64 linux triple and no
/// earlier-tested triple classifies as the aarch64 linux platform.
pub proof fn lemma_classify_aarch64_linux(name: Seq<char>)
    requires
        contains_seq(name, triple_of(Platform::Aarch64Linux)),
        !contains_seq(name, triple_of(Platform::X8664Linux)),
    ensures
        classify_of(name) == Some(Platform::Aarch64Linux),
{
}

/// Law: a filename containing the x86_64 darwin triple and no
/// earlier-tested triple classifies as the x86_64 darwin platform.
pub proof fn lemma_classify_x86_64_darwin(name: Seq<char>)
    requires
        contains_seq(name, triple_of(Platform::X8664Darwin)),
        !contains_seq(name, triple_of(Platform::X8664Linux)),
        !contains_seq(name, triple_of(Platform::Aarch64Linux)),
    ensures
        classify_of(name) == Some(Platform::X8664Darwin),
{
}

/// Law: a filename containing the aarch64 darwin triple and none of the
/// earlier-tested triples classifies as the aarch64 darwin platform.
pub proof fn lemma_classify_aarch64_darwin(name: Seq<char>)
    requires
        contains_seq(name, triple_of(Platform::Aarch64Darwin)),
        !contains_seq(name, triple_of(Platform::X8664Linux)),
        !contains_seq(name, triple_of(Platform::Aarch64Linux)),
        !contains_seq(name, triple_of(Platform::X8664Darwin)),
    ensures
        classify_of(name) == Some(Platform::Aarch64Darwin),
{
}

/// Law: a filename containing none of the four triples classifies under
/// no platform.
pub proof fn lemma_classify_none(name: Seq<char>)
    requires
        !contains_seq(name, triple_of(Platform::X8664Linux)),
        !contains_seq(name, triple_of(Platform::Aarch64Linux)),
        !contains_seq(name, triple_of(Platform::X8664Darwin)),
        !contains_seq(name, triple_of(Platform::Aarch64Darwin)),
    ensures
        classify_of(name) is None,
{
}

} // verus!
