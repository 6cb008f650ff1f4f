use nix_pins::platform::{classify, Platform};
use nix_pins::release::{find_last_match, ReleaseAsset, ReleaseResponse};
use nix_pins::render::{
    render_document, render_footer, render_header, render_release_flat, render_repo_block,
    RepoEntry,
};
use nix_pins::repo::parse_repo_id;

fn asset(name: &str, digest: &str, url: &str) -> ReleaseAsset {
    ReleaseAsset {
        name: name.to_string(),
        digest: digest.to_string(),
        browser_download_url: url.to_string(),
    }
}

#[test]
fn classify_x86_64_linux() {
    assert_eq!(
        classify("tool-x86_64-unknown-linux-musl.tar.gz"),
        Some(Platform::X8664Linux)
    );
}

#[test]
fn classify_aarch64_linux() {
    assert_eq!(
        classify("tool-aarch64-unknown-linux-musl.tar.gz"),
        Some(Platform::Aarch64Linux)
    );
}

#[test]
fn classify_x86_64_darwin() {
    assert_eq!(
        classify("tool-x86_64-apple-darwin.zip"),
        Some(Platform::X8664Darwin)
    );
}

#[test]
fn classify_aarch64_darwin() {
    assert_eq!(
        classify("tool-aarch64-apple-darwin.zip"),
        Some(Platform::Aarch64Darwin)
    );
}

#[test]
fn classify_no_match() {
    assert_eq!(classify("tool-windows-x64.zip"), None);
    assert_eq!(classify(""), None);
    assert_eq!(classify("x86_64-unknown-linux-gnu"), None);
}

#[test]
fn classify_bare_triple() {
    assert_eq!(classify("x86_64-unknown-linux-musl"), Some(Platform::X8664Linux));
}

#[test]
fn platform_keys() {
    assert_eq!(Platform::X8664Linux.key_str(), "x86_64-linux");
    assert_eq!(Platform::Aarch64Linux.key_str(), "aarch64-linux");
    assert_eq!(Platform::X8664Darwin.key_str(), "x86_64-darwin");
    assert_eq!(Platform::Aarch64Darwin.key_str(), "aarch64-darwin");
}

#[test]
fn parse_valid_identifier() {
    let id = parse_repo_id("owner/repo").expect("well-formed identifier");
    assert_eq!(id.owner, "owner");
    assert_eq!(id.name, "repo");
}

#[test]
fn parse_rejects_no_slash() {
    assert!(parse_repo_id("not-a-valid-repo-string").is_none());
}

#[test]
fn parse_rejects_two_slashes() {
    assert!(parse_repo_id("a/b/c").is_none());
}

#[test]
fn parse_rejects_empty_owner() {
    assert!(parse_repo_id("/repo").is_none());
}

#[test]
fn parse_rejects_empty_name() {
    assert!(parse_repo_id("owner/").is_none());
}

#[test]
fn parse_rejects_empty_string() {
    assert!(parse_repo_id("").is_none());
    assert!(parse_repo_id("/").is_none());
}

#[test]
fn release_url_exact() {
    let id = parse_repo_id("octo/tool").unwrap();
    assert_eq!(
        id.release_url(),
        "https://api.github.com/repos/octo/tool/releases/latest"
    );
}

#[test]
fn header_and_footer_exact() {
    assert_eq!(
        render_header(),
        "# This file was automatically generated. Do not edit manually.\n{\n"
    );
    assert_eq!(render_footer(), "}\n");
}

#[test]
fn round_trip_two_platforms() {
    let release = ReleaseResponse {
        tag_name: "v1.2.0".to_string(),
        assets: vec![
            asset(
                "tool-x86_64-unknown-linux-musl.tar.gz",
                "sha256-AAAA",
                "https://example/tool-linux",
            ),
            asset(
                "tool-aarch64-apple-darwin.tar.gz",
                "sha256-BBBB",
                "https://example/tool-darwin",
            ),
        ],
    };
    let block = render_repo_block("tool", &release);
    let expected = "  \"tool\" = {\n    version = \"v1.2.0\";\n    assets = {\n      \"x86_64-linux\" = {\n        url = \"https://example/tool-linux\";\n        hash = \"sha256-AAAA\";\n      };\n      \"aarch64-darwin\" = {\n        url = \"https://example/tool-darwin\";\n        hash = \"sha256-BBBB\";\n      };\n    };\n  };\n";
    assert_eq!(block, expected);
    assert!(!block.contains("\"aarch64-linux\""));
    assert!(!block.contains("\"x86_64-darwin\""));
}

#[test]
fn duplicate_platform_last_write_wins() {
    let release = ReleaseResponse {
        tag_name: "v2.0.0".to_string(),
        assets: vec![
            asset(
                "tool-aarch64-unknown-linux-musl-old.tar.gz",
                "sha256-OLD",
                "https://example/old",
            ),
            asset(
                "tool-aarch64-unknown-linux-musl-new.tar.gz",
                "sha256-NEW",
                "https://example/new",
            ),
        ],
    };
    let block = render_repo_block("tool", &release);
    assert_eq!(block.matches("\"aarch64-linux\"").count(), 1);
    assert!(block.contains("url = \"https://example/new\";"));
    assert!(block.contains("hash = \"sha256-NEW\";"));
    assert!(!block.contains("sha256-OLD"));
    assert!(!block.contains("https://example/old"));
}

#[test]
fn find_last_match_picks_later_index() {
    let assets = vec![
        asset("a-x86_64-unknown-linux-musl", "h1", "u1"),
        asset("b-x86_64-unknown-linux-musl", "h2", "u2"),
        asset("c-aarch64-apple-darwin", "h3", "u3"),
    ];
    assert_eq!(find_last_match(&assets, Platform::X8664Linux), Some(1));
    assert_eq!(find_last_match(&assets, Platform::Aarch64Darwin), Some(2));
    assert_eq!(find_last_match(&assets, Platform::X8664Darwin), None);
}

#[test]
fn empty_digest_yields_empty_hash_field() {
    let release = ReleaseResponse {
        tag_name: "v0.1.0".to_string(),
        assets: vec![asset(
            "tool-x86_64-apple-darwin.zip",
            "",
            "https://example/mac",
        )],
    };
    let block = render_repo_block("tool", &release);
    assert!(block.contains("hash = \"\";"));
}

#[test]
fn document_skips_rejected_identifier() {
    let tokens = ["not-a-valid-repo-string", "octo/tool"];
    let mut entries: Vec<RepoEntry> = Vec::new();
    for token in tokens {
        match parse_repo_id(token) {
            Some(id) => entries.push(RepoEntry {
                name: id.name,
                release: ReleaseResponse {
                    tag_name: "v1.0.0".to_string(),
                    assets: vec![asset(
                        "tool-x86_64-unknown-linux-musl.tar.gz",
                        "sha256-CCCC",
                        "https://example/tool",
                    )],
                },
            }),
            None => {}
        }
    }
    let doc = render_document(&entries);
    assert!(!doc.contains("not-a-valid-repo-string"));
    let expected = "# This file was automatically generated. Do not edit manually.\n{\n  \"tool\" = {\n    version = \"v1.0.0\";\n    assets = {\n      \"x86_64-linux\" = {\n        url = \"https://example/tool\";\n        hash = \"sha256-CCCC\";\n      };\n    };\n  };\n}\n";
    assert_eq!(doc, expected);
}

#[test]
fn blocks_follow_asset_order() {
    let release = ReleaseResponse {
        tag_name: "v1.0.0".to_string(),
        assets: vec![
            asset(
                "tool-aarch64-apple-darwin.tar.gz",
                "sha256-BBBB",
                "https://example/tool-darwin",
            ),
            asset(
                "tool-x86_64-unknown-linux-musl.tar.gz",
                "sha256-AAAA",
                "https://example/tool-linux",
            ),
        ],
    };
    let block = render_repo_block("tool", &release);
    let expected = "  \"tool\" = {\n    version = \"v1.0.0\";\n    assets = {\n      \"aarch64-darwin\" = {\n        url = \"https://example/tool-darwin\";\n        hash = \"sha256-BBBB\";\n      };\n      \"x86_64-linux\" = {\n        url = \"https://example/tool-linux\";\n        hash = \"sha256-AAAA\";\n      };\n    };\n  };\n";
    assert_eq!(block, expected);
}

#[test]
fn retained_block_sits_at_last_match_position() {
    let release = ReleaseResponse {
        tag_name: "v1.1.0".to_string(),
        assets: vec![
            asset(
                "tool-aarch64-unknown-linux-musl-old.tar.gz",
                "sha256-OLD",
                "https://example/old",
            ),
            asset(
                "tool-x86_64-apple-darwin.zip",
                "sha256-MAC",
                "https://example/mac",
            ),
            asset(
                "tool-aarch64-unknown-linux-musl-new.tar.gz",
                "sha256-NEW",
                "https://example/new",
            ),
        ],
    };
    let block = render_repo_block("tool", &release);
    let expected = "  \"tool\" = {\n    version = \"v1.1.0\";\n    assets = {\n      \"x86_64-darwin\" = {\n        url = \"https://example/mac\";\n        hash = \"sha256-MAC\";\n      };\n      \"aarch64-linux\" = {\n        url = \"https://example/new\";\n        hash = \"sha256-NEW\";\n      };\n    };\n  };\n";
    assert_eq!(block, expected);
}

#[test]
fn serialization_is_deterministic() {
    let build = || {
        vec![
            RepoEntry {
                name: "alpha".to_string(),
                release: ReleaseResponse {
                    tag_name: "v1.0.0".to_string(),
                    assets: vec![asset(
                        "alpha-aarch64-unknown-linux-musl.tar.gz",
                        "sha256-DDDD",
                        "https://example/alpha",
                    )],
                },
            },
            RepoEntry {
                name: "beta".to_string(),
                release: ReleaseResponse {
                    tag_name: "v2.3.4".to_string(),
                    assets: Vec::new(),
                },
            },
        ]
    };
    let first = render_document(&build());
    let second = render_document(&build());
    assert_eq!(first.into_bytes(), second.into_bytes());
}

#[test]
fn empty_document_is_header_and_footer() {
    let doc = render_document(&Vec::new());
    assert_eq!(
        doc,
        "# This file was automatically generated. Do not edit manually.\n{\n}\n"
    );
}

#[test]
fn string_values_are_escaped() {
    let release = ReleaseResponse {
        tag_name: "v\"1\"\\2\n3\t4\r5".to_string(),
        assets: Vec::new(),
    };
    let block = render_repo_block("tool", &release);
    assert!(block.contains("version = \"v\\\"1\\\"\\\\2\\n3\\t4\\r5\";"));
}

#[test]
fn dollar_is_escaped() {
    let release = ReleaseResponse {
        tag_name: "v${tag}".to_string(),
        assets: Vec::new(),
    };
    let block = render_repo_block("tool", &release);
    assert!(block.contains("version = \"v\\${tag}\";"));
}

#[test]
fn flat_document_exact() {
    let release = ReleaseResponse {
        tag_name: "v3.0.0".to_string(),
        assets: vec![
            asset(
                "tool-aarch64-apple-darwin.tar.gz",
                "sha256-EEEE",
                "https://example/mac-arm",
            ),
            asset("tool-source.tar.gz", "sha256-FFFF", "https://example/src"),
        ],
    };
    let doc = render_release_flat(&release);
    let expected = "# This file was automatically generated. Do not edit manually.\n{\n  version = \"v3.0.0\";\n  assets = {\n    \"aarch64-darwin\" = {\n      url = \"https://example/mac-arm\";\n      hash = \"sha256-EEEE\";\n    };\n  };\n}\n";
    assert_eq!(doc, expected);
}
