use fabcli::chunks::{
    add_written, chunk_body_error, chunk_request_error, file_steps, is_decodable, judge_chunk,
    receive_chunk,
};
use fabcli::download::{
    announcement, check_files, check_space, chunk_url, completion, decimal_megabytes,
    has_file_ancestor, is_in_chunk_dir, manifest_url, needed_chunks, plan_chunks, plan_target,
    preflight_collisions, preflight_into_empty, preflight_output, safe_join, whole_megabytes, Above,
    ChunkPart, Conflict, ConflictKind, FileManifest, Found, OverwriteMode, PlannedTarget,
    CHUNK_DIR_NAME, COLLISION_REPORT_LIMIT,
};
use fabcli::download_resolver::{
    entry_matches_uid, resolve, uid_from_url, FabAsset, FabLibrary, ProjectVersion,
};
use fabcli::error::{AvailableVariant, EpicError, FabCliError, API_MESSAGE_LIMIT};
use fabcli::json::print_json;
use fabcli::paths::{climbs_by_slashes, is_anchored, is_joined, relative};

fn s(input: &str) -> String {
    input.to_string()
}

fn planned(rel: &str, found: Found, above: Vec<Above>) -> PlannedTarget {
    PlannedTarget { rel: Some(s(rel)), found, above }
}

// ── what stands in the way ──

#[test]
fn collisions_clean_dir_returns_empty() {
    let targets = vec![
        planned("Content/Mesh.uasset", Found::Nothing, vec![Above::Other, Above::OutputDir]),
        planned("Content/Tex.uasset", Found::Nothing, vec![Above::Other, Above::OutputDir]),
    ];
    assert!(preflight_collisions(&targets).is_empty());
}

#[test]
fn collisions_detects_file_exists() {
    let targets =
        vec![planned("Content/Mesh.uasset", Found::Other, vec![Above::Other, Above::OutputDir])];
    let conflicts = preflight_collisions(&targets);
    assert_eq!(conflicts.len(), 1);
    assert_eq!(conflicts[0].kind, ConflictKind::FileExists);
    assert!(conflicts[0].path.contains("Mesh.uasset"));
}

#[test]
fn collisions_detects_directory_where_file_expected() {
    let targets = vec![planned(
        "Content/Mesh.uasset",
        Found::Directory,
        vec![Above::Other, Above::OutputDir],
    )];
    let conflicts = preflight_collisions(&targets);
    assert_eq!(conflicts.len(), 1);
    assert_eq!(conflicts[0].kind, ConflictKind::IsDirectory);
}

#[test]
fn collisions_detects_parent_is_file() {
    let targets = vec![planned(
        "Content/Sub/File.uasset",
        Found::Nothing,
        vec![Above::File, Above::Other, Above::OutputDir],
    )];
    let conflicts = preflight_collisions(&targets);
    assert_eq!(conflicts.len(), 1);
    assert_eq!(conflicts[0].kind, ConflictKind::ParentIsFile);
}

#[test]
fn collisions_excludes_fabcli_chunks() {
    let targets = vec![
        planned(
            &format!("{}/stale", CHUNK_DIR_NAME),
            Found::Other,
            vec![Above::Other, Above::OutputDir],
        ),
        planned("real.uasset", Found::Other, vec![Above::OutputDir]),
    ];
    let conflicts = preflight_collisions(&targets);
    assert_eq!(conflicts.len(), 1);
    assert_eq!(conflicts[0].kind, ConflictKind::FileExists);
    assert!(conflicts[0].path.contains("real.uasset"));
}

#[test]
fn collisions_includes_sidecar() {
    let targets = vec![planned(".fabcli-asset.json", Found::Other, vec![Above::OutputDir])];
    let conflicts = preflight_collisions(&targets);
    assert_eq!(conflicts.len(), 1);
    assert_eq!(conflicts[0].kind, ConflictKind::FileExists);
}

#[test]
fn targets_elsewhere_are_not_looked_at() {
    let targets = vec![PlannedTarget { rel: None, found: Found::Other, above: vec![] }];
    assert!(preflight_collisions(&targets).is_empty());
    // What lies above the output directory does not count.
    assert!(!has_file_ancestor(&vec![Above::Other, Above::OutputDir, Above::File]));
    assert!(has_file_ancestor(&vec![Above::Other, Above::File, Above::OutputDir]));
    assert!(!has_file_ancestor(&vec![]));
}

#[test]
fn into_empty_empty_dir() {
    assert!(preflight_into_empty(&vec![]).is_empty());
}

#[test]
fn into_empty_only_chunks_dir_passes() {
    assert!(preflight_into_empty(&vec![s(CHUNK_DIR_NAME)]).is_empty());
}

#[test]
fn into_empty_unrelated_file_blocks() {
    let unexpected = preflight_into_empty(&vec![s("README.md"), s(CHUNK_DIR_NAME)]);
    assert_eq!(unexpected.len(), 1);
    assert_eq!(unexpected[0], "README.md");
}

#[test]
fn modes_decide_what_is_refused() {
    let taken = vec![planned("a", Found::Other, vec![Above::OutputDir])];
    let entries = vec![s("a")];
    match preflight_output(OverwriteMode::Default, "out", &entries, &taken).unwrap_err() {
        FabCliError::OutputCollision { message, conflicts, total_conflicts, output_dir } => {
            assert!(message.contains("1"), "{}", message);
            assert_eq!((conflicts.len(), total_conflicts), (1, 1));
            assert_eq!(output_dir, "out");
        }
        other => panic!("{:?}", other),
    }
    match preflight_output(OverwriteMode::IntoEmpty, "out", &entries, &taken).unwrap_err() {
        FabCliError::OutputNotEmpty { unexpected_entries, .. } => {
            assert_eq!(unexpected_entries, vec!["a"])
        }
        other => panic!("{:?}", other),
    }
    assert!(preflight_output(OverwriteMode::Force, "out", &entries, &taken).is_ok());
    assert!(preflight_output(OverwriteMode::Default, "out", &entries, &vec![]).is_ok());
    assert!(preflight_output(OverwriteMode::IntoEmpty, "out", &vec![], &taken).is_ok());
}

#[test]
fn output_collision_error_renders_structured_body() {
    let conflicts =
        vec![Conflict { path: "Content/A.uasset".into(), kind: ConflictKind::FileExists }];
    let err = FabCliError::OutputCollision {
        message: "1 conflict".into(),
        conflicts,
        total_conflicts: 1,
        output_dir: "/tmp/x".into(),
    };
    let (code, kind, _) = err.to_output();
    assert_eq!(code, 6);
    assert_eq!(kind, "output_collision");

    let body = err.to_json();
    assert_eq!(body.get_str("kind"), Some("output_collision"));
    assert_eq!(body.get("total_conflicts").unwrap().as_u64(), Some(1));
    let listed = body.get_array("conflicts").unwrap();
    assert_eq!(listed[0].get_str("kind"), Some("file_exists"));
    assert_eq!(listed[0].get_str("path"), Some("Content/A.uasset"));
    assert_eq!(
        print_json(&body, false),
        r#"{"conflicts":[{"kind":"file_exists","path":"Content/A.uasset"}],"kind":"output_collision","message":"1 conflict","output_dir":"/tmp/x","total_conflicts":1}"#
    );
}

#[test]
fn output_collision_truncates_to_report_limit() {
    let conflicts: Vec<Conflict> = (0..50)
        .map(|i| Conflict { path: format!("file{}.uasset", i), kind: ConflictKind::FileExists })
        .collect();
    let err = FabCliError::OutputCollision {
        message: "many".into(),
        conflicts,
        total_conflicts: 50,
        output_dir: "/tmp/x".into(),
    };
    let body = err.to_json();
    assert_eq!(body.get("total_conflicts").unwrap().as_u64(), Some(50));
    assert_eq!(body.get_array("conflicts").unwrap().len(), COLLISION_REPORT_LIMIT);
}

#[test]
fn output_not_empty_error_renders_entries() {
    let err = FabCliError::OutputNotEmpty {
        message: "stuff".into(),
        unexpected_entries: vec!["a.txt".into(), "b/".into()],
        output_dir: "/tmp/x".into(),
    };
    let (code, kind, _) = err.to_output();
    assert_eq!(code, 6);
    assert_eq!(kind, "output_not_empty");

    let body = err.to_json();
    let entries = body.get_array("unexpected_entries").unwrap();
    assert_eq!(entries[0].as_str(), Some("a.txt"));
    assert_eq!(entries[1].as_str(), Some("b/"));
}

// ── names of a manifest ──

#[test]
fn names_stay_in_the_output_directory() {
    assert!(plan_target("/out", "Content/A.uasset").unwrap().ends_with("A.uasset"));
    assert!(safe_join("/out", "a/./b").is_ok());
    for bad in ["../x", "a/../../x", "..", "/etc/passwd", "//etc/passwd", "C:evil.txt", "z:/x"] {
        match safe_join("/out", bad) {
            Err(FabCliError::InvalidArgs(m)) | Err(FabCliError::Generic(m)) => {
                assert!(m.contains(bad), "{}", m)
            }
            other => panic!("{:?}", other),
        }
        assert!(plan_target("/out", bad).is_err());
    }
}

#[test]
fn names_are_refused_for_what_they_are() {
    let message = |name: &str| plan_target("/out", name).unwrap_err().to_output().2;
    assert_eq!(message("/etc/passwd"), "absolute path in manifest filename: \"/etc/passwd\"");
    assert_eq!(message("C:evil.txt"), "absolute path in manifest filename: \"C:evil.txt\"");
    assert_eq!(message("/../x"), "absolute path in manifest filename: \"/../x\"");
    assert_eq!(message("a/../x"), "path traversal in manifest filename: \"a/../x\"");
    for good in ["ab:c", "a/b:c", "..a/b", "a../b", ".", "1:x"] {
        assert!(safe_join("/out", good).is_ok(), "{}", good);
    }
    for base in ["/out", "/out/", "out", "", "/"] {
        assert!(plan_target(base, "Content/A.uasset").is_ok(), "{}", base);
    }
    for name in ["a\\b", "1:x", "é:x", "x/1:y"] {
        let placed = safe_join("/out", name).unwrap();
        assert!(is_joined("/out", name, &placed), "{}", placed);
        assert!(is_joined("/out", name, &plan_target("/out", name).unwrap()));
    }
    assert!(relative("a/b:c") && relative("1:x") && relative("a\\b") && relative(""));
    assert!(!relative("a:b") && !relative("/x") && !relative("\\x"));
    assert!(is_joined("", "x", "x") && is_joined("/", "x", "/x") && is_joined("a", "x", "a\\x"));
    assert!(is_joined("C:", "x", "C:x") && !is_joined("CC", "x", "CCx"));
    assert!(!is_joined("a", "x", "b/x"));
    assert!(is_anchored("/x") && is_anchored("c:") && !is_anchored("x/c:") && !is_anchored(""));
    assert!(climbs_by_slashes("a/..") && !climbs_by_slashes("a/...") && !climbs_by_slashes(""));
}

#[test]
fn the_scratch_directory_is_known_by_its_name() {
    assert!(is_in_chunk_dir(".fabcli-chunks"));
    assert!(is_in_chunk_dir(".fabcli-chunks/x"));
    assert!(is_in_chunk_dir(".fabcli-chunks/a:b"));
    assert!(!is_in_chunk_dir(".fabcli-chunks-2/x"));
    assert!(!is_in_chunk_dir("x/.fabcli-chunks"));
    assert!(!is_in_chunk_dir("x\\.fabcli-chunks"));
    assert!(!is_in_chunk_dir(""));
}

#[test]
fn existing_files_are_reported_whatever_their_names() {
    for name in ["a", "a:b", "a\\b", "x/y\\z", ".fabcli"] {
        let target = PlannedTarget { rel: Some(s(name)), found: Found::Other, above: vec![] };
        let found = preflight_collisions(&vec![target]);
        assert_eq!(found.len(), 1, "{}", name);
        assert_eq!(found[0].path, name);
    }
}

// ── sizes ──

#[test]
fn sizes_are_rounded_half_to_even() {
    assert_eq!(whole_megabytes(0), 0);
    assert_eq!(whole_megabytes(1 << 20), 1);
    assert_eq!(whole_megabytes((1 << 20) / 2), 0);
    assert_eq!(whole_megabytes((1 << 20) / 2 + 1), 1);
    assert_eq!(whole_megabytes((1 << 20) * 3 / 2), 2);
    assert_eq!(decimal_megabytes(0), "0.0");
    assert_eq!(decimal_megabytes(1_572_864), "1.5");
    for bytes in [0u64, 1, 52_428, 52_429, 123_456_789, 5_000_000_000, u64::MAX, u64::MAX - 1023] {
        let mb = bytes as f64 / (1024.0 * 1024.0);
        assert_eq!(whole_megabytes(bytes).to_string(), format!("{:.0}", mb), "{}", bytes);
        assert_eq!(decimal_megabytes(bytes), format!("{:.1}", mb), "{}", bytes);
    }
}

#[test]
fn twice_the_size_must_be_free() {
    let size: u64 = 10 << 20;
    assert_eq!(check_space(size, None, "/d").unwrap(), None);
    assert_eq!(
        check_space(size, Some(20 << 20), "/d").unwrap().as_deref(),
        Some("[download] Disk space: 20 MB available")
    );
    match check_space(size, Some((20 << 20) - 1), "/d").unwrap_err() {
        FabCliError::Generic(m) => assert_eq!(
            m,
            "insufficient disk space: need ~20 MB (2x asset size for temp chunks + final files), only 20 MB available on /d"
        ),
        other => panic!("{:?}", other),
    }
    assert_eq!(announcement(3, 2, 1_572_864), "[download] 3 files, 2 chunks, 1.5 MB to download");
    assert_eq!(completion(3, 1_572_864, "0.7"), "[download] Complete: 3 files, 1.5 MB in 0.7s");
}

// ── what is fetched ──

fn part(guid: &str, link: Option<&str>, offset: u128, size: u128) -> ChunkPart {
    ChunkPart { guid: s(guid), link: link.map(s), offset, size }
}

fn file(name: &str, parts: Vec<ChunkPart>) -> FileManifest {
    FileManifest { filename: s(name), parts }
}

#[test]
fn chunks_are_planned_once_each() {
    let files = vec![
        file("f1", vec![part("b", Some("u-old"), 0, 5), part("a", Some("ua"), 1, 2)]),
        file("f2", vec![part("b", Some("ub"), 5, 5), part("b", None, 0, 1)]),
    ];
    assert_eq!(needed_chunks(&files), vec!["a", "b"]);
    assert_eq!(chunk_url(&files, "b").as_deref(), Some("ub"));
    assert_eq!(chunk_url(&files, "c"), None);
    let jobs = plan_chunks(&files, &vec![(s("b"), s("SHA"))]).unwrap();
    assert_eq!(jobs.len(), 2);
    assert_eq!((jobs[0].guid.as_str(), jobs[0].url.as_str()), ("a", "ua"));
    assert_eq!(jobs[0].expected_sha, None);
    assert_eq!(jobs[1].expected_sha.as_deref(), Some("SHA"));
    assert_eq!(jobs[1].file_name, "b.chunk");
    match plan_chunks(&vec![file("f", vec![part("z", None, 0, 1)])], &vec![]).unwrap_err() {
        FabCliError::Generic(m) => assert_eq!(m, "no download URL for chunk z"),
        other => panic!("{:?}", other),
    }
}

#[test]
fn manifests_come_from_the_first_point() {
    assert_eq!(manifest_url(&vec![vec![s("u1"), s("u2")], vec![]]).unwrap(), "u1");
    match manifest_url(&vec![]).unwrap_err() {
        FabCliError::NotFound(m) => assert_eq!(m, "no download info returned for this asset"),
        other => panic!("{:?}", other),
    }
    match manifest_url(&vec![vec![]]).unwrap_err() {
        FabCliError::NotFound(m) => assert_eq!(m, "no distribution points available"),
        other => panic!("{:?}", other),
    }
    assert_eq!(check_files(&vec![]).unwrap_err().to_output().0, 3);
    assert!(check_files(&vec![file("f", vec![])]).is_ok());
}

fn wire(version: u32, packed: u8, data: &[u8]) -> Vec<u8> {
    let mut out: Vec<u8> = Vec::new();
    out.extend_from_slice(&0xB1FE_3AA2u32.to_le_bytes());
    out.extend_from_slice(&version.to_le_bytes());
    out.extend_from_slice(&[0u8; 32]);
    out.push(packed);
    if version >= 2 {
        out.extend_from_slice(&[0u8; 21]);
    }
    if version >= 3 {
        out.extend_from_slice(&[0u8; 4]);
    }
    out.extend_from_slice(data);
    out
}

const SHA1_OF_ABC: &str = "a9993e364706816aba3e25717850c26c9cd0d89d";

#[test]
fn chunks_are_decoded_and_held_against_their_hash() {
    for version in [1u32, 2, 3] {
        let got = receive_chunk("g", 200, "200 OK", wire(version, 0, b"abc"), Some(SHA1_OF_ABC));
        assert_eq!(got.unwrap(), b"abc");
    }
    let upper = SHA1_OF_ABC.to_uppercase();
    assert_eq!(receive_chunk("g", 299, "", wire(3, 0, b"abc"), Some(&upper)).unwrap(), b"abc");
    assert_eq!(receive_chunk("g", 200, "", wire(3, 0, b"xyz"), None).unwrap(), b"xyz");
    match receive_chunk("g", 200, "", wire(3, 0, b"abc"), Some("00FF")).unwrap_err() {
        FabCliError::Generic(m) => assert_eq!(
            m,
            format!("hash mismatch for chunk g: expected 00FF, got {}", SHA1_OF_ABC)
        ),
        other => panic!("{:?}", other),
    }
    match receive_chunk("g", 200, "", wire(3, 1, b"not packed"), None).unwrap_err() {
        FabCliError::Generic(m) => assert_eq!(m, "failed to parse BPS chunk g (76 wire bytes)"),
        other => panic!("{:?}", other),
    }
    match receive_chunk("g", 404, "404 Not Found", vec![], None).unwrap_err() {
        FabCliError::Generic(m) => assert_eq!(m, "chunk g download failed: HTTP 404 Not Found"),
        other => panic!("{:?}", other),
    }
    match receive_chunk("g", 200, "", wire(3, 0, b"")[..65].to_vec(), None).unwrap_err() {
        FabCliError::Generic(m) => assert_eq!(m, "failed to parse BPS chunk g (65 wire bytes)"),
        other => panic!("{:?}", other),
    }
    assert_eq!(
        receive_chunk("g", 200, "", vec![], Some("ab")).unwrap_err().to_output().2,
        "failed to parse BPS chunk g (0 wire bytes)"
    );
    assert!(!is_decodable(&vec![0, 0, 0]));
    assert!(is_decodable(&vec![0, 0, 0, 0]));
    assert!(!is_decodable(&wire(3, 0, b"")[..65].to_vec()));
    assert!(is_decodable(&wire(3, 0, b"")));
    assert!(judge_chunk("g", 4, None, None, "").is_err());
    assert_eq!(chunk_request_error("g", "m").to_output().2, "chunk g: m");
    assert_eq!(chunk_body_error("g", "m").to_output().0, 5);
}

#[test]
fn files_are_made_part_by_part() {
    let f = file("f", vec![part("a", None, 1, 2), part("b", None, 0, 3)]);
    let have = vec![(s("a"), s("/t/a")), (s("b"), s("/t/b"))];
    let (steps, error) = file_steps(&f, &have);
    assert!(error.is_none());
    assert_eq!(steps.len(), 2);
    assert_eq!((steps[0].path.as_str(), steps[0].offset, steps[0].size), ("/t/a", 1, 2));
    assert_eq!(add_written(10, &steps), 15);
    let (steps, error) = file_steps(&f, &vec![(s("a"), s("/t/a"))]);
    assert_eq!(steps.len(), 1);
    assert_eq!(error.unwrap().to_output().2, "missing chunk b for file f");
}

// ── which version of a listing ──

fn entry(
    listing_uid: &str,
    asset_id: &str,
    namespace: &str,
    versions: Vec<ProjectVersion>,
) -> FabAsset {
    FabAsset {
        asset_id: asset_id.to_string(),
        asset_namespace: namespace.to_string(),
        custom_attributes: vec![vec![("ListingIdentifier".to_string(), listing_uid.to_string())]],
        url: format!("https://www.fab.com/listings/{}", listing_uid),
        project_versions: versions,
    }
}

fn version(artifact: &str, engines: &[&str], platforms: &[&str]) -> ProjectVersion {
    ProjectVersion {
        artifact_id: artifact.to_string(),
        engine_versions: engines.iter().map(|x| x.to_string()).collect(),
        target_platforms: platforms.iter().map(|x| x.to_string()).collect(),
    }
}

fn lib(entries: Vec<FabAsset>) -> FabLibrary {
    FabLibrary { results: entries }
}

#[test]
fn single_version_single_platform_resolves() {
    let library = lib(vec![entry(
        "uid-1",
        "asset-A",
        "ns-A",
        vec![version("art-1", &["UE_5.4"], &["Windows"])],
    )]);
    let r = resolve("uid-1", None, None, &library).unwrap();
    assert_eq!(r.artifact_id, "art-1");
    assert_eq!(r.namespace, "ns-A");
    assert_eq!(r.asset_id, "asset-A");
    assert_eq!(r.platform.as_deref(), Some("Windows"));
}

#[test]
fn uid_not_in_library_is_not_owned() {
    let library = lib(vec![entry("uid-1", "asset-A", "ns-A", vec![])]);
    let err = resolve("uid-other", None, None, &library).unwrap_err();
    match err {
        FabCliError::NotOwned { uid, .. } => assert_eq!(uid, "uid-other"),
        other => panic!("expected NotOwned, got {:?}", other),
    }
}

#[test]
fn url_fallback_matches_when_custom_attributes_missing() {
    let mut e = entry(
        "stale-listing-id",
        "asset-A",
        "ns-A",
        vec![version("art-1", &["UE_5.4"], &["Windows"])],
    );
    e.custom_attributes.clear();
    e.url = "https://www.fab.com/listings/url-uid".into();
    let library = lib(vec![e]);
    let r = resolve("url-uid", None, None, &library).unwrap();
    assert_eq!(r.artifact_id, "art-1");
}

#[test]
fn multi_version_no_engine_is_ambiguous() {
    let library = lib(vec![entry(
        "uid-1",
        "a",
        "n",
        vec![
            version("art-A", &["UE_4.27"], &["Windows"]),
            version("art-B", &["UE_5.4"], &["Windows"]),
        ],
    )]);
    let err = resolve("uid-1", None, None, &library).unwrap_err();
    match err {
        FabCliError::AmbiguousArtifact { available, .. } => {
            assert_eq!(available.len(), 2);
        }
        other => panic!("expected AmbiguousArtifact, got {:?}", other),
    }
}

#[test]
fn multi_version_engine_disambiguates() {
    let library = lib(vec![entry(
        "uid-1",
        "a",
        "n",
        vec![
            version("art-A", &["UE_4.27"], &["Windows"]),
            version("art-B", &["UE_5.4"], &["Windows"]),
        ],
    )]);
    let r = resolve("uid-1", Some("UE_5.4"), None, &library).unwrap();
    assert_eq!(r.artifact_id, "art-B");
}

#[test]
fn engine_matching_nothing_is_ambiguous() {
    let library =
        lib(vec![entry("uid-1", "a", "n", vec![version("art-A", &["UE_5.4"], &["Windows"])])]);
    let err = resolve("uid-1", Some("UE_5.0"), None, &library).unwrap_err();
    match err {
        FabCliError::AmbiguousArtifact { available, .. } => {
            assert_eq!(available.len(), 1);
        }
        other => panic!("expected AmbiguousArtifact, got {:?}", other),
    }
}

#[test]
fn multi_platform_no_flag_is_ambiguous() {
    let library = lib(vec![entry(
        "uid-1",
        "a",
        "n",
        vec![version("art-A", &["UE_5.4"], &["Windows", "Linux"])],
    )]);
    let err = resolve("uid-1", None, None, &library).unwrap_err();
    match err {
        FabCliError::AmbiguousArtifact { .. } => {}
        other => panic!("expected AmbiguousArtifact, got {:?}", other),
    }
}

#[test]
fn multi_platform_flag_disambiguates() {
    let library = lib(vec![entry(
        "uid-1",
        "a",
        "n",
        vec![version("art-A", &["UE_5.4"], &["Windows", "Linux"])],
    )]);
    let r = resolve("uid-1", None, Some("Linux"), &library).unwrap();
    assert_eq!(r.platform.as_deref(), Some("Linux"));
}

#[test]
fn platform_matching_nothing_is_ambiguous() {
    let library = lib(vec![entry(
        "uid-1",
        "a",
        "n",
        vec![version("art-A", &["UE_5.4"], &["Windows", "Linux"])],
    )]);
    let err = resolve("uid-1", None, Some("Mac"), &library).unwrap_err();
    match err {
        FabCliError::AmbiguousArtifact { .. } => {}
        other => panic!("expected AmbiguousArtifact, got {:?}", other),
    }
}

#[test]
fn listing_urls_end_in_the_uid() {
    assert_eq!(uid_from_url("https://www.fab.com/listings/abc").as_deref(), Some("abc"));
    for other in [
        "not-a-listing-url",
        "",
        "https://www.fab.com/listings/",
        "https://www.fab.com/listings/abc/",
        "https://www.fab.com/listings/abc/reviews",
        "https://www.fab.com/sellers/abc",
        "http://www.fab.com/listings/abc",
    ] {
        assert_eq!(uid_from_url(other), None, "{}", other);
    }
    let e = entry("x", "a", "n", vec![]);
    assert!(entry_matches_uid(&e, "x"));
    assert!(!entry_matches_uid(&e, "y"));
}

// ── errors ──

#[test]
fn direct_variant_exit_codes() {
    assert_eq!(FabCliError::Generic("x".into()).to_output().0, 1);
    assert_eq!(FabCliError::AuthRequired("x".into()).to_output().0, 2);
    assert_eq!(FabCliError::NotFound("x".into()).to_output().0, 3);
    assert_eq!(FabCliError::RateLimited("x".into()).to_output().0, 4);
    assert_eq!(FabCliError::Network("x".into()).to_output().0, 5);
    assert_eq!(FabCliError::InvalidArgs("x".into()).to_output().0, 6);
}

#[test]
fn direct_variant_kind_strings() {
    assert_eq!(FabCliError::Generic("x".into()).to_output().1, "generic");
    assert_eq!(FabCliError::AuthRequired("x".into()).to_output().1, "auth_required");
    assert_eq!(FabCliError::NotFound("x".into()).to_output().1, "not_found");
    assert_eq!(FabCliError::RateLimited("x".into()).to_output().1, "rate_limited");
    assert_eq!(FabCliError::Network("x".into()).to_output().1, "network");
    assert_eq!(FabCliError::InvalidArgs("x".into()).to_output().1, "invalid_args");
}

fn http(code: u16) -> EpicError {
    EpicError::Http { status: code }
}

fn kind_of(e: EpicError) -> (i32, &'static str) {
    let (code, kind, _) = FabCliError::from_epic(e).to_output();
    (code, kind)
}

#[test]
fn epic_invalid_credentials_maps_to_auth_required() {
    assert_eq!(kind_of(EpicError::InvalidCredentials), (2, "auth_required"));
}

#[test]
fn epic_http_429_maps_to_rate_limited() {
    assert_eq!(kind_of(http(429)), (4, "rate_limited"));
}

#[test]
fn epic_http_404_maps_to_not_found() {
    assert_eq!(kind_of(http(404)), (3, "not_found"));
}

#[test]
fn epic_http_401_maps_to_auth_required() {
    assert_eq!(kind_of(http(401)), (2, "auth_required"));
}

#[test]
fn epic_http_403_maps_to_auth_required() {
    assert_eq!(kind_of(http(403)), (2, "auth_required"));
}

#[test]
fn epic_http_500_maps_to_generic() {
    assert_eq!(kind_of(http(500)), (1, "generic"));
}

#[test]
fn epic_server_maps_to_generic() {
    assert_eq!(kind_of(EpicError::Server), (1, "generic"));
}

#[test]
fn epic_api_error_maps_to_generic() {
    assert_eq!(kind_of(EpicError::Api("something".into())), (1, "generic"));
}

#[test]
fn epic_deserialization_error_maps_to_generic() {
    assert_eq!(kind_of(EpicError::Deserialization("bad".into())), (1, "generic"));
}

#[test]
fn epic_invalid_params_maps_to_invalid_args() {
    assert_eq!(kind_of(EpicError::InvalidParams), (6, "invalid_args"));
}

#[test]
fn epic_fab_timeout_maps_to_network() {
    assert_eq!(kind_of(EpicError::FabTimeout), (5, "network"));
}

#[test]
fn long_service_messages_are_cut() {
    let long = "x".repeat(API_MESSAGE_LIMIT + 1);
    assert_eq!(
        FabCliError::from_epic(EpicError::Api(long)).to_output().2,
        format!("API error: {}…(truncated)", "x".repeat(API_MESSAGE_LIMIT))
    );
    let exact = "x".repeat(API_MESSAGE_LIMIT);
    assert_eq!(
        FabCliError::from_epic(EpicError::Api(exact.clone())).to_output().2,
        format!("API error: {}", exact)
    );
    let odd = format!("{}éx", "a".repeat(119));
    assert_eq!(
        FabCliError::from_epic(EpicError::Api(odd)).to_output().2,
        format!("API error: {}…(truncated)", "a".repeat(119))
    );
    let wide = "€".repeat(41);
    assert_eq!(
        FabCliError::from_epic(EpicError::Api(wide)).to_output().2,
        format!("API error: {}…(truncated)", "€".repeat(40))
    );
    assert_eq!(FabCliError::from_epic(http(418)).to_output().2, "HTTP 418 from upstream");
    assert_eq!(kind_of(EpicError::Network(s("n"))), (5, "network"));
    assert_eq!(FabCliError::from_io("gone").to_output().2, "io error: gone");
    assert_eq!(FabCliError::from_json("bad").to_output().2, "json error: bad");
}

#[test]
fn not_owned_maps_to_exit_2() {
    let err = FabCliError::NotOwned {
        message: "listing X is not in your library".into(),
        uid: "X".into(),
    };
    assert_eq!(err.to_output().0, 2);
    assert_eq!(err.to_output().1, "not_owned");
    let body = err.to_json();
    assert_eq!(body.get("uid").and_then(|v| v.as_str()), Some("X"));
}

#[test]
fn ambiguous_artifact_maps_to_exit_6() {
    let err = FabCliError::AmbiguousArtifact {
        message: "listing has 2 versions".into(),
        uid: "Y".into(),
        available: vec![AvailableVariant {
            engine_versions: vec!["UE_5.4".into()],
            target_platforms: vec!["Windows".into()],
        }],
    };
    assert_eq!(err.to_output().0, 6);
    assert_eq!(err.to_output().1, "ambiguous_artifact");
    let body = err.to_json();
    assert_eq!(body.get("uid").and_then(|v| v.as_str()), Some("Y"));
    let avail = body.get("available").and_then(|v| v.as_array()).unwrap();
    assert_eq!(avail.len(), 1);
}
