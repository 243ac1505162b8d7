use std::io::{Read, Write};

use surfpool::update::archive::{
    extract, find_entry, settle_search, take_contents, Search,
};
use surfpool::update::flow::{Update, UpdateAction, UpdateEvent};
use surfpool::update::release::{
    decide, decide_for, find_asset_url, get_asset_name, get_binary_name, release_url, Asset,
    Decision, Installation, LatestRelease, UpdateCommand,
};
use surfpool::update::path::has_file_name;
use surfpool::update::gzip::inflate;
use surfpool::update::tarball::{
    add_sentinel, count_further_blocks, find_size_at, find_walk_end, Listed,
};
use surfpool::update::version::Precedence;

fn tarball(entries: &[(&str, &[u8])]) -> Vec<u8> {
    let mut builder = tar::Builder::new(Vec::new());
    for (path, contents) in entries {
        let mut header = tar::Header::new_gnu();
        header.set_size(contents.len() as u64);
        header.set_mode(0o755);
        header.set_cksum();
        builder.append_data(&mut header, path, *contents).unwrap();
    }
    builder.into_inner().unwrap()
}

fn gzipped(bytes: &[u8]) -> Vec<u8> {
    let mut encoder = flate2::write::GzEncoder::new(Vec::new(), flate2::Compression::default());
    encoder.write_all(bytes).unwrap();
    encoder.finish().unwrap()
}

fn archive(entries: &[(&str, &[u8])]) -> Vec<u8> {
    gzipped(&tarball(entries))
}

fn release(tag: &str) -> LatestRelease {
    let names = [
        "surfpool-darwin-arm64.tar.gz",
        "surfpool-darwin-x64.tar.gz",
        "surfpool-linux-x64.tar.gz",
        "surfpool-windows-x64.tar.gz",
    ];
    LatestRelease {
        tag_name: tag.to_string(),
        assets: names
            .iter()
            .map(|name| Asset {
                name: name.to_string(),
                browser_download_url: format!("https://example.org/{}", name),
            })
            .collect(),
    }
}

fn running(version: &str, os: &str, arch: &str) -> Installation {
    Installation { version: version.to_string(), os: os.to_string(), arch: arch.to_string() }
}

fn command(version: Option<&str>, skip_confirm: bool) -> UpdateCommand {
    UpdateCommand { version: version.map(|v| v.to_string()), skip_confirm }
}

fn finished(action: UpdateAction) -> Result<String, String> {
    match action {
        UpdateAction::Finish(result) => result,
        other => panic!("not finished: {:?}", other),
    }
}

#[test]
fn program_is_extracted_by_file_name() {
    let bytes = archive(&[
        ("README.md", b"read me"),
        ("docs/surfpool.txt", b"no"),
        ("bin/surfpool", b"the program"),
        ("surfpool", b"a later one"),
    ]);
    assert_eq!(extract(&bytes, "surfpool", false).unwrap(), b"the program".to_vec());
}

#[test]
fn missing_program_is_reported() {
    let bytes = archive(&[("README.md", b"read me")]);
    assert_eq!(
        extract(&bytes, "surfpool", false).unwrap_err(),
        "Could not find 'surfpool' binary in archive"
    );
    let empty = archive(&[]);
    assert_eq!(
        extract(&empty, "surfpool.exe", true).unwrap_err(),
        "Could not find 'surfpool.exe' binary in archive"
    );
}

#[test]
fn broken_archives_are_reported() {
    assert!(extract(b"not gzip at all", "surfpool", false).is_err());
    let whole = archive(&[("README.md", b"read me"), ("surfpool", b"the program")]);
    assert!(extract(&whole[..whole.len() / 2], "surfpool", false).is_err());
    let mut damaged = tarball(&[("README.md", b"read me"), ("surfpool", b"the program")]);
    damaged[0] = damaged[0].wrapping_add(1);
    let error = extract(&gzipped(&damaged), "surfpool", false).unwrap_err();
    assert!(!error.contains("Could not find"), "{}", error);
}

#[test]
fn entries_after_the_match_do_not_matter() {
    let mut bytes = tarball(&[("surfpool", b"the program"), ("README.md", b"read me")]);
    bytes[1024] = bytes[1024].wrapping_add(1);
    assert_eq!(extract(&gzipped(&bytes), "surfpool", false).unwrap(), b"the program".to_vec());
}

#[test]
fn file_names_are_final_components() {
    let named = |path: &str, windows: bool| has_file_name(&path.as_bytes().to_vec(), "surfpool", windows);
    assert!(named("surfpool", false));
    assert!(named("a/b/surfpool", false));
    assert!(named("/surfpool", false));
    assert!(named("a/surfpool/", false));
    assert!(named("a/surfpool/.", false));
    assert!(named("a/surfpool//./", false));
    assert!(!named("a/surfpool/..", false));
    assert!(!named("", false));
    assert!(!named("/", false));
    assert!(!named("..", false));
    assert!(!named("surfpool.exe", false));
    assert!(!named("a\\surfpool", false));
    assert!(named("a\\surfpool", true));
}

#[test]
fn file_names_agree_with_std() {
    let parts = ["", "/", ".", "..", "surfpool", "a", "surf pool"];
    for a in parts {
        for b in parts {
            for c in parts {
                for glue in ["", "/"] {
                    let path = format!("{}{}{}{}{}", a, glue, b, glue, c);
                    let expected = std::path::Path::new(&path).file_name().and_then(|n| n.to_str())
                        == Some("surfpool");
                    assert_eq!(
                        has_file_name(&path.as_bytes().to_vec(), "surfpool", false),
                        expected,
                        "{:?}",
                        path
                    );
                }
            }
        }
    }
}

fn listed(path: &[u8]) -> Result<Listed, String> {
    Ok(Listed { path: path.to_vec(), size: 0, header: 0 })
}

#[test]
fn search_ends_at_the_first_match_or_failure() {
    let entries = vec![listed(b"a"), listed(b"b/surfpool"), Err("bad entry".to_string())];
    assert!(matches!(find_entry(&entries, "surfpool", false), Search::Found(1)));
    let entries = vec![listed(b"a"), Err("bad entry".to_string()), listed(b"surfpool")];
    assert!(matches!(find_entry(&entries, "surfpool", false), Search::Broken(ref e) if e == "bad entry"));
    assert!(matches!(find_entry(&vec![listed(b"a")], "surfpool", false), Search::Missing));
}

#[test]
fn windows_paths_have_to_be_unicode() {
    let entries = vec![listed(&[0x61, 0xff]), listed(b"surfpool.exe")];
    match find_entry(&entries, "surfpool.exe", true) {
        Search::Unusable(message) => {
            assert_eq!(message, "only Unicode paths are supported on Windows: a\u{fffd}");
        }
        other => panic!("unexpected: {:?}", other),
    }
    assert!(matches!(find_entry(&entries, "surfpool.exe", false), Search::Found(1)));
}

#[test]
fn windows_prefixes_are_no_components() {
    let named = |path: &str| has_file_name(&path.as_bytes().to_vec(), "surfpool.exe", true);
    assert!(named("C:surfpool.exe"));
    assert!(named("c:\\surfpool.exe"));
    assert!(named("C:/bin/surfpool.exe/."));
    assert!(named("\\\\server\\share\\surfpool.exe"));
    assert!(named("//server/share/surfpool.exe"));
    assert!(named("\\\\?\\C:\\surfpool.exe"));
    assert!(named("\\\\?\\UNC\\server\\share\\surfpool.exe"));
    assert!(named("\\\\?\\name\\surfpool.exe\\"));
    assert!(named("\\\\.\\device\\surfpool.exe"));
    assert!(named("\\\\surfpool.exe"));
    assert!(named("\\surfpool.exe"));
    assert!(!named("\\\\server\\surfpool.exe"));
    assert!(!named("\\\\.\\surfpool.exe"));
    assert!(!named("\\\\?\\surfpool.exe"));
    assert!(!named("\\\\?\\UNC\\server\\surfpool.exe"));
    assert!(!named("\\\\?\\C:\\bin/surfpool.exe"));
    assert!(!named("\\\\?\\C:\\surfpool.exe\\."));
    assert!(!named("C:"));
    assert!(!named("1:surfpool.exe"));
    assert!(!has_file_name(&b"C:surfpool.exe".to_vec(), "surfpool.exe", false));
}

/// The header of an extended sparse file, with a size in binary.
fn sparse_header(size: u64, path: &str) -> Vec<u8> {
    let mut header = tar::Header::new_gnu();
    header.set_entry_type(tar::EntryType::GNUSparse);
    header.set_path(path).unwrap();
    header.set_size(size);
    header.as_gnu_mut().unwrap().set_is_extended(true);
    header.set_cksum();
    header.as_bytes().to_vec()
}

const HUGE: u64 = u64::MAX - 1023;

/// An extended sparse file whose further block takes the position too far, if its header stands at
/// `at`.
fn overflowing(at: u64) -> Vec<u8> {
    let mut bytes = sparse_header(HUGE - at, "big");
    bytes.extend_from_slice(&[0; 512]);
    bytes
}

#[test]
fn overflowing_header_ends_the_search() {
    let bytes = overflowing(0);
    assert_eq!(find_walk_end(&bytes), 512);
    assert_eq!(extract(&gzipped(&bytes), "surfpool", false).unwrap_err(), "failed to read extension");
}

#[test]
fn further_blocks_that_fit_are_read() {
    let mut bytes = sparse_header(HUGE - 1024, "big");
    let mut further = vec![0u8; 512];
    further[504] = 1;
    for _ in 0..4 {
        bytes.extend_from_slice(&further);
    }
    assert_eq!(count_further_blocks(&bytes, 512), 4);
    assert_eq!(find_walk_end(&bytes), 512 + 2 * 512);
    let mut broken = bytes.clone();
    broken[512] = b'x';
    broken[524] = b'x';
    let error = extract(&gzipped(&broken), "surfpool", false).unwrap_err();
    assert!(error.contains("numeric field was not a number"), "{}", error);
    assert_eq!(find_walk_end(&bytes[..512 + 2 * 512]), 512 + 2 * 512);
}

#[test]
fn match_before_an_overflowing_header_is_found() {
    let mut bytes = tarball(&[("surfpool", b"the program")]);
    bytes.truncate(1024);
    let program = bytes.clone();
    bytes.extend_from_slice(&overflowing(1024));
    assert_eq!(find_walk_end(&bytes), 1024 + 512);
    assert_eq!(extract(&gzipped(&bytes), "surfpool", false).unwrap(), b"the program".to_vec());
    assert_eq!(extract(&gzipped(&bytes), "none", false).unwrap_err(), "failed to read extension");
    let mut refused = program;
    refused.extend_from_slice(&overflowing(0));
    assert_eq!(find_walk_end(&refused), refused.len());
    assert_eq!(extract(&gzipped(&refused), "none", false).unwrap_err(), "size overflow");
}

#[test]
fn contents_that_look_like_a_header_are_passed_over() {
    let fixture = archive(&[("fixture.bin", &overflowing(512)), ("surfpool", b"the program")]);
    assert_eq!(extract(&fixture, "surfpool", false).unwrap(), b"the program".to_vec());
    let without = archive(&[("fixture.bin", &overflowing(512)), ("other", b"no")]);
    assert_eq!(
        extract(&without, "surfpool", false).unwrap_err(),
        "Could not find 'surfpool' binary in archive"
    );
    let mut contents = vec![1; 512];
    contents.extend_from_slice(&overflowing(1024));
    contents.extend_from_slice(&[2; 700]);
    let own = archive(&[("surfpool", &contents)]);
    assert_eq!(extract(&own, "surfpool", false).unwrap(), contents);
}

/// A sparse file in one further block, which holds `contents` after `hole` bytes of nothing.
fn sparse_file(path: &str, hole: u64, contents: &[u8]) -> Vec<u8> {
    let mut header = tar::Header::new_gnu();
    header.set_entry_type(tar::EntryType::GNUSparse);
    header.set_path(path).unwrap();
    header.set_size(contents.len() as u64);
    let gnu = header.as_gnu_mut().unwrap();
    gnu.set_is_extended(true);
    gnu.set_real_size(hole + contents.len() as u64);
    header.set_cksum();
    let mut bytes = header.as_bytes().to_vec();
    let mut further = tar::GnuExtSparseHeader::new();
    further.sparse_mut()[0].set_offset(hole);
    further.sparse_mut()[0].set_length(contents.len() as u64);
    bytes.extend_from_slice(further.as_bytes());
    bytes.extend_from_slice(contents);
    let padding = (512 - contents.len() % 512) % 512;
    bytes.resize(bytes.len() + padding, 0);
    bytes
}

#[test]
fn small_sparse_files_are_read_whatever_stands_before_them() {
    let mut bytes = tarball(&[("notes.txt", b"31 size=18446744073709550592\n")]);
    bytes.truncate(1024);
    bytes.extend_from_slice(&sparse_file("surfpool", 3, b"abc"));
    assert_eq!(find_walk_end(&bytes), bytes.len());
    assert_eq!(extract(&gzipped(&bytes), "surfpool", false).unwrap(), b"\0\0\0abc".to_vec());
    let mut later = sparse_file("other", 3, b"abc");
    later.extend_from_slice(&tarball(&[("surfpool", b"the program")]));
    assert_eq!(extract(&gzipped(&later), "surfpool", false).unwrap(), b"the program".to_vec());
}

#[test]
fn sparse_contents_that_look_like_a_header_are_passed_over() {
    let mut bytes = sparse_file("other", 0, &overflowing(1024));
    bytes.extend_from_slice(&tarball(&[("surfpool", b"the program")]));
    assert_eq!(find_walk_end(&bytes), bytes.len());
    assert_eq!(extract(&gzipped(&bytes), "surfpool", false).unwrap(), b"the program".to_vec());
}

/// A pax header with one record, for the header after it.
fn pax(key: &str, value: &str) -> Vec<u8> {
    let rest = format!(" {}={}\n", key, value);
    let mut total = rest.len();
    while total != rest.len() + total.to_string().len() {
        total = rest.len() + total.to_string().len();
    }
    let record = format!("{}{}", total, rest);
    let mut header = tar::Header::new_ustar();
    header.set_entry_type(tar::EntryType::XHeader);
    header.set_path("pax").unwrap();
    header.set_size(record.len() as u64);
    header.set_cksum();
    let mut bytes = header.as_bytes().to_vec();
    bytes.extend_from_slice(record.as_bytes());
    bytes.resize(1024, 0);
    bytes
}

#[test]
fn size_of_a_pax_record_counts() {
    let mut bytes = pax("size", &(HUGE - 1024).to_string());
    bytes.extend_from_slice(&sparse_header(0, "big"));
    bytes.extend_from_slice(&[0; 512]);
    assert_eq!(find_walk_end(&bytes), 1024 + 512);
    assert!(extract(&gzipped(&bytes), "big", false).is_err());
    let mut replaced = pax("size", "0");
    replaced.extend_from_slice(&overflowing(1024));
    assert_eq!(find_walk_end(&replaced), replaced.len());
    let mut named = pax("path", "surfpool");
    named.extend_from_slice(&sparse_file("other", 0, b"abc"));
    assert_eq!(extract(&gzipped(&named), "surfpool", false).unwrap(), b"abc".to_vec());
}

#[test]
fn ordinary_archives_are_walked_to_their_end() {
    let bytes = tarball(&[("surfpool", b"the program"), ("b", &[7; 3000])]);
    assert_eq!(find_walk_end(&bytes), bytes.len());
    let small = sparse_header(4096, "sparse");
    assert_eq!(find_walk_end(&small), 512);
    let over = sparse_header(u64::MAX, "sparse");
    assert_eq!(find_walk_end(&over), 512);
    assert_eq!(find_walk_end(&[]), 0);
}

#[test]
fn sizes_are_found_by_the_place_of_the_header() {
    let entry = |size: u64, header: u64| -> Result<Listed, String> {
        Ok(Listed { path: vec![], size, header })
    };
    let entries = vec![entry(5, 0), Err("bad".to_string()), entry(6, 1024)];
    assert_eq!(find_size_at(&entries, 1024), Some(6));
    assert_eq!(find_size_at(&entries, 512), None);
}

#[test]
fn sentinel_follows_whole_blocks() {
    assert_eq!(add_sentinel(&[]), vec![0]);
    assert_eq!(add_sentinel(&[7; 511]), vec![0]);
    let mut expected = vec![7; 1024];
    expected.push(0);
    assert_eq!(add_sentinel(&[7; 1030]), expected);
}

#[test]
fn fault_explains_what_could_not_be_read() {
    let fault = || Some("corrupt".to_string());
    assert_eq!(settle_search(Search::Found(3), fault(), "x"), Ok(3));
    assert_eq!(settle_search(Search::Missing, fault(), "x"), Err("corrupt".to_string()));
    assert_eq!(
        settle_search(Search::Missing, None, "x"),
        Err("Could not find 'x' binary in archive".to_string())
    );
    let broken = || Search::Broken("eof".to_string());
    assert_eq!(settle_search(broken(), fault(), "x"), Err("corrupt".to_string()));
    assert_eq!(settle_search(broken(), None, "x"), Err("eof".to_string()));
    let unusable = Search::Unusable("odd".to_string());
    assert_eq!(settle_search(unusable, fault(), "x"), Err("odd".to_string()));
}

#[test]
fn contents_cut_short_by_a_fault_are_not_taken() {
    let fault = || Some("corrupt".to_string());
    assert_eq!(take_contents(Ok(vec![1, 2]), 3, fault()), Err("corrupt".to_string()));
    assert_eq!(take_contents(Ok(vec![1, 2]), 2, fault()), Ok(vec![1, 2]));
    assert_eq!(take_contents(Ok(vec![1, 2]), 3, None), Ok(vec![1, 2]));
    assert_eq!(take_contents(Err("e".to_string()), 3, fault()), Err("e".to_string()));
}

fn noise(length: u32, seed: u32) -> Vec<u8> {
    (0..length).map(|i| (i.wrapping_mul(2654435761).wrapping_add(seed) >> 13) as u8).collect()
}

#[test]
fn archives_are_decompressed() {
    let bytes = noise(100_000, 1);
    assert_eq!(inflate(&gzipped(&bytes)), (bytes, None));
    assert_eq!(inflate(&gzipped(&[])), (vec![], None));
    let (none, fault) = inflate(b"not gzip at all");
    assert!(none.is_empty());
    assert!(fault.is_some());
}

/// What the decoder hands to a reader that takes as much as it likes at a time.
fn streamed(archive: &[u8], name: &str) -> Result<Vec<u8>, String> {
    let mut archive = tar::Archive::new(flate2::read::GzDecoder::new(archive));
    for entry in archive.entries().map_err(|e| e.to_string())? {
        let mut entry = entry.map_err(|e| e.to_string())?;
        let path = entry.path().map_err(|e| e.to_string())?;
        if path.file_name().and_then(|n| n.to_str()) == Some(name) {
            let mut contents = Vec::new();
            entry.read_to_end(&mut contents).map_err(|e| e.to_string())?;
            return Ok(contents);
        }
    }
    Err(format!("Could not find '{}' binary in archive", name))
}

#[test]
fn damaged_archives_are_read_as_far_as_a_stream_is() {
    let words: Vec<u8> = noise(150_000, 2).iter().map(|b| b"abcdefgh"[(b % 8) as usize]).collect();
    let whole = archive(&[
        ("a", &noise(5_000, 3)),
        ("surfpool", &words),
        ("b", &noise(90_000, 4)),
        ("c", &words),
    ]);
    let mut found = 0;
    for step in 0..60 {
        let at = whole.len() * step / 60;
        let cut = &whole[..at];
        assert_eq!(extract(cut, "surfpool", false), streamed(cut, "surfpool"), "cut at {}", at);
        assert_eq!(extract(cut, "none", false), streamed(cut, "none"), "cut at {}", at);
        let mut damaged = whole.clone();
        for i in at..(at + 24).min(whole.len()) {
            damaged[i] ^= 0x5a;
        }
        let extracted = extract(&damaged, "surfpool", false);
        assert_eq!(extracted, streamed(&damaged, "surfpool"), "damaged at {}", at);
        assert_eq!(extract(&damaged, "none", false), streamed(&damaged, "none"), "at {}", at);
        found += extracted.is_ok() as usize;
    }
    assert!(found > 10, "{}", found);
}

#[test]
fn fault_behind_the_last_block_does_not_hide_what_it_says() {
    let faulty = |bytes: &[u8]| {
        let mut archive = gzipped(bytes);
        let crc = archive.len() - 8;
        archive[crc] ^= 1;
        archive
    };
    let mut wrong = tarball(&[("a", b"x")]);
    wrong.truncate(512);
    wrong[0] = b'z';
    let zero = [0u8; 512];
    let part = [0u8; 100];
    let entry = tarball(&[("a", b"x")]);
    for bytes in [&wrong[..], &zero[..], &part[..], &entry[..512], &entry[..700], &entry[..1024]] {
        let archive = faulty(bytes);
        assert_eq!(extract(&archive, "none", false), streamed(&archive, "none"));
        assert_eq!(extract(&archive, "a", false), streamed(&archive, "a"));
    }
    let error = extract(&faulty(&wrong), "none", false).unwrap_err();
    assert_eq!(error, "archive header checksum mismatch");
    let error = extract(&faulty(&zero), "none", false).unwrap_err();
    assert_eq!(error, "Could not find 'none' binary in archive");
}

#[test]
fn releases_are_described_at_their_tag() {
    assert_eq!(
        release_url(&None),
        "https://api.github.com/repos/solana-foundation/surfpool/releases/latest"
    );
    assert_eq!(
        release_url(&Some("1.2.3".to_string())),
        "https://api.github.com/repos/solana-foundation/surfpool/releases/tags/v1.2.3"
    );
}

#[test]
fn platforms_have_archives() {
    assert_eq!(get_asset_name("macos", "aarch64").unwrap(), "surfpool-darwin-arm64.tar.gz");
    assert_eq!(get_asset_name("macos", "x86_64").unwrap(), "surfpool-darwin-x64.tar.gz");
    assert_eq!(get_asset_name("linux", "x86_64").unwrap(), "surfpool-linux-x64.tar.gz");
    assert_eq!(get_asset_name("windows", "x86_64").unwrap(), "surfpool-windows-x64.tar.gz");
    assert_eq!(
        get_asset_name("linux", "aarch64").unwrap_err(),
        "Unsupported platform: linux-aarch64"
    );
    assert_eq!(get_binary_name("windows"), "surfpool.exe");
    assert_eq!(get_binary_name("linux"), "surfpool");
}

#[test]
fn first_asset_with_the_name_counts() {
    let assets: Vec<Asset> = [("a", "1"), ("b", "2"), ("b", "3")]
        .iter()
        .map(|(name, url)| Asset {
            name: name.to_string(),
            browser_download_url: url.to_string(),
        })
        .collect();
    assert_eq!(find_asset_url(&assets, "b"), Some("2".to_string()));
    assert_eq!(find_asset_url(&assets, "c"), None);
}

fn decided(explicit: bool, version: &str, tag: &str) -> Decision {
    decide(explicit, &running(version, "linux", "x86_64"), &release(tag)).unwrap()
}

#[test]
fn newer_release_is_installed() {
    match decided(false, "1.0.0", "v1.2.0") {
        Decision::Proceed(plan) => {
            assert_eq!(plan.from, "1.0.0");
            assert_eq!(plan.to, "1.2.0");
            assert_eq!(plan.url, "https://example.org/surfpool-linux-x64.tar.gz");
        }
        other => panic!("unexpected: {:?}", other),
    }
    assert!(matches!(decided(false, "1.0.0-rc.1", "v1.0.0"), Decision::Proceed(_)));
    assert!(matches!(decided(false, "1.9.0", "v1.10.0"), Decision::Proceed(_)));
}

#[test]
fn older_release_is_installed_on_request_only() {
    assert!(matches!(decided(false, "2.0.0", "v1.2.0"), Decision::UpToDate(ref v) if v == "2.0.0"));
    assert!(matches!(decided(true, "2.0.0", "v1.2.0"), Decision::Proceed(_)));
}

#[test]
fn same_release_is_never_installed() {
    assert!(matches!(decided(false, "1.2.0", "v1.2.0"), Decision::UpToDate(ref v) if v == "1.2.0"));
    assert!(matches!(decided(true, "1.2.0", "vv1.2.0"), Decision::UpToDate(_)));
}

#[test]
fn problems_are_reported_in_order() {
    let bare = LatestRelease { tag_name: "latest".to_string(), assets: vec![] };
    let error = decide(false, &running("x", "plan9", "mips"), &bare).unwrap_err();
    assert!(error.starts_with("Failed to parse current version: "), "{}", error);
    let error = decide(false, &running("1.0.0", "plan9", "mips"), &bare).unwrap_err();
    assert!(error.starts_with("Failed to parse target version: "), "{}", error);
    assert_eq!(
        error,
        format!(
            "Failed to parse target version: {}",
            semver::Version::parse("latest").unwrap_err()
        )
    );
    let bare = LatestRelease { tag_name: "v1.0.0".to_string(), assets: vec![] };
    let error = decide(false, &running("1.0.0", "plan9", "mips"), &bare).unwrap_err();
    assert_eq!(error, "Unsupported platform: plan9-mips");
    let error = decide(false, &running("1.0.0", "linux", "x86_64"), &bare).unwrap_err();
    assert_eq!(
        error,
        "No asset name found matching the user's platform: surfpool-linux-x64.tar.gz"
    );
}

#[test]
fn decision_follows_the_comparison() {
    let here = running("1.0.0", "linux", "x86_64");
    let there = release("v9.9.9");
    let ok = || -> Result<String, String> { Ok("1.0.0".to_string()) };
    let same = decide_for(ok(), ok(), Precedence::Same, true, &here, &there).unwrap();
    assert!(matches!(same, Decision::UpToDate(_)));
    let higher = decide_for(ok(), ok(), Precedence::Higher, true, &here, &there).unwrap();
    assert!(matches!(higher, Decision::Proceed(_)));
    let lower = decide_for(ok(), ok(), Precedence::Lower, false, &here, &there).unwrap();
    assert!(matches!(lower, Decision::Proceed(_)));
    let bad = decide_for(Err("e".to_string()), ok(), Precedence::Lower, false, &here, &there);
    assert_eq!(bad.unwrap_err(), "Failed to parse current version: e");
}

#[test]
fn update_runs_from_fetch_to_install() {
    let (update, action) =
        Update::begin(command(None, false), running("1.0.0", "linux", "x86_64"));
    match action {
        UpdateAction::FetchRelease { url } => assert!(url.ends_with("/releases/latest")),
        other => panic!("unexpected: {:?}", other),
    }
    let (update, action) = update.step(UpdateEvent::Fetched(Ok(release("v1.1.0"))));
    match action {
        UpdateAction::Confirm { prompt } => {
            assert_eq!(prompt, "Update surfpool from 1.0.0 to 1.1.0");
        }
        other => panic!("unexpected: {:?}", other),
    }
    let (update, action) = update.step(UpdateEvent::Answered(Ok(true)));
    match action {
        UpdateAction::Download { url } => {
            assert_eq!(url, "https://example.org/surfpool-linux-x64.tar.gz");
        }
        other => panic!("unexpected: {:?}", other),
    }
    let bytes = archive(&[("surfpool-1.1.0/surfpool", b"new")]);
    let (update, action) = update.step(UpdateEvent::Downloaded(Ok(bytes)));
    match action {
        UpdateAction::Install { binary } => assert_eq!(binary, b"new".to_vec()),
        other => panic!("unexpected: {:?}", other),
    }
    let (_, action) = update.step(UpdateEvent::Installed(Ok(())));
    assert_eq!(finished(action).unwrap(), "Surfpool updated from 1.0.0 to 1.1.0");
}

#[test]
fn question_can_be_skipped_or_denied() {
    let here = || running("1.0.0", "windows", "x86_64");
    let (update, _) = Update::begin(command(Some("1.1.0"), true), here());
    let (update, action) = update.step(UpdateEvent::Fetched(Ok(release("v1.1.0"))));
    assert!(matches!(action, UpdateAction::Download { .. }));
    let bytes = archive(&[("surfpool", b"no"), ("surfpool.exe", b"yes")]);
    let (_, action) = update.step(UpdateEvent::Downloaded(Ok(bytes)));
    assert!(matches!(action, UpdateAction::Install { ref binary } if binary == b"yes"));

    let (update, _) = Update::begin(command(None, false), here());
    let (update, _) = update.step(UpdateEvent::Fetched(Ok(release("v1.1.0"))));
    let (_, action) = update.step(UpdateEvent::Answered(Ok(false)));
    assert_eq!(finished(action).unwrap(), "Update cancelled");
}

#[test]
fn latest_version_ends_the_update() {
    let (update, _) = Update::begin(command(None, true), running("1.1.0", "linux", "x86_64"));
    let (_, action) = update.step(UpdateEvent::Fetched(Ok(release("v1.1.0"))));
    assert_eq!(finished(action).unwrap(), "Already on the latest version 1.1.0");
}

#[test]
fn failures_end_the_update() {
    let begin = || Update::begin(command(None, false), running("1.0.0", "linux", "x86_64")).0;
    let (_, action) = begin().step(UpdateEvent::Fetched(Err("offline".to_string())));
    assert_eq!(finished(action).unwrap_err(), "offline");
    let fetched = || begin().step(UpdateEvent::Fetched(Ok(release("v2.0.0")))).0;
    let (_, action) = fetched().step(UpdateEvent::Answered(Err("no terminal".to_string())));
    assert_eq!(finished(action).unwrap_err(), "Failed to read confirmation: no terminal");
    let asked = || fetched().step(UpdateEvent::Answered(Ok(true))).0;
    let (_, action) = asked().step(UpdateEvent::Downloaded(Err("reset".to_string())));
    assert_eq!(finished(action).unwrap_err(), "reset");
    let (_, action) = asked().step(UpdateEvent::Downloaded(Ok(archive(&[("x", b"y")]))));
    assert_eq!(finished(action).unwrap_err(), "Could not find 'surfpool' binary in archive");
    let bytes = archive(&[("surfpool", b"new")]);
    let loaded = asked().step(UpdateEvent::Downloaded(Ok(bytes))).0;
    let (_, action) = loaded.step(UpdateEvent::Installed(Err("read-only".to_string())));
    assert_eq!(finished(action).unwrap_err(), "read-only");
}
