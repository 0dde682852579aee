use std::path::Path;
use std::time::Duration;
use wuwa_downloader::clock::{format_duration, format_seconds};
use wuwa_downloader::number::{format_decimal, parse_u64};
use wuwa_downloader::path::{get_filename, mirror_url, normalize_path};

fn std_name(path: &str) -> String {
    Path::new(path)
        .file_name()
        .and_then(|n| n.to_str())
        .unwrap_or(path)
        .to_string()
}

#[test]
fn filename_is_last_component() {
    assert_eq!(get_filename("Client/Content/Paks/pakchunk0.pak"), "pakchunk0.pak");
    assert_eq!(get_filename("a.bin"), "a.bin");
    assert_eq!(get_filename("/abs/b.bin"), "b.bin");
}

#[test]
fn filename_ignores_trailing_separators_and_dots() {
    assert_eq!(get_filename("dir/"), "dir");
    assert_eq!(get_filename("dir//"), "dir");
    assert_eq!(get_filename("dir/."), "dir");
    assert_eq!(get_filename("dir/.//"), "dir");
    assert_eq!(get_filename("a/./b"), "b");
}

#[test]
fn filename_falls_back_to_whole_path() {
    assert_eq!(get_filename(""), "");
    assert_eq!(get_filename("/"), "/");
    assert_eq!(get_filename("."), ".");
    assert_eq!(get_filename("./"), "./");
    assert_eq!(get_filename(".."), "..");
    assert_eq!(get_filename("a/.."), "a/..");
    assert_eq!(get_filename("a/../"), "a/../");
    assert_eq!(get_filename("/."), "/.");
}

#[test]
fn filename_keeps_dotted_names() {
    assert_eq!(get_filename("a/.hidden"), ".hidden");
    assert_eq!(get_filename("a/b."), "b.");
    assert_eq!(get_filename("a/..."), "...");
    assert_eq!(get_filename("a/..b"), "..b");
    assert_eq!(get_filename("a/b.."), "b..");
}

#[test]
fn filename_handles_non_ascii() {
    assert_eq!(get_filename("données/fichier→1.bin"), "fichier→1.bin");
    assert_eq!(get_filename("数据/"), "数据");
}

#[test]
fn filename_agrees_with_std_on_unix_paths() {
    let pieces = ["", "/", ".", "..", "a", "b.c", "//", "./", "../", "...", ".a", "é"];
    for p in pieces {
        for q in pieces {
            for r in pieces {
                let path = format!("{}{}{}", p, q, r);
                assert_eq!(get_filename(&path), std_name(&path), "path {:?}", path);
            }
        }
    }
}

#[test]
fn normalize_replaces_backslashes() {
    assert_eq!(normalize_path("Client\\Content\\a.pak"), "Client/Content/a.pak");
    assert_eq!(normalize_path("already/fine"), "already/fine");
    assert_eq!(normalize_path(""), "");
    assert_eq!(normalize_path("\\"), "/");
    assert_eq!(normalize_path("mixé\\x/y"), "mixé/x/y");
}

#[test]
fn mirror_url_is_plain_concatenation() {
    assert_eq!(mirror_url("https://m1/base/", "a/b.bin"), "https://m1/base/a/b.bin");
    assert_eq!(mirror_url("https://m1", "a.bin"), "https://m1a.bin");
    assert_eq!(mirror_url("", ""), "");
}

#[test]
fn parse_u64_accepts_plain_numbers() {
    assert_eq!(parse_u64("0"), Some(0));
    assert_eq!(parse_u64("100"), Some(100));
    assert_eq!(parse_u64("007"), Some(7));
    assert_eq!(parse_u64("+42"), Some(42));
    assert_eq!(parse_u64("18446744073709551615"), Some(u64::MAX));
}

#[test]
fn parse_u64_rejects_everything_else() {
    assert_eq!(parse_u64(""), None);
    assert_eq!(parse_u64("+"), None);
    assert_eq!(parse_u64("-1"), None);
    assert_eq!(parse_u64("++1"), None);
    assert_eq!(parse_u64(" 1"), None);
    assert_eq!(parse_u64("1 "), None);
    assert_eq!(parse_u64("12a"), None);
    assert_eq!(parse_u64("1.5"), None);
    assert_eq!(parse_u64("٣"), None);
    assert_eq!(parse_u64("18446744073709551616"), None);
    assert_eq!(parse_u64("99999999999999999999999"), None);
    assert_eq!(parse_u64("184467440737095516150"), None);
}

#[test]
fn parse_u64_agrees_with_std() {
    let samples = [
        "", "+", "-", "0", "+0", "-0", "1", "10", "0010", "+10", "1+", "1_000", "0x10", "١٢٣",
        "18446744073709551614", "18446744073709551615", "18446744073709551616",
        "28446744073709551615", "18446744073709551615x", "184467440737095516160x",
    ];
    for s in samples {
        assert_eq!(parse_u64(s), s.parse::<u64>().ok(), "text {:?}", s);
    }
}

#[test]
fn format_decimal_writes_shortest_text() {
    assert_eq!(format_decimal(0), "0");
    assert_eq!(format_decimal(9), "9");
    assert_eq!(format_decimal(10), "10");
    assert_eq!(format_decimal(1234567890), "1234567890");
    assert_eq!(format_decimal(u64::MAX), "18446744073709551615");
}

#[test]
fn format_then_parse_round_trips() {
    for n in [0u64, 1, 9, 10, 99, 100, 65536, 4294967295, u64::MAX - 1, u64::MAX] {
        assert_eq!(parse_u64(&format_decimal(n)), Some(n));
    }
}

#[test]
fn format_seconds_pads_each_field() {
    assert_eq!(format_seconds(0), "00:00:00");
    assert_eq!(format_seconds(59), "00:00:59");
    assert_eq!(format_seconds(60), "00:01:00");
    assert_eq!(format_seconds(3599), "00:59:59");
    assert_eq!(format_seconds(3600), "01:00:00");
    assert_eq!(format_seconds(3661), "01:01:01");
    assert_eq!(format_seconds(86399), "23:59:59");
}

#[test]
fn format_seconds_lets_hours_grow() {
    assert_eq!(format_seconds(360000), "100:00:00");
    assert_eq!(format_seconds(u64::MAX), "5124095576030431:00:15");
}

#[test]
fn format_duration_drops_the_fraction() {
    assert_eq!(format_duration(Duration::from_millis(1999)), "00:00:01");
    assert_eq!(format_duration(Duration::from_secs(3725)), "01:02:05");
    assert_eq!(format_duration(Duration::new(59, 999_999_999)), "00:00:59");
}
