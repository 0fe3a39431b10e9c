use whenthen::device::{DeviceStatus, DiscoveredDevice};
use whenthen::i18n::t_with;
use whenthen::media_info::{extract_title, parse, Codec, MediaSource, Quality};

#[test]
fn test_t_with_interpolation() {
    let template = "Hello, {name}!";
    let result = t_with(template, &[("name", "World")]);
    assert_eq!(result, "Hello, World!");
}

#[test]
fn t_with_fills_arguments_in_order() {
    assert_eq!(t_with("{a} and {b} and {a}", &[("a", "{b}"), ("b", "x")]), "x and x and x");
    assert_eq!(t_with("nothing", &[]), "nothing");
}

#[test]
fn test_parse_movie() {
    let info = parse("Movie.2024.1080p.BluRay.x264-GROUP");
    assert_eq!(info.title, "Movie");
    assert_eq!(info.year, Some(2024));
    assert_eq!(info.quality, Some(Quality::Q1080p));
    assert_eq!(info.source, Some(MediaSource::BluRay));
    assert_eq!(info.codec, Some(Codec::X264));
    assert_eq!(info.release_group, Some("GROUP".to_string()));
}

#[test]
fn test_parse_tv() {
    let info = parse("Show.S02E05.720p.WEB-DL");
    assert_eq!(info.title, "Show");
    assert_eq!(info.season, Some(2));
    assert_eq!(info.episode, Some(5));
    assert_eq!(info.quality, Some(Quality::Q720p));
    assert_eq!(info.source, Some(MediaSource::WebDl));
}

#[test]
fn test_parse_4k() {
    let info = parse("Film.Name.2023.2160p.WEBRip.x265-RARBG");
    assert_eq!(info.quality, Some(Quality::Q2160p));
    assert_eq!(info.codec, Some(Codec::X265));
}

#[test]
fn test_parse_proper() {
    let info = parse("Movie.2024.1080p.PROPER.BluRay.x264-GROUP");
    assert!(info.is_proper);
    assert!(!info.is_repack);
}

#[test]
fn test_parse_repack() {
    let info = parse("Show.S01E01.REPACK.720p.HDTV.x264-LOL");
    assert!(!info.is_proper);
    assert!(info.is_repack);
}

#[test]
fn parse_reads_alternate_forms() {
    let info = parse("[TAG] Some.Show.3x07.H.265.4K.BDRip-GRP.mkv");
    assert_eq!(info.title, "Some Show 3x07 H 265 4K BDRip-GRP mkv");
    assert_eq!(info.season, Some(3));
    assert_eq!(info.episode, Some(7));
    assert_eq!(info.codec, Some(Codec::X265));
    assert_eq!(info.quality, Some(Quality::Q2160p));
    assert_eq!(info.source, Some(MediaSource::BluRay));
    assert_eq!(info.release_group, Some("GRP".to_string()));
    assert!(info.is_tv());
    assert_eq!(info.year, None);
    let plain = parse("plain name");
    assert_eq!(plain.title, "plain name");
    assert!(!plain.is_tv());
    assert_eq!(plain.quality, None);
}

#[test]
fn labels_of_media_enums() {
    assert_eq!(Quality::Q2160p.as_str(), "2160p");
    assert_eq!(Quality::Q480p.as_str(), "480p");
    assert_eq!(MediaSource::WebDl.as_str(), "WEB-DL");
    assert_eq!(MediaSource::DvdRip.as_str(), "DVDRip");
    assert_eq!(Codec::Av1.as_str(), "AV1");
    assert_eq!(Codec::X264.as_str(), "x264");
}

#[test]
fn title_stops_at_first_marker() {
    assert_eq!(
        extract_title("A.Long.Name.S02E05.720p", None, Some(Quality::Q720p), None, Some(2)),
        "A Long Name"
    );
    assert_eq!(extract_title("Name 2024", Some(2024), None, None, None), "Name");
    assert_eq!(extract_title("2024 Name", Some(2024), None, None, None), "2024 Name");
}

#[test]
fn discovered_device_becomes_info() {
    let d = DiscoveredDevice {
        id: "id1".to_string(),
        name: "Living room".to_string(),
        model: "Chromecast".to_string(),
        address: "10.0.0.2".to_string(),
        port: 8009,
    };
    let info = d.to_info(DeviceStatus::Connected);
    assert_eq!(info.id, "id1");
    assert_eq!(info.name, "Living room");
    assert_eq!(info.model, "Chromecast");
    assert_eq!(info.address, "10.0.0.2");
    assert_eq!(info.port, 8009);
    assert_eq!(info.status, DeviceStatus::Connected);
}
