use anilink_downloader::classic;
use anilink_downloader::items::{Episode, LinkInfo, Subtitle};
use anilink_downloader::naming::{
    display_name, episode_file_name, finish_name, get_output_file, output_file_name,
    windows_file_name,
};
use anilink_downloader::playlist::{
    get_file_extension, guess_extension, parse_entries, parse_m3u, parse_m3u_file,
    sanitize_filename, sanitize_path, split_title,
};
use anilink_downloader::text::chars_of;

fn lines(v: &[&str]) -> Vec<String> {
    v.iter().map(|s| s.to_string()).collect()
}

#[test]
fn a_playlist_with_referer_and_subtitles() {
    let playlist = lines(&[
        "#EXTM3U",
        "#EXTVLCOPT:http-referrer=http://ref/",
        "#EXT-X-MEDIA:TYPE=SUBTITLES,GROUP-ID=\"subs\",NAME=\"English\",DEFAULT=YES,URI=\"http://s/en.vtt\"",
        "#EXT-X-MEDIA:TYPE=SUBTITLES,URI=\"http://s/xx.vtt\"",
        "#EXT-X-MEDIA:TYPE=SUBTITLES,NAME=\"NoUri\"",
        "#EXTINF:-1,Show - 01 [1080p].mp4",
        "http://host/01.m3u8",
        "#EXTINF:-1,Show - 02.mp4,extra",
        "http://host/02.mp4",
        "#EXTINF:-1",
        "http://host/03.mp4",
        "#EXTINF:-1,Dropped",
        "#EXTINF:-1,Last",
    ]);
    let links = parse_m3u(&playlist);
    assert_eq!(
        links,
        vec![
            LinkInfo {
                id: 0,
                name: "Show - 01".to_string(),
                url: "http://host/01.m3u8".to_string(),
                referer: Some("http://ref/".to_string()),
                subtitles: vec![
                    Subtitle {
                        name: "English".to_string(),
                        url: "http://s/en.vtt".to_string(),
                        default: true
                    },
                    Subtitle {
                        name: "Subtitle".to_string(),
                        url: "http://s/xx.vtt".to_string(),
                        default: false
                    },
                ],
                quality: Some("[1080p]".to_string()),
            },
            LinkInfo {
                id: 1,
                name: "Show - 02".to_string(),
                url: "http://host/02.mp4".to_string(),
                referer: Some("http://ref/".to_string()),
                subtitles: vec![],
                quality: None,
            },
            LinkInfo {
                id: 2,
                name: "Episode 3".to_string(),
                url: "http://host/03.mp4".to_string(),
                referer: Some("http://ref/".to_string()),
                subtitles: vec![],
                quality: None,
            },
        ]
    );
    assert!(parse_m3u(&vec![]).is_empty());
}

#[test]
fn attribute_values_need_a_closing_quote() {
    let playlist = lines(&[
        "#EXT-X-MEDIA:TYPE=SUBTITLES,NAME=\"\",NAME=\"Second\",URI=\"u1\"",
        "#EXT-X-MEDIA:TYPE=SUBTITLES,NAME=\"Open,URI=\"u2\"",
        "#EXT-X-MEDIA:TYPE=SUBTITLES,URI=\"unclosed",
        "#EXTINF:0,a",
        "u",
    ]);
    let links = parse_m3u(&playlist);
    assert_eq!(links.len(), 1);
    assert_eq!(
        links[0].subtitles,
        vec![
            Subtitle { name: "Second".to_string(), url: "u1".to_string(), default: false },
            Subtitle { name: "Open,URI=".to_string(), url: "u2".to_string(), default: false },
        ]
    );
}

#[test]
fn titles_and_quality_tags() {
    let t = |s: &str| split_title(&chars_of(s));
    assert_eq!(t("Name [720p]"), ("Name".to_string(), Some("[720p]".to_string())));
    assert_eq!(t("Name [a] x [b] tail"), ("Name [a] x".to_string(), Some("[b]".to_string())));
    assert_eq!(t("Name ]720p["), ("Name ]720p[".to_string(), None));
    assert_eq!(t("Name.mp4"), ("Name".to_string(), None));
    assert_eq!(t("Name.m3u8"), ("Name".to_string(), None));
    assert_eq!(t("Name.mp4.m3u8"), ("Name.mp4".to_string(), None));
    assert_eq!(t("[x]"), ("".to_string(), Some("[x]".to_string())));
    assert_eq!(t(""), ("".to_string(), None));
}

#[test]
fn the_simple_reader() {
    let playlist = lines(&[
        "#EXTM3U",
        "#EXTINF:-1, First ,x",
        "",
        "  http://a/1.mp4  ",
        "http://a/orphan.mp4",
        "#EXTINF:-1",
        "#EXTINF:-1,Second",
        "# comment",
        "http://a/2.mp4",
    ]);
    assert_eq!(
        parse_m3u_file(&playlist),
        vec![
            Episode { name: "First".to_string(), url: "http://a/1.mp4".to_string() },
            Episode { name: "Second".to_string(), url: "http://a/2.mp4".to_string() },
        ]
    );
}

#[test]
fn extensions() {
    assert_eq!(get_file_extension("http://a/b/c.m3u8?x=1"), ".mp4");
    assert_eq!(get_file_extension("http://a/b/c.webm"), "webm");
    assert_eq!(get_file_extension("http://a/b/c"), "mp4");
    assert_eq!(get_file_extension("http://a.b/c"), "mp4");
    assert_eq!(get_file_extension("http://a/.hidden"), "mp4");
    assert_eq!(get_file_extension("http://a/name."), "mp4");
    assert_eq!(get_file_extension("a.tar.gz"), "gz");
    assert_eq!(get_file_extension(""), "mp4");
    assert_eq!(classic::get_file_extension("http://a/b/c.webm"), ".webm");
    assert_eq!(classic::get_file_extension("http://a/b/c.m3u8"), ".mp4");
    assert_eq!(classic::get_file_extension("http://a/b/c"), ".mp4");
    assert_eq!(guess_extension("http://a/b/c.mkv?token=1"), ".mkv");
    assert_eq!(guess_extension("http://a/b/c.m3u8"), ".m3u8");
    assert_eq!(guess_extension("http://a/b/c"), ".mp4");
    assert_eq!(get_file_extension("http://a/video.mkv/"), "mkv");
    assert_eq!(get_file_extension("http://a/video.mkv///"), "mkv");
    assert_eq!(get_file_extension("http://a/.."), "mp4");
    assert_eq!(get_file_extension("///"), "mp4");
    assert_eq!(guess_extension("http://a/video.mkv/"), ".mkv");
    assert_eq!(guess_extension("http://a/name."), ".");
    assert_eq!(guess_extension("http://a/.."), ".mp4");
    assert_eq!(classic::get_file_extension("http://a/video.avi/"), ".avi");
    assert_eq!(classic::get_file_extension("http://a/name."), ".");
}

#[test]
fn made_up_names() {
    let e = |name: &str, url: &str| Episode { name: name.to_string(), url: url.to_string() };
    let playlist = lines(&["https:///", "x://..", "a://b/c.d.e/"]);
    assert_eq!(
        parse_entries(&playlist),
        vec![e("https:", "https:///"), e("Track_2", "x://.."), e("c.d", "a://b/c.d.e/")]
    );
}

#[test]
fn quotes_around_a_path() {
    assert_eq!(sanitize_path("\"C:\\a b\\c.m3u\""), "C:\\a b\\c.m3u");
    assert_eq!(sanitize_path("'\"x\"'"), "x");
    assert_eq!(sanitize_path("a'b"), "a'b");
    assert_eq!(sanitize_path("\"\"\""), "");
    assert_eq!(sanitize_path(""), "");
}

#[test]
fn reserved_characters_are_replaced() {
    assert_eq!(sanitize_filename("a\\b/c:d*e?f\"g<h>i|j"), "a_b_c_d_e_f_g_h_i_j");
    assert_eq!(sanitize_filename("plain name.mp4"), "plain name.mp4");
    assert_eq!(classic::sanitize_filename("a\\b/c:d*e?f\"g<h>i|j"), "a_b_c_d_e_f_g_h_i_j");
    assert_eq!(classic::sanitize_filename("é|ü"), "é_ü");
    assert_eq!(episode_file_name("a/b", "http://h/x.mkv"), "a_b.mkv");
    assert_eq!(episode_file_name("a", "http://h/x.m3u8"), "a.mp4");
}

#[test]
fn names_for_windows() {
    assert_eq!(windows_file_name("a<b>c:d\"e/f|g?h*i"), "a_b_c_d_e_f_g_h_i");
    assert_eq!(windows_file_name("back\\slash"), "back\\slash");
    assert_eq!(windows_file_name("  .name. .  "), "name");
    assert_eq!(windows_file_name("a\u{7}b\u{9f}c\tz"), "abcz");
    assert_eq!(windows_file_name("con"), "_con");
    assert_eq!(windows_file_name("LPT9"), "_LPT9");
    assert_eq!(windows_file_name("COM0"), "COM0");
    assert_eq!(windows_file_name(" nul. "), "_nul");
    assert_eq!(windows_file_name("console"), "console");
    assert_eq!(windows_file_name(""), "_");
    assert_eq!(windows_file_name(" .. "), "_");
    assert_eq!(finish_name(" x ", Some(true)), "_x");
    assert_eq!(finish_name(" x ", Some(false)), "x");
    assert_eq!(finish_name(" x ", None), "x");
    assert_eq!(finish_name("..", None), "_");
}

fn link(id: usize, name: &str, quality: Option<&str>) -> LinkInfo {
    LinkInfo {
        id,
        name: name.to_string(),
        url: "u".to_string(),
        referer: None,
        subtitles: vec![],
        quality: quality.map(|q| q.to_string()),
    }
}

#[test]
fn output_files() {
    let all = vec![
        link(0, "Show", Some("[1080p]")),
        link(1, "Show", Some("[720p]")),
        link(2, "Other", Some("[720p]")),
        link(3, "Show", None),
        link(4, "What?", None),
    ];
    assert_eq!(display_name(&all[0], &all), "Show");
    assert_eq!(display_name(&all[1], &all), "Show [720p]");
    assert_eq!(display_name(&all[2], &all), "Other");
    assert_eq!(display_name(&all[3], &all), "Show");
    assert_eq!(get_output_file(&all[1], &all), "Show [720p].mkv");
    assert_eq!(get_output_file(&all[4], &all), "What.mkv");
    let stranger = link(9, "Show", Some("[480p]"));
    assert_eq!(display_name(&stranger, &all), "Show");
    assert_eq!(output_file_name("x"), "x.mkv");
    assert_eq!(output_file_name(""), ".mkv");
}

#[test]
fn the_lenient_reader() {
    let playlist = lines(&[
        "  #EXTM3U",
        "#EXTINF:-1 tvg-id=\"a,b\", First one ",
        "   https://h/v/one.mp4  ",
        "https://h/v/two.final.mkv",
        "https://h/v/",
        "not an address",
        "#EXTINF:-1",
        "https://h/three",
        "#EXTINF:0,Lost",
        "relative/path.mp4",
        "https://h/.hidden",
    ]);
    let e = |name: &str, url: &str| Episode { name: name.to_string(), url: url.to_string() };
    assert_eq!(
        parse_entries(&playlist),
        vec![
            e("First one", "https://h/v/one.mp4"),
            e("two.final", "https://h/v/two.final.mkv"),
            e("v", "https://h/v/"),
            e("#EXTINF:-1", "https://h/three"),
            e(".hidden", "https://h/.hidden"),
        ]
    );
    assert!(parse_entries(&vec![]).is_empty());
}
