use rotation_uploader::config::{Environment, RunConfig};
use rotation_uploader::notify::{
    build_payload, is_comment_line, payload_for_text, split_lines, Embed, Field, Payload,
    EMBED_COLOR,
};
use rotation_uploader::select::Selection;
use rotation_uploader::transfer::{is_delivered, notification_for, UploadEvent};

fn header() -> Field {
    Field { name: "Mapas".to_string(), value: String::new(), inline: false }
}

fn line(text: &str) -> Field {
    Field { name: String::new(), value: text.to_string(), inline: false }
}

fn event(path: &str, content: &[u8]) -> UploadEvent {
    UploadEvent {
        local_path: path.to_string(),
        remote_path: "/remote/rotation.cfg".to_string(),
        content: content.to_vec(),
    }
}

const SAMPLES: [&str; 24] = [
    "",
    "a",
    "a\n",
    "a\nb",
    "a\nb\n",
    "\n",
    "\n\n",
    "\n\na",
    "a\r\nb\r\n",
    "a\r\nb",
    "a\r",
    "a\r\n",
    "\r",
    "\r\n",
    "\r\r\n",
    "a\r\r\nb",
    "a\rb\nc",
    "foo\nbar\n\r\nbaz\r",
    "// comment\nNarva_RAAS_v1\n//other\r\nKohat_AAS_v1\r\n",
    "/ not a comment\n/\n//\n///\n //indented\nx//y",
    "día\nmañana\n// señal\n日本語\n",
    "\u{2028}x\u{2029}y\u{85}z\u{b}w\u{c}v",
    "trailing spaces  \n\ttab\n",
    "last line without end",
];

#[test]
fn lines_are_those_of_the_standard_library() {
    for text in SAMPLES {
        let expected: Vec<String> = text.lines().map(|l| l.to_string()).collect();
        assert_eq!(split_lines(text), expected, "{:?}", text);
    }
}

#[test]
fn lines_exact_values() {
    assert_eq!(split_lines(""), Vec::<String>::new());
    assert_eq!(split_lines("\n"), vec![""]);
    assert_eq!(split_lines("a\n\nb"), vec!["a", "", "b"]);
    assert_eq!(split_lines("a\r\nb\r"), vec!["a", "b\r"]);
    assert_eq!(split_lines("a\r\r\n"), vec!["a\r"]);
    assert_eq!(split_lines("foo\nbar\n\r\nbaz\r"), vec!["foo", "bar", "", "baz\r"]);
}

#[test]
fn comment_lines_begin_with_two_slashes() {
    for text in ["//", "// x", "//x", "///", "//\r", "//é"] {
        assert!(is_comment_line(text), "{:?}", text);
    }
    for text in ["", "/", "/x", "/ /", " //", "x//", "\t//", "é//", "\\\\"] {
        assert!(!is_comment_line(text), "{:?}", text);
    }
}

#[test]
fn title_colour_and_shape() {
    let payload = payload_for_text("./layers/week1.cfg", "Narva\n");
    assert_eq!(payload.embeds.len(), 1);
    assert_eq!(payload.embeds[0].title, "Rotación: ./layers/week1.cfg");
    assert_eq!(payload.embeds[0].color, 5986018);
    assert_eq!(EMBED_COLOR, 5986018);
    assert_eq!(payload.embeds[0].fields, vec![header(), line("Narva")]);
}

#[test]
fn empty_file_has_the_header_alone() {
    let payload = payload_for_text("x", "");
    assert_eq!(
        payload,
        Payload {
            embeds: vec![Embed {
                title: "Rotación: x".to_string(),
                color: 5986018,
                fields: vec![header()],
            }],
        }
    );
}

#[test]
fn comments_are_left_out_and_the_order_is_kept() {
    let text = "// rotation of the week\nNarva_RAAS_v1\n//Gorodok_AAS_v2\nKohat_AAS_v1\r\n\n\
                // end\nYehorivka_RAAS_v3";
    let payload = payload_for_text("layers/a.cfg", text);
    assert_eq!(
        payload.embeds[0].fields,
        vec![
            header(),
            line("Narva_RAAS_v1"),
            line("Kohat_AAS_v1"),
            line(""),
            line("Yehorivka_RAAS_v3"),
        ]
    );
}

#[test]
fn file_of_comments_has_the_header_alone() {
    let payload = payload_for_text("f", "//a\n//b\r\n//");
    assert_eq!(payload.embeds[0].fields, vec![header()]);
}

#[test]
fn one_field_for_each_line_that_is_no_comment() {
    for text in SAMPLES {
        let kept: Vec<&str> = text.lines().filter(|l| !l.starts_with("//")).collect();
        let payload = payload_for_text("f", text);
        let fields = &payload.embeds[0].fields;
        assert_eq!(fields.len(), 1 + kept.len(), "{:?}", text);
        assert_eq!(fields[0], header());
        for (k, l) in kept.iter().enumerate() {
            assert_eq!(fields[k + 1], line(l), "{:?}", text);
        }
    }
}

#[test]
fn content_is_decoded_as_utf8() {
    let payload = build_payload("f", "día uno\n// no\nmañana\n".as_bytes());
    assert_eq!(payload.embeds[0].fields, vec![header(), line("día uno"), line("mañana")]);
    assert_eq!(payload, payload_for_text("f", "día uno\n// no\nmañana\n"));
}

#[test]
fn malformed_content_is_replaced_not_refused() {
    let payload = build_payload("f", &[0x61, 0xff, 0x62, 0x0a, 0xc3, 0x0a, 0x2f, 0x2f, 0x80]);
    assert_eq!(payload.embeds[0].fields, vec![header(), line("a\u{fffd}b"), line("\u{fffd}")]);
    let payload = build_payload("f", &[0xe2, 0x82]);
    assert_eq!(payload.embeds[0].fields, vec![header(), line("\u{fffd}")]);
}

#[test]
fn content_reads_as_the_standard_library_decodes_it() {
    let inputs: [&[u8]; 5] = [
        b"",
        b"plain\nlines\n",
        &[0xf0, 0x9f, 0x98, 0x80, 0x0a],
        &[0xc0, 0xaf],
        &[0xed, 0xa0, 0x80, 0x0d, 0x0a, 0x41],
    ];
    for input in inputs {
        let text = String::from_utf8_lossy(input).into_owned();
        assert_eq!(build_payload("f", input), payload_for_text("f", &text));
    }
}

#[test]
fn no_endpoint_means_no_notification() {
    assert_eq!(notification_for("", &event("layers/a.cfg", b"Narva\n")), None);
    assert_eq!(notification_for("", &event("layers/a.cfg", b"")), None);
}

#[test]
fn endpoint_means_the_payload_of_the_uploaded_file() {
    let e = event("layers/a.cfg", b"//c\nNarva\nKohat\n");
    let payload = notification_for("https://example.org/hook", &e).unwrap();
    assert_eq!(payload, build_payload("layers/a.cfg", b"//c\nNarva\nKohat\n"));
    assert_eq!(payload.embeds[0].title, "Rotación: layers/a.cfg");
    assert_eq!(payload.embeds[0].fields, vec![header(), line("Narva"), line("Kohat")]);
    assert!(notification_for(" ", &e).is_some());
}

#[test]
fn upload_goes_to_the_configured_remote_path() {
    let config = RunConfig::from_environment(Environment {
        host: Some("h".to_string()),
        user: Some("u".to_string()),
        password: Some("p".to_string()),
        remote_path: Some("/remote/rotation.cfg".to_string()),
        local_folder: None,
        run_hour: None,
        webhook_url: None,
    })
    .unwrap();
    for path in ["./layers/a.cfg", "./layers/b.cfg"] {
        let chosen = Selection {
            files: vec![path.to_string(), "./layers/z.cfg".to_string()],
            day_of_year: 2,
            index: 0,
            path: path.to_string(),
        };
        let e = UploadEvent::new(&config, &chosen, vec![1, 2, 3]);
        assert_eq!(e, UploadEvent {
            local_path: path.to_string(),
            remote_path: "/remote/rotation.cfg".to_string(),
            content: vec![1, 2, 3],
        });
    }
}

#[test]
fn only_a_success_status_counts_as_delivered() {
    for status in 0..=u16::MAX {
        assert_eq!(is_delivered(status), (200..300).contains(&status), "{}", status);
    }
    assert!(is_delivered(200));
    assert!(is_delivered(204));
    assert!(is_delivered(299));
    assert!(!is_delivered(199));
    assert!(!is_delivered(300));
    assert!(!is_delivered(404));
    assert!(!is_delivered(500));
}
