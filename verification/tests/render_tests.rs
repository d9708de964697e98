use chasm::models::{ContentPart, Timestamp};
use chasm::render::render_document;

fn ts(year: u32, month: u32, day: u32, hour: u32, minute: u32, second: u32) -> Timestamp {
    Timestamp { year, month, day, hour, minute, second }
}

#[test]
fn timestamp_fixed_iso_form() {
    let t = ts(2024, 1, 2, 3, 4, 5);
    assert_eq!(t.format(), "2024-01-02T03:04:05Z");
}

#[test]
fn timestamp_pads_every_field() {
    let t = ts(987, 12, 31, 23, 59, 59);
    assert_eq!(t.format(), "0987-12-31T23:59:59Z");
}

#[test]
fn render_block_order_is_sequence_order() {
    let blocks = vec![
        ContentPart::Header { text: "A".to_string() },
        ContentPart::Paragraph { text: "B".to_string() },
        ContentPart::Image { filename: "x.png".to_string() },
    ];
    let doc = render_document(&None, &ts(2024, 1, 2, 3, 4, 5), &blocks);
    assert_eq!(
        doc,
        "---\ntitle: \"\"\ndate: 2024-01-02T03:04:05Z\n---\n## A\nB\n![](x.png)\n\n"
    );
    let body = &doc["---\ntitle: \"\"\ndate: 2024-01-02T03:04:05Z\n---\n".len()..doc.len() - 1];
    assert_eq!(body, "## A\nB\n![](x.png)\n");
}

#[test]
fn render_is_deterministic() {
    let blocks = vec![
        ContentPart::Link { title: "t".to_string(), url: "https://example.net".to_string() },
        ContentPart::Paragraph { text: "p".to_string() },
    ];
    let title = Some("My title".to_string());
    let date = ts(2021, 6, 7, 8, 9, 10);
    let first = render_document(&title, &date, &blocks);
    let second = render_document(&title, &date, &blocks);
    assert_eq!(first.as_bytes(), second.as_bytes());
}

#[test]
fn render_empty_blocks_yields_header_only() {
    let blocks: Vec<ContentPart> = vec![];
    let doc = render_document(&Some("Hello".to_string()), &ts(2023, 12, 31, 23, 59, 59), &blocks);
    assert_eq!(doc, "---\ntitle: \"Hello\"\ndate: 2023-12-31T23:59:59Z\n---\n\n");
}

#[test]
fn render_link_block() {
    let blocks = vec![ContentPart::Link {
        title: "home".to_string(),
        url: "https://example.org/a".to_string(),
    }];
    let doc = render_document(&None, &ts(2020, 2, 3, 4, 5, 6), &blocks);
    assert!(doc.ends_with("[home](https://example.org/a)\n\n"));
}
