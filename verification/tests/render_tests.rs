use ytmdctrl::render::RenderedBody;
use ytmdctrl::render::render_json_or_raw;
use ytmdctrl::render::render_playlists;
use ytmdctrl::render::render_queue;
use ytmdctrl::render::u64_to_decimal;
use ytmdctrl::render::unexpected_response_notice;
use ytmdctrl::render::volume_line;
use ytmdctrl::state::QueueItemState;
use ytmdctrl::state::QueueState;
use ytmdctrl::state::RepeatMode;

fn item(title: &str, selected: bool) -> QueueItemState {
    QueueItemState {
        thumbnails: Vec::new(),
        title: String::from(title),
        author: String::from("Artist"),
        duration: String::from("3:21"),
        selected,
        video_id: String::from("vid"),
        counterparts: None,
    }
}

#[test]
fn json_bodies_are_pretty_printed() {
    match render_json_or_raw("{\"a\":1}") {
        RenderedBody::Json { text } => assert_eq!(text.as_str(), "{\n  \"a\": 1\n}"),
        RenderedBody::Raw { .. } => panic!("JSON must take the pretty tier"),
    }
}

#[test]
fn non_json_bodies_pass_through_raw() {
    match render_json_or_raw("plain words, no structure") {
        RenderedBody::Raw { text } => assert_eq!(text.as_str(), "plain words, no structure"),
        RenderedBody::Json { .. } => panic!("non-JSON must take the raw tier"),
    }
}

#[test]
fn every_fallback_tier_renders_without_failing() {
    let schema_shaped = "{\"player\": {\"trackState\": 1}, \"video\": null}";
    let different_shape = "[{\"unexpected\": true}]";
    let not_json = "<html>error page</html>";
    for body in [schema_shaped, different_shape, not_json] {
        match render_json_or_raw(body) {
            RenderedBody::Json { text } => assert!(!text.is_empty()),
            RenderedBody::Raw { text } => assert_eq!(text.as_str(), body),
        }
    }
}

#[test]
fn fallback_notices_name_the_tier() {
    let json = render_json_or_raw("{}");
    assert_eq!(
        unexpected_response_notice(&json).as_str(),
        "Unexpected response from YTMD -- falling back to unformatted output"
    );
    let raw = render_json_or_raw("***");
    assert_eq!(
        unexpected_response_notice(&raw).as_str(),
        "Unexpected response from YTMD -- falling back to raw output"
    );
}

#[test]
fn decimal_rendering_is_exact() {
    assert_eq!(u64_to_decimal(0).as_str(), "0");
    assert_eq!(u64_to_decimal(7).as_str(), "7");
    assert_eq!(u64_to_decimal(10).as_str(), "10");
    assert_eq!(u64_to_decimal(120340).as_str(), "120340");
    assert_eq!(u64_to_decimal(u64::MAX).as_str(), "18446744073709551615");
}

#[test]
fn volume_line_is_exact() {
    assert_eq!(volume_line(55).as_str(), "Volume: 55%");
    assert_eq!(volume_line(0).as_str(), "Volume: 0%");
}

#[test]
fn playlists_render_one_line_each() {
    let entries = vec![
        (String::from("id1"), String::from("Morning Mix")),
        (String::from("id2"), String::from("Chill")),
    ];
    assert_eq!(render_playlists(&entries).as_str(), "Morning Mix -> id1\nChill -> id2\n");
    assert_eq!(render_playlists(&Vec::new()).as_str(), "");
}

#[test]
fn queue_renders_indices_selection_and_automix() {
    let q = QueueState {
        autoplay: true,
        items: vec![item("Song A", false), item("Song B", true)],
        automix_items: vec![item("Song C", false)],
        is_generating: false,
        is_infinite: false,
        repeat_mode: RepeatMode::Off,
        selected_item_index: 1,
    };
    assert_eq!(
        render_queue(&q).as_str(),
        "Queue:\n<0> Song A\n<1> Song B <SELECTED>\nAutomix Queue:\n<2> Song C\n"
    );
}

#[test]
fn empty_queue_still_renders_both_headings() {
    let q = QueueState {
        autoplay: false,
        items: Vec::new(),
        automix_items: Vec::new(),
        is_generating: false,
        is_infinite: false,
        repeat_mode: RepeatMode::Unknown,
        selected_item_index: -1,
    };
    assert_eq!(render_queue(&q).as_str(), "Queue:\nAutomix Queue:\n");
}
