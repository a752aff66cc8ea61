use gtk_qq::message::{get_contents_from, get_flash_image_path, get_text_from, Content, Element, FingerGuessing, FlashImage, Message};

fn text(s: &str) -> Content {
    Content::Text(s.to_string())
}

#[test]
fn picture_is_shown_as_label() {
    let c = Content::Image { url: "http://x/1".to_string(), filename: "1.jpg".to_string() };
    assert_eq!(c.text(), "[图片]");
    assert_eq!(text("hi").text(), "hi");
}

#[test]
fn text_of_message_joins_pieces() {
    let contents = vec![text("Hello, "), Content::Image { url: String::new(), filename: String::new() }, text("!")];
    assert_eq!(get_text_from(&contents), "Hello, [图片]!");
    assert_eq!(get_text_from(&[]), "");
    let m = Message { sender_id: 1, sender_name: "a".to_string(), contents };
    assert_eq!(m.text(), "Hello, [图片]!");
}

#[test]
fn text_of_joined_runs_is_joined_text() {
    let a = vec![text("ab"), text("c")];
    let b = vec![Content::Image { url: String::new(), filename: String::new() }, text("d")];
    let mut ab = a.clone();
    ab.extend(b.clone());
    assert_eq!(get_text_from(&ab), get_text_from(&a) + &get_text_from(&b));
}

#[test]
fn elements_become_contents() {
    let elements = vec![
        Element::At { target: 10001, display: "@Tom".to_string() },
        Element::Text { content: "hello".to_string() },
        Element::Face { name: "微笑".to_string() },
        Element::MarketFace { name: "doge".to_string() },
        Element::Dice { value: 6 },
        Element::FingerGuessing(FingerGuessing::Rock),
        Element::FingerGuessing(FingerGuessing::Scissors),
        Element::FingerGuessing(FingerGuessing::Paper),
        Element::LightApp,
        Element::RichMsg,
        Element::FriendImage { url: "u1".to_string(), file_path: "f1".to_string() },
        Element::GroupImage { url: "u2".to_string(), file_path: "f2".to_string() },
        Element::FlashImage(FlashImage::GroupImage { url: "u3".to_string(), file_path: "f3".to_string() }),
        Element::VideoFile,
        Element::Other,
    ];
    let contents = get_contents_from(&elements);
    assert_eq!(
        contents,
        vec![
            text("[@Tom(10001)]"),
            text("hello"),
            text("[微笑]"),
            text("[doge]"),
            text("[🎲(6)]"),
            text("[✊]"),
            text("[✌]"),
            text("[✋]"),
            text("[LIGHT_APP MESSAGE]"),
            text("[RICH MESSAGE]"),
            Content::Image { url: "u1".to_string(), filename: "f1".to_string() },
            Content::Image { url: "u2".to_string(), filename: "f2".to_string() },
            Content::Image { url: "u3".to_string(), filename: "f3".to_string() },
            text("[视频文件]"),
        ]
    );
}

#[test]
fn mention_of_negative_number() {
    let contents = get_contents_from(&[Element::At { target: -5, display: "x".to_string() }]);
    assert_eq!(contents, vec![text("[x(-5)]")]);
}

#[test]
fn flash_image_path_of_either_kind() {
    assert_eq!(get_flash_image_path(FlashImage::FriendImage { url: "a".to_string(), file_path: "p1".to_string() }), "p1");
    assert_eq!(get_flash_image_path(FlashImage::GroupImage { url: "b".to_string(), file_path: "p2".to_string() }), "p2");
}
