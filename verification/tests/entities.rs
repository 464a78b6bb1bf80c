use tgbotool::types::message::{in_order, parse_entities, MessageEntity, MessageEntityType};

fn entity(entity_type: MessageEntityType, offset: u32, length: u32) -> MessageEntity {
    MessageEntity {
        entity_type,
        offset,
        length,
        url: None,
        user: None,
        language: None,
        custom_emoji_id: None,
    }
}

fn covered<'a>(text: &'a str, entities: &'a [MessageEntity]) -> Vec<&'a str> {
    parse_entities(text, entities).iter().map(|e| e.as_str()).collect()
}

#[test]
fn entities_0() {
    let msgs = vec![entity(MessageEntityType::Strikethrough, 0, 7)];
    assert_eq!(covered("jkflsd;", &msgs), ["jkflsd;"])
}

#[test]
fn entities_1() {
    let msgs = vec![entity(MessageEntityType::Url, 3, 21)];
    assert_eq!(covered("上周 https://www.baidu.com", &msgs), ["https://www.baidu.com"])
}

#[test]
fn entities_2() {
    let msgs = vec![entity(MessageEntityType::Hashtag, 2, 3)];
    assert_eq!(covered("我 #上班 o", &msgs), ["#上班"])
}

#[test]
fn entities_3() {
    let msgs = vec![
        entity(MessageEntityType::Hashtag, 4, 3),
        entity(MessageEntityType::Url, 12, 21),
    ];
    assert_eq!(
        covered("我是中 #上班 不错  https://www.baidu.com 是我", &msgs),
        ["#上班", "https://www.baidu.com"]
    )
}

#[test]
fn byte_ranges_and_kinds() {
    let msgs = vec![
        entity(MessageEntityType::Hashtag, 4, 3),
        entity(MessageEntityType::Url, 12, 21),
    ];
    let text = "我是中 #上班 不错  https://www.baidu.com 是我";
    let res = parse_entities(text, &msgs);
    assert_eq!(res.len(), 2);
    assert_eq!(res[0].range(), 10..17);
    assert_eq!(res[1].range(), 26..47);
    assert_eq!(*res[0].entity_type(), MessageEntityType::Hashtag);
    assert_eq!(*res[1].entity_type(), MessageEntityType::Url);
    assert_eq!(res[0].message(), text);
}

#[test]
fn entity_past_the_end_is_truncated() {
    let msgs = vec![entity(MessageEntityType::Bold, 2, 100)];
    let res = parse_entities("héllo", &msgs);
    assert_eq!(res.len(), 1);
    assert_eq!(res[0].range(), 3..6);
    assert_eq!(res[0].as_str(), "llo");
}

#[test]
fn entity_of_length_zero_is_empty() {
    let msgs = vec![entity(MessageEntityType::Italic, 3, 0)];
    let res = parse_entities("上周 https", &msgs);
    assert_eq!(res.len(), 1);
    assert_eq!(res[0].range(), 7..7);
    assert_eq!(res[0].as_str(), "");
}

#[test]
fn entity_of_length_zero_at_the_end() {
    let msgs = vec![entity(MessageEntityType::Italic, 2, 0)];
    let res = parse_entities("ab", &msgs);
    assert_eq!(res.len(), 1);
    assert_eq!(res[0].range(), 2..2);
    assert_eq!(res[0].as_str(), "");
}

#[test]
fn entity_of_one_unit() {
    let msgs = vec![entity(MessageEntityType::Code, 1, 1)];
    assert_eq!(covered("abc", &msgs), ["b"]);
}

#[test]
fn entity_beyond_the_text_ends_the_result() {
    let msgs = vec![
        entity(MessageEntityType::Bold, 0, 1),
        entity(MessageEntityType::Bold, 5, 1),
        entity(MessageEntityType::Bold, 1, 1),
    ];
    let res = parse_entities("ab", &msgs);
    assert_eq!(res.len(), 1);
    assert_eq!(res[0].as_str(), "a");
}

#[test]
fn empty_text() {
    let none = parse_entities("", &[]);
    assert!(none.is_empty());
    let at_start = vec![entity(MessageEntityType::Bold, 0, 4)];
    let res = parse_entities("", &at_start);
    assert_eq!(res.len(), 1);
    assert_eq!(res[0].range(), 0..0);
    let beyond = vec![entity(MessageEntityType::Bold, 1, 4)];
    assert!(parse_entities("", &beyond).is_empty());
}

#[test]
fn no_entities() {
    assert!(parse_entities("some text", &[]).is_empty());
}

#[test]
fn adjacent_entities_share_a_boundary() {
    let msgs = vec![
        entity(MessageEntityType::Bold, 0, 2),
        entity(MessageEntityType::Italic, 2, 3),
        entity(MessageEntityType::Code, 5, 1),
    ];
    let res = parse_entities("上周 https", &msgs);
    assert_eq!(res.len(), 3);
    assert_eq!(res[0].range(), 0..6);
    assert_eq!(res[1].range(), 6..9);
    assert_eq!(res[2].range(), 9..10);
    assert_eq!(res[0].as_str(), "上周");
    assert_eq!(res[1].as_str(), " ht");
    assert_eq!(res[2].as_str(), "t");
}

#[test]
fn surrogate_pairs_count_two_units() {
    let text = "a😀b𝄞c";
    let msgs = vec![
        entity(MessageEntityType::CustomEmoji, 1, 2),
        entity(MessageEntityType::Bold, 3, 1),
        entity(MessageEntityType::CustomEmoji, 4, 2),
        entity(MessageEntityType::Bold, 6, 1),
    ];
    let res = parse_entities(text, &msgs);
    assert_eq!(res.len(), 4);
    assert_eq!(res[0].range(), 1..5);
    assert_eq!(res[0].as_str(), "😀");
    assert_eq!(res[1].as_str(), "b");
    assert_eq!(res[2].range(), 6..10);
    assert_eq!(res[2].as_str(), "𝄞");
    assert_eq!(res[3].as_str(), "c");
}

#[test]
fn boundary_inside_a_surrogate_pair_moves_past_it() {
    let text = "😀x";
    let inside_start = vec![entity(MessageEntityType::Bold, 1, 2)];
    let res = parse_entities(text, &inside_start);
    assert_eq!(res.len(), 1);
    assert_eq!(res[0].as_str(), "x");
    let inside_end = vec![entity(MessageEntityType::Bold, 0, 1)];
    let res = parse_entities(text, &inside_end);
    assert_eq!(res.len(), 1);
    assert_eq!(res[0].as_str(), "😀");
}

#[test]
fn every_range_is_sliceable_and_keeps_its_length() {
    let text = "né 😀 上班 ok";
    let units: Vec<u16> = text.encode_utf16().collect();
    let mut boundaries = vec![0u32];
    for c in text.chars() {
        let last = *boundaries.last().unwrap();
        boundaries.push(last + c.len_utf16() as u32);
    }
    for (i, &start) in boundaries.iter().enumerate() {
        for &end in &boundaries[i..] {
            let msgs = vec![entity(MessageEntityType::Bold, start, end - start)];
            let res = parse_entities(text, &msgs);
            assert_eq!(res.len(), 1);
            let part = text.get(res[0].range()).unwrap();
            assert_eq!(part, res[0].as_str());
            assert_eq!(part.encode_utf16().count() as u32, end - start);
            let expected = String::from_utf16(&units[start as usize..end as usize]).unwrap();
            assert_eq!(part, expected);
        }
    }
}

#[test]
fn resolving_twice_gives_the_same() {
    let msgs = vec![
        entity(MessageEntityType::Hashtag, 4, 3),
        entity(MessageEntityType::Url, 12, 21),
    ];
    let text = "我是中 #上班 不错  https://www.baidu.com 是我";
    assert_eq!(parse_entities(text, &msgs), parse_entities(text, &msgs));
}

#[test]
fn other_fields_of_an_entity_do_not_matter() {
    let plain = vec![entity(MessageEntityType::TextLink, 2, 3)];
    let mut linked = entity(MessageEntityType::TextLink, 2, 3);
    linked.url = Some("https://example.org".to_string());
    linked.language = Some("en".to_string());
    let linked = vec![linked];
    let text = "我 #上班 o";
    assert_eq!(parse_entities(text, &plain), parse_entities(text, &linked));
}

#[test]
fn entities_in_and_out_of_order() {
    assert!(in_order(&[]));
    assert!(in_order(&[entity(MessageEntityType::Bold, 9, 9)]));
    assert!(in_order(&[
        entity(MessageEntityType::Bold, 0, 2),
        entity(MessageEntityType::Bold, 2, 0),
        entity(MessageEntityType::Bold, 2, 3),
        entity(MessageEntityType::Bold, 7, 1),
    ]));
    assert!(!in_order(&[
        entity(MessageEntityType::Bold, 0, 3),
        entity(MessageEntityType::Bold, 2, 3),
    ]));
    assert!(!in_order(&[
        entity(MessageEntityType::Bold, 5, 1),
        entity(MessageEntityType::Bold, 0, 1),
    ]));
    assert!(!in_order(&[
        entity(MessageEntityType::Bold, u32::MAX, u32::MAX),
        entity(MessageEntityType::Bold, u32::MAX, 0),
    ]));
}
