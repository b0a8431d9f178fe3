use oscbot::click::{handle_click, Click, ClickError, ClickKind, ScoreMapping, ScoreType};
use oscbot::text::{chars_of, parse_unsigned, split_at_char};

fn mapping(score_type: ScoreType, reference: &str, map_id: u32, user: u64) -> ScoreMapping {
    ScoreMapping { reference: reference.to_string(), map_id, score_type, requesting_user: user }
}

#[test]
fn approve_with_upload_by_score_id() {
    assert_eq!(
        handle_click("approveWithUpload:scoreid:1724681877:1655981:123456789012345678"),
        Ok(Click {
            kind: ClickKind::ApproveWithUpload,
            score: mapping(ScoreType::ScoreId, "1724681877", 1655981, 123456789012345678),
        })
    );
}

#[test]
fn approve_without_upload_by_replay_file() {
    assert_eq!(
        handle_click("approveNoUpload:replayfile:d41d8cd9:7:42"),
        Ok(Click {
            kind: ClickKind::ApproveNoUpload,
            score: mapping(ScoreType::ReplayFile, "d41d8cd9", 7, 42),
        })
    );
}

#[test]
fn decline_with_unknown_type_means_score_id() {
    assert_eq!(
        handle_click("decline:whatever::0:+5"),
        Ok(Click { kind: ClickKind::Decline, score: mapping(ScoreType::ScoreId, "", 0, 5) })
    );
}

#[test]
fn unknown_action_is_refused_whatever_follows() {
    assert_eq!(handle_click("thumbnail:123"), Err(ClickError::UnknownIdentifier));
    assert_eq!(handle_click(""), Err(ClickError::UnknownIdentifier));
    assert_eq!(handle_click("Decline:scoreid:1:2:3"), Err(ClickError::UnknownIdentifier));
    assert_eq!(handle_click(":decline:scoreid:1:2:3"), Err(ClickError::UnknownIdentifier));
}

#[test]
fn four_values_are_required() {
    assert_eq!(handle_click("decline"), Err(ClickError::WrongArity));
    assert_eq!(handle_click("decline:scoreid:1:2"), Err(ClickError::WrongArity));
    assert_eq!(handle_click("decline:scoreid:1:2:3:4"), Err(ClickError::WrongArity));
    assert_eq!(handle_click("decline:scoreid:1:2:3:"), Err(ClickError::WrongArity));
}

#[test]
fn user_is_read_before_map() {
    assert_eq!(handle_click("decline:scoreid:1:x:y"), Err(ClickError::BadUserId));
    assert_eq!(handle_click("decline:scoreid:1:x:3"), Err(ClickError::BadMapId));
    assert_eq!(handle_click("decline:scoreid:1:2:"), Err(ClickError::BadUserId));
    assert_eq!(handle_click("decline:scoreid:1::3"), Err(ClickError::BadMapId));
}

#[test]
fn numbers_must_fit_their_width() {
    assert_eq!(
        handle_click("decline:scoreid:1:4294967295:18446744073709551615"),
        Ok(Click {
            kind: ClickKind::Decline,
            score: mapping(ScoreType::ScoreId, "1", u32::MAX, u64::MAX),
        })
    );
    assert_eq!(
        handle_click("decline:scoreid:1:4294967296:18446744073709551615"),
        Err(ClickError::BadMapId)
    );
    assert_eq!(
        handle_click("decline:scoreid:1:1:18446744073709551616"),
        Err(ClickError::BadUserId)
    );
}

#[test]
fn unsigned_parsing_agrees_with_std() {
    for text in [
        "0", "7", "+7", "007", "18446744073709551615", "18446744073709551616",
        "99999999999999999999999", "", "+", "-1", "-0", "1 ", " 1", "1_000", "0x10", "++1", "1+",
        "\u{0661}",
    ] {
        assert_eq!(parse_unsigned(&chars_of(text), u64::MAX), text.parse::<u64>().ok(), "{:?}", text);
        assert_eq!(
            parse_unsigned(&chars_of(text), 0xffff_ffff),
            text.parse::<u32>().ok().map(u64::from),
            "{:?}",
            text
        );
    }
}

#[test]
fn small_limits_are_respected() {
    assert_eq!(parse_unsigned(&chars_of("5"), 5), Some(5));
    assert_eq!(parse_unsigned(&chars_of("6"), 5), None);
    assert_eq!(parse_unsigned(&chars_of("0"), 0), Some(0));
    assert_eq!(parse_unsigned(&chars_of("00"), 0), Some(0));
    assert_eq!(parse_unsigned(&chars_of("1"), 0), None);
    assert_eq!(parse_unsigned(&chars_of("10"), 9), None);
}

#[test]
fn splitting_agrees_with_std() {
    for text in ["", ":", "a", "a:b", "a::b", ":a:", "::", "a:b:c:d:e", "\u{e9}:\u{4e16}"] {
        let expected: Vec<String> = text.split(':').map(|p| p.to_string()).collect();
        assert_eq!(split_at_char(&chars_of(text), ':'), expected, "{:?}", text);
    }
}

#[test]
fn mapping_from_values() {
    let values: Vec<String> =
        ["pad", "replayfile", "ref", "12", "34"].iter().map(|s| s.to_string()).collect();
    assert_eq!(ScoreMapping::new(&values, 1), Ok(mapping(ScoreType::ReplayFile, "ref", 12, 34)));
    assert_eq!(ScoreMapping::new(&values, 0), Err(ClickError::WrongArity));
    assert_eq!(ScoreMapping::new(&values, 5), Err(ClickError::WrongArity));
}
