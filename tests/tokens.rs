use ferrishot_select::handle::{Corner, Direction, InvalidToken, Side, SideOrCorner};
use ferrishot_select::upload::ImageUploadService;
use std::str::FromStr;

const SIDES: [Side; 4] = [Side::Top, Side::Right, Side::Bottom, Side::Left];
const CORNERS: [Corner; 4] = [Corner::TopLeft, Corner::TopRight, Corner::BottomLeft, Corner::BottomRight];
const DIRECTIONS: [Direction; 4] = [Direction::Up, Direction::Down, Direction::Left, Direction::Right];

#[test]
fn tokens_are_kebab_case() {
    assert_eq!(Corner::TopLeft.to_token(), "top-left");
    assert_eq!(Corner::BottomRight.to_token(), "bottom-right");
    assert_eq!(Side::Bottom.to_token(), "bottom");
    assert_eq!(Direction::Up.to_token(), "up");
    assert_eq!(SideOrCorner::Corner(Corner::TopRight).to_token(), "top-right");
}

#[test]
fn token_round_trip() {
    for v in SIDES {
        assert_eq!(Side::parse_token(v.to_token()), Ok(v));
        assert_eq!(SideOrCorner::parse_token(v.to_token()), Ok(SideOrCorner::Side(v)));
    }
    for v in CORNERS {
        assert_eq!(Corner::parse_token(v.to_token()), Ok(v));
        assert_eq!(SideOrCorner::parse_token(v.to_token()), Ok(SideOrCorner::Corner(v)));
    }
    for v in DIRECTIONS {
        assert_eq!(Direction::parse_token(v.to_token()), Ok(v));
    }
}

#[test]
fn tokens_ignore_case() {
    assert_eq!(Corner::parse_token("TOP-Left"), Ok(Corner::TopLeft));
    assert_eq!(Side::parse_token("Right"), Ok(Side::Right));
    assert_eq!(Direction::parse_token("DOWN"), Ok(Direction::Down));
    assert_eq!(SideOrCorner::from_str("Bottom-Right"), Ok(SideOrCorner::Corner(Corner::BottomRight)));
}

#[test]
fn invalid_tokens() {
    assert_eq!(
        Corner::parse_token("top_left"),
        Err(InvalidToken { expected: "top-left, top-right, bottom-left, bottom-right" })
    );
    assert_eq!(Side::parse_token("topp"), Err(InvalidToken { expected: "top, right, bottom, left" }));
    assert_eq!(Side::parse_token(""), Err(InvalidToken { expected: "top, right, bottom, left" }));
    assert_eq!(Direction::parse_token("uP "), Err(InvalidToken { expected: "up, down, left, right" }));
    assert!(Corner::parse_token("tOp-lEfT\u{301}").is_err());
}

#[test]
fn side_or_corner_error_lists_all_tokens() {
    assert_eq!(
        SideOrCorner::from_str("middle"),
        Err(String::from(
            "expected one of top, right, bottom, left, top-left, top-right, bottom-left, bottom-right"
        ))
    );
}

#[test]
fn variants_lists_sides_then_corners() {
    assert_eq!(
        SideOrCorner::variants(),
        "top, right, bottom, left, top-left, top-right, bottom-left, bottom-right"
    );
}

#[test]
fn upload_service_url() {
    assert_eq!(ImageUploadService::TheNullPointer.post_url(), "https://0x0.st");
    assert_eq!(ImageUploadService::default(), ImageUploadService::TheNullPointer);
}
