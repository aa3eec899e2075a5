use fluffy_chess::game::PlayerTurn;
use fluffy_chess::lobby::{
    lobby_query, Adversary, ConfigError, GameConfig, WireAdversary, WireGameConfig,
};
use fluffy_chess::pieces::PieceColor;
use fluffy_chess::text::{next_move_text, winner_text};

#[test]
fn query_asks_for_games_open_to_the_player() {
    let any = GameConfig { user: "ann".to_string(), adversary: Adversary::Any };
    let friends = GameConfig { user: "ann".to_string(), adversary: Adversary::Friends };
    assert_eq!(lobby_query(&any), "SELECT game FROM lobby WHERE adversary=$username");
    assert_eq!(lobby_query(&friends), "SELECT game FROM lobby WHERE adversary=$username");
}

#[test]
fn query_names_the_opponent_where_one_is_asked_for() {
    let named =
        GameConfig { user: "ann".to_string(), adversary: Adversary::User("bob".to_string()) };
    assert_eq!(
        lobby_query(&named),
        "SELECT game FROM lobby WHERE adversary=$username AND username=$adversary"
    );
}

#[test]
fn request_with_text_names_is_read() {
    let wire = WireGameConfig {
        user: "zoë".as_bytes().to_vec(),
        adversary: WireAdversary::User("b\u{f6}b \u{1F600}".as_bytes().to_vec()),
    };
    assert_eq!(
        GameConfig::try_from_wire(&wire),
        Ok(GameConfig {
            user: "zoë".to_string(),
            adversary: Adversary::User("b\u{f6}b \u{1F600}".to_string()),
        })
    );
    let any = WireGameConfig { user: Vec::new(), adversary: WireAdversary::Any };
    assert_eq!(
        GameConfig::try_from_wire(&any),
        Ok(GameConfig { user: String::new(), adversary: Adversary::Any })
    );
    assert_eq!(Adversary::try_from_wire(&WireAdversary::Friends), Ok(Adversary::Friends));
    assert_eq!(
        Adversary::try_from_wire(&WireAdversary::User(vec![0x61, 0x62])),
        Ok(Adversary::User("ab".to_string()))
    );
}

#[test]
fn request_with_a_name_that_is_not_text_is_refused() {
    let bad_user = WireGameConfig { user: vec![0x61, 0xff], adversary: WireAdversary::Any };
    assert_eq!(GameConfig::try_from_wire(&bad_user), Err(ConfigError::UserNotText));
    let bad_adversary = WireGameConfig {
        user: vec![0x61],
        adversary: WireAdversary::User(vec![0xc3, 0x28]),
    };
    assert_eq!(GameConfig::try_from_wire(&bad_adversary), Err(ConfigError::AdversaryNotText));
    let both = WireGameConfig {
        user: vec![0xed, 0xa0, 0x80],
        adversary: WireAdversary::User(vec![0x80]),
    };
    assert_eq!(GameConfig::try_from_wire(&both), Err(ConfigError::UserNotText));
    assert_eq!(
        Adversary::try_from_wire(&WireAdversary::User(vec![0xe2, 0x82])),
        Err(ConfigError::AdversaryNotText)
    );
}

#[test]
fn players_are_told_whose_move_it_is() {
    assert_eq!(next_move_text(&PlayerTurn::default()), "Next move: White");
    assert_eq!(
        next_move_text(&PlayerTurn { color: PieceColor::Black, winner: None }),
        "Next move: Black"
    );
}

#[test]
fn players_are_told_who_has_won() {
    assert_eq!(winner_text(PieceColor::White), "White won! Thanks for playing!");
    assert_eq!(winner_text(PieceColor::Black), "Black won! Thanks for playing!");
}

#[test]
fn names_must_be_well_formed_utf8() {
    let refused: [&[u8]; 8] = [
        &[0x80],
        &[0xc0, 0x80],
        &[0xc1, 0xbf],
        &[0xe0, 0x80, 0x80],
        &[0xed, 0xa0, 0x80],
        &[0xf4, 0x90, 0x80, 0x80],
        &[0xf5, 0x80, 0x80, 0x80],
        &[0x61, 0xe2, 0x82],
    ];
    for bytes in refused {
        assert_eq!(
            Adversary::try_from_wire(&WireAdversary::User(bytes.to_vec())),
            Err(ConfigError::AdversaryNotText)
        );
    }
    let read: [(&[u8], &str); 5] = [
        (&[], ""),
        (&[0x7f], "\u{7f}"),
        (&[0xc2, 0x80], "\u{80}"),
        (&[0xed, 0x9f, 0xbf], "\u{d7ff}"),
        (&[0xf4, 0x8f, 0xbf, 0xbf], "\u{10ffff}"),
    ];
    for (bytes, text) in read {
        assert_eq!(
            Adversary::try_from_wire(&WireAdversary::User(bytes.to_vec())),
            Ok(Adversary::User(text.to_string()))
        );
    }
}
