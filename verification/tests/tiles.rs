use riichilab_agent::mjai::{
    Dragon, Honor, MaybeMaskedTile, ProtocolError, Seat, Suit, Tile, Wind,
};
use riichilab_agent::text::{decimal_text, padded_decimal_text, same_text};
use serde_json::Value;

#[test]
fn tile_round_trip() {
    let cases = ["1m", "5pr", "9s", "E", "P", "C"];
    for case in cases {
        let tile: Tile = case.parse().unwrap();
        assert_eq!(tile.to_string(), case);
    }
}

#[test]
fn masked_tile_deserializes_unknown() {
    let text: String = serde_json::from_str("\"?\"").unwrap();
    let tile: MaybeMaskedTile = text.parse().unwrap();
    assert_eq!(tile, MaybeMaskedTile::Unknown);
}

#[test]
fn seat_rejects_out_of_range() {
    let value: u8 = serde_json::from_str("4").unwrap();
    let err = Seat::new(value).unwrap_err();
    assert!(err.to_string().contains("invalid seat"));
}

#[test]
fn start_kyoku_deserializes_masked_tiles() {
    let json = r#"{
        "type": "start_kyoku",
        "bakaze": "E",
        "kyoku": 1,
        "honba": 0,
        "kyotaku": 0,
        "oya": 0,
        "dora_marker": "2p",
        "tehais": [
            ["1m","2m","3m","4m","5m","6m","7m","8m","9m","E","S","W","N"],
            ["?","?","?","?","?","?","?","?","?","?","?","?","?"],
            ["?","?","?","?","?","?","?","?","?","?","?","?","?"],
            ["?","?","?","?","?","?","?","?","?","?","?","?","?"]
        ]
    }"#;

    let event: Value = serde_json::from_str(json).unwrap();
    let mut tehais: Vec<Vec<MaybeMaskedTile>> = Vec::new();
    for hand in event["tehais"].as_array().unwrap() {
        let mut tiles = Vec::new();
        for tile in hand.as_array().unwrap() {
            tiles.push(MaybeMaskedTile::from_str(tile.as_str().unwrap()).unwrap());
        }
        tehais.push(tiles);
    }
    assert!(matches!(tehais[1][0], MaybeMaskedTile::Unknown));
    assert_eq!(
        tehais[0][9],
        MaybeMaskedTile::Known(Tile::Honor(Honor::Wind(Wind::East)))
    );
    assert_eq!(Wind::from_str(event["bakaze"].as_str().unwrap()), Ok(Wind::East));
    let oya = Seat::try_from(event["oya"].as_u64().unwrap() as u8).unwrap();
    assert_eq!(oya.get(), 0);
    assert_eq!(
        Tile::from_str(event["dora_marker"].as_str().unwrap()),
        Ok(Tile::Suited { suit: Suit::Pin, rank: 2, red: false })
    );
}

#[test]
fn every_tile_reads_back() {
    let mut tiles = Vec::new();
    for suit in [Suit::Man, Suit::Pin, Suit::Sou] {
        for rank in 1u8..10 {
            tiles.push(Tile::Suited { suit, rank, red: false });
        }
        tiles.push(Tile::Suited { suit, rank: 5, red: true });
    }
    for wind in [Wind::East, Wind::South, Wind::West, Wind::North] {
        tiles.push(Tile::Honor(Honor::Wind(wind)));
    }
    for dragon in [Dragon::Haku, Dragon::Hatsu, Dragon::Chun] {
        tiles.push(Tile::Honor(Honor::Dragon(dragon)));
    }
    assert_eq!(tiles.len(), 37);
    for tile in tiles {
        let text = tile.to_string();
        assert_eq!(Tile::from_str(&text), Ok(tile));
        let masked = MaybeMaskedTile::Known(tile);
        assert_eq!(masked.to_string(), text);
        assert_eq!(MaybeMaskedTile::from_str(&text), Ok(masked));
    }
    assert_eq!(MaybeMaskedTile::Unknown.to_string(), "?");
}

#[test]
fn texts_that_name_no_tile_are_refused() {
    let cases = [
        "", "0m", "5", "5x", "4mr", "5mx", "5mrr", "10m", "Z", "e", "?", "55", "é", "5é", "５m",
        "東", "m5",
    ];
    for case in cases {
        assert_eq!(
            Tile::from_str(case),
            Err(ProtocolError::InvalidTile(case.to_string())),
            "{case}"
        );
        let parsed: Result<Tile, ProtocolError> = case.parse();
        assert!(parsed.is_err());
    }
    assert_eq!(
        MaybeMaskedTile::from_str("??").unwrap_err().to_string(),
        "invalid tile: ??"
    );
}

#[test]
fn impossible_ranks_are_still_written() {
    let tile = Tile::Suited { suit: Suit::Sou, rank: 120, red: true };
    assert_eq!(tile.to_string(), "120sr");
    assert!(Tile::from_str("120sr").is_err());
}

#[test]
fn terminals_and_honors_are_yaochuuhai() {
    assert!(Tile::from_str("1p").unwrap().is_yaochuuhai());
    assert!(Tile::from_str("9s").unwrap().is_yaochuuhai());
    assert!(Tile::from_str("F").unwrap().is_yaochuuhai());
    assert!(!Tile::from_str("2m").unwrap().is_yaochuuhai());
    assert!(!Tile::from_str("5sr").unwrap().is_yaochuuhai());
}

#[test]
fn seats_are_numbered_from_zero_to_three() {
    for value in 0u8..4 {
        let seat = Seat::new(value).unwrap();
        assert_eq!(seat.get(), value);
        assert_eq!(Seat::new(seat.get()), Ok(seat));
    }
    assert_eq!(Seat::new(255), Err(ProtocolError::InvalidSeat(255)));
    assert_eq!(Seat::try_from(4u8), Err(ProtocolError::InvalidSeat(4)));
    assert_eq!(Seat::new(17).unwrap_err().to_string(), "invalid seat: 17");
}

#[test]
fn winds_read_back() {
    for wind in [Wind::East, Wind::South, Wind::West, Wind::North] {
        assert_eq!(Wind::from_str(wind.as_str()), Ok(wind));
    }
    assert_eq!(Wind::North.as_str(), "N");
    assert_eq!(Wind::from_str("P"), Err("invalid wind: P".to_string()));
    assert_eq!(Wind::from_str(""), Err("invalid wind: ".to_string()));
}

#[test]
fn numerals_are_written_in_decimal() {
    for n in [0u64, 7, 10, 99, 100, 1234567890, u64::MAX] {
        assert_eq!(decimal_text(n), format!("{n}"));
        assert_eq!(padded_decimal_text(n, 4), format!("{n:04}"));
    }
}

#[test]
fn texts_compare_by_characters() {
    assert!(same_text("", ""));
    assert!(same_text("héllo", "héllo"));
    assert!(!same_text("hello", "hellp"));
    assert!(!same_text("hello", "hell"));
}
