//! The vocabulary of the mjai protocol: seats, tiles, actions and events.

use crate::text::{decimal, decimal_text, join, same_text};
use std::collections::BTreeMap;
use vstd::prelude::*;
use vstd::string::*;

verus! {

/// A player's place at the table, from 0 to 3.
#[derive(Debug, Clone, Copy, PartialEq, Eq, PartialOrd, Ord, Hash, Structural)]
pub struct Seat(u8);

impl View for Seat {
    type V = int;

    closed spec fn view(&self) -> int {
        self.0 as int
    }
}

impl Seat {
    #[verifier::type_invariant]
    closed spec fn in_range(self) -> bool {
        self.0 <= 3
    }

    /// Makes a seat of a number up to 3 and refuses any other.
    pub fn new(value: u8) -> (seat: Result<Self, ProtocolError>)
        ensures
            value <= 3 ==> (seat matches Ok(s) && s@ == value),
            value > 3 ==> seat == Err::<Seat, ProtocolError>(ProtocolError::InvalidSeat(value)),
    {
        if value <= 3 {
            Ok(Seat(value))
        } else {
            Err(ProtocolError::InvalidSeat(value))
        }
    }

    /// The number of the seat.
    pub fn get(self) -> (value: u8)
        ensures
            value == self@,
            value <= 3,
    {
        proof {
            use_type_invariant(&self);
        }
        self.0
    }
}

impl TryFrom<u8> for Seat {
    type Error = ProtocolError;

    fn try_from(value: u8) -> (seat: Result<Self, ProtocolError>)
        ensures
            value <= 3 ==> (seat matches Ok(s) && s@ == value),
            value > 3 ==> seat == Err::<Seat, ProtocolError>(ProtocolError::InvalidSeat(value)),
    {
        Seat::new(value)
    }
}

impl vstd::std_specs::convert::TryFromSpecImpl<u8> for Seat {
    open spec fn obeys_try_from_spec() -> bool {
        true
    }

    closed spec fn try_from_spec(value: u8) -> Result<Self, ProtocolError> {
        if value <= 3 {
            Ok(Seat(value))
        } else {
            Err(ProtocolError::InvalidSeat(value))
        }
    }
}

/// A seat is known by its number.
pub proof fn law_seat_is_its_number(seat: Seat, other: Seat)
    requires
        seat@ == other@,
    ensures
        seat == other,
{
}

/// What is wrong with a value of the protocol.
#[derive(Debug, Clone, PartialEq, Eq)]
pub enum ProtocolError {
    /// A seat number above 3.
    InvalidSeat(u8),
    /// A text that names no tile.
    InvalidTile(String),
}

impl ProtocolError {
    /// The message of the error.
    pub open spec fn message(self) -> Seq<char> {
        match self {
            ProtocolError::InvalidSeat(value) => "invalid seat: "@ + decimal(value as nat),
            ProtocolError::InvalidTile(text) => "invalid tile: "@ + text@,
        }
    }

    /// Writes the message of the error.
    pub fn to_string(&self) -> (text: String)
        ensures
            text@ == self.message(),
    {
        match self {
            ProtocolError::InvalidSeat(value) => join(
                "invalid seat: ",
                decimal_text(*value as u64).as_str(),
            ),
            ProtocolError::InvalidTile(tile) => join("invalid tile: ", tile.as_str()),
        }
    }
}

/// A wind, of a round or of a seat.
#[derive(Debug, Clone, Copy, PartialEq, Eq, Structural)]
pub enum Wind {
    East,
    South,
    West,
    North,
}

impl Wind {
    /// The letter of the wind.
    pub open spec fn letter(self) -> char {
        match self {
            Wind::East => 'E',
            Wind::South => 'S',
            Wind::West => 'W',
            Wind::North => 'N',
        }
    }

    /// Writes the letter of the wind.
    pub fn as_str(self) -> (text: &'static str)
        ensures
            text@ == seq![self.letter()],
    {
        proof {
            reveal_strlit("E");
            reveal_strlit("S");
            reveal_strlit("W");
            reveal_strlit("N");
        }
        match self {
            Wind::East => "E",
            Wind::South => "S",
            Wind::West => "W",
            Wind::North => "N",
        }
    }

    /// Reads the letter of a wind. The error is a message that repeats the text.
    pub fn from_str(value: &str) -> (wind: Result<Self, String>)
        ensures
            wind matches Ok(w) ==> parsed_wind(value@) == Some(w),
            wind matches Err(message) ==> {
                &&& parsed_wind(value@) is None
                &&& message@ == "invalid wind: "@ + value@
            },
    {
        proof {
            reveal_strlit("E");
            reveal_strlit("S");
            reveal_strlit("W");
            reveal_strlit("N");
            assert("E"@ =~= seq!['E']);
            assert("S"@ =~= seq!['S']);
            assert("W"@ =~= seq!['W']);
            assert("N"@ =~= seq!['N']);
        }
        if same_text(value, "E") {
            Ok(Wind::East)
        } else if same_text(value, "S") {
            Ok(Wind::South)
        } else if same_text(value, "W") {
            Ok(Wind::West)
        } else if same_text(value, "N") {
            Ok(Wind::North)
        } else {
            Err(join("invalid wind: ", value))
        }
    }
}

/// The wind that a text names.
pub open spec fn parsed_wind(text: Seq<char>) -> Option<Wind> {
    if text == seq!['E'] {
        Some(Wind::East)
    } else if text == seq!['S'] {
        Some(Wind::South)
    } else if text == seq!['W'] {
        Some(Wind::West)
    } else if text == seq!['N'] {
        Some(Wind::North)
    } else {
        None
    }
}

/// A text names a wind exactly if it is the letter of that wind.
pub proof fn law_wind_text_reads_back(wind: Wind, text: Seq<char>)
    ensures
        parsed_wind(text) == Some(wind) <==> text == seq![wind.letter()],
{
    assert(seq!['E'][0] == 'E' && seq!['S'][0] == 'S' && seq!['W'][0] == 'W' && seq!['N'][0]
        == 'N');
}

/// A dragon.
#[derive(Debug, Clone, Copy, PartialEq, Eq, Structural)]
pub enum Dragon {
    Haku,
    Hatsu,
    Chun,
}

impl Dragon {
    /// The letter of the dragon.
    pub open spec fn letter(self) -> char {
        match self {
            Dragon::Haku => 'P',
            Dragon::Hatsu => 'F',
            Dragon::Chun => 'C',
        }
    }
}

/// A wind or a dragon.
#[derive(Debug, Clone, Copy, PartialEq, Eq, Structural)]
pub enum Honor {
    Wind(Wind),
    Dragon(Dragon),
}

impl Honor {
    /// The letter of the honor.
    pub open spec fn letter(self) -> char {
        match self {
            Honor::Wind(wind) => wind.letter(),
            Honor::Dragon(dragon) => dragon.letter(),
        }
    }
}

/// A suit of numbered tiles.
#[derive(Debug, Clone, Copy, PartialEq, Eq, Structural)]
pub enum Suit {
    Man,
    Pin,
    Sou,
}

impl Suit {
    /// The letter of the suit.
    pub open spec fn letter(self) -> char {
        match self {
            Suit::Man => 'm',
            Suit::Pin => 'p',
            Suit::Sou => 's',
        }
    }

    /// Writes the letter of the suit.
    fn as_str(self) -> (text: &'static str)
        ensures
            text@ == seq![self.letter()],
    {
        proof {
            reveal_strlit("m");
            reveal_strlit("p");
            reveal_strlit("s");
        }
        match self {
            Suit::Man => "m",
            Suit::Pin => "p",
            Suit::Sou => "s",
        }
    }
}

/// The suit of a letter.
pub open spec fn suit_of_letter(letter: char) -> Option<Suit> {
    if letter == 'm' {
        Some(Suit::Man)
    } else if letter == 'p' {
        Some(Suit::Pin)
    } else if letter == 's' {
        Some(Suit::Sou)
    } else {
        None
    }
}

/// The honor of a letter.
pub open spec fn honor_of_letter(letter: char) -> Option<Honor> {
    if letter == 'E' {
        Some(Honor::Wind(Wind::East))
    } else if letter == 'S' {
        Some(Honor::Wind(Wind::South))
    } else if letter == 'W' {
        Some(Honor::Wind(Wind::West))
    } else if letter == 'N' {
        Some(Honor::Wind(Wind::North))
    } else if letter == 'P' {
        Some(Honor::Dragon(Dragon::Haku))
    } else if letter == 'F' {
        Some(Honor::Dragon(Dragon::Hatsu))
    } else if letter == 'C' {
        Some(Honor::Dragon(Dragon::Chun))
    } else {
        None
    }
}

/// A tile.
#[derive(Debug, Clone, Copy, PartialEq, Eq, Structural)]
pub enum Tile {
    Suited { suit: Suit, rank: u8, red: bool },
    Honor(Honor),
}

/// The tile that a text names: a letter for an honor; a rank from 1 to 9 and a suit letter, with
/// an `r` behind a red five, for a suited tile.
pub open spec fn parsed_tile(text: Seq<char>) -> Option<Tile> {
    if text.len() == 1 {
        match honor_of_letter(text[0]) {
            Some(honor) => Some(Tile::Honor(honor)),
            None => None,
        }
    } else if (text.len() == 2 || (text.len() == 3 && text[0] == '5' && text[2] == 'r')) && '1'
        <= text[0] <= '9' {
        match suit_of_letter(text[1]) {
            Some(suit) => Some(
                Tile::Suited { suit, rank: (text[0] as int - 48) as u8, red: text.len() == 3 },
            ),
            None => None,
        }
    } else {
        None
    }
}

impl Tile {
    /// Whether the tile exists: a rank lies between 1 and 9, and only fives are red.
    pub open spec fn exists_in_play(self) -> bool {
        match self {
            Tile::Suited { suit, rank, red } => 1 <= rank <= 9 && (red ==> rank == 5),
            Tile::Honor(_) => true,
        }
    }

    /// The text that names the tile.
    pub open spec fn text(self) -> Seq<char> {
        match self {
            Tile::Suited { suit, rank, red } => decimal(rank as nat) + seq![suit.letter()] + (
            if red {
                seq!['r']
            } else {
                Seq::empty()
            }),
            Tile::Honor(honor) => seq![honor.letter()],
        }
    }

    /// Whether the tile is a terminal or an honor.
    pub open spec fn terminal_or_honor(self) -> bool {
        match self {
            Tile::Suited { suit, rank, red } => rank == 1 || rank == 9,
            Tile::Honor(_) => true,
        }
    }

    /// Whether the tile is a terminal or an honor.
    pub fn is_yaochuuhai(self) -> (yaochuuhai: bool)
        ensures
            yaochuuhai == self.terminal_or_honor(),
            yaochuuhai == match self {
                Tile::Suited { suit, rank, red } => rank == 1 || rank == 9,
                Tile::Honor(_) => true,
            },
    {
        match self {
            Tile::Suited { rank, .. } => rank == 1 || rank == 9,
            Tile::Honor(_) => true,
        }
    }

    /// Writes the text that names the tile.
    pub fn to_string(&self) -> (text: String)
        ensures
            text@ == self.text(),
    {
        proof {
            reveal_strlit("r");
            reveal_strlit("P");
            reveal_strlit("F");
            reveal_strlit("C");
        }
        match *self {
            Tile::Suited { suit, rank, red } => {
                let mut text = decimal_text(rank as u64);
                text.append(suit.as_str());
                if red {
                    text.append("r");
                }
                assert(text@ =~= self.text());
                text
            },
            Tile::Honor(Honor::Wind(wind)) => wind.as_str().to_owned(),
            Tile::Honor(Honor::Dragon(dragon)) => match dragon {
                Dragon::Haku => "P".to_owned(),
                Dragon::Hatsu => "F".to_owned(),
                Dragon::Chun => "C".to_owned(),
            },
        }
    }

    /// Reads the text that names a tile. The error repeats the text.
    pub fn from_str(value: &str) -> (tile: Result<Self, ProtocolError>)
        ensures
            tile matches Ok(t) ==> parsed_tile(value@) == Some(t),
            tile matches Err(e) ==> {
                &&& parsed_tile(value@) is None
                &&& e matches ProtocolError::InvalidTile(text)
                &&& text@ == value@
            },
    {
        let length = value.unicode_len();
        if length == 1 {
            return match value.get_char(0) {
                'E' => Ok(Tile::Honor(Honor::Wind(Wind::East))),
                'S' => Ok(Tile::Honor(Honor::Wind(Wind::South))),
                'W' => Ok(Tile::Honor(Honor::Wind(Wind::West))),
                'N' => Ok(Tile::Honor(Honor::Wind(Wind::North))),
                'P' => Ok(Tile::Honor(Honor::Dragon(Dragon::Haku))),
                'F' => Ok(Tile::Honor(Honor::Dragon(Dragon::Hatsu))),
                'C' => Ok(Tile::Honor(Honor::Dragon(Dragon::Chun))),
                _ => Err(ProtocolError::InvalidTile(value.to_owned())),
            };
        }
        if !(length == 2 || length == 3) {
            return Err(ProtocolError::InvalidTile(value.to_owned()));
        }
        let digit = value.get_char(0);
        if !('1' <= digit && digit <= '9') {
            return Err(ProtocolError::InvalidTile(value.to_owned()));
        }
        let rank: u8 = digit as u8 - 48;
        let suit = match value.get_char(1) {
            'm' => Suit::Man,
            'p' => Suit::Pin,
            's' => Suit::Sou,
            _ => return Err(ProtocolError::InvalidTile(value.to_owned())),
        };
        let red = if length == 2 {
            false
        } else if value.get_char(2) == 'r' && rank == 5 {
            true
        } else {
            return Err(ProtocolError::InvalidTile(value.to_owned()));
        };
        Ok(Tile::Suited { suit, rank, red })
    }
}

impl std::str::FromStr for Tile {
    type Err = ProtocolError;

    fn from_str(value: &str) -> (tile: Result<Self, ProtocolError>)
        ensures
            tile matches Ok(t) ==> parsed_tile(value@) == Some(t),
            tile matches Err(e) ==> {
                &&& parsed_tile(value@) is None
                &&& e matches ProtocolError::InvalidTile(text)
                &&& text@ == value@
            },
    {
        Tile::from_str(value)
    }
}

/// Reading back the text of a tile that exists gives the tile.
pub proof fn law_tile_text_reads_back(tile: Tile)
    requires
        tile.exists_in_play(),
    ensures
        parsed_tile(tile.text()) == Some(tile),
{
}

/// A text that names a tile names one that exists, and is the text of that tile.
pub proof fn law_tile_writes_back(text: Seq<char>)
    ensures
        parsed_tile(text) matches Some(tile) ==> tile.exists_in_play() && tile.text() == text,
{
    if let Some(tile) = parsed_tile(text) {
        assert(tile.text() =~= text);
    }
}

/// A tile that may be hidden from the reader.
#[derive(Debug, Clone, Copy, PartialEq, Eq, Structural)]
pub enum MaybeMaskedTile {
    Known(Tile),
    Unknown,
}

/// The tile, known or hidden, that a text names.
pub open spec fn parsed_masked_tile(text: Seq<char>) -> Option<MaybeMaskedTile> {
    if text == seq!['?'] {
        Some(MaybeMaskedTile::Unknown)
    } else {
        match parsed_tile(text) {
            Some(tile) => Some(MaybeMaskedTile::Known(tile)),
            None => None,
        }
    }
}

impl MaybeMaskedTile {
    /// Whether a known tile exists.
    pub open spec fn exists_in_play(self) -> bool {
        match self {
            MaybeMaskedTile::Known(tile) => tile.exists_in_play(),
            MaybeMaskedTile::Unknown => true,
        }
    }

    /// The text of the tile: a question mark for a hidden one.
    pub open spec fn text(self) -> Seq<char> {
        match self {
            MaybeMaskedTile::Known(tile) => tile.text(),
            MaybeMaskedTile::Unknown => seq!['?'],
        }
    }

    /// Writes the text of the tile.
    pub fn to_string(&self) -> (text: String)
        ensures
            text@ == self.text(),
    {
        proof {
            reveal_strlit("?");
        }
        match self {
            MaybeMaskedTile::Known(tile) => tile.to_string(),
            MaybeMaskedTile::Unknown => {
                assert("?"@ =~= seq!['?']);
                "?".to_owned()
            },
        }
    }

    /// Reads the text of a tile that may be hidden. The error repeats the text.
    pub fn from_str(value: &str) -> (tile: Result<Self, ProtocolError>)
        ensures
            tile matches Ok(t) ==> parsed_masked_tile(value@) == Some(t),
            tile matches Err(e) ==> {
                &&& parsed_masked_tile(value@) is None
                &&& e matches ProtocolError::InvalidTile(text)
                &&& text@ == value@
            },
    {
        proof {
            reveal_strlit("?");
            assert("?"@ =~= seq!['?']);
        }
        if same_text(value, "?") {
            Ok(MaybeMaskedTile::Unknown)
        } else {
            match Tile::from_str(value) {
                Ok(tile) => Ok(MaybeMaskedTile::Known(tile)),
                Err(e) => Err(e),
            }
        }
    }
}

impl std::str::FromStr for MaybeMaskedTile {
    type Err = ProtocolError;

    fn from_str(value: &str) -> (tile: Result<Self, ProtocolError>)
        ensures
            tile matches Ok(t) ==> parsed_masked_tile(value@) == Some(t),
            tile matches Err(e) ==> {
                &&& parsed_masked_tile(value@) is None
                &&& e matches ProtocolError::InvalidTile(text)
                &&& text@ == value@
            },
    {
        MaybeMaskedTile::from_str(value)
    }
}

/// Reading back the text of a tile, hidden or existing, gives the tile.
pub proof fn law_masked_tile_text_reads_back(tile: MaybeMaskedTile)
    requires
        tile.exists_in_play(),
    ensures
        parsed_masked_tile(tile.text()) == Some(tile),
{
    if let MaybeMaskedTile::Known(known) = tile {
        law_tile_text_reads_back(known);
        assert(parsed_tile(seq!['?']) is None);
    }
}

/// A text that names a tile, known or hidden, is the text of that tile.
pub proof fn law_masked_tile_writes_back(text: Seq<char>)
    ensures
        parsed_masked_tile(text) matches Some(tile) ==> tile.exists_in_play() && tile.text()
            == text,
{
    law_tile_writes_back(text);
}

/// What a player does.
#[derive(Debug, Clone, PartialEq, Eq)]
pub enum Action {
    Dahai { actor: Seat, pai: Tile, tsumogiri: bool },
    Chi { actor: Seat, target: Seat, pai: Tile, consumed: Vec<Tile> },
    Pon { actor: Seat, target: Seat, pai: Tile, consumed: Vec<Tile> },
    Daiminkan { actor: Seat, target: Seat, pai: Tile, consumed: Vec<Tile> },
    Ankan { actor: Seat, consumed: Vec<Tile> },
    Kakan { actor: Seat, pai: Tile, consumed: Vec<Tile> },
    Reach { actor: Seat },
    Hora { actor: Seat, target: Option<Seat>, pai: Option<Tile> },
    Ryukyoku,
    Pass,
}

/// Fields of an event that the protocol does not name.
pub type ExtraFields = BTreeMap<String, serde_json::Value>;

/// What the server reports.
#[derive(Debug, Clone, PartialEq)]
pub enum Event {
    StartGame { id: Seat, extra: ExtraFields },
    StartKyoku {
        bakaze: Wind,
        kyoku: u8,
        honba: u8,
        kyotaku: u8,
        oya: Seat,
        dora_marker: Tile,
        tehais: Vec<Vec<MaybeMaskedTile>>,
        extra: ExtraFields,
    },
    Tsumo { actor: Seat, pai: MaybeMaskedTile, extra: ExtraFields },
    Dahai { actor: Seat, pai: Tile, tsumogiri: bool, extra: ExtraFields },
    Chi { actor: Seat, target: Seat, pai: Tile, consumed: Vec<Tile>, extra: ExtraFields },
    Pon { actor: Seat, target: Seat, pai: Tile, consumed: Vec<Tile>, extra: ExtraFields },
    Daiminkan { actor: Seat, target: Seat, pai: Tile, consumed: Vec<Tile>, extra: ExtraFields },
    Ankan { actor: Seat, consumed: Vec<Tile>, extra: ExtraFields },
    Kakan { actor: Seat, pai: Tile, consumed: Vec<Tile>, extra: ExtraFields },
    Reach { actor: Seat, extra: ExtraFields },
    Hora { actor: Seat, target: Option<Seat>, pai: Option<Tile>, extra: ExtraFields },
    EndKyoku { extra: ExtraFields },
    EndGame { scores: Vec<i32>, extra: ExtraFields },
    RequestAction { possible_actions: Vec<Action>, observation: String, extra: ExtraFields },
    ValidationResult { passed: bool, reason: Option<String>, extra: ExtraFields },
}

/// The letters of the winds: `E`, `S`, `W` and `N`.
pub proof fn law_wind_letters(text: Seq<char>)
    ensures
        parsed_wind(text) == Some(Wind::East) <==> text == seq!['E'],
        parsed_wind(text) == Some(Wind::South) <==> text == seq!['S'],
        parsed_wind(text) == Some(Wind::West) <==> text == seq!['W'],
        parsed_wind(text) == Some(Wind::North) <==> text == seq!['N'],
        Wind::East.letter() == 'E',
        Wind::South.letter() == 'S',
        Wind::West.letter() == 'W',
        Wind::North.letter() == 'N',
{
    law_wind_text_reads_back(Wind::East, text);
    law_wind_text_reads_back(Wind::South, text);
    law_wind_text_reads_back(Wind::West, text);
    law_wind_text_reads_back(Wind::North, text);
}

/// The texts of the honors, read and written: `E`, `S`, `W` and `N` for the winds, `P` for the white,
/// `F` for the green and `C` for the red dragon.
pub proof fn law_honor_texts(text: Seq<char>)
    ensures
        parsed_tile(text) == Some(Tile::Honor(Honor::Wind(Wind::East))) <==> text == seq!['E'],
        parsed_tile(text) == Some(Tile::Honor(Honor::Wind(Wind::South))) <==> text == seq!['S'],
        parsed_tile(text) == Some(Tile::Honor(Honor::Wind(Wind::West))) <==> text == seq!['W'],
        parsed_tile(text) == Some(Tile::Honor(Honor::Wind(Wind::North))) <==> text == seq!['N'],
        parsed_tile(text) == Some(Tile::Honor(Honor::Dragon(Dragon::Haku))) <==> text == seq!['P'],
        parsed_tile(text) == Some(Tile::Honor(Honor::Dragon(Dragon::Hatsu))) <==> text == seq!['F'],
        parsed_tile(text) == Some(Tile::Honor(Honor::Dragon(Dragon::Chun))) <==> text == seq!['C'],
        Tile::Honor(Honor::Wind(Wind::East)).text() == seq!['E'],
        Tile::Honor(Honor::Wind(Wind::South)).text() == seq!['S'],
        Tile::Honor(Honor::Wind(Wind::West)).text() == seq!['W'],
        Tile::Honor(Honor::Wind(Wind::North)).text() == seq!['N'],
        Tile::Honor(Honor::Dragon(Dragon::Haku)).text() == seq!['P'],
        Tile::Honor(Honor::Dragon(Dragon::Hatsu)).text() == seq!['F'],
        Tile::Honor(Honor::Dragon(Dragon::Chun)).text() == seq!['C'],
{
    law_tile_writes_back(text);
    law_tile_text_reads_back(Tile::Honor(Honor::Wind(Wind::East)));
    law_tile_text_reads_back(Tile::Honor(Honor::Wind(Wind::South)));
    law_tile_text_reads_back(Tile::Honor(Honor::Wind(Wind::West)));
    law_tile_text_reads_back(Tile::Honor(Honor::Wind(Wind::North)));
    law_tile_text_reads_back(Tile::Honor(Honor::Dragon(Dragon::Haku)));
    law_tile_text_reads_back(Tile::Honor(Honor::Dragon(Dragon::Hatsu)));
    law_tile_text_reads_back(Tile::Honor(Honor::Dragon(Dragon::Chun)));
}

/// A suited tile is read from its rank, from 1 to 9, and the letter `m`, `p` or `s` of its suit; a
/// red one only from the rank 5 with an `r` at the end.
pub proof fn law_suited_texts(text: Seq<char>, rank: u8)
    ensures
        parsed_tile(text) == Some(Tile::Suited { suit: Suit::Man, rank, red: false }) <==> 1 <= rank
            <= 9 && text == seq![('0' as int + rank) as char, 'm'],
        parsed_tile(text) == Some(Tile::Suited { suit: Suit::Pin, rank, red: false }) <==> 1 <= rank
            <= 9 && text == seq![('0' as int + rank) as char, 'p'],
        parsed_tile(text) == Some(Tile::Suited { suit: Suit::Sou, rank, red: false }) <==> 1 <= rank
            <= 9 && text == seq![('0' as int + rank) as char, 's'],
        parsed_tile(text) == Some(Tile::Suited { suit: Suit::Man, rank, red: true }) <==> rank == 5
            && text == seq!['5', 'm', 'r'],
        parsed_tile(text) == Some(Tile::Suited { suit: Suit::Pin, rank, red: true }) <==> rank == 5
            && text == seq!['5', 'p', 'r'],
        parsed_tile(text) == Some(Tile::Suited { suit: Suit::Sou, rank, red: true }) <==> rank == 5
            && text == seq!['5', 's', 'r'],
{
    if text.len() == 2 {
        assert(text =~= seq![text[0], text[1]]);
    }
    if text.len() == 3 {
        assert(text =~= seq![text[0], text[1], text[2]]);
    }
}

/// A suited tile is written as its rank in decimal, the letter of its suit, and an `r` if it is red.
pub proof fn law_suited_tiles_written(rank: u8)
    ensures
        (Tile::Suited { suit: Suit::Man, rank, red: false }).text() == decimal(rank as nat) + seq![
            'm',
        ],
        (Tile::Suited { suit: Suit::Pin, rank, red: false }).text() == decimal(rank as nat) + seq![
            'p',
        ],
        (Tile::Suited { suit: Suit::Sou, rank, red: false }).text() == decimal(rank as nat) + seq![
            's',
        ],
        (Tile::Suited { suit: Suit::Man, rank, red: true }).text() == decimal(rank as nat) + seq![
            'm',
            'r',
        ],
        (Tile::Suited { suit: Suit::Pin, rank, red: true }).text() == decimal(rank as nat) + seq![
            'p',
            'r',
        ],
        (Tile::Suited { suit: Suit::Sou, rank, red: true }).text() == decimal(rank as nat) + seq![
            's',
            'r',
        ],
{
    let digits = decimal(rank as nat);
    assert((Tile::Suited { suit: Suit::Man, rank, red: false }).text() =~= digits + seq!['m']);
    assert((Tile::Suited { suit: Suit::Pin, rank, red: false }).text() =~= digits + seq!['p']);
    assert((Tile::Suited { suit: Suit::Sou, rank, red: false }).text() =~= digits + seq!['s']);
    assert((Tile::Suited { suit: Suit::Man, rank, red: true }).text() =~= digits + seq!['m', 'r']);
    assert((Tile::Suited { suit: Suit::Pin, rank, red: true }).text() =~= digits + seq!['p', 'r']);
    assert((Tile::Suited { suit: Suit::Sou, rank, red: true }).text() =~= digits + seq!['s', 'r']);
}

/// Among the texts of tiles that may be hidden, a question mark stands for a hidden one, and every
/// other text for the tile that it names otherwise.
pub proof fn law_hidden_tile_text(text: Seq<char>, tile: Tile)
    ensures
        parsed_masked_tile(text) == Some(MaybeMaskedTile::Unknown) <==> text == seq!['?'],
        parsed_masked_tile(text) == Some(MaybeMaskedTile::Known(tile)) <==> parsed_tile(text)
            == Some(tile),
        MaybeMaskedTile::Unknown.text() == seq!['?'],
        MaybeMaskedTile::Known(tile).text() == tile.text(),
{
    assert(parsed_tile(seq!['?']) is None);
}

/// The messages of the errors name what is wrong and repeat the value.
pub proof fn law_value_error_messages(value: u8, text: String)
    ensures
        ProtocolError::InvalidSeat(value).message() == "invalid seat: "@ + decimal(value as nat),
        ProtocolError::InvalidTile(text).message() == "invalid tile: "@ + text@,
{
}

/// A tile is a terminal or an honor exactly if its text is a single letter or begins with the rank 1
/// or 9; so no tile from 2 to 8 is, and the suit does not matter.
pub proof fn law_terminals_and_honors_by_text(text: Seq<char>)
    ensures
        parsed_tile(text) matches Some(tile) ==> (tile.terminal_or_honor() <==> text.len() == 1
            || text[0] == '1' || text[0] == '9'),
{
}

} // verus!
