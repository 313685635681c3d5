use vstd::prelude::*;

verus! {

/// The platform a game runs on.
#[derive(Clone, Copy, Debug, PartialEq, Eq, Structural)]
pub enum GameType {
    Mobile,
    Desktop,
    Web,
    Unspecified,
}

/// The genre of a game.
#[derive(Clone, Copy, Debug, PartialEq, Eq, Structural)]
pub enum Genre {
    Rpg,
    Mmo,
    Action,
    Adventure,
    Puzzle,
    Casual,
    Unspecified,
}

/// The game type a stored code stands for; unknown codes are unspecified.
pub open spec fn game_type_of(val: u8) -> GameType {
    if val == 0 {
        GameType::Mobile
    } else if val == 1 {
        GameType::Desktop
    } else if val == 2 {
        GameType::Web
    } else {
        GameType::Unspecified
    }
}

/// The genre a stored code stands for; unknown codes are unspecified.
pub open spec fn genre_of(val: u8) -> Genre {
    if val == 0 {
        Genre::Rpg
    } else if val == 1 {
        Genre::Mmo
    } else if val == 2 {
        Genre::Action
    } else if val == 3 {
        Genre::Adventure
    } else if val == 4 {
        Genre::Puzzle
    } else if val == 5 {
        Genre::Casual
    } else {
        Genre::Unspecified
    }
}

impl From<u8> for GameType {
    fn from(val: u8) -> (r: GameType) {
        match val {
            0 => GameType::Mobile,
            1 => GameType::Desktop,
            2 => GameType::Web,
            _ => GameType::Unspecified,
        }
    }
}

impl vstd::std_specs::convert::FromSpecImpl<u8> for GameType {
    open spec fn obeys_from_spec() -> bool {
        true
    }

    open spec fn from_spec(v: u8) -> GameType {
        game_type_of(v)
    }
}

impl From<u8> for Genre {
    fn from(val: u8) -> (r: Genre) {
        match val {
            0 => Genre::Rpg,
            1 => Genre::Mmo,
            2 => Genre::Action,
            3 => Genre::Adventure,
            4 => Genre::Puzzle,
            5 => Genre::Casual,
            _ => Genre::Unspecified,
        }
    }
}

impl vstd::std_specs::convert::FromSpecImpl<u8> for Genre {
    open spec fn obeys_from_spec() -> bool {
        true
    }

    open spec fn from_spec(v: u8) -> Genre {
        genre_of(v)
    }
}

} // verus!
