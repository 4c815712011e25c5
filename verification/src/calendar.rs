//! The French republican calendar: months of thirty days, weeks of ten, and
//! a plant, animal or tool for every day of the year.

use vstd::prelude::*;
use vstd::string::*;
use crate::text::{decimal, decimal_text};

verus! {

/// A month of the republican year, or the complementary days at its end.
#[derive(Clone, Copy, Debug, PartialEq, Eq, Structural)]
pub enum Month {
    /// Vendémiaire, the month of the grape harvest.
    Vnd,
    /// Brumaire, the month of mist.
    Bru,
    /// Frimaire, the month of frost.
    Fri,
    /// Nivôse, the month of snow.
    Niv,
    /// Pluviôse, the month of rain.
    Plu,
    /// Ventôse, the month of wind.
    Vnt,
    /// Germinal, the month of germination.
    Ger,
    /// Floréal, the month of flowers.
    Flo,
    /// Prairial, the month of meadows.
    Pra,
    /// Messidor, the month of harvest.
    Mes,
    /// Thermidor, the month of heat.
    The,
    /// Fructidor, the month of fruit.
    Fru,
    /// Sans-Culottides, the complementary days that close the year.
    SC,
}

/// The text with which a month past the thirteenth is refused.
pub open spec fn month_out_of_range() -> Seq<char> {
    "Month cannot be strictly greater than 12"@
}

impl Month {
    /// The month at place `index` of the year, from 0.
    pub open spec fn at(index: int) -> Month {
        if index == 0 {
            Month::Vnd
        } else if index == 1 {
            Month::Bru
        } else if index == 2 {
            Month::Fri
        } else if index == 3 {
            Month::Niv
        } else if index == 4 {
            Month::Plu
        } else if index == 5 {
            Month::Vnt
        } else if index == 6 {
            Month::Ger
        } else if index == 7 {
            Month::Flo
        } else if index == 8 {
            Month::Pra
        } else if index == 9 {
            Month::Mes
        } else if index == 10 {
            Month::The
        } else if index == 11 {
            Month::Fru
        } else {
            Month::SC
        }
    }

    /// The month's name.
    pub open spec fn full_name(self) -> Seq<char> {
        match self {
            Month::Vnd => "Vendémiaire"@,
            Month::Bru => "Brumaire"@,
            Month::Fri => "Frimaire"@,
            Month::Niv => "Nivôse"@,
            Month::Plu => "Pluviôse"@,
            Month::Vnt => "Ventôse"@,
            Month::Ger => "Germinal"@,
            Month::Flo => "Floréal"@,
            Month::Pra => "Prairial"@,
            Month::Mes => "Messidor"@,
            Month::The => "Thermidor"@,
            Month::Fru => "Fructidor"@,
            Month::SC => "Sans-Culottides"@,
        }
    }

    /// The month at place `value` of the year, from 0; there are thirteen.
    pub fn from_index(value: u8) -> (month: Result<Month, &'static str>)
        ensures
            match month {
                Ok(found) => value <= 12 && found == Month::at(value as int),
                Err(text) => value > 12 && text@ == month_out_of_range(),
            },
    {
        match value {
            0 => Ok(Month::Vnd),
            1 => Ok(Month::Bru),
            2 => Ok(Month::Fri),
            3 => Ok(Month::Niv),
            4 => Ok(Month::Plu),
            5 => Ok(Month::Vnt),
            6 => Ok(Month::Ger),
            7 => Ok(Month::Flo),
            8 => Ok(Month::Pra),
            9 => Ok(Month::Mes),
            10 => Ok(Month::The),
            11 => Ok(Month::Fru),
            12 => Ok(Month::SC),
            _ => Err("Month cannot be strictly greater than 12"),
        }
    }

    /// The month's name.
    pub fn name(self) -> (text: &'static str)
        ensures
            text@ == self.full_name(),
    {
        match self {
            Month::Vnd => "Vendémiaire",
            Month::Bru => "Brumaire",
            Month::Fri => "Frimaire",
            Month::Niv => "Nivôse",
            Month::Plu => "Pluviôse",
            Month::Vnt => "Ventôse",
            Month::Ger => "Germinal",
            Month::Flo => "Floréal",
            Month::Pra => "Prairial",
            Month::Mes => "Messidor",
            Month::The => "Thermidor",
            Month::Fru => "Fructidor",
            Month::SC => "Sans-Culottides",
        }
    }
}

/// What each day of Vendémiaire is named after.
pub open spec fn vnd_symbol(day: u8) -> Seq<char> {
    match day {
        1u8 => "du raisin"@,
        2u8 => "du safran"@,
        3u8 => "de la châtaigne"@,
        4u8 => "de la colchique"@,
        5u8 => "du cheval"@,
        6u8 => "de la balsamine"@,
        7u8 => "de la carotte"@,
        8u8 => "de l'amaranthe"@,
        9u8 => "du panais"@,
        10u8 => "de la cuve"@,
        11u8 => "de la pomme de terre"@,
        12u8 => "de l'immortelle"@,
        13u8 => "du potiron"@,
        14u8 => "de la réséda"@,
        15u8 => "de l'âne"@,
        16u8 => "de la belle de nuit"@,
        17u8 => "de la citrouille"@,
        18u8 => "du sarrasin"@,
        19u8 => "du tournesol"@,
        20u8 => "du pressoir"@,
        21u8 => "du chanvre"@,
        22u8 => "de la pêche"@,
        23u8 => "du navet"@,
        24u8 => "de l'amaryllis"@,
        25u8 => "du bœuf"@,
        26u8 => "de l'aubergine"@,
        27u8 => "du piment"@,
        28u8 => "de la tomate"@,
        29u8 => "de l'orge"@,
        30u8 => "du tonneau"@,
        _ => "ERROR"@,
    }
}

/// Looks up what a day of Vendémiaire is named after.
fn vnd_day_symbol(day: u8) -> (text: &'static str)
    ensures
        text@ == vnd_symbol(day),
{
    match day {
        1u8 => "du raisin",
        2u8 => "du safran",
        3u8 => "de la châtaigne",
        4u8 => "de la colchique",
        5u8 => "du cheval",
        6u8 => "de la balsamine",
        7u8 => "de la carotte",
        8u8 => "de l'amaranthe",
        9u8 => "du panais",
        10u8 => "de la cuve",
        11u8 => "de la pomme de terre",
        12u8 => "de l'immortelle",
        13u8 => "du potiron",
        14u8 => "de la réséda",
        15u8 => "de l'âne",
        16u8 => "de la belle de nuit",
        17u8 => "de la citrouille",
        18u8 => "du sarrasin",
        19u8 => "du tournesol",
        20u8 => "du pressoir",
        21u8 => "du chanvre",
        22u8 => "de la pêche",
        23u8 => "du navet",
        24u8 => "de l'amaryllis",
        25u8 => "du bœuf",
        26u8 => "de l'aubergine",
        27u8 => "du piment",
        28u8 => "de la tomate",
        29u8 => "de l'orge",
        30u8 => "du tonneau",
        _ => "ERROR",
    }
}

/// What each day of Brumaire is named after.
pub open spec fn bru_symbol(day: u8) -> Seq<char> {
    match day {
        1u8 => "de la pomme"@,
        2u8 => "du céleri"@,
        3u8 => "de la poire"@,
        4u8 => "de la betterave"@,
        5u8 => "de l'oie"@,
        6u8 => "de l'héliotrope"@,
        7u8 => "de la figue"@,
        8u8 => "de la scorsonère"@,
        9u8 => "de l'alisier"@,
        10u8 => "de la charrue"@,
        11u8 => "du salsifis"@,
        12u8 => "de la mâcre"@,
        13u8 => "du topinambour"@,
        14u8 => "de l'endive"@,
        15u8 => "du dindon"@,
        16u8 => "du chervis"@,
        17u8 => "du cresson"@,
        18u8 => "de la dentelaire"@,
        19u8 => "de la grenade"@,
        20u8 => "de la herse"@,
        21u8 => "de la bacchante"@,
        22u8 => "de l'azerole"@,
        23u8 => "de la garance"@,
        24u8 => "de l'orange"@,
        25u8 => "du faisan"@,
        26u8 => "de la pistache"@,
        27u8 => "du macjonc"@,
        28u8 => "du coing"@,
        29u8 => "du cormier"@,
        30u8 => "du rouleau"@,
        _ => "ERROR"@,
    }
}

/// Looks up what a day of Brumaire is named after.
fn bru_day_symbol(day: u8) -> (text: &'static str)
    ensures
        text@ == bru_symbol(day),
{
    match day {
        1u8 => "de la pomme",
        2u8 => "du céleri",
        3u8 => "de la poire",
        4u8 => "de la betterave",
        5u8 => "de l'oie",
        6u8 => "de l'héliotrope",
        7u8 => "de la figue",
        8u8 => "de la scorsonère",
        9u8 => "de l'alisier",
        10u8 => "de la charrue",
        11u8 => "du salsifis",
        12u8 => "de la mâcre",
        13u8 => "du topinambour",
        14u8 => "de l'endive",
        15u8 => "du dindon",
        16u8 => "du chervis",
        17u8 => "du cresson",
        18u8 => "de la dentelaire",
        19u8 => "de la grenade",
        20u8 => "de la herse",
        21u8 => "de la bacchante",
        22u8 => "de l'azerole",
        23u8 => "de la garance",
        24u8 => "de l'orange",
        25u8 => "du faisan",
        26u8 => "de la pistache",
        27u8 => "du macjonc",
        28u8 => "du coing",
        29u8 => "du cormier",
        30u8 => "du rouleau",
        _ => "ERROR",
    }
}

/// What each day of Frimaire is named after.
pub open spec fn fri_symbol(day: u8) -> Seq<char> {
    match day {
        1u8 => "de la raiponce"@,
        2u8 => "du turneps"@,
        3u8 => "de la chicorée"@,
        4u8 => "du nèfle"@,
        5u8 => "du cochon"@,
        6u8 => "de la mâche"@,
        7u8 => "du chou-fleur"@,
        8u8 => "du miel"@,
        9u8 => "de la genièvre"@,
        10u8 => "de la pioche"@,
        11u8 => "de la cire"@,
        12u8 => "de la cire"@,
        13u8 => "du cèdre"@,
        14u8 => "du sapin"@,
        15u8 => "du chevreuil"@,
        16u8 => "de l'ajonc"@,
        17u8 => "du cyprès"@,
        18u8 => "du lierre"@,
        19u8 => "de la sabine"@,
        20u8 => "du hoyau"@,
        21u8 => "de l'érable à sucre"@,
        22u8 => "de la bruyère"@,
        23u8 => "du roseau"@,
        24u8 => "de l'oseille"@,
        25u8 => "du grillon"@,
        26u8 => "du pignon"@,
        27u8 => "de la liège"@,
        28u8 => "de la truffe"@,
        29u8 => "de l'olive"@,
        30u8 => "de la pelle"@,
        _ => "ERROR"@,
    }
}

/// Looks up what a day of Frimaire is named after.
fn fri_day_symbol(day: u8) -> (text: &'static str)
    ensures
        text@ == fri_symbol(day),
{
    match day {
        1u8 => "de la raiponce",
        2u8 => "du turneps",
        3u8 => "de la chicorée",
        4u8 => "du nèfle",
        5u8 => "du cochon",
        6u8 => "de la mâche",
        7u8 => "du chou-fleur",
        8u8 => "du miel",
        9u8 => "de la genièvre",
        10u8 => "de la pioche",
        11u8 => "de la cire",
        12u8 => "de la cire",
        13u8 => "du cèdre",
        14u8 => "du sapin",
        15u8 => "du chevreuil",
        16u8 => "de l'ajonc",
        17u8 => "du cyprès",
        18u8 => "du lierre",
        19u8 => "de la sabine",
        20u8 => "du hoyau",
        21u8 => "de l'érable à sucre",
        22u8 => "de la bruyère",
        23u8 => "du roseau",
        24u8 => "de l'oseille",
        25u8 => "du grillon",
        26u8 => "du pignon",
        27u8 => "de la liège",
        28u8 => "de la truffe",
        29u8 => "de l'olive",
        30u8 => "de la pelle",
        _ => "ERROR",
    }
}

/// What each day of Nivôse is named after.
pub open spec fn niv_symbol(day: u8) -> Seq<char> {
    match day {
        1u8 => "de la tourbe"@,
        2u8 => "de la houille"@,
        3u8 => "du bitume"@,
        4u8 => "du soufre"@,
        5u8 => "du chien"@,
        6u8 => "de la lave"@,
        7u8 => "de la terre végétale"@,
        8u8 => "du fumier"@,
        9u8 => "du salpêtre"@,
        10u8 => "du fléau"@,
        11u8 => "du granit"@,
        12u8 => "de l'argile"@,
        13u8 => "de l'ardoise"@,
        14u8 => "du grès"@,
        15u8 => "du lapin"@,
        16u8 => "du silex"@,
        17u8 => "de la marne"@,
        18u8 => "de la pierre à chaux"@,
        19u8 => "du marbre"@,
        20u8 => "du van"@,
        21u8 => "de la pierre à plâtre"@,
        22u8 => "du sel"@,
        23u8 => "du fer"@,
        24u8 => "du cuivre"@,
        25u8 => "du chat"@,
        26u8 => "de l'étain"@,
        27u8 => "du plomb"@,
        28u8 => "du zinc"@,
        29u8 => "du mercure"@,
        30u8 => "du crible"@,
        _ => "ERROR"@,
    }
}

/// Looks up what a day of Nivôse is named after.
fn niv_day_symbol(day: u8) -> (text: &'static str)
    ensures
        text@ == niv_symbol(day),
{
    match day {
        1u8 => "de la tourbe",
        2u8 => "de la houille",
        3u8 => "du bitume",
        4u8 => "du soufre",
        5u8 => "du chien",
        6u8 => "de la lave",
        7u8 => "de la terre végétale",
        8u8 => "du fumier",
        9u8 => "du salpêtre",
        10u8 => "du fléau",
        11u8 => "du granit",
        12u8 => "de l'argile",
        13u8 => "de l'ardoise",
        14u8 => "du grès",
        15u8 => "du lapin",
        16u8 => "du silex",
        17u8 => "de la marne",
        18u8 => "de la pierre à chaux",
        19u8 => "du marbre",
        20u8 => "du van",
        21u8 => "de la pierre à plâtre",
        22u8 => "du sel",
        23u8 => "du fer",
        24u8 => "du cuivre",
        25u8 => "du chat",
        26u8 => "de l'étain",
        27u8 => "du plomb",
        28u8 => "du zinc",
        29u8 => "du mercure",
        30u8 => "du crible",
        _ => "ERROR",
    }
}

/// What each day of Pluviôse is named after.
pub open spec fn plu_symbol(day: u8) -> Seq<char> {
    match day {
        1u8 => "de lauréole"@,
        2u8 => "de la mousse"@,
        3u8 => "du fragon"@,
        4u8 => "du perce-neige"@,
        5u8 => "du taureau"@,
        6u8 => "du laurier-tin"@,
        7u8 => "de l'amadouvier"@,
        8u8 => "du mézéréon"@,
        9u8 => "du peuplier"@,
        10u8 => "de la cognée"@,
        11u8 => "de l'ellébore"@,
        12u8 => "du brocoli"@,
        13u8 => "du laurier"@,
        14u8 => "de l'avelinier"@,
        15u8 => "de la vache"@,
        16u8 => "du buis"@,
        17u8 => "du lichen"@,
        18u8 => "de l'if"@,
        19u8 => "de la pulmonaire"@,
        20u8 => "de la serpette"@,
        21u8 => "de la thlaspi"@,
        22u8 => "du thimele"@,
        23u8 => "du chiendent"@,
        24u8 => "de la trainasse"@,
        25u8 => "du lièvre"@,
        26u8 => "du guède"@,
        27u8 => "du noisetier"@,
        28u8 => "de la cyclamen"@,
        29u8 => "de la chélidoine"@,
        30u8 => "du traîneau"@,
        _ => "ERROR"@,
    }
}

/// Looks up what a day of Pluviôse is named after.
fn plu_day_symbol(day: u8) -> (text: &'static str)
    ensures
        text@ == plu_symbol(day),
{
    match day {
        1u8 => "de lauréole",
        2u8 => "de la mousse",
        3u8 => "du fragon",
        4u8 => "du perce-neige",
        5u8 => "du taureau",
        6u8 => "du laurier-tin",
        7u8 => "de l'amadouvier",
        8u8 => "du mézéréon",
        9u8 => "du peuplier",
        10u8 => "de la cognée",
        11u8 => "de l'ellébore",
        12u8 => "du brocoli",
        13u8 => "du laurier",
        14u8 => "de l'avelinier",
        15u8 => "de la vache",
        16u8 => "du buis",
        17u8 => "du lichen",
        18u8 => "de l'if",
        19u8 => "de la pulmonaire",
        20u8 => "de la serpette",
        21u8 => "de la thlaspi",
        22u8 => "du thimele",
        23u8 => "du chiendent",
        24u8 => "de la trainasse",
        25u8 => "du lièvre",
        26u8 => "du guède",
        27u8 => "du noisetier",
        28u8 => "de la cyclamen",
        29u8 => "de la chélidoine",
        30u8 => "du traîneau",
        _ => "ERROR",
    }
}

/// What each day of Ventôse is named after.
pub open spec fn vnt_symbol(day: u8) -> Seq<char> {
    match day {
        1u8 => "du tussilage"@,
        2u8 => "du cornouiller"@,
        3u8 => "du violier"@,
        4u8 => "du troène"@,
        5u8 => "du bouc"@,
        6u8 => "des asaret"@,
        7u8 => "de l'alaterne"@,
        8u8 => "de la violette"@,
        9u8 => "du marceau"@,
        10u8 => "de la bêche"@,
        11u8 => "de la narcisse"@,
        12u8 => "de l'orme"@,
        13u8 => "des fumeterre"@,
        14u8 => "de la vélar"@,
        15u8 => "de la chèvre"@,
        16u8 => "de l'épinard"@,
        17u8 => "de la doronic"@,
        18u8 => "du mouron"@,
        19u8 => "du cerfeuil"@,
        20u8 => "du cordeau"@,
        21u8 => "de la mandragore"@,
        22u8 => "du persil"@,
        23u8 => "du cochléaria"@,
        24u8 => "de la pâquerette"@,
        25u8 => "du thon"@,
        26u8 => "du pissenlit"@,
        27u8 => "de la sylvie"@,
        28u8 => "de la capillaire"@,
        29u8 => "du frêne"@,
        30u8 => "du plantoir"@,
        _ => "ERROR"@,
    }
}

/// Looks up what a day of Ventôse is named after.
fn vnt_day_symbol(day: u8) -> (text: &'static str)
    ensures
        text@ == vnt_symbol(day),
{
    match day {
        1u8 => "du tussilage",
        2u8 => "du cornouiller",
        3u8 => "du violier",
        4u8 => "du troène",
        5u8 => "du bouc",
        6u8 => "des asaret",
        7u8 => "de l'alaterne",
        8u8 => "de la violette",
        9u8 => "du marceau",
        10u8 => "de la bêche",
        11u8 => "de la narcisse",
        12u8 => "de l'orme",
        13u8 => "des fumeterre",
        14u8 => "de la vélar",
        15u8 => "de la chèvre",
        16u8 => "de l'épinard",
        17u8 => "de la doronic",
        18u8 => "du mouron",
        19u8 => "du cerfeuil",
        20u8 => "du cordeau",
        21u8 => "de la mandragore",
        22u8 => "du persil",
        23u8 => "du cochléaria",
        24u8 => "de la pâquerette",
        25u8 => "du thon",
        26u8 => "du pissenlit",
        27u8 => "de la sylvie",
        28u8 => "de la capillaire",
        29u8 => "du frêne",
        30u8 => "du plantoir",
        _ => "ERROR",
    }
}

/// What each day of Germinal is named after.
pub open spec fn ger_symbol(day: u8) -> Seq<char> {
    match day {
        1u8 => "de la primevère"@,
        2u8 => "du platane"@,
        3u8 => "de l'asperge"@,
        4u8 => "de la tulipe"@,
        5u8 => "de la poule"@,
        6u8 => "de la bette"@,
        7u8 => "du bouleau"@,
        8u8 => "de la jonquille"@,
        9u8 => "de l'aulne"@,
        10u8 => "du couvoir"@,
        11u8 => "de la pervenche"@,
        12u8 => "du charme"@,
        13u8 => "de la morille"@,
        14u8 => "de l'hêtre"@,
        15u8 => "de l'abeille"@,
        16u8 => "de la laitue"@,
        17u8 => "du mélèze"@,
        18u8 => "de la ciguë"@,
        19u8 => "du radis"@,
        20u8 => "de la ruche"@,
        21u8 => "du gainier"@,
        22u8 => "de la romaine"@,
        23u8 => "du marronnier"@,
        24u8 => "de la roquette"@,
        25u8 => "du pigeon"@,
        26u8 => "du lilas"@,
        27u8 => "de l'anémone"@,
        28u8 => "de la pensée"@,
        29u8 => "de la myrtille"@,
        30u8 => "du greffoir"@,
        _ => "ERROR"@,
    }
}

/// Looks up what a day of Germinal is named after.
fn ger_day_symbol(day: u8) -> (text: &'static str)
    ensures
        text@ == ger_symbol(day),
{
    match day {
        1u8 => "de la primevère",
        2u8 => "du platane",
        3u8 => "de l'asperge",
        4u8 => "de la tulipe",
        5u8 => "de la poule",
        6u8 => "de la bette",
        7u8 => "du bouleau",
        8u8 => "de la jonquille",
        9u8 => "de l'aulne",
        10u8 => "du couvoir",
        11u8 => "de la pervenche",
        12u8 => "du charme",
        13u8 => "de la morille",
        14u8 => "de l'hêtre",
        15u8 => "de l'abeille",
        16u8 => "de la laitue",
        17u8 => "du mélèze",
        18u8 => "de la ciguë",
        19u8 => "du radis",
        20u8 => "de la ruche",
        21u8 => "du gainier",
        22u8 => "de la romaine",
        23u8 => "du marronnier",
        24u8 => "de la roquette",
        25u8 => "du pigeon",
        26u8 => "du lilas",
        27u8 => "de l'anémone",
        28u8 => "de la pensée",
        29u8 => "de la myrtille",
        30u8 => "du greffoir",
        _ => "ERROR",
    }
}

/// What each day of Floréal is named after.
pub open spec fn flo_symbol(day: u8) -> Seq<char> {
    match day {
        1u8 => "de la rose"@,
        2u8 => "du chêne"@,
        3u8 => "de la fougère"@,
        4u8 => "de l'aubépine"@,
        5u8 => "du rossignol"@,
        6u8 => "de l'ancolie"@,
        7u8 => "du muguet"@,
        8u8 => "du champignon"@,
        9u8 => "de la hyacinthe"@,
        10u8 => "du râteau"@,
        11u8 => "de la rhubarbe"@,
        12u8 => "du sainfoin"@,
        13u8 => "du bâton-d'or"@,
        14u8 => "du chamérisier"@,
        15u8 => "du ver à soie"@,
        16u8 => "de la consoude"@,
        17u8 => "de la pimprenelle"@,
        18u8 => "de la corbeille d'or"@,
        19u8 => "de l'arroche"@,
        20u8 => "du sarcloir"@,
        21u8 => "de la statice"@,
        22u8 => "de la fritillaire"@,
        23u8 => "de la bourrache"@,
        24u8 => "de la valériane"@,
        25u8 => "de la carpe"@,
        26u8 => "du fusain"@,
        27u8 => "de la civette"@,
        28u8 => "de la buglosse"@,
        29u8 => "de la sénevé"@,
        30u8 => "de la houlette"@,
        _ => "ERROR"@,
    }
}

/// Looks up what a day of Floréal is named after.
fn flo_day_symbol(day: u8) -> (text: &'static str)
    ensures
        text@ == flo_symbol(day),
{
    match day {
        1u8 => "de la rose",
        2u8 => "du chêne",
        3u8 => "de la fougère",
        4u8 => "de l'aubépine",
        5u8 => "du rossignol",
        6u8 => "de l'ancolie",
        7u8 => "du muguet",
        8u8 => "du champignon",
        9u8 => "de la hyacinthe",
        10u8 => "du râteau",
        11u8 => "de la rhubarbe",
        12u8 => "du sainfoin",
        13u8 => "du bâton-d'or",
        14u8 => "du chamérisier",
        15u8 => "du ver à soie",
        16u8 => "de la consoude",
        17u8 => "de la pimprenelle",
        18u8 => "de la corbeille d'or",
        19u8 => "de l'arroche",
        20u8 => "du sarcloir",
        21u8 => "de la statice",
        22u8 => "de la fritillaire",
        23u8 => "de la bourrache",
        24u8 => "de la valériane",
        25u8 => "de la carpe",
        26u8 => "du fusain",
        27u8 => "de la civette",
        28u8 => "de la buglosse",
        29u8 => "de la sénevé",
        30u8 => "de la houlette",
        _ => "ERROR",
    }
}

/// What each day of Prairial is named after.
pub open spec fn pra_symbol(day: u8) -> Seq<char> {
    match day {
        1u8 => "de la luzerne"@,
        2u8 => "de l'hémérocalle"@,
        3u8 => "du trèfle"@,
        4u8 => "de l'angélique"@,
        5u8 => "du canard"@,
        6u8 => "de la mélisse"@,
        7u8 => "du fromental"@,
        8u8 => "du martagon"@,
        9u8 => "du serpolet"@,
        10u8 => "de la faux"@,
        11u8 => "de la fraise"@,
        12u8 => "de la bétoine"@,
        13u8 => "du pois"@,
        14u8 => "de l'acacia"@,
        15u8 => "de la caille"@,
        16u8 => "de l'œillet"@,
        17u8 => "du sureau"@,
        18u8 => "du pavot"@,
        19u8 => "du tilleul"@,
        20u8 => "de la fourche"@,
        21u8 => "du barbeau"@,
        22u8 => "de la camomille"@,
        23u8 => "du chèvrefeuille"@,
        24u8 => "de la caille-lait"@,
        25u8 => "de la tanche"@,
        26u8 => "du jasmin"@,
        27u8 => "de la verveine"@,
        28u8 => "du thym"@,
        29u8 => "de la pivoine"@,
        30u8 => "du chariot"@,
        _ => "ERROR"@,
    }
}

/// Looks up what a day of Prairial is named after.
fn pra_day_symbol(day: u8) -> (text: &'static str)
    ensures
        text@ == pra_symbol(day),
{
    match day {
        1u8 => "de la luzerne",
        2u8 => "de l'hémérocalle",
        3u8 => "du trèfle",
        4u8 => "de l'angélique",
        5u8 => "du canard",
        6u8 => "de la mélisse",
        7u8 => "du fromental",
        8u8 => "du martagon",
        9u8 => "du serpolet",
        10u8 => "de la faux",
        11u8 => "de la fraise",
        12u8 => "de la bétoine",
        13u8 => "du pois",
        14u8 => "de l'acacia",
        15u8 => "de la caille",
        16u8 => "de l'œillet",
        17u8 => "du sureau",
        18u8 => "du pavot",
        19u8 => "du tilleul",
        20u8 => "de la fourche",
        21u8 => "du barbeau",
        22u8 => "de la camomille",
        23u8 => "du chèvrefeuille",
        24u8 => "de la caille-lait",
        25u8 => "de la tanche",
        26u8 => "du jasmin",
        27u8 => "de la verveine",
        28u8 => "du thym",
        29u8 => "de la pivoine",
        30u8 => "du chariot",
        _ => "ERROR",
    }
}

/// What each day of Messidor is named after.
pub open spec fn mes_symbol(day: u8) -> Seq<char> {
    match day {
        1u8 => "du seigle"@,
        2u8 => "de l'avoine"@,
        3u8 => "de l'oignon"@,
        4u8 => "de la véronique"@,
        5u8 => "du mulet"@,
        6u8 => "du romarin"@,
        7u8 => "du concombre"@,
        8u8 => "de l'échalote"@,
        9u8 => "de l'absinthe"@,
        10u8 => "de la faucille"@,
        11u8 => "de la coriandre"@,
        12u8 => "de l'artichaut"@,
        13u8 => "de la giroflée"@,
        14u8 => "de la lavande"@,
        15u8 => "du chamois"@,
        16u8 => "du tabac"@,
        17u8 => "de la groseille"@,
        18u8 => "de la gesse"@,
        19u8 => "de la cerise"@,
        20u8 => "du parc"@,
        21u8 => "de la menthe"@,
        22u8 => "du cumin"@,
        23u8 => "du haricot"@,
        24u8 => "de l'orcanète"@,
        25u8 => "de la pintade"@,
        26u8 => "de la sauge"@,
        27u8 => "de l'ail"@,
        28u8 => "de la vesce"@,
        29u8 => "du blé"@,
        30u8 => "de la chalemie"@,
        _ => "ERROR"@,
    }
}

/// Looks up what a day of Messidor is named after.
fn mes_day_symbol(day: u8) -> (text: &'static str)
    ensures
        text@ == mes_symbol(day),
{
    match day {
        1u8 => "du seigle",
        2u8 => "de l'avoine",
        3u8 => "de l'oignon",
        4u8 => "de la véronique",
        5u8 => "du mulet",
        6u8 => "du romarin",
        7u8 => "du concombre",
        8u8 => "de l'échalote",
        9u8 => "de l'absinthe",
        10u8 => "de la faucille",
        11u8 => "de la coriandre",
        12u8 => "de l'artichaut",
        13u8 => "de la giroflée",
        14u8 => "de la lavande",
        15u8 => "du chamois",
        16u8 => "du tabac",
        17u8 => "de la groseille",
        18u8 => "de la gesse",
        19u8 => "de la cerise",
        20u8 => "du parc",
        21u8 => "de la menthe",
        22u8 => "du cumin",
        23u8 => "du haricot",
        24u8 => "de l'orcanète",
        25u8 => "de la pintade",
        26u8 => "de la sauge",
        27u8 => "de l'ail",
        28u8 => "de la vesce",
        29u8 => "du blé",
        30u8 => "de la chalemie",
        _ => "ERROR",
    }
}

/// What each day of Thermidor is named after.
pub open spec fn the_symbol(day: u8) -> Seq<char> {
    match day {
        1u8 => "de l'épeautre"@,
        2u8 => "du bouillon-blanc"@,
        3u8 => "du melon"@,
        4u8 => "de l'ivraie"@,
        5u8 => "du bélier"@,
        6u8 => "de la prêle"@,
        7u8 => "de l'armoise"@,
        8u8 => "de la carthame"@,
        9u8 => "de la mûre"@,
        10u8 => "de l'arrosoir"@,
        11u8 => "de la panic"@,
        12u8 => "de la salicorne"@,
        13u8 => "de l'abricot"@,
        14u8 => "du basilic"@,
        15u8 => "de la brebis"@,
        16u8 => "de la guimauve"@,
        17u8 => "du lin"@,
        18u8 => "de l'amande"@,
        19u8 => "de la gentiane"@,
        20u8 => "de l'écluse"@,
        21u8 => "de la carline"@,
        22u8 => "du câprier"@,
        23u8 => "de la lentille"@,
        24u8 => "de l'aunée"@,
        25u8 => "de la loutre"@,
        26u8 => "de la myrte"@,
        27u8 => "du colza"@,
        28u8 => "du lupin"@,
        29u8 => "du coton"@,
        30u8 => "du moulin"@,
        _ => "ERROR"@,
    }
}

/// Looks up what a day of Thermidor is named after.
fn the_day_symbol(day: u8) -> (text: &'static str)
    ensures
        text@ == the_symbol(day),
{
    match day {
        1u8 => "de l'épeautre",
        2u8 => "du bouillon-blanc",
        3u8 => "du melon",
        4u8 => "de l'ivraie",
        5u8 => "du bélier",
        6u8 => "de la prêle",
        7u8 => "de l'armoise",
        8u8 => "de la carthame",
        9u8 => "de la mûre",
        10u8 => "de l'arrosoir",
        11u8 => "de la panic",
        12u8 => "de la salicorne",
        13u8 => "de l'abricot",
        14u8 => "du basilic",
        15u8 => "de la brebis",
        16u8 => "de la guimauve",
        17u8 => "du lin",
        18u8 => "de l'amande",
        19u8 => "de la gentiane",
        20u8 => "de l'écluse",
        21u8 => "de la carline",
        22u8 => "du câprier",
        23u8 => "de la lentille",
        24u8 => "de l'aunée",
        25u8 => "de la loutre",
        26u8 => "de la myrte",
        27u8 => "du colza",
        28u8 => "du lupin",
        29u8 => "du coton",
        30u8 => "du moulin",
        _ => "ERROR",
    }
}

/// What each day of Fructidor is named after.
pub open spec fn fru_symbol(day: u8) -> Seq<char> {
    match day {
        1u8 => "de la prune"@,
        2u8 => "du millet"@,
        3u8 => "du lycoperdon"@,
        4u8 => "de l'escourgeon"@,
        5u8 => "du saumon"@,
        6u8 => "de la tubéreuse"@,
        7u8 => "du sucrion"@,
        8u8 => "de l'apocyn"@,
        9u8 => "de la réglisse"@,
        10u8 => "de l'échelle"@,
        11u8 => "de la pastèque"@,
        12u8 => "du fenouil"@,
        13u8 => "de l'épine-vinette"@,
        14u8 => "de la noix"@,
        15u8 => "de la truite"@,
        16u8 => "du citron"@,
        17u8 => "de la cardère"@,
        18u8 => "du nerprun"@,
        19u8 => "de la tagette"@,
        20u8 => "de la hotte"@,
        21u8 => "de l'églantier"@,
        22u8 => "de la noisette"@,
        23u8 => "du houblon"@,
        24u8 => "du sorgho"@,
        25u8 => "de l'écrevisse"@,
        26u8 => "de la bigarade"@,
        27u8 => "de la verge d'or"@,
        28u8 => "du maïs"@,
        29u8 => "du marron"@,
        30u8 => "du panier"@,
        _ => "ERROR"@,
    }
}

/// Looks up what a day of Fructidor is named after.
fn fru_day_symbol(day: u8) -> (text: &'static str)
    ensures
        text@ == fru_symbol(day),
{
    match day {
        1u8 => "de la prune",
        2u8 => "du millet",
        3u8 => "du lycoperdon",
        4u8 => "de l'escourgeon",
        5u8 => "du saumon",
        6u8 => "de la tubéreuse",
        7u8 => "du sucrion",
        8u8 => "de l'apocyn",
        9u8 => "de la réglisse",
        10u8 => "de l'échelle",
        11u8 => "de la pastèque",
        12u8 => "du fenouil",
        13u8 => "de l'épine-vinette",
        14u8 => "de la noix",
        15u8 => "de la truite",
        16u8 => "du citron",
        17u8 => "de la cardère",
        18u8 => "du nerprun",
        19u8 => "de la tagette",
        20u8 => "de la hotte",
        21u8 => "de l'églantier",
        22u8 => "de la noisette",
        23u8 => "du houblon",
        24u8 => "du sorgho",
        25u8 => "de l'écrevisse",
        26u8 => "de la bigarade",
        27u8 => "de la verge d'or",
        28u8 => "du maïs",
        29u8 => "du marron",
        30u8 => "du panier",
        _ => "ERROR",
    }
}

/// What each day of Sans-Culottides is named after.
pub open spec fn sc_symbol(day: u8) -> Seq<char> {
    match day {
        1u8 => "la fête de la vertu"@,
        2u8 => "la fête du génie"@,
        3u8 => "la fête du travail"@,
        4u8 => "la fête de l'opinion"@,
        5u8 => "la fête des récompenses"@,
        6u8 => "la fête de la révolution"@,
        _ => "ERROR"@,
    }
}

/// Looks up what a day of Sans-Culottides is named after.
fn sc_day_symbol(day: u8) -> (text: &'static str)
    ensures
        text@ == sc_symbol(day),
{
    match day {
        1u8 => "la fête de la vertu",
        2u8 => "la fête du génie",
        3u8 => "la fête du travail",
        4u8 => "la fête de l'opinion",
        5u8 => "la fête des récompenses",
        6u8 => "la fête de la révolution",
        _ => "ERROR",
    }
}

/// What the day `day` of `month` is named after: a plant, an animal, a tool,
/// or for the complementary days a virtue to celebrate. A day that the month
/// does not have is named `ERROR`.
pub open spec fn symbol_of(month: Month, day: u8) -> Seq<char> {
    match month {
        Month::Vnd => vnd_symbol(day),
        Month::Bru => bru_symbol(day),
        Month::Fri => fri_symbol(day),
        Month::Niv => niv_symbol(day),
        Month::Plu => plu_symbol(day),
        Month::Vnt => vnt_symbol(day),
        Month::Ger => ger_symbol(day),
        Month::Flo => flo_symbol(day),
        Month::Pra => pra_symbol(day),
        Month::Mes => mes_symbol(day),
        Month::The => the_symbol(day),
        Month::Fru => fru_symbol(day),
        Month::SC => sc_symbol(day),
    }
}

/// The name of the day of the ten-day week on which the day `day` of a
/// month falls.
pub open spec fn weekday_of(day: u8) -> Seq<char> {
    let place = day % 10;
    if place == 1 {
        "Primedi"@
    } else if place == 2 {
        "Duodi"@
    } else if place == 3 {
        "Tridi"@
    } else if place == 4 {
        "Quartidi"@
    } else if place == 5 {
        "Quintidi"@
    } else if place == 6 {
        "Sextidi"@
    } else if place == 7 {
        "Septidi"@
    } else if place == 8 {
        "Octidi"@
    } else if place == 9 {
        "Nonidi"@
    } else {
        "Décadi"@
    }
}

/// The date of year `year` that lies `day_of_year` days after the year's
/// first day. Months have thirty days each; the complementary days follow
/// the twelfth month and are counted as a thirteenth. A day that falls in no
/// month, or before the year, is refused.
pub open spec fn date_of_yd(year: int, day_of_year: int) -> Result<RepublicanDate, Seq<char>> {
    if 0 <= day_of_year < 390 && i32::MIN <= year <= i32::MAX {
        Ok(
            RepublicanDate {
                year: year as i32,
                month: Month::at(day_of_year / 30),
                day: (day_of_year % 30 + 1) as u8,
            },
        )
    } else {
        Err(month_out_of_range())
    }
}

/// A date of the republican calendar.
#[derive(Clone, Copy, Debug, PartialEq, Eq, Structural)]
pub struct RepublicanDate {
    pub year: i32,
    pub month: Month,
    /// The day of the month, from 1.
    pub day: u8,
}

impl RepublicanDate {
    /// The date of year `y` that lies `day_of_year` days after the year's
    /// first day.
    pub fn from_yd(y: i32, day_of_year: i64) -> (date: Result<RepublicanDate, &'static str>)
        ensures
            match date {
                Ok(found) => date_of_yd(y as int, day_of_year as int) == Ok::<
                    RepublicanDate,
                    Seq<char>,
                >(found),
                Err(text) => date_of_yd(y as int, day_of_year as int) == Err::<
                    RepublicanDate,
                    Seq<char>,
                >(text@),
            },
    {
        if day_of_year < 0 || day_of_year >= 390 {
            return Err("Month cannot be strictly greater than 12");
        }
        let raw_m: i64 = day_of_year / 30;
        let day: i64 = day_of_year - raw_m * 30 + 1;
        match Month::from_index(raw_m as u8) {
            Ok(month) => Ok(RepublicanDate { year: y, month, day: day as u8 }),
            Err(text) => Err(text),
        }
    }

    /// Day of the week.
    pub fn day_name(&self) -> (text: &'static str)
        ensures
            text@ == weekday_of(self.day),
    {
        let place: u8 = self.day % 10;
        if place == 1 {
            "Primedi"
        } else if place == 2 {
            "Duodi"
        } else if place == 3 {
            "Tridi"
        } else if place == 4 {
            "Quartidi"
        } else if place == 5 {
            "Quintidi"
        } else if place == 6 {
            "Sextidi"
        } else if place == 7 {
            "Septidi"
        } else if place == 8 {
            "Octidi"
        } else if place == 9 {
            "Nonidi"
        } else {
            "Décadi"
        }
    }

    /// Name of the plant, tool, animal or symbol of the peasant world that
    /// the day is named after.
    pub fn day_symbol(&self) -> (text: &'static str)
        ensures
            text@ == symbol_of(self.month, self.day),
    {
        match self.month {
            Month::Vnd => vnd_day_symbol(self.day),
            Month::Bru => bru_day_symbol(self.day),
            Month::Fri => fri_day_symbol(self.day),
            Month::Niv => niv_day_symbol(self.day),
            Month::Plu => plu_day_symbol(self.day),
            Month::Vnt => vnt_day_symbol(self.day),
            Month::Ger => ger_day_symbol(self.day),
            Month::Flo => flo_day_symbol(self.day),
            Month::Pra => pra_day_symbol(self.day),
            Month::Mes => mes_day_symbol(self.day),
            Month::The => the_day_symbol(self.day),
            Month::Fru => fru_day_symbol(self.day),
            Month::SC => sc_day_symbol(self.day),
        }
    }
}

/// A date in words: the day, the month, the year, what the day is named
/// after, and the day of the week.
pub open spec fn date_text(date: RepublicanDate) -> Seq<char> {
    decimal_text(date.day as int) + " "@ + date.month.full_name() + " "@ + decimal_text(
        date.year as int,
    ) + " − jour "@ + symbol_of(date.month, date.day) + " − et c'est un "@ + weekday_of(date.day)
}

impl RepublicanDate {
    /// Writes the date in words.
    pub fn to_text(&self) -> (text: String)
        ensures
            text@ == date_text(*self),
    {
        decimal(self.day as i64).concat(" ").concat(self.month.name()).concat(" ").concat(
            decimal(self.year as i64).as_str(),
        ).concat(" − jour ").concat(self.day_symbol()).concat(" − et c'est un ").concat(
            self.day_name(),
        )
    }
}

} // verus!
