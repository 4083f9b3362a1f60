//! Discrete ecology rules: species catalogs of every biome and the noise
//! picks of the species expected on a region tile.  Habitat strengths are
//! floating point and computed by the generator around these functions.
use vstd::prelude::*;
use vstd::string::StringExecFns;
use crate::prng::{noise_bits, scaled_floor, scaled_index, spec_noise_bits, NOISE_SCALE};
use crate::settlement::NOISE_BELOW_0_50;
use crate::types::{tile_type_from_index, spec_tile_from_index, TileType};

verus! {

/// Species listed per biome and life kind.
pub const SPECIES_PER_BIOME: usize = 10usize;

#[derive(Debug, Clone, Copy, PartialEq, Eq, Structural)]
pub enum FaunaGroup {
    LargeMammal,
    Bird,
    SmallFauna,
}

#[derive(Debug, Clone, Copy, PartialEq, Eq, Structural)]
pub enum LifeKind {
    Flora,
    Fauna,
}

#[derive(Debug, Clone, Copy)]
pub struct FloraDef {
    pub name: &'static str,
    pub subspecies: [&'static str; 2],
}

#[derive(Debug, Clone, Copy)]
pub struct FaunaDef {
    pub name: &'static str,
    pub subspecies: [&'static str; 2],
    pub group: FaunaGroup,
}

/// Flora catalog entry `i` of a biome: name and its two subspecies.
#[verifier::opaque]
pub open spec fn flora_entry(biome: TileType, i: int) -> (Seq<char>, Seq<char>, Seq<char>) {
    match biome {
        TileType::DeepWater => {
            if i == 0 {
                ("Glon abisalny"@, "ciemny"@, "świecący"@)
            } else if i == 1 {
                ("Maty bakteryjne"@, "siarkowe"@, "żelaziste"@)
            } else if i == 2 {
                ("Gąbka głębinowa"@, "szklana"@, "koralowa"@)
            } else if i == 3 {
                ("Mech hydrotermalny"@, "czerwony"@, "biały"@)
            } else if i == 4 {
                ("Krzewik kominowy"@, "niski"@, "wysoki"@)
            } else if i == 5 {
                ("Alga nitkowata"@, "rzadka"@, "gęsta"@)
            } else if i == 6 {
                ("Plankton roślinny"@, "zielony"@, "czerwony"@)
            } else if i == 7 {
                ("Porost skalny głębin"@, "szary"@, "fioletowy"@)
            } else if i == 8 {
                ("Wodorosty dryfujące"@, "wąskie"@, "szerokie"@)
            } else {
                ("Kolonia bakterii kominowych"@, "gęsta"@, "luźna"@)
            }
        },
        TileType::Water => {
            if i == 0 {
                ("Trawa morska"@, "zielona"@, "siwa"@)
            } else if i == 1 {
                ("Listownica"@, "olbrzymia"@, "karłowata"@)
            } else if i == 2 {
                ("Glon płytki"@, "brunatny"@, "czerwony"@)
            } else if i == 3 {
                ("Lilia wodna"@, "biała"@, "różowa"@)
            } else if i == 4 {
                ("Trzcina brzegowa"@, "wysoka"@, "niska"@)
            } else if i == 5 {
                ("Rdestnica"@, "wąskolistna"@, "szerokolistna"@)
            } else if i == 6 {
                ("Moczarka"@, "zwarta"@, "luźna"@)
            } else if i == 7 {
                ("Grążel"@, "żółty"@, "kremowy"@)
            } else if i == 8 {
                ("Wodorost zatokowy"@, "pierzasty"@, "taśmowy"@)
            } else {
                ("Mech wodny"@, "ciemny"@, "jasny"@)
            }
        },
        TileType::Sand => {
            if i == 0 {
                ("Trawa wydmowa"@, "piaskowa"@, "siwa"@)
            } else if i == 1 {
                ("Rukiew nadmorska"@, "niska"@, "płożąca"@)
            } else if i == 2 {
                ("Sosna nadmorska"@, "krzywa"@, "wyprostowana"@)
            } else if i == 3 {
                ("Rokietta"@, "kolczasta"@, "miękka"@)
            } else if i == 4 {
                ("Mikołajek"@, "srebrny"@, "zielony"@)
            } else if i == 5 {
                ("Wierzba piaskowa"@, "krzew"@, "drzewko"@)
            } else if i == 6 {
                ("Szczotlicha"@, "gęsta"@, "rzadka"@)
            } else if i == 7 {
                ("Łubin piaskowy"@, "niebieski"@, "żółty"@)
            } else if i == 8 {
                ("Jałowiec wydmowy"@, "płożący"@, "stożkowy"@)
            } else {
                ("Kocanka"@, "żółta"@, "biała"@)
            }
        },
        TileType::RockyShore => {
            if i == 0 {
                ("Porost skalny"@, "pomarańczowy"@, "szary"@)
            } else if i == 1 {
                ("Glon przyboju"@, "zielony"@, "brunatny"@)
            } else if i == 2 {
                ("Armeria"@, "różowa"@, "biała"@)
            } else if i == 3 {
                ("Rozchodnik nadmorski"@, "żółty"@, "czerwony"@)
            } else if i == 4 {
                ("Traganek skalny"@, "niski"@, "płożący"@)
            } else if i == 5 {
                ("Wrzosiec nadmorski"@, "różowy"@, "fioletowy"@)
            } else if i == 6 {
                ("Paproć skalna"@, "delikatna"@, "sztywna"@)
            } else if i == 7 {
                ("Mech basenów pływowych"@, "ciemny"@, "jasny"@)
            } else if i == 8 {
                ("Kapusta morska"@, "liściasta"@, "kędzierzawa"@)
            } else {
                ("Soliród"@, "zielony"@, "czerwony"@)
            }
        },
        TileType::Desert => {
            if i == 0 {
                ("Kaktus kolumnowy"@, "wysoki"@, "rozgałęziony"@)
            } else if i == 1 {
                ("Agawa"@, "niebieskawa"@, "zielona"@)
            } else if i == 2 {
                ("Akacja pustynna"@, "cierniowa"@, "bezcierniowa"@)
            } else if i == 3 {
                ("Trawa stepowa"@, "srebrna"@, "złota"@)
            } else if i == 4 {
                ("Palma oazowa"@, "daktylowa"@, "wachlarzowa"@)
            } else if i == 5 {
                ("Aloes"@, "kolczasty"@, "gładki"@)
            } else if i == 6 {
                ("Bylina solniskowa"@, "czerwona"@, "szara"@)
            } else if i == 7 {
                ("Saksauł"@, "niski"@, "wysoki"@)
            } else if i == 8 {
                ("Kwiat pustynny"@, "biały"@, "fioletowy"@)
            } else {
                ("Mech kamienny"@, "czarny"@, "zielony"@)
            }
        },
        TileType::Savanna => {
            if i == 0 {
                ("Baobab"@, "krótki"@, "olbrzymi"@)
            } else if i == 1 {
                ("Akacja parasolowa"@, "płaska"@, "stożkowa"@)
            } else if i == 2 {
                ("Trawa wysoka"@, "złota"@, "zielona"@)
            } else if i == 3 {
                ("Krzew cierniowy"@, "gęsty"@, "rzadki"@)
            } else if i == 4 {
                ("Aloes sawannowy"@, "kolumnowy"@, "rozetowy"@)
            } else if i == 5 {
                ("Palma dzika"@, "niska"@, "wysoka"@)
            } else if i == 6 {
                ("Bylina sezonowa"@, "czerwona"@, "żółta"@)
            } else if i == 7 {
                ("Trawa słoniowa"@, "gęsta"@, "luźna"@)
            } else if i == 8 {
                ("Krzew jagodowy"@, "czerwony"@, "czarny"@)
            } else {
                ("Kwiat sawannowy"@, "pomarańczowy"@, "biały"@)
            }
        },
        TileType::Grass => {
            if i == 0 {
                ("Trawa łąkowa"@, "miękka"@, "sztywna"@)
            } else if i == 1 {
                ("Macierzanka"@, "różowa"@, "fioletowa"@)
            } else if i == 2 {
                ("Rumianek"@, "biały"@, "żółty"@)
            } else if i == 3 {
                ("Koniczyna"@, "biała"@, "czerwona"@)
            } else if i == 4 {
                ("Jaskier"@, "żółty"@, "złoty"@)
            } else if i == 5 {
                ("Dziurawiec"@, "niski"@, "wysoki"@)
            } else if i == 6 {
                ("Chaber"@, "niebieski"@, "fioletowy"@)
            } else if i == 7 {
                ("Mak polny"@, "czerwony"@, "różowy"@)
            } else if i == 8 {
                ("Wierzba łąkowa"@, "krzew"@, "drzewko"@)
            } else {
                ("Paproć łąkowa"@, "delikatna"@, "sztywna"@)
            }
        },
        TileType::Swamp => {
            if i == 0 {
                ("Trzcina"@, "wysoka"@, "niska"@)
            } else if i == 1 {
                ("Pałka wodna"@, "szeroka"@, "wąska"@)
            } else if i == 2 {
                ("Torfowiec"@, "czerwony"@, "zielony"@)
            } else if i == 3 {
                ("Olcha bagienna"@, "niska"@, "wysoka"@)
            } else if i == 4 {
                ("Skrzyp"@, "polny"@, "bagienny"@)
            } else if i == 5 {
                ("Kosaciec"@, "żółty"@, "niebieski"@)
            } else if i == 6 {
                ("Bluszcz bagienny"@, "płożący"@, "pnący"@)
            } else if i == 7 {
                ("Grzyb bagienny"@, "biały"@, "czarny"@)
            } else if i == 8 {
                ("Rosiczka"@, "okrągłolistna"@, "długolistna"@)
            } else {
                ("Wierzba bagienna"@, "srebrna"@, "zielona"@)
            }
        },
        TileType::Shrubland => {
            if i == 0 {
                ("Jałowiec"@, "płożący"@, "drzewiasty"@)
            } else if i == 1 {
                ("Wrzos"@, "różowy"@, "biały"@)
            } else if i == 2 {
                ("Dzika róża"@, "czerwona"@, "biała"@)
            } else if i == 3 {
                ("Głóg"@, "kolczasty"@, "miękki"@)
            } else if i == 4 {
                ("Lawenda"@, "wąskolistna"@, "szerokolistna"@)
            } else if i == 5 {
                ("Rozmaryn"@, "wyprostowany"@, "płożący"@)
            } else if i == 6 {
                ("Tymianek"@, "cytrynowy"@, "klasyczny"@)
            } else if i == 7 {
                ("Pistacja dzika"@, "niska"@, "wysoka"@)
            } else if i == 8 {
                ("Ostrokrzew"@, "ciernisty"@, "gładki"@)
            } else {
                ("Szałwia"@, "fioletowa"@, "srebrna"@)
            }
        },
        TileType::Forest => {
            if i == 0 {
                ("Dąb"@, "szypułkowy"@, "bezszypułkowy"@)
            } else if i == 1 {
                ("Buk"@, "zwyczajny"@, "czerwony"@)
            } else if i == 2 {
                ("Sosna"@, "zwyczajna"@, "limba"@)
            } else if i == 3 {
                ("Świerk"@, "pospolity"@, "srebrny"@)
            } else if i == 4 {
                ("Brzoza"@, "brodawkowata"@, "omszona"@)
            } else if i == 5 {
                ("Paproć orlica"@, "wysoka"@, "niska"@)
            } else if i == 6 {
                ("Borówka"@, "czarna"@, "brusznica"@)
            } else if i == 7 {
                ("Grzyb kapeluszowy"@, "jadalny"@, "trujący"@)
            } else if i == 8 {
                ("Bluszcz"@, "pospolity"@, "kolchidzki"@)
            } else {
                ("Leszczyna"@, "krzew"@, "drzewko"@)
            }
        },
        TileType::Rainforest => {
            if i == 0 {
                ("Drzewo koron"@, "szerokie"@, "smukłe"@)
            } else if i == 1 {
                ("Liana"@, "gruba"@, "cienka"@)
            } else if i == 2 {
                ("Storczyk"@, "fioletowy"@, "biały"@)
            } else if i == 3 {
                ("Paproć drzewiasta"@, "wysoka"@, "niska"@)
            } else if i == 4 {
                ("Bromelia"@, "czerwona"@, "zielona"@)
            } else if i == 5 {
                ("Figowiec banyan"@, "pojedynczy"@, "wielopienny"@)
            } else if i == 6 {
                ("Palma deszczowa"@, "wachlarzowa"@, "pierzasta"@)
            } else if i == 7 {
                ("Grzyb świecący"@, "zielony"@, "niebieski"@)
            } else if i == 8 {
                ("Epifit"@, "młody"@, "dojrzały"@)
            } else {
                ("Rafflezja"@, "czerwona"@, "plamista"@)
            }
        },
        TileType::Mountain => {
            if i == 0 {
                ("Kosodrzewina"@, "gęsta"@, "rzadka"@)
            } else if i == 1 {
                ("Goryczka"@, "niebieska"@, "żółta"@)
            } else if i == 2 {
                ("Szarotka"@, "klasyczna"@, "szerokolistna"@)
            } else if i == 3 {
                ("Różeniec"@, "różowy"@, "żółty"@)
            } else if i == 4 {
                ("Mech skalny"@, "szary"@, "zielony"@)
            } else if i == 5 {
                ("Porost mapowy"@, "żółty"@, "pomarańczowy"@)
            } else if i == 6 {
                ("Wierzba karłowata"@, "płożąca"@, "krzew"@)
            } else if i == 7 {
                ("Dzwonek alpejski"@, "fioletowy"@, "biały"@)
            } else if i == 8 {
                ("Sasanka"@, "biała"@, "fioletowa"@)
            } else {
                ("Jałowiec górski"@, "płożący"@, "stożkowy"@)
            }
        },
        TileType::Tundra => {
            if i == 0 {
                ("Mech reniferowy"@, "szary"@, "zielony"@)
            } else if i == 1 {
                ("Porost karłowaty"@, "żółty"@, "czarny"@)
            } else if i == 2 {
                ("Wierzba polarna"@, "płożąca"@, "krzewinka"@)
            } else if i == 3 {
                ("Wełnianka"@, "biała"@, "kremowa"@)
            } else if i == 4 {
                ("Skalnica"@, "różowa"@, "biała"@)
            } else if i == 5 {
                ("Borówka polarna"@, "czerwona"@, "niebieska"@)
            } else if i == 6 {
                ("Trawa tundry"@, "krótka"@, "kępkowa"@)
            } else if i == 7 {
                ("Driada"@, "ośmiopłatkowa"@, "karłowata"@)
            } else if i == 8 {
                ("Jaskier polarny"@, "żółty"@, "biały"@)
            } else {
                ("Turzyca polarna"@, "wąska"@, "szeroka"@)
            }
        },
        TileType::Snow => {
            if i == 0 {
                ("Porost nunataku"@, "czarny"@, "pomarańczowy"@)
            } else if i == 1 {
                ("Mech lodowcowy"@, "zielony"@, "czerwony"@)
            } else if i == 2 {
                ("Alga śnieżna"@, "czerwona"@, "zielona"@)
            } else if i == 3 {
                ("Wierzba nunatakowa"@, "karłowata"@, "płożąca"@)
            } else if i == 4 {
                ("Skalnica lodowa"@, "biała"@, "różowa"@)
            } else if i == 5 {
                ("Turzyca śnieżna"@, "kępkowa"@, "luźna"@)
            } else if i == 6 {
                ("Porost mapowy lodowy"@, "żółty"@, "szary"@)
            } else if i == 7 {
                ("Bylina efemeryczna"@, "biała"@, "fioletowa"@)
            } else if i == 8 {
                ("Mech szczelinowy"@, "ciemny"@, "jasny"@)
            } else {
                ("Glon firnowy"@, "różowy"@, "pomarańczowy"@)
            }
        },
    }
}

/// Fauna catalog entry `i` of a biome: name, its two subspecies and its group.
#[verifier::opaque]
pub open spec fn fauna_entry(biome: TileType, i: int) -> (Seq<char>, Seq<char>, Seq<char>, FaunaGroup) {
    match biome {
        TileType::DeepWater => {
            if i == 0 {
                ("Ryba abisalna"@, "zębata"@, "ślepa"@, FaunaGroup::SmallFauna)
            } else if i == 1 {
                ("Kałamarnica olbrzymia"@, "północna"@, "równikowa"@, FaunaGroup::LargeMammal)
            } else if i == 2 {
                ("Krab kominowy"@, "czerwony"@, "czarny"@, FaunaGroup::SmallFauna)
            } else if i == 3 {
                ("Meduza głębinowa"@, "świecąca"@, "ciemna"@, FaunaGroup::SmallFauna)
            } else if i == 4 {
                ("Węgorz głębinowy"@, "smukły"@, "gruby"@, FaunaGroup::SmallFauna)
            } else if i == 5 {
                ("Krewetka świecąca"@, "różowa"@, "niebieska"@, FaunaGroup::SmallFauna)
            } else if i == 6 {
                ("Rekin głębinowy"@, "mały"@, "duży"@, FaunaGroup::LargeMammal)
            } else if i == 7 {
                ("Homar abisalny"@, "kolczasty"@, "gładki"@, FaunaGroup::SmallFauna)
            } else if i == 8 {
                ("Ośmiornica głębinowa"@, "mimikra"@, "jadowita"@, FaunaGroup::SmallFauna)
            } else {
                ("Wieloryb nurkujący"@, "krótki nurk"@, "długi nurk"@, FaunaGroup::LargeMammal)
            }
        },
        TileType::Water => {
            if i == 0 {
                ("Ryba ławicowa"@, "srebrna"@, "niebieska"@, FaunaGroup::SmallFauna)
            } else if i == 1 {
                ("Delfin"@, "przybrzeżny"@, "oceaniczny"@, FaunaGroup::LargeMammal)
            } else if i == 2 {
                ("Foka"@, "szara"@, "cętkowana"@, FaunaGroup::LargeMammal)
            } else if i == 3 {
                ("Żółw morski"@, "zielony"@, "skórzasty"@, FaunaGroup::LargeMammal)
            } else if i == 4 {
                ("Mewa"@, "biała"@, "ciemnoskrzydła"@, FaunaGroup::Bird)
            } else if i == 5 {
                ("Krab brzegowy"@, "zielony"@, "czerwony"@, FaunaGroup::SmallFauna)
            } else if i == 6 {
                ("Ostryga"@, "płaska"@, "kubkowata"@, FaunaGroup::SmallFauna)
            } else if i == 7 {
                ("Sum jeziorny"@, "pstry"@, "czarny"@, FaunaGroup::SmallFauna)
            } else if i == 8 {
                ("Wydra"@, "rzeczna"@, "morska"@, FaunaGroup::LargeMammal)
            } else {
                ("Kormoran"@, "czarny"@, "dwubarwny"@, FaunaGroup::Bird)
            }
        },
        TileType::Sand => {
            if i == 0 {
                ("Krab piaskowy"@, "szybki"@, "norujący"@, FaunaGroup::SmallFauna)
            } else if i == 1 {
                ("Mewa srebrzysta"@, "morska"@, "śródlądowa"@, FaunaGroup::Bird)
            } else if i == 2 {
                ("Jaszczurka piaskowa"@, "pstra"@, "jednolita"@, FaunaGroup::SmallFauna)
            } else if i == 3 {
                ("Żuk gnojowy"@, "mały"@, "duży"@, FaunaGroup::SmallFauna)
            } else if i == 4 {
                ("Zając piaskowy"@, "jasny"@, "cętkowany"@, FaunaGroup::LargeMammal)
            } else if i == 5 {
                ("Sieweczka"@, "krótkodzioba"@, "długodzioba"@, FaunaGroup::Bird)
            } else if i == 6 {
                ("Wąż piaskowy"@, "piaskowy"@, "szary"@, FaunaGroup::SmallFauna)
            } else if i == 7 {
                ("Lis pustynny"@, "jasny"@, "rudawy"@, FaunaGroup::LargeMammal)
            } else if i == 8 {
                ("Skorpion piaskowy"@, "żółty"@, "czarny"@, FaunaGroup::SmallFauna)
            } else {
                ("Żółw lądowy"@, "płaski"@, "wysoki"@, FaunaGroup::LargeMammal)
            }
        },
        TileType::RockyShore => {
            if i == 0 {
                ("Mewa klifowa"@, "głośna"@, "cicha"@, FaunaGroup::Bird)
            } else if i == 1 {
                ("Kormoran klifowy"@, "czarny"@, "dwubarwny"@, FaunaGroup::Bird)
            } else if i == 2 {
                ("Foka klifowa"@, "szara"@, "plamista"@, FaunaGroup::LargeMammal)
            } else if i == 3 {
                ("Krab skalny"@, "czerwony"@, "zielony"@, FaunaGroup::SmallFauna)
            } else if i == 4 {
                ("Ślimak przyboju"@, "stożkowy"@, "spiralny"@, FaunaGroup::SmallFauna)
            } else if i == 5 {
                ("Ucho morskie"@, "zielone"@, "różowe"@, FaunaGroup::SmallFauna)
            } else if i == 6 {
                ("Jaszczurka klifowa"@, "szara"@, "zielona"@, FaunaGroup::SmallFauna)
            } else if i == 7 {
                ("Bielik"@, "jasny"@, "ciemny"@, FaunaGroup::Bird)
            } else if i == 8 {
                ("Wydra skalna"@, "krótka"@, "długa"@, FaunaGroup::LargeMammal)
            } else {
                ("Maskonur"@, "kolorowy"@, "blady"@, FaunaGroup::Bird)
            }
        },
        TileType::Desert => {
            if i == 0 {
                ("Wielbłąd"@, "jednogarbny"@, "dwugarbny"@, FaunaGroup::LargeMammal)
            } else if i == 1 {
                ("Fenek"@, "uszy duże"@, "uszy średnie"@, FaunaGroup::LargeMammal)
            } else if i == 2 {
                ("Skorpion"@, "żółty"@, "czarny"@, FaunaGroup::SmallFauna)
            } else if i == 3 {
                ("Wąż piaskowy"@, "rogaty"@, "gładki"@, FaunaGroup::SmallFauna)
            } else if i == 4 {
                ("Jaszczurka pustynna"@, "kołnierzasta"@, "gładka"@, FaunaGroup::SmallFauna)
            } else if i == 5 {
                ("Orzeł pustynny"@, "jasny"@, "ciemny"@, FaunaGroup::Bird)
            } else if i == 6 {
                ("Gazela"@, "dorcas"@, "dama"@, FaunaGroup::LargeMammal)
            } else if i == 7 {
                ("Żuk pustynny"@, "czarny"@, "metaliczny"@, FaunaGroup::SmallFauna)
            } else if i == 8 {
                ("Sowa pustynna"@, "mała"@, "średnia"@, FaunaGroup::Bird)
            } else {
                ("Szarańcza"@, "zielona"@, "piaskowa"@, FaunaGroup::SmallFauna)
            }
        },
        TileType::Savanna => {
            if i == 0 {
                ("Lew"@, "grzywa ciemna"@, "grzywa jasna"@, FaunaGroup::LargeMammal)
            } else if i == 1 {
                ("Zebra"@, "wąskopaska"@, "szerokopaska"@, FaunaGroup::LargeMammal)
            } else if i == 2 {
                ("Żyrafa"@, "siatkowana"@, "plamista"@, FaunaGroup::LargeMammal)
            } else if i == 3 {
                ("Słoń"@, "sawannowy"@, "karłowaty"@, FaunaGroup::LargeMammal)
            } else if i == 4 {
                ("Antylopa"@, "impala"@, "gnu"@, FaunaGroup::LargeMammal)
            } else if i == 5 {
                ("Hiena"@, "cętkowana"@, "pręgowana"@, FaunaGroup::LargeMammal)
            } else if i == 6 {
                ("Struś"@, "czarny"@, "brązowy"@, FaunaGroup::Bird)
            } else if i == 7 {
                ("Gepard"@, "klasyczny"@, "królewski"@, FaunaGroup::LargeMammal)
            } else if i == 8 {
                ("Sekretarz"@, "jasny"@, "ciemny"@, FaunaGroup::Bird)
            } else {
                ("Waran"@, "szary"@, "żółty"@, FaunaGroup::SmallFauna)
            }
        },
        TileType::Grass => {
            if i == 0 {
                ("Sarna"@, "jasna"@, "ciemna"@, FaunaGroup::LargeMammal)
            } else if i == 1 {
                ("Zając"@, "szary"@, "rudawy"@, FaunaGroup::LargeMammal)
            } else if i == 2 {
                ("Lis"@, "rudy"@, "krzyżak"@, FaunaGroup::LargeMammal)
            } else if i == 3 {
                ("Skowronek"@, "polny"@, "leśny"@, FaunaGroup::Bird)
            } else if i == 4 {
                ("Motyl łąkowy"@, "żółty"@, "niebieski"@, FaunaGroup::SmallFauna)
            } else if i == 5 {
                ("Pszczoła"@, "miodna"@, "dzika"@, FaunaGroup::SmallFauna)
            } else if i == 6 {
                ("Jeż"@, "europejski"@, "uszaty"@, FaunaGroup::SmallFauna)
            } else if i == 7 {
                ("Kuna"@, "leśna"@, "domowa"@, FaunaGroup::SmallFauna)
            } else if i == 8 {
                ("Myszołów"@, "jasny"@, "ciemny"@, FaunaGroup::Bird)
            } else {
                ("Żmija"@, "zygzak"@, "czarna"@, FaunaGroup::SmallFauna)
            }
        },
        TileType::Swamp => {
            if i == 0 {
                ("Żaba"@, "zielona"@, "brunatna"@, FaunaGroup::SmallFauna)
            } else if i == 1 {
                ("Bocian"@, "biały"@, "czarny"@, FaunaGroup::Bird)
            } else if i == 2 {
                ("Pijawka"@, "medyczna"@, "końska"@, FaunaGroup::SmallFauna)
            } else if i == 3 {
                ("Wąż błotny"@, "wodny"@, "lądowy"@, FaunaGroup::SmallFauna)
            } else if i == 4 {
                ("Wydra bagienna"@, "ciemna"@, "jasna"@, FaunaGroup::LargeMammal)
            } else if i == 5 {
                ("Czapla"@, "siwa"@, "biała"@, FaunaGroup::Bird)
            } else if i == 6 {
                ("Żółw błotny"@, "europejski"@, "cętkowany"@, FaunaGroup::SmallFauna)
            } else if i == 7 {
                ("Bóbr"@, "rzeczny"@, "jeziorny"@, FaunaGroup::LargeMammal)
            } else if i == 8 {
                ("Rak"@, "sygnałowy"@, "szlachetny"@, FaunaGroup::SmallFauna)
            } else {
                ("Błotniak"@, "stawowy"@, "zbożowy"@, FaunaGroup::Bird)
            }
        },
        TileType::Shrubland => {
            if i == 0 {
                ("Koza dzika"@, "górska"@, "stepowa"@, FaunaGroup::LargeMammal)
            } else if i == 1 {
                ("Zając szarak"@, "jasny"@, "ciemny"@, FaunaGroup::LargeMammal)
            } else if i == 2 {
                ("Orzeł stepowy"@, "jasny"@, "ciemny"@, FaunaGroup::Bird)
            } else if i == 3 {
                ("Jaszczurka murówka"@, "zielona"@, "brązowa"@, FaunaGroup::SmallFauna)
            } else if i == 4 {
                ("Wąż Eskulapa"@, "żółty"@, "czarny"@, FaunaGroup::SmallFauna)
            } else if i == 5 {
                ("Lis stepowy"@, "rudy"@, "szary"@, FaunaGroup::LargeMammal)
            } else if i == 6 {
                ("Przepiórka"@, "polna"@, "górska"@, FaunaGroup::Bird)
            } else if i == 7 {
                ("Żuk krzewiasty"@, "zielony"@, "brązowy"@, FaunaGroup::SmallFauna)
            } else if i == 8 {
                ("Sowa uszata"@, "jasna"@, "ciemna"@, FaunaGroup::Bird)
            } else {
                ("Żbik"@, "plamisty"@, "pręgowany"@, FaunaGroup::LargeMammal)
            }
        },
        TileType::Forest => {
            if i == 0 {
                ("Jeleń"@, "szlachetny"@, "sika"@, FaunaGroup::LargeMammal)
            } else if i == 1 {
                ("Dzik"@, "europejski"@, "karłowaty"@, FaunaGroup::LargeMammal)
            } else if i == 2 {
                ("Wilk"@, "szary"@, "czarny"@, FaunaGroup::LargeMammal)
            } else if i == 3 {
                ("Puszczyk"@, "szary"@, "rdzawy"@, FaunaGroup::Bird)
            } else if i == 4 {
                ("Wiewiórka"@, "ruda"@, "czarna"@, FaunaGroup::SmallFauna)
            } else if i == 5 {
                ("Dzięcioł"@, "duży"@, "zielony"@, FaunaGroup::Bird)
            } else if i == 6 {
                ("Borsuk"@, "europejski"@, "azjatycki"@, FaunaGroup::LargeMammal)
            } else if i == 7 {
                ("Ryś"@, "eurazjatycki"@, "kanadyjski"@, FaunaGroup::LargeMammal)
            } else if i == 8 {
                ("Kuna"@, "leśna"@, "kamionka"@, FaunaGroup::SmallFauna)
            } else {
                ("Jelonek rogacz"@, "duży"@, "mały"@, FaunaGroup::SmallFauna)
            }
        },
        TileType::Rainforest => {
            if i == 0 {
                ("Jaguar"@, "klasyczny"@, "czarny"@, FaunaGroup::LargeMammal)
            } else if i == 1 {
                ("Małpa nadrzewna"@, "wyjec"@, "kapucynka"@, FaunaGroup::LargeMammal)
            } else if i == 2 {
                ("Tukan"@, "duży"@, "mały"@, FaunaGroup::Bird)
            } else if i == 3 {
                ("Papuga"@, "ara"@, "amazonka"@, FaunaGroup::Bird)
            } else if i == 4 {
                ("Anakonda"@, "zielona"@, "żółta"@, FaunaGroup::LargeMammal)
            } else if i == 5 {
                ("Żaba drzewna"@, "czerwona"@, "niebieska"@, FaunaGroup::SmallFauna)
            } else if i == 6 {
                ("Motyl morpho"@, "niebieski"@, "metaliczny"@, FaunaGroup::SmallFauna)
            } else if i == 7 {
                ("Mrówka legionowa"@, "czerwona"@, "czarna"@, FaunaGroup::SmallFauna)
            } else if i == 8 {
                ("Leniwiec"@, "trójpalczasty"@, "dwupalczasty"@, FaunaGroup::LargeMammal)
            } else {
                ("Kajman"@, "czarny"@, "okularowy"@, FaunaGroup::LargeMammal)
            }
        },
        TileType::Mountain => {
            if i == 0 {
                ("Kozica"@, "alpejska"@, "pirenejska"@, FaunaGroup::LargeMammal)
            } else if i == 1 {
                ("Orzeł przedni"@, "jasny"@, "ciemny"@, FaunaGroup::Bird)
            } else if i == 2 {
                ("Świstak"@, "alpejski"@, "stepowy"@, FaunaGroup::SmallFauna)
            } else if i == 3 {
                ("Niedźwiedź brunatny"@, "górski"@, "nizinny"@, FaunaGroup::LargeMammal)
            } else if i == 4 {
                ("Zając bielak"@, "biały"@, "szary"@, FaunaGroup::LargeMammal)
            } else if i == 5 {
                ("Orzełek"@, "mały"@, "średni"@, FaunaGroup::Bird)
            } else if i == 6 {
                ("Muflon"@, "europejski"@, "azjatycki"@, FaunaGroup::LargeMammal)
            } else if i == 7 {
                ("Płochacz halny"@, "jasny"@, "ciemny"@, FaunaGroup::Bird)
            } else if i == 8 {
                ("Ryś górski"@, "jasny"@, "ciemny"@, FaunaGroup::LargeMammal)
            } else {
                ("Salamandra"@, "plamista"@, "czarna"@, FaunaGroup::SmallFauna)
            }
        },
        TileType::Tundra => {
            if i == 0 {
                ("Renifer"@, "tundryjski"@, "leśny"@, FaunaGroup::LargeMammal)
            } else if i == 1 {
                ("Lis polarny"@, "biały"@, "niebieski"@, FaunaGroup::LargeMammal)
            } else if i == 2 {
                ("Leming"@, "norweski"@, "obrożny"@, FaunaGroup::SmallFauna)
            } else if i == 3 {
                ("Sowa śnieżna"@, "biała"@, "cętkowana"@, FaunaGroup::Bird)
            } else if i == 4 {
                ("Wilk polarny"@, "biały"@, "kremowy"@, FaunaGroup::LargeMammal)
            } else if i == 5 {
                ("Gęś polarna"@, "biała"@, "szara"@, FaunaGroup::Bird)
            } else if i == 6 {
                ("Zając polarny"@, "zimowy"@, "letni"@, FaunaGroup::LargeMammal)
            } else if i == 7 {
                ("Piżmowół"@, "klasyczny"@, "karłowaty"@, FaunaGroup::LargeMammal)
            } else if i == 8 {
                ("Petrel"@, "śnieżny"@, "antarktyczny"@, FaunaGroup::Bird)
            } else {
                ("Niedźwiedź polarny"@, "dorosły"@, "młodociany"@, FaunaGroup::LargeMammal)
            }
        },
        TileType::Snow => {
            if i == 0 {
                ("Niedźwiedź polarny"@, "jasny"@, "kremowy"@, FaunaGroup::LargeMammal)
            } else if i == 1 {
                ("Foka lodowa"@, "obrączkowana"@, "wąsata"@, FaunaGroup::LargeMammal)
            } else if i == 2 {
                ("Petrel śnieżny"@, "biały"@, "szary"@, FaunaGroup::Bird)
            } else if i == 3 {
                ("Ryba podlodowa"@, "srebrna"@, "ciemna"@, FaunaGroup::SmallFauna)
            } else if i == 4 {
                ("Mewa polarna"@, "biała"@, "szara"@, FaunaGroup::Bird)
            } else if i == 5 {
                ("Wilk lodowy"@, "biały"@, "srebrny"@, FaunaGroup::LargeMammal)
            } else if i == 6 {
                ("Leming śnieżny"@, "jasny"@, "ciemny"@, FaunaGroup::SmallFauna)
            } else if i == 7 {
                ("Orzeł lodowy"@, "jasny"@, "ciemny"@, FaunaGroup::Bird)
            } else if i == 8 {
                ("Krab podlodowy"@, "biały"@, "niebieski"@, FaunaGroup::SmallFauna)
            } else {
                ("Bieługa"@, "biała"@, "szara"@, FaunaGroup::LargeMammal)
            }
        },
    }
}

/// The ten flora species of a biome.
pub fn flora_for(biome: TileType) -> (c: [FloraDef; 10])
    ensures
        forall|i: int|
            0 <= i < 10 ==> ((#[trigger] c@[i]).name@, c@[i].subspecies@[0]@, c@[i].subspecies@[1]@)
                == flora_entry(biome, i),
{
    proof {
        reveal(flora_entry);
    }
    let c = match biome {
        TileType::DeepWater => [
            FloraDef { name: "Glon abisalny", subspecies: ["ciemny", "świecący"] },
            FloraDef { name: "Maty bakteryjne", subspecies: ["siarkowe", "żelaziste"] },
            FloraDef { name: "Gąbka głębinowa", subspecies: ["szklana", "koralowa"] },
            FloraDef { name: "Mech hydrotermalny", subspecies: ["czerwony", "biały"] },
            FloraDef { name: "Krzewik kominowy", subspecies: ["niski", "wysoki"] },
            FloraDef { name: "Alga nitkowata", subspecies: ["rzadka", "gęsta"] },
            FloraDef { name: "Plankton roślinny", subspecies: ["zielony", "czerwony"] },
            FloraDef { name: "Porost skalny głębin", subspecies: ["szary", "fioletowy"] },
            FloraDef { name: "Wodorosty dryfujące", subspecies: ["wąskie", "szerokie"] },
            FloraDef { name: "Kolonia bakterii kominowych", subspecies: ["gęsta", "luźna"] },
        ],
        TileType::Water => [
            FloraDef { name: "Trawa morska", subspecies: ["zielona", "siwa"] },
            FloraDef { name: "Listownica", subspecies: ["olbrzymia", "karłowata"] },
            FloraDef { name: "Glon płytki", subspecies: ["brunatny", "czerwony"] },
            FloraDef { name: "Lilia wodna", subspecies: ["biała", "różowa"] },
            FloraDef { name: "Trzcina brzegowa", subspecies: ["wysoka", "niska"] },
            FloraDef { name: "Rdestnica", subspecies: ["wąskolistna", "szerokolistna"] },
            FloraDef { name: "Moczarka", subspecies: ["zwarta", "luźna"] },
            FloraDef { name: "Grążel", subspecies: ["żółty", "kremowy"] },
            FloraDef { name: "Wodorost zatokowy", subspecies: ["pierzasty", "taśmowy"] },
            FloraDef { name: "Mech wodny", subspecies: ["ciemny", "jasny"] },
        ],
        TileType::Sand => [
            FloraDef { name: "Trawa wydmowa", subspecies: ["piaskowa", "siwa"] },
            FloraDef { name: "Rukiew nadmorska", subspecies: ["niska", "płożąca"] },
            FloraDef { name: "Sosna nadmorska", subspecies: ["krzywa", "wyprostowana"] },
            FloraDef { name: "Rokietta", subspecies: ["kolczasta", "miękka"] },
            FloraDef { name: "Mikołajek", subspecies: ["srebrny", "zielony"] },
            FloraDef { name: "Wierzba piaskowa", subspecies: ["krzew", "drzewko"] },
            FloraDef { name: "Szczotlicha", subspecies: ["gęsta", "rzadka"] },
            FloraDef { name: "Łubin piaskowy", subspecies: ["niebieski", "żółty"] },
            FloraDef { name: "Jałowiec wydmowy", subspecies: ["płożący", "stożkowy"] },
            FloraDef { name: "Kocanka", subspecies: ["żółta", "biała"] },
        ],
        TileType::RockyShore => [
            FloraDef { name: "Porost skalny", subspecies: ["pomarańczowy", "szary"] },
            FloraDef { name: "Glon przyboju", subspecies: ["zielony", "brunatny"] },
            FloraDef { name: "Armeria", subspecies: ["różowa", "biała"] },
            FloraDef { name: "Rozchodnik nadmorski", subspecies: ["żółty", "czerwony"] },
            FloraDef { name: "Traganek skalny", subspecies: ["niski", "płożący"] },
            FloraDef { name: "Wrzosiec nadmorski", subspecies: ["różowy", "fioletowy"] },
            FloraDef { name: "Paproć skalna", subspecies: ["delikatna", "sztywna"] },
            FloraDef { name: "Mech basenów pływowych", subspecies: ["ciemny", "jasny"] },
            FloraDef { name: "Kapusta morska", subspecies: ["liściasta", "kędzierzawa"] },
            FloraDef { name: "Soliród", subspecies: ["zielony", "czerwony"] },
        ],
        TileType::Desert => [
            FloraDef { name: "Kaktus kolumnowy", subspecies: ["wysoki", "rozgałęziony"] },
            FloraDef { name: "Agawa", subspecies: ["niebieskawa", "zielona"] },
            FloraDef { name: "Akacja pustynna", subspecies: ["cierniowa", "bezcierniowa"] },
            FloraDef { name: "Trawa stepowa", subspecies: ["srebrna", "złota"] },
            FloraDef { name: "Palma oazowa", subspecies: ["daktylowa", "wachlarzowa"] },
            FloraDef { name: "Aloes", subspecies: ["kolczasty", "gładki"] },
            FloraDef { name: "Bylina solniskowa", subspecies: ["czerwona", "szara"] },
            FloraDef { name: "Saksauł", subspecies: ["niski", "wysoki"] },
            FloraDef { name: "Kwiat pustynny", subspecies: ["biały", "fioletowy"] },
            FloraDef { name: "Mech kamienny", subspecies: ["czarny", "zielony"] },
        ],
        TileType::Savanna => [
            FloraDef { name: "Baobab", subspecies: ["krótki", "olbrzymi"] },
            FloraDef { name: "Akacja parasolowa", subspecies: ["płaska", "stożkowa"] },
            FloraDef { name: "Trawa wysoka", subspecies: ["złota", "zielona"] },
            FloraDef { name: "Krzew cierniowy", subspecies: ["gęsty", "rzadki"] },
            FloraDef { name: "Aloes sawannowy", subspecies: ["kolumnowy", "rozetowy"] },
            FloraDef { name: "Palma dzika", subspecies: ["niska", "wysoka"] },
            FloraDef { name: "Bylina sezonowa", subspecies: ["czerwona", "żółta"] },
            FloraDef { name: "Trawa słoniowa", subspecies: ["gęsta", "luźna"] },
            FloraDef { name: "Krzew jagodowy", subspecies: ["czerwony", "czarny"] },
            FloraDef { name: "Kwiat sawannowy", subspecies: ["pomarańczowy", "biały"] },
        ],
        TileType::Grass => [
            FloraDef { name: "Trawa łąkowa", subspecies: ["miękka", "sztywna"] },
            FloraDef { name: "Macierzanka", subspecies: ["różowa", "fioletowa"] },
            FloraDef { name: "Rumianek", subspecies: ["biały", "żółty"] },
            FloraDef { name: "Koniczyna", subspecies: ["biała", "czerwona"] },
            FloraDef { name: "Jaskier", subspecies: ["żółty", "złoty"] },
            FloraDef { name: "Dziurawiec", subspecies: ["niski", "wysoki"] },
            FloraDef { name: "Chaber", subspecies: ["niebieski", "fioletowy"] },
            FloraDef { name: "Mak polny", subspecies: ["czerwony", "różowy"] },
            FloraDef { name: "Wierzba łąkowa", subspecies: ["krzew", "drzewko"] },
            FloraDef { name: "Paproć łąkowa", subspecies: ["delikatna", "sztywna"] },
        ],
        TileType::Swamp => [
            FloraDef { name: "Trzcina", subspecies: ["wysoka", "niska"] },
            FloraDef { name: "Pałka wodna", subspecies: ["szeroka", "wąska"] },
            FloraDef { name: "Torfowiec", subspecies: ["czerwony", "zielony"] },
            FloraDef { name: "Olcha bagienna", subspecies: ["niska", "wysoka"] },
            FloraDef { name: "Skrzyp", subspecies: ["polny", "bagienny"] },
            FloraDef { name: "Kosaciec", subspecies: ["żółty", "niebieski"] },
            FloraDef { name: "Bluszcz bagienny", subspecies: ["płożący", "pnący"] },
            FloraDef { name: "Grzyb bagienny", subspecies: ["biały", "czarny"] },
            FloraDef { name: "Rosiczka", subspecies: ["okrągłolistna", "długolistna"] },
            FloraDef { name: "Wierzba bagienna", subspecies: ["srebrna", "zielona"] },
        ],
        TileType::Shrubland => [
            FloraDef { name: "Jałowiec", subspecies: ["płożący", "drzewiasty"] },
            FloraDef { name: "Wrzos", subspecies: ["różowy", "biały"] },
            FloraDef { name: "Dzika róża", subspecies: ["czerwona", "biała"] },
            FloraDef { name: "Głóg", subspecies: ["kolczasty", "miękki"] },
            FloraDef { name: "Lawenda", subspecies: ["wąskolistna", "szerokolistna"] },
            FloraDef { name: "Rozmaryn", subspecies: ["wyprostowany", "płożący"] },
            FloraDef { name: "Tymianek", subspecies: ["cytrynowy", "klasyczny"] },
            FloraDef { name: "Pistacja dzika", subspecies: ["niska", "wysoka"] },
            FloraDef { name: "Ostrokrzew", subspecies: ["ciernisty", "gładki"] },
            FloraDef { name: "Szałwia", subspecies: ["fioletowa", "srebrna"] },
        ],
        TileType::Forest => [
            FloraDef { name: "Dąb", subspecies: ["szypułkowy", "bezszypułkowy"] },
            FloraDef { name: "Buk", subspecies: ["zwyczajny", "czerwony"] },
            FloraDef { name: "Sosna", subspecies: ["zwyczajna", "limba"] },
            FloraDef { name: "Świerk", subspecies: ["pospolity", "srebrny"] },
            FloraDef { name: "Brzoza", subspecies: ["brodawkowata", "omszona"] },
            FloraDef { name: "Paproć orlica", subspecies: ["wysoka", "niska"] },
            FloraDef { name: "Borówka", subspecies: ["czarna", "brusznica"] },
            FloraDef { name: "Grzyb kapeluszowy", subspecies: ["jadalny", "trujący"] },
            FloraDef { name: "Bluszcz", subspecies: ["pospolity", "kolchidzki"] },
            FloraDef { name: "Leszczyna", subspecies: ["krzew", "drzewko"] },
        ],
        TileType::Rainforest => [
            FloraDef { name: "Drzewo koron", subspecies: ["szerokie", "smukłe"] },
            FloraDef { name: "Liana", subspecies: ["gruba", "cienka"] },
            FloraDef { name: "Storczyk", subspecies: ["fioletowy", "biały"] },
            FloraDef { name: "Paproć drzewiasta", subspecies: ["wysoka", "niska"] },
            FloraDef { name: "Bromelia", subspecies: ["czerwona", "zielona"] },
            FloraDef { name: "Figowiec banyan", subspecies: ["pojedynczy", "wielopienny"] },
            FloraDef { name: "Palma deszczowa", subspecies: ["wachlarzowa", "pierzasta"] },
            FloraDef { name: "Grzyb świecący", subspecies: ["zielony", "niebieski"] },
            FloraDef { name: "Epifit", subspecies: ["młody", "dojrzały"] },
            FloraDef { name: "Rafflezja", subspecies: ["czerwona", "plamista"] },
        ],
        TileType::Mountain => [
            FloraDef { name: "Kosodrzewina", subspecies: ["gęsta", "rzadka"] },
            FloraDef { name: "Goryczka", subspecies: ["niebieska", "żółta"] },
            FloraDef { name: "Szarotka", subspecies: ["klasyczna", "szerokolistna"] },
            FloraDef { name: "Różeniec", subspecies: ["różowy", "żółty"] },
            FloraDef { name: "Mech skalny", subspecies: ["szary", "zielony"] },
            FloraDef { name: "Porost mapowy", subspecies: ["żółty", "pomarańczowy"] },
            FloraDef { name: "Wierzba karłowata", subspecies: ["płożąca", "krzew"] },
            FloraDef { name: "Dzwonek alpejski", subspecies: ["fioletowy", "biały"] },
            FloraDef { name: "Sasanka", subspecies: ["biała", "fioletowa"] },
            FloraDef { name: "Jałowiec górski", subspecies: ["płożący", "stożkowy"] },
        ],
        TileType::Tundra => [
            FloraDef { name: "Mech reniferowy", subspecies: ["szary", "zielony"] },
            FloraDef { name: "Porost karłowaty", subspecies: ["żółty", "czarny"] },
            FloraDef { name: "Wierzba polarna", subspecies: ["płożąca", "krzewinka"] },
            FloraDef { name: "Wełnianka", subspecies: ["biała", "kremowa"] },
            FloraDef { name: "Skalnica", subspecies: ["różowa", "biała"] },
            FloraDef { name: "Borówka polarna", subspecies: ["czerwona", "niebieska"] },
            FloraDef { name: "Trawa tundry", subspecies: ["krótka", "kępkowa"] },
            FloraDef { name: "Driada", subspecies: ["ośmiopłatkowa", "karłowata"] },
            FloraDef { name: "Jaskier polarny", subspecies: ["żółty", "biały"] },
            FloraDef { name: "Turzyca polarna", subspecies: ["wąska", "szeroka"] },
        ],
        TileType::Snow => [
            FloraDef { name: "Porost nunataku", subspecies: ["czarny", "pomarańczowy"] },
            FloraDef { name: "Mech lodowcowy", subspecies: ["zielony", "czerwony"] },
            FloraDef { name: "Alga śnieżna", subspecies: ["czerwona", "zielona"] },
            FloraDef { name: "Wierzba nunatakowa", subspecies: ["karłowata", "płożąca"] },
            FloraDef { name: "Skalnica lodowa", subspecies: ["biała", "różowa"] },
            FloraDef { name: "Turzyca śnieżna", subspecies: ["kępkowa", "luźna"] },
            FloraDef { name: "Porost mapowy lodowy", subspecies: ["żółty", "szary"] },
            FloraDef { name: "Bylina efemeryczna", subspecies: ["biała", "fioletowa"] },
            FloraDef { name: "Mech szczelinowy", subspecies: ["ciemny", "jasny"] },
            FloraDef { name: "Glon firnowy", subspecies: ["różowy", "pomarańczowy"] },
        ],
    };
    c
}

/// The ten fauna species of a biome.
pub fn fauna_for(biome: TileType) -> (c: [FaunaDef; 10])
    ensures
        forall|i: int|
            0 <= i < 10 ==> ((#[trigger] c@[i]).name@, c@[i].subspecies@[0]@, c@[i].subspecies@[1]@, c@[i].group)
                == fauna_entry(biome, i),
{
    proof {
        reveal(fauna_entry);
    }
    let c = match biome {
        TileType::DeepWater => [
            FaunaDef { name: "Ryba abisalna", subspecies: ["zębata", "ślepa"], group: FaunaGroup::SmallFauna },
            FaunaDef { name: "Kałamarnica olbrzymia", subspecies: ["północna", "równikowa"], group: FaunaGroup::LargeMammal },
            FaunaDef { name: "Krab kominowy", subspecies: ["czerwony", "czarny"], group: FaunaGroup::SmallFauna },
            FaunaDef { name: "Meduza głębinowa", subspecies: ["świecąca", "ciemna"], group: FaunaGroup::SmallFauna },
            FaunaDef { name: "Węgorz głębinowy", subspecies: ["smukły", "gruby"], group: FaunaGroup::SmallFauna },
            FaunaDef { name: "Krewetka świecąca", subspecies: ["różowa", "niebieska"], group: FaunaGroup::SmallFauna },
            FaunaDef { name: "Rekin głębinowy", subspecies: ["mały", "duży"], group: FaunaGroup::LargeMammal },
            FaunaDef { name: "Homar abisalny", subspecies: ["kolczasty", "gładki"], group: FaunaGroup::SmallFauna },
            FaunaDef { name: "Ośmiornica głębinowa", subspecies: ["mimikra", "jadowita"], group: FaunaGroup::SmallFauna },
            FaunaDef { name: "Wieloryb nurkujący", subspecies: ["krótki nurk", "długi nurk"], group: FaunaGroup::LargeMammal },
        ],
        TileType::Water => [
            FaunaDef { name: "Ryba ławicowa", subspecies: ["srebrna", "niebieska"], group: FaunaGroup::SmallFauna },
            FaunaDef { name: "Delfin", subspecies: ["przybrzeżny", "oceaniczny"], group: FaunaGroup::LargeMammal },
            FaunaDef { name: "Foka", subspecies: ["szara", "cętkowana"], group: FaunaGroup::LargeMammal },
            FaunaDef { name: "Żółw morski", subspecies: ["zielony", "skórzasty"], group: FaunaGroup::LargeMammal },
            FaunaDef { name: "Mewa", subspecies: ["biała", "ciemnoskrzydła"], group: FaunaGroup::Bird },
            FaunaDef { name: "Krab brzegowy", subspecies: ["zielony", "czerwony"], group: FaunaGroup::SmallFauna },
            FaunaDef { name: "Ostryga", subspecies: ["płaska", "kubkowata"], group: FaunaGroup::SmallFauna },
            FaunaDef { name: "Sum jeziorny", subspecies: ["pstry", "czarny"], group: FaunaGroup::SmallFauna },
            FaunaDef { name: "Wydra", subspecies: ["rzeczna", "morska"], group: FaunaGroup::LargeMammal },
            FaunaDef { name: "Kormoran", subspecies: ["czarny", "dwubarwny"], group: FaunaGroup::Bird },
        ],
        TileType::Sand => [
            FaunaDef { name: "Krab piaskowy", subspecies: ["szybki", "norujący"], group: FaunaGroup::SmallFauna },
            FaunaDef { name: "Mewa srebrzysta", subspecies: ["morska", "śródlądowa"], group: FaunaGroup::Bird },
            FaunaDef { name: "Jaszczurka piaskowa", subspecies: ["pstra", "jednolita"], group: FaunaGroup::SmallFauna },
            FaunaDef { name: "Żuk gnojowy", subspecies: ["mały", "duży"], group: FaunaGroup::SmallFauna },
            FaunaDef { name: "Zając piaskowy", subspecies: ["jasny", "cętkowany"], group: FaunaGroup::LargeMammal },
            FaunaDef { name: "Sieweczka", subspecies: ["krótkodzioba", "długodzioba"], group: FaunaGroup::Bird },
            FaunaDef { name: "Wąż piaskowy", subspecies: ["piaskowy", "szary"], group: FaunaGroup::SmallFauna },
            FaunaDef { name: "Lis pustynny", subspecies: ["jasny", "rudawy"], group: FaunaGroup::LargeMammal },
            FaunaDef { name: "Skorpion piaskowy", subspecies: ["żółty", "czarny"], group: FaunaGroup::SmallFauna },
            FaunaDef { name: "Żółw lądowy", subspecies: ["płaski", "wysoki"], group: FaunaGroup::LargeMammal },
        ],
        TileType::RockyShore => [
            FaunaDef { name: "Mewa klifowa", subspecies: ["głośna", "cicha"], group: FaunaGroup::Bird },
            FaunaDef { name: "Kormoran klifowy", subspecies: ["czarny", "dwubarwny"], group: FaunaGroup::Bird },
            FaunaDef { name: "Foka klifowa", subspecies: ["szara", "plamista"], group: FaunaGroup::LargeMammal },
            FaunaDef { name: "Krab skalny", subspecies: ["czerwony", "zielony"], group: FaunaGroup::SmallFauna },
            FaunaDef { name: "Ślimak przyboju", subspecies: ["stożkowy", "spiralny"], group: FaunaGroup::SmallFauna },
            FaunaDef { name: "Ucho morskie", subspecies: ["zielone", "różowe"], group: FaunaGroup::SmallFauna },
            FaunaDef { name: "Jaszczurka klifowa", subspecies: ["szara", "zielona"], group: FaunaGroup::SmallFauna },
            FaunaDef { name: "Bielik", subspecies: ["jasny", "ciemny"], group: FaunaGroup::Bird },
            FaunaDef { name: "Wydra skalna", subspecies: ["krótka", "długa"], group: FaunaGroup::LargeMammal },
            FaunaDef { name: "Maskonur", subspecies: ["kolorowy", "blady"], group: FaunaGroup::Bird },
        ],
        TileType::Desert => [
            FaunaDef { name: "Wielbłąd", subspecies: ["jednogarbny", "dwugarbny"], group: FaunaGroup::LargeMammal },
            FaunaDef { name: "Fenek", subspecies: ["uszy duże", "uszy średnie"], group: FaunaGroup::LargeMammal },
            FaunaDef { name: "Skorpion", subspecies: ["żółty", "czarny"], group: FaunaGroup::SmallFauna },
            FaunaDef { name: "Wąż piaskowy", subspecies: ["rogaty", "gładki"], group: FaunaGroup::SmallFauna },
            FaunaDef { name: "Jaszczurka pustynna", subspecies: ["kołnierzasta", "gładka"], group: FaunaGroup::SmallFauna },
            FaunaDef { name: "Orzeł pustynny", subspecies: ["jasny", "ciemny"], group: FaunaGroup::Bird },
            FaunaDef { name: "Gazela", subspecies: ["dorcas", "dama"], group: FaunaGroup::LargeMammal },
            FaunaDef { name: "Żuk pustynny", subspecies: ["czarny", "metaliczny"], group: FaunaGroup::SmallFauna },
            FaunaDef { name: "Sowa pustynna", subspecies: ["mała", "średnia"], group: FaunaGroup::Bird },
            FaunaDef { name: "Szarańcza", subspecies: ["zielona", "piaskowa"], group: FaunaGroup::SmallFauna },
        ],
        TileType::Savanna => [
            FaunaDef { name: "Lew", subspecies: ["grzywa ciemna", "grzywa jasna"], group: FaunaGroup::LargeMammal },
            FaunaDef { name: "Zebra", subspecies: ["wąskopaska", "szerokopaska"], group: FaunaGroup::LargeMammal },
            FaunaDef { name: "Żyrafa", subspecies: ["siatkowana", "plamista"], group: FaunaGroup::LargeMammal },
            FaunaDef { name: "Słoń", subspecies: ["sawannowy", "karłowaty"], group: FaunaGroup::LargeMammal },
            FaunaDef { name: "Antylopa", subspecies: ["impala", "gnu"], group: FaunaGroup::LargeMammal },
            FaunaDef { name: "Hiena", subspecies: ["cętkowana", "pręgowana"], group: FaunaGroup::LargeMammal },
            FaunaDef { name: "Struś", subspecies: ["czarny", "brązowy"], group: FaunaGroup::Bird },
            FaunaDef { name: "Gepard", subspecies: ["klasyczny", "królewski"], group: FaunaGroup::LargeMammal },
            FaunaDef { name: "Sekretarz", subspecies: ["jasny", "ciemny"], group: FaunaGroup::Bird },
            FaunaDef { name: "Waran", subspecies: ["szary", "żółty"], group: FaunaGroup::SmallFauna },
        ],
        TileType::Grass => [
            FaunaDef { name: "Sarna", subspecies: ["jasna", "ciemna"], group: FaunaGroup::LargeMammal },
            FaunaDef { name: "Zając", subspecies: ["szary", "rudawy"], group: FaunaGroup::LargeMammal },
            FaunaDef { name: "Lis", subspecies: ["rudy", "krzyżak"], group: FaunaGroup::LargeMammal },
            FaunaDef { name: "Skowronek", subspecies: ["polny", "leśny"], group: FaunaGroup::Bird },
            FaunaDef { name: "Motyl łąkowy", subspecies: ["żółty", "niebieski"], group: FaunaGroup::SmallFauna },
            FaunaDef { name: "Pszczoła", subspecies: ["miodna", "dzika"], group: FaunaGroup::SmallFauna },
            FaunaDef { name: "Jeż", subspecies: ["europejski", "uszaty"], group: FaunaGroup::SmallFauna },
            FaunaDef { name: "Kuna", subspecies: ["leśna", "domowa"], group: FaunaGroup::SmallFauna },
            FaunaDef { name: "Myszołów", subspecies: ["jasny", "ciemny"], group: FaunaGroup::Bird },
            FaunaDef { name: "Żmija", subspecies: ["zygzak", "czarna"], group: FaunaGroup::SmallFauna },
        ],
        TileType::Swamp => [
            FaunaDef { name: "Żaba", subspecies: ["zielona", "brunatna"], group: FaunaGroup::SmallFauna },
            FaunaDef { name: "Bocian", subspecies: ["biały", "czarny"], group: FaunaGroup::Bird },
            FaunaDef { name: "Pijawka", subspecies: ["medyczna", "końska"], group: FaunaGroup::SmallFauna },
            FaunaDef { name: "Wąż błotny", subspecies: ["wodny", "lądowy"], group: FaunaGroup::SmallFauna },
            FaunaDef { name: "Wydra bagienna", subspecies: ["ciemna", "jasna"], group: FaunaGroup::LargeMammal },
            FaunaDef { name: "Czapla", subspecies: ["siwa", "biała"], group: FaunaGroup::Bird },
            FaunaDef { name: "Żółw błotny", subspecies: ["europejski", "cętkowany"], group: FaunaGroup::SmallFauna },
            FaunaDef { name: "Bóbr", subspecies: ["rzeczny", "jeziorny"], group: FaunaGroup::LargeMammal },
            FaunaDef { name: "Rak", subspecies: ["sygnałowy", "szlachetny"], group: FaunaGroup::SmallFauna },
            FaunaDef { name: "Błotniak", subspecies: ["stawowy", "zbożowy"], group: FaunaGroup::Bird },
        ],
        TileType::Shrubland => [
            FaunaDef { name: "Koza dzika", subspecies: ["górska", "stepowa"], group: FaunaGroup::LargeMammal },
            FaunaDef { name: "Zając szarak", subspecies: ["jasny", "ciemny"], group: FaunaGroup::LargeMammal },
            FaunaDef { name: "Orzeł stepowy", subspecies: ["jasny", "ciemny"], group: FaunaGroup::Bird },
            FaunaDef { name: "Jaszczurka murówka", subspecies: ["zielona", "brązowa"], group: FaunaGroup::SmallFauna },
            FaunaDef { name: "Wąż Eskulapa", subspecies: ["żółty", "czarny"], group: FaunaGroup::SmallFauna },
            FaunaDef { name: "Lis stepowy", subspecies: ["rudy", "szary"], group: FaunaGroup::LargeMammal },
            FaunaDef { name: "Przepiórka", subspecies: ["polna", "górska"], group: FaunaGroup::Bird },
            FaunaDef { name: "Żuk krzewiasty", subspecies: ["zielony", "brązowy"], group: FaunaGroup::SmallFauna },
            FaunaDef { name: "Sowa uszata", subspecies: ["jasna", "ciemna"], group: FaunaGroup::Bird },
            FaunaDef { name: "Żbik", subspecies: ["plamisty", "pręgowany"], group: FaunaGroup::LargeMammal },
        ],
        TileType::Forest => [
            FaunaDef { name: "Jeleń", subspecies: ["szlachetny", "sika"], group: FaunaGroup::LargeMammal },
            FaunaDef { name: "Dzik", subspecies: ["europejski", "karłowaty"], group: FaunaGroup::LargeMammal },
            FaunaDef { name: "Wilk", subspecies: ["szary", "czarny"], group: FaunaGroup::LargeMammal },
            FaunaDef { name: "Puszczyk", subspecies: ["szary", "rdzawy"], group: FaunaGroup::Bird },
            FaunaDef { name: "Wiewiórka", subspecies: ["ruda", "czarna"], group: FaunaGroup::SmallFauna },
            FaunaDef { name: "Dzięcioł", subspecies: ["duży", "zielony"], group: FaunaGroup::Bird },
            FaunaDef { name: "Borsuk", subspecies: ["europejski", "azjatycki"], group: FaunaGroup::LargeMammal },
            FaunaDef { name: "Ryś", subspecies: ["eurazjatycki", "kanadyjski"], group: FaunaGroup::LargeMammal },
            FaunaDef { name: "Kuna", subspecies: ["leśna", "kamionka"], group: FaunaGroup::SmallFauna },
            FaunaDef { name: "Jelonek rogacz", subspecies: ["duży", "mały"], group: FaunaGroup::SmallFauna },
        ],
        TileType::Rainforest => [
            FaunaDef { name: "Jaguar", subspecies: ["klasyczny", "czarny"], group: FaunaGroup::LargeMammal },
            FaunaDef { name: "Małpa nadrzewna", subspecies: ["wyjec", "kapucynka"], group: FaunaGroup::LargeMammal },
            FaunaDef { name: "Tukan", subspecies: ["duży", "mały"], group: FaunaGroup::Bird },
            FaunaDef { name: "Papuga", subspecies: ["ara", "amazonka"], group: FaunaGroup::Bird },
            FaunaDef { name: "Anakonda", subspecies: ["zielona", "żółta"], group: FaunaGroup::LargeMammal },
            FaunaDef { name: "Żaba drzewna", subspecies: ["czerwona", "niebieska"], group: FaunaGroup::SmallFauna },
            FaunaDef { name: "Motyl morpho", subspecies: ["niebieski", "metaliczny"], group: FaunaGroup::SmallFauna },
            FaunaDef { name: "Mrówka legionowa", subspecies: ["czerwona", "czarna"], group: FaunaGroup::SmallFauna },
            FaunaDef { name: "Leniwiec", subspecies: ["trójpalczasty", "dwupalczasty"], group: FaunaGroup::LargeMammal },
            FaunaDef { name: "Kajman", subspecies: ["czarny", "okularowy"], group: FaunaGroup::LargeMammal },
        ],
        TileType::Mountain => [
            FaunaDef { name: "Kozica", subspecies: ["alpejska", "pirenejska"], group: FaunaGroup::LargeMammal },
            FaunaDef { name: "Orzeł przedni", subspecies: ["jasny", "ciemny"], group: FaunaGroup::Bird },
            FaunaDef { name: "Świstak", subspecies: ["alpejski", "stepowy"], group: FaunaGroup::SmallFauna },
            FaunaDef { name: "Niedźwiedź brunatny", subspecies: ["górski", "nizinny"], group: FaunaGroup::LargeMammal },
            FaunaDef { name: "Zając bielak", subspecies: ["biały", "szary"], group: FaunaGroup::LargeMammal },
            FaunaDef { name: "Orzełek", subspecies: ["mały", "średni"], group: FaunaGroup::Bird },
            FaunaDef { name: "Muflon", subspecies: ["europejski", "azjatycki"], group: FaunaGroup::LargeMammal },
            FaunaDef { name: "Płochacz halny", subspecies: ["jasny", "ciemny"], group: FaunaGroup::Bird },
            FaunaDef { name: "Ryś górski", subspecies: ["jasny", "ciemny"], group: FaunaGroup::LargeMammal },
            FaunaDef { name: "Salamandra", subspecies: ["plamista", "czarna"], group: FaunaGroup::SmallFauna },
        ],
        TileType::Tundra => [
            FaunaDef { name: "Renifer", subspecies: ["tundryjski", "leśny"], group: FaunaGroup::LargeMammal },
            FaunaDef { name: "Lis polarny", subspecies: ["biały", "niebieski"], group: FaunaGroup::LargeMammal },
            FaunaDef { name: "Leming", subspecies: ["norweski", "obrożny"], group: FaunaGroup::SmallFauna },
            FaunaDef { name: "Sowa śnieżna", subspecies: ["biała", "cętkowana"], group: FaunaGroup::Bird },
            FaunaDef { name: "Wilk polarny", subspecies: ["biały", "kremowy"], group: FaunaGroup::LargeMammal },
            FaunaDef { name: "Gęś polarna", subspecies: ["biała", "szara"], group: FaunaGroup::Bird },
            FaunaDef { name: "Zając polarny", subspecies: ["zimowy", "letni"], group: FaunaGroup::LargeMammal },
            FaunaDef { name: "Piżmowół", subspecies: ["klasyczny", "karłowaty"], group: FaunaGroup::LargeMammal },
            FaunaDef { name: "Petrel", subspecies: ["śnieżny", "antarktyczny"], group: FaunaGroup::Bird },
            FaunaDef { name: "Niedźwiedź polarny", subspecies: ["dorosły", "młodociany"], group: FaunaGroup::LargeMammal },
        ],
        TileType::Snow => [
            FaunaDef { name: "Niedźwiedź polarny", subspecies: ["jasny", "kremowy"], group: FaunaGroup::LargeMammal },
            FaunaDef { name: "Foka lodowa", subspecies: ["obrączkowana", "wąsata"], group: FaunaGroup::LargeMammal },
            FaunaDef { name: "Petrel śnieżny", subspecies: ["biały", "szary"], group: FaunaGroup::Bird },
            FaunaDef { name: "Ryba podlodowa", subspecies: ["srebrna", "ciemna"], group: FaunaGroup::SmallFauna },
            FaunaDef { name: "Mewa polarna", subspecies: ["biała", "szara"], group: FaunaGroup::Bird },
            FaunaDef { name: "Wilk lodowy", subspecies: ["biały", "srebrny"], group: FaunaGroup::LargeMammal },
            FaunaDef { name: "Leming śnieżny", subspecies: ["jasny", "ciemny"], group: FaunaGroup::SmallFauna },
            FaunaDef { name: "Orzeł lodowy", subspecies: ["jasny", "ciemny"], group: FaunaGroup::Bird },
            FaunaDef { name: "Krab podlodowy", subspecies: ["biały", "niebieski"], group: FaunaGroup::SmallFauna },
            FaunaDef { name: "Bieługa", subspecies: ["biała", "szara"], group: FaunaGroup::LargeMammal },
        ],
    };
    c
}

/// Channel offset of a fauna group's picks.
pub open spec fn group_salt(g: FaunaGroup) -> u64 {
    match g {
        FaunaGroup::LargeMammal => 0,
        FaunaGroup::Bird => 3,
        FaunaGroup::SmallFauna => 6,
    }
}

pub fn fauna_group_salt(g: FaunaGroup) -> (s: u64)
    ensures
        s == group_salt(g),
{
    match g {
        FaunaGroup::LargeMammal => 0,
        FaunaGroup::Bird => 3,
        FaunaGroup::SmallFauna => 6,
    }
}

/// Row-major index of region tile `(tx, ty)` in a region `across` tiles wide.
pub fn region_tile_index(tx: u32, ty: u32, across: u32) -> (i: u32)
    requires
        ty * across + tx <= u32::MAX,
    ensures
        i == ty * across + tx,
{
    ty * across + tx
}

/// The first position holding the largest positive vote (0 when no vote is positive).
pub open spec fn leading_vote(votes: Seq<u32>, i: nat, best_i: nat, best_v: u32) -> nat
    decreases votes.len() - i,
{
    if i >= votes.len() {
        best_i
    } else if votes[i as int] > best_v {
        leading_vote(votes, i + 1, i, votes[i as int])
    } else {
        leading_vote(votes, i + 1, best_i, best_v)
    }
}

/// The biome with most votes (the lowest biome code on ties).
pub fn majority_biome(votes: &[u32; 14]) -> (t: TileType)
    ensures
        t == spec_tile_from_index(leading_vote(votes@, 0, 0, 0)),
{
    let mut best_i: usize = 0;
    let mut best_v: u32 = 0;
    let mut i: usize = 0;
    while i < 14
        invariant
            i <= 14,
            votes@.len() == 14,
            best_i < 14,
            leading_vote(votes@, 0, 0, 0) == leading_vote(votes@, i as nat, best_i as nat, best_v),
        decreases 14 - i,
    {
        if votes[i] > best_v {
            best_v = votes[i];
            best_i = i;
        }
        i = i + 1;
    }
    tile_type_from_index(best_i)
}

proof fn lemma_leading_vote(votes: Seq<u32>, i: nat, best_i: nat, best_v: u32)
    requires
        i <= votes.len(),
        best_i < votes.len(),
        votes[best_i as int] == best_v || (best_i == 0 && best_v == 0),
        forall|j: int| 0 <= j < i ==> votes[j] <= best_v,
    ensures
        leading_vote(votes, i, best_i, best_v) < votes.len(),
        forall|j: int|
            0 <= j < votes.len() ==> #[trigger] votes[j] <= votes[leading_vote(
                votes,
                i,
                best_i,
                best_v,
            ) as int] || (votes[j] == 0),
    decreases votes.len() - i,
{
    if i < votes.len() {
        if votes[i as int] > best_v {
            lemma_leading_vote(votes, i + 1, i, votes[i as int]);
        } else {
            lemma_leading_vote(votes, i + 1, best_i, best_v);
        }
    }
}

/// The majority biome carries a vote at least as large as every other biome.
pub proof fn law_majority_has_most_votes(votes: Seq<u32>)
    requires
        votes.len() == 14,
    ensures
        leading_vote(votes, 0, 0, 0) < 14,
        forall|j: int| 0 <= j < 14 ==> #[trigger] votes[j] <= votes[leading_vote(votes, 0, 0, 0) as int],
{
    lemma_leading_vote(votes, 0, 0, 0);
}

/// `floor(x * n) % n` for a noise value `x = bits / 2^53`: a list position.
pub open spec fn species_pick(bits: u64, n: nat) -> nat {
    scaled_floor(bits, n as u64) % n
}

/// The catalog position chosen by the noise value of `(seed, channel, index)`
/// among `n` species.
pub fn species_index(seed: u64, channel: u64, index: u64, n: usize) -> (i: usize)
    requires
        1 <= n <= NOISE_SCALE,
    ensures
        i == species_pick(spec_noise_bits(seed, channel, index), n as nat),
        i < n,
{
    let k = scaled_index(noise_bits(seed, channel, index), n as u64);
    (k % (n as u64)) as usize
}

/// One of two subspecies: the first on a noise value below 0.5.
pub fn pick_subspecies(seed: u64, channel: u64, index: u64, options: &[&'static str; 2]) -> (s:
    &'static str)
    ensures
        s == (if spec_noise_bits(seed, channel, index) < NOISE_BELOW_0_50 {
            options@[0]
        } else {
            options@[1]
        }),
{
    if noise_bits(seed, channel, index) < NOISE_BELOW_0_50 {
        options[0]
    } else {
        options[1]
    }
}

/// Starting from `si`, the first of up to `fuel` cyclic steps over `n`
/// positions whose entry (through `pool`) is not used yet.
pub open spec fn probe(used: Seq<bool>, pool: Seq<nat>, si: nat, fuel: nat) -> nat
    decreases fuel,
{
    if fuel == 0 || pool.len() == 0 || !used[pool[si as int] as int] {
        si
    } else {
        probe(used, pool, (si + 1) % pool.len(), (fuel - 1) as nat)
    }
}

/// The identity pool of all ten catalog positions.
pub open spec fn all_species() -> Seq<nat> {
    Seq::new(10, |i: int| i as nat)
}

/// Picks and used-marks after the first `k` flora picks of a region tile:
/// pick `k` starts at the noise position of channel `601 + k` and probes
/// forward to the first species not picked yet.
pub open spec fn flora_state(seed: u64, tile_idx: u64, k: nat) -> (Seq<nat>, Seq<bool>)
    decreases k,
{
    if k == 0 {
        (Seq::empty(), Seq::new(10, |i: int| false))
    } else {
        let (out, used) = flora_state(seed, tile_idx, (k - 1) as nat);
        let start = species_pick(spec_noise_bits(seed, (601 + (k - 1)) as u64, tile_idx), 10);
        let si = probe(used, all_species(), start, 10);
        (out.push(si), used.update(si as int, true))
    }
}

proof fn lemma_probe_bounds(used: Seq<bool>, pool: Seq<nat>, si: nat, fuel: nat)
    requires
        si < pool.len(),
    ensures
        probe(used, pool, si, fuel) < pool.len(),
    decreases fuel,
{
    if fuel > 0 && pool.len() > 0 && used[pool[si as int] as int] {
        lemma_probe_bounds(used, pool, (si + 1) % pool.len(), (fuel - 1) as nat);
    }
}

proof fn lemma_flora_state(seed: u64, tile_idx: u64, k: nat)
    ensures
        flora_state(seed, tile_idx, k).0.len() == k,
        flora_state(seed, tile_idx, k).1.len() == 10,
        forall|j: int|
            0 <= j < k ==> (#[trigger] flora_state(seed, tile_idx, k).0[j]) < 10,
    decreases k,
{
    if k > 0 {
        lemma_flora_state(seed, tile_idx, (k - 1) as nat);
        let (out, used) = flora_state(seed, tile_idx, (k - 1) as nat);
        let start = species_pick(spec_noise_bits(seed, (601 + (k - 1)) as u64, tile_idx), 10);
        lemma_probe_bounds(used, all_species(), start, 10);
    }
}

/// Names of `count` distinct flora species expected on a region tile.
pub fn flora_expectation(seed: u64, tile_idx: u64, biome: TileType, count: usize) -> (names: Vec<String>)
    requires
        count <= 10,
    ensures
        names@.len() == count,
        forall|k: int|
            0 <= k < count ==> (#[trigger] names@[k])@ == flora_entry(
                biome,
                flora_state(seed, tile_idx, count as nat).0[k] as int,
            ).0,
{
    let catalog = flora_for(biome);
    let mut out: Vec<String> = Vec::new();
    let mut used: Vec<bool> = Vec::new();
    let mut t: usize = 0;
    while t < 10
        invariant
            t <= 10,
            used@ == Seq::new(t as nat, |i: int| false),
        decreases 10 - t,
    {
        used.push(false);
        t = t + 1;
    }
    let ghost mut picks: Seq<nat> = Seq::empty();
    let mut n: usize = 0;
    while n < count
        invariant
            n <= count <= 10,
            (picks, used@) == flora_state(seed, tile_idx, n as nat),
            out@.len() == n,
            forall|k: int|
                0 <= k < n ==> (#[trigger] out@[k])@ == flora_entry(biome, picks[k] as int).0,
            forall|i: int|
                0 <= i < 10 ==> ((#[trigger] catalog@[i]).name@, catalog@[i].subspecies@[0]@,
                catalog@[i].subspecies@[1]@) == flora_entry(biome, i),
        decreases count - n,
    {
        proof {
            lemma_flora_state(seed, tile_idx, n as nat);
        }
        let start = species_index(seed, 601 + n as u64, tile_idx, SPECIES_PER_BIOME);
        let mut si = start;
        let mut step: usize = 0;
        while step < SPECIES_PER_BIOME
            invariant
                step <= 10,
                si < 10,
                used@.len() == 10,
                probe(used@, all_species(), start as nat, 10) == probe(
                    used@,
                    all_species(),
                    si as nat,
                    (10 - step) as nat,
                ),
            ensures
                si < 10,
                probe(used@, all_species(), start as nat, 10) == si as nat,
            decreases 10 - step,
        {
            if !used[si] {
                assert(all_species()[si as int] == si as nat);
                break;
            }
            si = (si + 1) % SPECIES_PER_BIOME;
            step = step + 1;
        }
        used.set(si, true);
        out.push(String::from_str(catalog[si].name));
        proof {
            picks = picks.push(si as nat);
        }
        n = n + 1;
    }
    out
}

/// Positions a probe of `fuel` cyclic steps from `si` looks at, over `len` positions.
pub open spec fn probe_window(si: nat, fuel: nat, len: nat, j: nat) -> bool {
    (si <= j < si + fuel) || (j + len < si + fuel)
}

proof fn lemma_probe_scan(used: Seq<bool>, pool: Seq<nat>, si: nat, fuel: nat)
    requires
        si < pool.len(),
        fuel <= pool.len(),
        forall|j: int| 0 <= j < pool.len() ==> #[trigger] pool[j] < used.len(),
    ensures
        !used[pool[probe(used, pool, si, fuel) as int] as int] || forall|j: nat|
            j < pool.len() && probe_window(si, fuel, pool.len(), j) ==> #[trigger] used[pool[j as int] as int],
    decreases fuel,
{
    if fuel > 0 && used[pool[si as int] as int] {
        let len = pool.len();
        let next = (si + 1) % len;
        if si + 1 < len {
            vstd::arithmetic::div_mod::lemma_small_mod((si + 1) as nat, len);
        } else {
            vstd::arithmetic::div_mod::lemma_mod_self_0(len as int);
        }
        lemma_probe_scan(used, pool, next, (fuel - 1) as nat);
    }
}

/// A sequence holding each of `0..n` is at least `n` long.
proof fn lemma_covering_len(out: Seq<nat>, n: nat)
    requires
        forall|i: nat| i < n ==> #[trigger] out.contains(i),
    ensures
        out.len() >= n,
{
    let ints = out.map_values(|x: nat| x as int);
    assert forall|i: int| #[trigger] vstd::set_lib::set_int_range(0, n as int).contains(i) implies ints.to_set().contains(i) by {
        assert(out.contains(i as nat));
        let w = choose|w: int| 0 <= w < out.len() && out[w] == i as nat;
        assert(ints[w] == i);
    }
    vstd::set_lib::lemma_int_range(0, n as int);
    ints.lemma_cardinality_of_set();
    vstd::seq_lib::seq_to_set_is_finite(ints);
    vstd::set_lib::lemma_len_subset(vstd::set_lib::set_int_range(0, n as int), ints.to_set());
}

/// The flora picks of a tile are distinct catalog positions, and the used
/// marks are exactly the picks.
pub open spec fn picks_consistent(out: Seq<nat>, used: Seq<bool>) -> bool {
    &&& used.len() == 10
    &&& out.no_duplicates()
    &&& forall|j: int| 0 <= j < out.len() ==> #[trigger] out[j] < 10
    &&& forall|i: nat| i < 10 ==> (#[trigger] used[i as int] <==> out.contains(i))
}

/// Up to ten flora species on a tile are all different.
pub proof fn law_flora_picks_distinct(seed: u64, tile_idx: u64, k: nat)
    requires
        k <= 10,
    ensures
        flora_state(seed, tile_idx, k).0.len() == k,
        picks_consistent(flora_state(seed, tile_idx, k).0, flora_state(seed, tile_idx, k).1),
    decreases k,
{
    if k == 0 {
        let (out, used) = flora_state(seed, tile_idx, 0);
        assert forall|i: nat| i < 10 implies (#[trigger] used[i as int] <==> out.contains(i)) by {}
    } else {
        law_flora_picks_distinct(seed, tile_idx, (k - 1) as nat);
        lemma_flora_state(seed, tile_idx, (k - 1) as nat);
        let (out, used) = flora_state(seed, tile_idx, (k - 1) as nat);
        let start = species_pick(spec_noise_bits(seed, (601 + (k - 1)) as u64, tile_idx), 10);
        assert(start < 10);
        let pool = all_species();
        let si = probe(used, pool, start, 10);
        lemma_probe_bounds(used, pool, start, 10);
        if used[pool[si as int] as int] {
            lemma_probe_scan(used, pool, start, 10);
            assert forall|i: nat| i < 10 implies #[trigger] out.contains(i) by {
                assert(probe_window(start, 10, 10, i));
                assert(pool[i as int] == i);
                assert(used[pool[i as int] as int]);
            }
            lemma_covering_len(out, 10);
            assert(false);
        }
        assert(pool[si as int] == si);
        lemma_push_fresh(out, used, si);
    }
}

/// Catalog positions below `i` whose fauna belongs to group `g`, in order.
pub open spec fn group_pool(biome: TileType, g: FaunaGroup, i: nat) -> Seq<nat>
    decreases i,
{
    if i == 0 {
        Seq::empty()
    } else {
        let p = group_pool(biome, g, (i - 1) as nat);
        if fauna_entry(biome, (i - 1) as int).3 == g {
            p.push((i - 1) as nat)
        } else {
            p
        }
    }
}

proof fn lemma_group_pool(biome: TileType, g: FaunaGroup, i: nat)
    ensures
        group_pool(biome, g, i).len() <= i,
        forall|j: int|
            0 <= j < group_pool(biome, g, i).len() ==> #[trigger] group_pool(biome, g, i)[j] < i
                && fauna_entry(biome, group_pool(biome, g, i)[j] as int).3 == g,
    decreases i,
{
    if i > 0 {
        lemma_group_pool(biome, g, (i - 1) as nat);
    }
}

/// Fauna picks of one group: after the first `n` of its draws, starting from
/// `st`.  Draw `n` starts at the noise position of channel
/// `611 + n + group_salt(g)` in the pool, probes forward to a species not
/// picked yet and is dropped when the probe finds none; nothing is added once
/// four species are listed.
pub open spec fn fauna_group_state(
    seed: u64,
    tile_idx: u64,
    pool: Seq<nat>,
    g: FaunaGroup,
    n: nat,
    st: (Seq<nat>, Seq<bool>),
) -> (Seq<nat>, Seq<bool>)
    decreases n,
{
    if n == 0 {
        st
    } else {
        let prev = fauna_group_state(seed, tile_idx, pool, g, (n - 1) as nat, st);
        if prev.0.len() >= 4 {
            prev
        } else {
            let start = species_pick(
                spec_noise_bits(seed, (611 + (n - 1) + group_salt(g)) as u64, tile_idx),
                pool.len(),
            );
            let si = pool[probe(prev.1, pool, start, pool.len()) as int];
            if prev.1[si as int] {
                prev
            } else {
                (prev.0.push(si), prev.1.update(si as int, true))
            }
        }
    }
}

/// Fauna picks after the first `k` entries of `plan`, each a group and the
/// number of its species wanted (0 for a group too weak to list).
pub open spec fn fauna_state(
    seed: u64,
    tile_idx: u64,
    biome: TileType,
    plan: Seq<(FaunaGroup, usize)>,
    k: nat,
) -> (Seq<nat>, Seq<bool>)
    decreases k,
{
    if k == 0 {
        (Seq::empty(), Seq::new(10, |i: int| false))
    } else {
        let prev = fauna_state(seed, tile_idx, biome, plan, (k - 1) as nat);
        let (g, take) = plan[k - 1];
        let pool = group_pool(biome, g, 10);
        if take == 0 || prev.0.len() >= 4 || pool.len() == 0 {
            prev
        } else {
            fauna_group_state(seed, tile_idx, pool, g, take as nat, prev)
        }
    }
}

/// The valid states of a fauna listing: distinct picks, at most four, the
/// used marks exactly the picks.
pub open spec fn fauna_consistent(out: Seq<nat>, used: Seq<bool>) -> bool {
    &&& picks_consistent(out, used)
    &&& out.len() <= 4
}

proof fn lemma_fauna_group_state(
    seed: u64,
    tile_idx: u64,
    biome: TileType,
    g: FaunaGroup,
    n: nat,
    st: (Seq<nat>, Seq<bool>),
)
    requires
        fauna_consistent(st.0, st.1),
        group_pool(biome, g, 10).len() > 0,
    ensures
        fauna_consistent(
            fauna_group_state(seed, tile_idx, group_pool(biome, g, 10), g, n, st).0,
            fauna_group_state(seed, tile_idx, group_pool(biome, g, 10), g, n, st).1,
        ),
    decreases n,
{
    let pool = group_pool(biome, g, 10);
    if n > 0 {
        lemma_fauna_group_state(seed, tile_idx, biome, g, (n - 1) as nat, st);
        let prev = fauna_group_state(seed, tile_idx, pool, g, (n - 1) as nat, st);
        if prev.0.len() < 4 {
            lemma_group_pool(biome, g, 10);
            let start = species_pick(
                spec_noise_bits(seed, (611 + (n - 1) + group_salt(g)) as u64, tile_idx),
                pool.len(),
            );
            lemma_probe_bounds(prev.1, pool, start, pool.len());
            let si = pool[probe(prev.1, pool, start, pool.len()) as int];
            if !prev.1[si as int] {
                lemma_push_fresh(prev.0, prev.1, si);
            }
        }
    }
}

proof fn lemma_push_fresh(out: Seq<nat>, used: Seq<bool>, si: nat)
    requires
        picks_consistent(out, used),
        si < 10,
        !used[si as int],
    ensures
        picks_consistent(out.push(si), used.update(si as int, true)),
{
    assert(!out.contains(si));
    let out2 = out.push(si);
    let used2 = used.update(si as int, true);
    assert forall|i: nat| i < 10 implies (#[trigger] used2[i as int] <==> out2.contains(i)) by {
        if used2[i as int] && i != si {
            assert(out.contains(i));
            let w = choose|w: int| 0 <= w < out.len() && out[w] == i;
            assert(out2[w] == i);
        }
        if out2.contains(i) && i != si {
            let w = choose|w: int| 0 <= w < out2.len() && out2[w] == i;
            assert(out[w] == i);
        }
        if i == si {
            assert(out2[out.len() as int] == si);
        }
    }
    assert(out2.no_duplicates()) by {
        assert forall|a: int, b: int|
            0 <= a < out2.len() && 0 <= b < out2.len() && a != b implies out2[a] != out2[b] by {
            if a == out.len() as int {
                assert(out[b] != si);
            } else if b == out.len() as int {
                assert(out[a] != si);
            }
        }
    }
}

/// Whatever the plan, the fauna listed on a tile are distinct species, at
/// most four.
pub proof fn law_fauna_picks_distinct(
    seed: u64,
    tile_idx: u64,
    biome: TileType,
    plan: Seq<(FaunaGroup, usize)>,
    k: nat,
)
    requires
        k <= plan.len(),
    ensures
        fauna_consistent(
            fauna_state(seed, tile_idx, biome, plan, k).0,
            fauna_state(seed, tile_idx, biome, plan, k).1,
        ),
    decreases k,
{
    if k == 0 {
        let (out, used) = fauna_state(seed, tile_idx, biome, plan, 0);
        assert forall|i: nat| i < 10 implies (#[trigger] used[i as int] <==> out.contains(i)) by {}
    } else {
        law_fauna_picks_distinct(seed, tile_idx, biome, plan, (k - 1) as nat);
        let prev = fauna_state(seed, tile_idx, biome, plan, (k - 1) as nat);
        let (g, take) = plan[k - 1];
        if take != 0 && prev.0.len() < 4 && group_pool(biome, g, 10).len() > 0 {
            lemma_fauna_group_state(seed, tile_idx, biome, g, take as nat, prev);
        }
    }
}

/// Names of the fauna species expected on a region tile.  `plan` lists the
/// fauna groups from the strongest habitat down, each with the number of its
/// species wanted (0 for a group too weak to list, at most 2).
pub fn fauna_expectation(seed: u64, tile_idx: u64, biome: TileType, plan: &[(FaunaGroup, usize)]) -> (names:
    Vec<String>)
    requires
        forall|k: int| 0 <= k < plan@.len() ==> (#[trigger] plan@[k]).1 <= 2,
    ensures
        names@.len() == fauna_state(seed, tile_idx, biome, plan@, plan@.len()).0.len(),
        names@.len() <= 4,
        forall|k: int|
            0 <= k < names@.len() ==> (#[trigger] names@[k])@ == fauna_entry(
                biome,
                fauna_state(seed, tile_idx, biome, plan@, plan@.len()).0[k] as int,
            ).0,
{
    let catalog = fauna_for(biome);
    let mut out: Vec<String> = Vec::new();
    let mut used: Vec<bool> = Vec::new();
    let mut t: usize = 0;
    while t < 10
        invariant
            t <= 10,
            used@ == Seq::new(t as nat, |i: int| false),
        decreases 10 - t,
    {
        used.push(false);
        t = t + 1;
    }
    let ghost mut picks: Seq<nat> = Seq::empty();
    let mut k: usize = 0;
    while k < plan.len()
        invariant
            k <= plan@.len(),
            forall|q: int| 0 <= q < plan@.len() ==> (#[trigger] plan@[q]).1 <= 2,
            (picks, used@) == fauna_state(seed, tile_idx, biome, plan@, k as nat),
            fauna_consistent(picks, used@),
            out@.len() == picks.len(),
            forall|q: int|
                0 <= q < out@.len() ==> (#[trigger] out@[q])@ == fauna_entry(biome, picks[q] as int).0,
            forall|i: int|
                0 <= i < 10 ==> ((#[trigger] catalog@[i]).name@, catalog@[i].subspecies@[0]@,
                catalog@[i].subspecies@[1]@, catalog@[i].group) == fauna_entry(biome, i),
        decreases plan@.len() - k,
    {
        proof {
            law_fauna_picks_distinct(seed, tile_idx, biome, plan@, (k + 1) as nat);
        }
        let (g, take) = plan[k];
        let ghost prev = (picks, used@);
        let ghost gp = group_pool(biome, g, 10);
        let mut pool: Vec<usize> = Vec::new();
        let mut i: usize = 0;
        while i < 10
            invariant
                i <= 10,
                pool@.len() == group_pool(biome, g, i as nat).len(),
                forall|j: int| 0 <= j < pool@.len() ==> #[trigger] pool@[j] == group_pool(biome, g, i as nat)[j],
                forall|q: int|
                    0 <= q < 10 ==> ((#[trigger] catalog@[q]).name@, catalog@[q].subspecies@[0]@,
                    catalog@[q].subspecies@[1]@, catalog@[q].group) == fauna_entry(biome, q),
            decreases 10 - i,
        {
            if catalog[i].group == g {
                pool.push(i);
            }
            i = i + 1;
        }
        proof {
            lemma_group_pool(biome, g, 10);
        }
        if take != 0 && out.len() < 4 && pool.len() > 0 {
            let mut n: usize = 0;
            while n < take
                invariant
                    n <= take <= 2,
                    pool@.len() == gp.len(),
                    0 < gp.len() <= 10,
                    forall|j: int| 0 <= j < pool@.len() ==> #[trigger] pool@[j] == gp[j],
                    forall|j: int| 0 <= j < gp.len() ==> #[trigger] gp[j] < 10,
                    gp == group_pool(biome, g, 10),
                    fauna_consistent(prev.0, prev.1),
                    (picks, used@) == fauna_group_state(seed, tile_idx, gp, g, n as nat, prev),
                    fauna_consistent(picks, used@),
                    out@.len() == picks.len(),
                    forall|q: int|
                        0 <= q < out@.len() ==> (#[trigger] out@[q])@ == fauna_entry(biome, picks[q] as int).0,
                    forall|q: int|
                        0 <= q < 10 ==> ((#[trigger] catalog@[q]).name@, catalog@[q].subspecies@[0]@,
                        catalog@[q].subspecies@[1]@, catalog@[q].group) == fauna_entry(biome, q),
                decreases take - n,
            {
                proof {
                    lemma_fauna_group_state(seed, tile_idx, biome, g, (n + 1) as nat, prev);
                }
                if out.len() < 4 {
                    let len = pool.len();
                    let start = species_index(seed, 611 + n as u64 + fauna_group_salt(g), tile_idx, len);
                    let mut pi = start;
                    let mut step: usize = 0;
                    while step < len
                        invariant
                            step <= len,
                            len == gp.len(),
                            0 < len <= 10,
                            pi < len,
                            used@.len() == 10,
                            forall|j: int| 0 <= j < pool@.len() ==> #[trigger] pool@[j] == gp[j],
                            pool@.len() == len,
                            forall|j: int| 0 <= j < gp.len() ==> #[trigger] gp[j] < 10,
                            probe(used@, gp, start as nat, len as nat) == probe(
                                used@,
                                gp,
                                pi as nat,
                                (len - step) as nat,
                            ),
                        ensures
                            pi < len,
                            probe(used@, gp, start as nat, len as nat) == pi as nat,
                        decreases len - step,
                    {
                        if !used[pool[pi]] {
                            break;
                        }
                        pi = (pi + 1) % len;
                        step = step + 1;
                    }
                    let si = pool[pi];
                    if !used[si] {
                        used.set(si, true);
                        out.push(String::from_str(catalog[si].name));
                        proof {
                            picks = picks.push(si as nat);
                        }
                    }
                }
                n = n + 1;
            }
        }
        k = k + 1;
    }
    out
}

/// Noise bits whose noise value, narrowed to single precision, lies below
/// `0.55f32`.
pub const ROLL_F32_BELOW_0_55: u64 = 4953959429046273u64;

/// Noise bits whose noise value, narrowed to single precision, lies below
/// `0.70f32`.
pub const ROLL_F32_BELOW_0_70: u64 = 6305039102509057u64;

/// The fauna group a chunk sample looks for: large mammals where they lead
/// the habitat and the roll of channel 513 is low, else birds where they beat
/// small fauna and the roll is moderate, else small fauna.
pub open spec fn preferred_group_spec(roll: u64, large_leads: bool, birds_over_small: bool) -> FaunaGroup {
    if large_leads && roll < ROLL_F32_BELOW_0_55 {
        FaunaGroup::LargeMammal
    } else if birds_over_small && roll < ROLL_F32_BELOW_0_70 {
        FaunaGroup::Bird
    } else {
        FaunaGroup::SmallFauna
    }
}

/// The fauna group preferred by the chunk sample at noise index `idx`;
/// `large_leads` says large mammals have the strongest habitat (ties
/// included), `birds_over_small` that birds are at least as strong as small
/// fauna.
pub fn preferred_fauna_group(seed: u64, idx: u64, large_leads: bool, birds_over_small: bool) -> (g: FaunaGroup)
    ensures
        g == preferred_group_spec(spec_noise_bits(seed, 513, idx), large_leads, birds_over_small),
{
    let roll = noise_bits(seed, 513, idx);
    if large_leads && roll < ROLL_F32_BELOW_0_55 {
        FaunaGroup::LargeMammal
    } else if birds_over_small && roll < ROLL_F32_BELOW_0_70 {
        FaunaGroup::Bird
    } else {
        FaunaGroup::SmallFauna
    }
}

/// A species seen in a chunk sample: its name, subspecies and, for fauna,
/// its group.
#[derive(Debug, Clone)]
pub struct SpeciesSighting {
    pub species: String,
    pub subspecies: String,
    pub group: Option<FaunaGroup>,
}

/// The flora species of the chunk sample at noise index `idx`: catalog
/// position from channel 502, subspecies from channel 503.
pub fn chunk_flora_sighting(seed: u64, idx: u64, biome: TileType) -> (s: SpeciesSighting)
    ensures
        ({
            let e = flora_entry(biome, species_pick(spec_noise_bits(seed, 502, idx), 10) as int);
            &&& s.species@ == e.0
            &&& s.subspecies@ == (if spec_noise_bits(seed, 503, idx) < NOISE_BELOW_0_50 {
                e.1
            } else {
                e.2
            })
            &&& s.group is None
        }),
{
    let catalog = flora_for(biome);
    let si = species_index(seed, 502, idx, SPECIES_PER_BIOME);
    let def = catalog[si];
    let sub = pick_subspecies(seed, 503, idx, &def.subspecies);
    SpeciesSighting {
        species: String::from_str(def.name),
        subspecies: String::from_str(sub),
        group: None,
    }
}

/// Catalog positions a chunk fauna sample draws from: the preferred group's
/// species, or the whole catalog where the biome has none of that group.
pub open spec fn sighting_pool(biome: TileType, g: FaunaGroup) -> Seq<nat> {
    if group_pool(biome, g, 10).len() > 0 {
        group_pool(biome, g, 10)
    } else {
        all_species()
    }
}

/// The fauna species of the chunk sample at noise index `idx`, drawn from
/// the pool of group `preferred` by channel 512, subspecies by channel 514.
pub fn chunk_fauna_sighting(seed: u64, idx: u64, biome: TileType, preferred: FaunaGroup) -> (s:
    SpeciesSighting)
    ensures
        ({
            let pool = sighting_pool(biome, preferred);
            let e = fauna_entry(
                biome,
                pool[species_pick(spec_noise_bits(seed, 512, idx), pool.len()) as int] as int,
            );
            &&& s.species@ == e.0
            &&& s.subspecies@ == (if spec_noise_bits(seed, 514, idx) < NOISE_BELOW_0_50 {
                e.1
            } else {
                e.2
            })
            &&& s.group == Some(e.3)
        }),
{
    let catalog = fauna_for(biome);
    let mut pool: Vec<usize> = Vec::new();
    let mut i: usize = 0;
    while i < 10
        invariant
            i <= 10,
            pool@.len() == group_pool(biome, preferred, i as nat).len(),
            forall|j: int|
                0 <= j < pool@.len() ==> #[trigger] pool@[j] == group_pool(biome, preferred, i as nat)[j],
            forall|q: int|
                0 <= q < 10 ==> ((#[trigger] catalog@[q]).name@, catalog@[q].subspecies@[0]@,
                catalog@[q].subspecies@[1]@, catalog@[q].group) == fauna_entry(biome, q),
        decreases 10 - i,
    {
        if catalog[i].group == preferred {
            pool.push(i);
        }
        i = i + 1;
    }
    proof {
        lemma_group_pool(biome, preferred, 10);
    }
    if pool.len() == 0 {
        let mut t: usize = 0;
        while t < 10
            invariant
                t <= 10,
                pool@.len() == t,
                forall|j: int| 0 <= j < t ==> #[trigger] pool@[j] == j,
            decreases 10 - t,
        {
            pool.push(t);
            t = t + 1;
        }
    }
    let ghost sp = sighting_pool(biome, preferred);
    assert(pool@.len() == sp.len());
    assert(forall|j: int| 0 <= j < pool@.len() ==> #[trigger] pool@[j] == sp[j]);
    let pi = species_index(seed, 512, idx, pool.len());
    let si = pool[pi];
    let def = catalog[si];
    let sub = pick_subspecies(seed, 514, idx, &def.subspecies);
    SpeciesSighting {
        species: String::from_str(def.name),
        subspecies: String::from_str(sub),
        group: Some(def.group),
    }
}

} // verus!
