//! The classes of the game, their engravings, and gem levels.
use vstd::prelude::*;
use crate::text::owned;

verus! {

/// The name of a class, by its id: empty for no class, "Unknown" for an id
/// that is no class.
pub open spec fn class_name(class_id: u32) -> Seq<char> {
    if class_id == 0 {
        ""@
    } else if class_id == 101 {
        "Warrior (Male)"@
    } else if class_id == 102 {
        "Berserker"@
    } else if class_id == 103 {
        "Destroyer"@
    } else if class_id == 104 {
        "Gunlancer"@
    } else if class_id == 105 {
        "Paladin"@
    } else if class_id == 111 {
        "Female Warrior"@
    } else if class_id == 112 {
        "Slayer"@
    } else if class_id == 201 {
        "Mage"@
    } else if class_id == 202 {
        "Arcanist"@
    } else if class_id == 203 {
        "Summoner"@
    } else if class_id == 204 {
        "Bard"@
    } else if class_id == 205 {
        "Sorceress"@
    } else if class_id == 301 {
        "Martial Artist (Female)"@
    } else if class_id == 302 {
        "Wardancer"@
    } else if class_id == 303 {
        "Scrapper"@
    } else if class_id == 304 {
        "Soulfist"@
    } else if class_id == 305 {
        "Glaivier"@
    } else if class_id == 311 {
        "Martial Artist (Male)"@
    } else if class_id == 312 {
        "Striker"@
    } else if class_id == 313 {
        "Breaker"@
    } else if class_id == 401 {
        "Assassin"@
    } else if class_id == 402 {
        "Deathblade"@
    } else if class_id == 403 {
        "Shadowhunter"@
    } else if class_id == 404 {
        "Reaper"@
    } else if class_id == 405 {
        "Souleater"@
    } else if class_id == 501 {
        "Gunner (Male)"@
    } else if class_id == 502 {
        "Sharpshooter"@
    } else if class_id == 503 {
        "Deadeye"@
    } else if class_id == 504 {
        "Artillerist"@
    } else if class_id == 505 {
        "Machinist"@
    } else if class_id == 511 {
        "Gunner (Female)"@
    } else if class_id == 512 {
        "Gunslinger"@
    } else if class_id == 601 {
        "Specialist"@
    } else if class_id == 602 {
        "Artist"@
    } else if class_id == 603 {
        "Aeromancer"@
    } else if class_id == 604 {
        "Alchemist"@
    } else {
        "Unknown"@
    }
}

/// The name of the class with the given id.
pub fn get_class_from_id(class_id: &u32) -> (r: String)
    ensures
        r@ == class_name(*class_id),
{
    let class = match *class_id {
        0 => "",
        101 => "Warrior (Male)",
        102 => "Berserker",
        103 => "Destroyer",
        104 => "Gunlancer",
        105 => "Paladin",
        111 => "Female Warrior",
        112 => "Slayer",
        201 => "Mage",
        202 => "Arcanist",
        203 => "Summoner",
        204 => "Bard",
        205 => "Sorceress",
        301 => "Martial Artist (Female)",
        302 => "Wardancer",
        303 => "Scrapper",
        304 => "Soulfist",
        305 => "Glaivier",
        311 => "Martial Artist (Male)",
        312 => "Striker",
        313 => "Breaker",
        401 => "Assassin",
        402 => "Deathblade",
        403 => "Shadowhunter",
        404 => "Reaper",
        405 => "Souleater",
        501 => "Gunner (Male)",
        502 => "Sharpshooter",
        503 => "Deadeye",
        504 => "Artillerist",
        505 => "Machinist",
        511 => "Gunner (Female)",
        512 => "Gunslinger",
        601 => "Specialist",
        602 => "Artist",
        603 => "Aeromancer",
        604 => "Alchemist",
        _ => "Unknown",
    };
    owned(class)
}

/// The support classes: paladin, bard and artist.
pub open spec fn is_support_class(class_id: u32) -> bool {
    class_id == 105 || class_id == 204 || class_id == 602
}

/// Whether the class is a support class.
pub fn is_support_class_id(class_id: u32) -> (r: bool)
    ensures
        r == is_support_class(class_id),
{
    class_id == 105 || class_id == 204 || class_id == 602
}

/// The class that an engraving belongs to, for the engravings that belong to
/// a class.
pub open spec fn engraving_class(engraving_id: u32) -> Option<u32> {
    if engraving_id == 125 || engraving_id == 188 {
        Some(102u32)
    } else if engraving_id == 196 || engraving_id == 197 {
        Some(103u32)
    } else if engraving_id == 224 || engraving_id == 225 {
        Some(104u32)
    } else if engraving_id == 282 || engraving_id == 283 {
        Some(105u32)
    } else if engraving_id == 309 || engraving_id == 320 {
        Some(112u32)
    } else if engraving_id == 200 || engraving_id == 201 {
        Some(202u32)
    } else if engraving_id == 198 || engraving_id == 199 {
        Some(203u32)
    } else if engraving_id == 194 || engraving_id == 195 {
        Some(204u32)
    } else if engraving_id == 293 || engraving_id == 294 {
        Some(205u32)
    } else if engraving_id == 189 || engraving_id == 127 {
        Some(302u32)
    } else if engraving_id == 190 || engraving_id == 191 {
        Some(303u32)
    } else if engraving_id == 256 || engraving_id == 257 {
        Some(304u32)
    } else if engraving_id == 276 || engraving_id == 277 {
        Some(305u32)
    } else if engraving_id == 291 || engraving_id == 292 {
        Some(312u32)
    } else if engraving_id == 314 || engraving_id == 315 {
        Some(313u32)
    } else if engraving_id == 278 || engraving_id == 279 {
        Some(402u32)
    } else if engraving_id == 280 || engraving_id == 281 {
        Some(403u32)
    } else if engraving_id == 286 || engraving_id == 287 {
        Some(404u32)
    } else if engraving_id == 311 || engraving_id == 312 {
        Some(405u32)
    } else if engraving_id == 258 || engraving_id == 259 {
        Some(502u32)
    } else if engraving_id == 192 || engraving_id == 129 {
        Some(503u32)
    } else if engraving_id == 130 || engraving_id == 193 {
        Some(504u32)
    } else if engraving_id == 284 || engraving_id == 285 {
        Some(505u32)
    } else if engraving_id == 289 || engraving_id == 290 {
        Some(512u32)
    } else if engraving_id == 305 || engraving_id == 306 {
        Some(602u32)
    } else if engraving_id == 307 || engraving_id == 308 {
        Some(603u32)
    } else {
        None
    }
}

/// Whether the engraving is one of the class's own engravings.
pub fn is_class_engraving(class_id: u32, engraving_id: u32) -> (r: bool)
    ensures
        r == (engraving_class(engraving_id) == Some(class_id)),
{
    match engraving_id {
        125 | 188 => class_id == 102,  // mayhem, berserker's technique
        196 | 197 => class_id == 103,  // rage hammer, gravity training
        224 | 225 => class_id == 104,  // combat readiness, lone knight
        282 | 283 => class_id == 105,  // judgement, blessed aura
        309 | 320 => class_id == 112,  // predator, punisher
        200 | 201 => class_id == 202,  // empress's grace, order of the emperor
        198 | 199 => class_id == 203,  // master summoner, communication overflow
        194 | 195 => class_id == 204,  // true courage, desperate salvation
        293 | 294 => class_id == 205,  // igniter, reflux
        189 | 127 => class_id == 302,  // first intention, esoteric skill enhancement
        190 | 191 => class_id == 303,  // ultimate skill: taijutsu, shock training
        256 | 257 => class_id == 304,  // energy overflow, robust spirit
        276 | 277 => class_id == 305,  // pinnacle, control
        291 | 292 => class_id == 312,  // deathblow, esoteric flurry
        314 | 315 => class_id == 313,  // brawl king storm, asura's path
        278 | 279 => class_id == 402,  // remaining energy, surge
        280 | 281 => class_id == 403,  // perfect suppression, demonic impulse
        286 | 287 => class_id == 404,  // hunger, lunar voice
        311 | 312 => class_id == 405,  // full moon harvester, night's edge
        258 | 259 => class_id == 502,  // loyal companion, death strike
        192 | 129 => class_id == 503,  // pistoleer, enhanced weapon
        130 | 193 => class_id == 504,  // firepower enhancement, barrage enhancement
        284 | 285 => class_id == 505,  // arthetinean skill, evolutionary legacy
        289 | 290 => class_id == 512,  // peacemaker, time to hunt
        305 | 306 => class_id == 602,  // recurrence, full bloom
        307 | 308 => class_id == 603,  // wind fury, drizzle
        _ => false,
    }
}

/// The level of a damage gem from the value it adds: 300 per level up to level 7 (2100), then 2400, 3000 and 4000; 0 for any other value.
pub open spec fn damage_gem_level(value: u32) -> u8 {
    if value == 4000 {
        10
    } else if value == 3000 {
        9
    } else if value == 2400 {
        8
    } else if value == 2100 {
        7
    } else if value == 1800 {
        6
    } else if value == 1500 {
        5
    } else if value == 1200 {
        4
    } else if value == 900 {
        3
    } else if value == 600 {
        2
    } else if value == 300 {
        1
    } else {
        0
    }
}

/// The level of a gem from its value (see `damage_gem_level`).
pub fn damage_gem_value_to_level(value: u32) -> (r: u8)
    ensures
        r == damage_gem_level(value),
{
    match value {
        4000 => 10,
        3000 => 9,
        2400 => 8,
        2100 => 7,
        1800 => 6,
        1500 => 5,
        1200 => 4,
        900 => 3,
        600 => 2,
        300 => 1,
        _ => 0,
    }
}

/// The level of a cooldown gem from the value it adds: 200 per level (level 10 at 2000); 0 for any other value.
pub open spec fn cooldown_gem_level(value: u32) -> u8 {
    if value == 2000 {
        10
    } else if value == 1800 {
        9
    } else if value == 1600 {
        8
    } else if value == 1400 {
        7
    } else if value == 1200 {
        6
    } else if value == 1000 {
        5
    } else if value == 800 {
        4
    } else if value == 600 {
        3
    } else if value == 400 {
        2
    } else if value == 200 {
        1
    } else {
        0
    }
}

/// The level of a gem from its value (see `cooldown_gem_level`).
pub fn cooldown_gem_value_to_level(value: u32) -> (r: u8)
    ensures
        r == cooldown_gem_level(value),
{
    match value {
        2000 => 10,
        1800 => 9,
        1600 => 8,
        1400 => 7,
        1200 => 6,
        1000 => 5,
        800 => 4,
        600 => 3,
        400 => 2,
        200 => 1,
        _ => 0,
    }
}

/// The classes by id: 101 Warrior (Male), 102 Berserker, 103 Destroyer, 104 Gunlancer, 105 Paladin, 111 Female Warrior, 112 Slayer, 201 Mage, 202 Arcanist, 203 Summoner, 204 Bard, 205 Sorceress, 301 Martial Artist (Female), 302 Wardancer, 303 Scrapper, 304 Soulfist, 305 Glaivier, 311 Martial Artist (Male), 312 Striker, 313 Breaker, 401 Assassin, 402 Deathblade, 403 Shadowhunter, 404 Reaper, 405 Souleater, 501 Gunner (Male), 502 Sharpshooter, 503 Deadeye, 504 Artillerist, 505 Machinist, 511 Gunner (Female), 512 Gunslinger, 601 Specialist, 602 Artist, 603 Aeromancer, 604 Alchemist; no class
/// (0) has the empty name, and any other id is "Unknown".
pub proof fn lemma_class_names_as_listed(class_id: u32)
    ensures
        class_name(0) == ""@,
        class_name(101) == "Warrior (Male)"@,
        class_name(102) == "Berserker"@,
        class_name(103) == "Destroyer"@,
        class_name(104) == "Gunlancer"@,
        class_name(105) == "Paladin"@,
        class_name(111) == "Female Warrior"@,
        class_name(112) == "Slayer"@,
        class_name(201) == "Mage"@,
        class_name(202) == "Arcanist"@,
        class_name(203) == "Summoner"@,
        class_name(204) == "Bard"@,
        class_name(205) == "Sorceress"@,
        class_name(301) == "Martial Artist (Female)"@,
        class_name(302) == "Wardancer"@,
        class_name(303) == "Scrapper"@,
        class_name(304) == "Soulfist"@,
        class_name(305) == "Glaivier"@,
        class_name(311) == "Martial Artist (Male)"@,
        class_name(312) == "Striker"@,
        class_name(313) == "Breaker"@,
        class_name(401) == "Assassin"@,
        class_name(402) == "Deathblade"@,
        class_name(403) == "Shadowhunter"@,
        class_name(404) == "Reaper"@,
        class_name(405) == "Souleater"@,
        class_name(501) == "Gunner (Male)"@,
        class_name(502) == "Sharpshooter"@,
        class_name(503) == "Deadeye"@,
        class_name(504) == "Artillerist"@,
        class_name(505) == "Machinist"@,
        class_name(511) == "Gunner (Female)"@,
        class_name(512) == "Gunslinger"@,
        class_name(601) == "Specialist"@,
        class_name(602) == "Artist"@,
        class_name(603) == "Aeromancer"@,
        class_name(604) == "Alchemist"@,
        !(class_id == 0 || class_id == 101 || class_id == 102 || class_id == 103 || class_id == 104 || class_id == 105 || class_id == 111 || class_id == 112 || class_id == 201 || class_id == 202 || class_id == 203 || class_id == 204 || class_id == 205 || class_id == 301 || class_id == 302 || class_id == 303 || class_id == 304 || class_id == 305 || class_id == 311 || class_id == 312 || class_id == 313 || class_id == 401 || class_id == 402 || class_id == 403 || class_id == 404 || class_id == 405 || class_id == 501 || class_id == 502 || class_id == 503 || class_id == 504 || class_id == 505 || class_id == 511 || class_id == 512 || class_id == 601 || class_id == 602 || class_id == 603 || class_id == 604) ==> class_name(class_id) == "Unknown"@,
{
}

/// A damage gem adds 300 per level up to level 7 (2100), then 2400 at level
/// 8, 3000 at 9 and 4000 at 10; a cooldown gem adds 200 per level, 2000 at
/// level 10. Any other value is level 0.
pub proof fn lemma_gem_levels_as_listed(value: u32)
    ensures
        forall|k: u32| 1 <= k <= 7 ==> #[trigger] damage_gem_level((300 * k) as u32) == k,
        damage_gem_level(2400) == 8,
        damage_gem_level(3000) == 9,
        damage_gem_level(4000) == 10,
        !(value % 300 == 0 && 300 <= value <= 2100) && value != 2400 && value != 3000 && value
            != 4000 ==> damage_gem_level(value) == 0,
        forall|k: u32| 1 <= k <= 10 ==> #[trigger] cooldown_gem_level((200 * k) as u32) == k,
        !(value % 200 == 0 && 200 <= value <= 2000) ==> cooldown_gem_level(value) == 0,
{
    assert forall|k: u32| 1 <= k <= 7 implies #[trigger] damage_gem_level((300 * k) as u32) == k by {
        assert(k == 1 || k == 2 || k == 3 || k == 4 || k == 5 || k == 6 || k == 7);
    }
    assert forall|k: u32| 1 <= k <= 10 implies #[trigger] cooldown_gem_level((200 * k) as u32) == k by {
        assert(k == 1 || k == 2 || k == 3 || k == 4 || k == 5 || k == 6 || k == 7 || k == 8 || k == 9
            || k == 10);
    }
}

/// The lengths and first letters of the class names, which tell them apart.
proof fn lemma_class_name_texts()
    ensures
        ""@.len() == 0,
        "Aeromancer"@.len() == 10,
        "Aeromancer"@[0] == 'A',
        "Aeromancer"@[1] == 'e',
        "Aeromancer"@[2] == 'r',
        "Aeromancer"@[3] == 'o',
        "Alchemist"@.len() == 9,
        "Alchemist"@[0] == 'A',
        "Alchemist"@[1] == 'l',
        "Alchemist"@[2] == 'c',
        "Alchemist"@[3] == 'h',
        "Arcanist"@.len() == 8,
        "Arcanist"@[0] == 'A',
        "Arcanist"@[1] == 'r',
        "Arcanist"@[2] == 'c',
        "Arcanist"@[3] == 'a',
        "Artillerist"@.len() == 11,
        "Artillerist"@[0] == 'A',
        "Artillerist"@[1] == 'r',
        "Artillerist"@[2] == 't',
        "Artillerist"@[3] == 'i',
        "Artist"@.len() == 6,
        "Artist"@[0] == 'A',
        "Artist"@[1] == 'r',
        "Artist"@[2] == 't',
        "Artist"@[3] == 'i',
        "Assassin"@.len() == 8,
        "Assassin"@[0] == 'A',
        "Assassin"@[1] == 's',
        "Assassin"@[2] == 's',
        "Assassin"@[3] == 'a',
        "Bard"@.len() == 4,
        "Bard"@[0] == 'B',
        "Bard"@[1] == 'a',
        "Bard"@[2] == 'r',
        "Bard"@[3] == 'd',
        "Berserker"@.len() == 9,
        "Berserker"@[0] == 'B',
        "Berserker"@[1] == 'e',
        "Berserker"@[2] == 'r',
        "Berserker"@[3] == 's',
        "Breaker"@.len() == 7,
        "Breaker"@[0] == 'B',
        "Breaker"@[1] == 'r',
        "Breaker"@[2] == 'e',
        "Breaker"@[3] == 'a',
        "Deadeye"@.len() == 7,
        "Deadeye"@[0] == 'D',
        "Deadeye"@[1] == 'e',
        "Deadeye"@[2] == 'a',
        "Deadeye"@[3] == 'd',
        "Deathblade"@.len() == 10,
        "Deathblade"@[0] == 'D',
        "Deathblade"@[1] == 'e',
        "Deathblade"@[2] == 'a',
        "Deathblade"@[3] == 't',
        "Destroyer"@.len() == 9,
        "Destroyer"@[0] == 'D',
        "Destroyer"@[1] == 'e',
        "Destroyer"@[2] == 's',
        "Destroyer"@[3] == 't',
        "Female Warrior"@.len() == 14,
        "Female Warrior"@[0] == 'F',
        "Female Warrior"@[1] == 'e',
        "Female Warrior"@[2] == 'm',
        "Female Warrior"@[3] == 'a',
        "Glaivier"@.len() == 8,
        "Glaivier"@[0] == 'G',
        "Glaivier"@[1] == 'l',
        "Glaivier"@[2] == 'a',
        "Glaivier"@[3] == 'i',
        "Gunlancer"@.len() == 9,
        "Gunlancer"@[0] == 'G',
        "Gunlancer"@[1] == 'u',
        "Gunlancer"@[2] == 'n',
        "Gunlancer"@[3] == 'l',
        "Gunner (Female)"@.len() == 15,
        "Gunner (Female)"@[0] == 'G',
        "Gunner (Female)"@[1] == 'u',
        "Gunner (Female)"@[2] == 'n',
        "Gunner (Female)"@[3] == 'n',
        "Gunner (Male)"@.len() == 13,
        "Gunner (Male)"@[0] == 'G',
        "Gunner (Male)"@[1] == 'u',
        "Gunner (Male)"@[2] == 'n',
        "Gunner (Male)"@[3] == 'n',
        "Gunslinger"@.len() == 10,
        "Gunslinger"@[0] == 'G',
        "Gunslinger"@[1] == 'u',
        "Gunslinger"@[2] == 'n',
        "Gunslinger"@[3] == 's',
        "Machinist"@.len() == 9,
        "Machinist"@[0] == 'M',
        "Machinist"@[1] == 'a',
        "Machinist"@[2] == 'c',
        "Machinist"@[3] == 'h',
        "Mage"@.len() == 4,
        "Mage"@[0] == 'M',
        "Mage"@[1] == 'a',
        "Mage"@[2] == 'g',
        "Mage"@[3] == 'e',
        "Martial Artist (Female)"@.len() == 23,
        "Martial Artist (Female)"@[0] == 'M',
        "Martial Artist (Female)"@[1] == 'a',
        "Martial Artist (Female)"@[2] == 'r',
        "Martial Artist (Female)"@[3] == 't',
        "Martial Artist (Male)"@.len() == 21,
        "Martial Artist (Male)"@[0] == 'M',
        "Martial Artist (Male)"@[1] == 'a',
        "Martial Artist (Male)"@[2] == 'r',
        "Martial Artist (Male)"@[3] == 't',
        "Paladin"@.len() == 7,
        "Paladin"@[0] == 'P',
        "Paladin"@[1] == 'a',
        "Paladin"@[2] == 'l',
        "Paladin"@[3] == 'a',
        "Reaper"@.len() == 6,
        "Reaper"@[0] == 'R',
        "Reaper"@[1] == 'e',
        "Reaper"@[2] == 'a',
        "Reaper"@[3] == 'p',
        "Scrapper"@.len() == 8,
        "Scrapper"@[0] == 'S',
        "Scrapper"@[1] == 'c',
        "Scrapper"@[2] == 'r',
        "Scrapper"@[3] == 'a',
        "Shadowhunter"@.len() == 12,
        "Shadowhunter"@[0] == 'S',
        "Shadowhunter"@[1] == 'h',
        "Shadowhunter"@[2] == 'a',
        "Shadowhunter"@[3] == 'd',
        "Sharpshooter"@.len() == 12,
        "Sharpshooter"@[0] == 'S',
        "Sharpshooter"@[1] == 'h',
        "Sharpshooter"@[2] == 'a',
        "Sharpshooter"@[3] == 'r',
        "Slayer"@.len() == 6,
        "Slayer"@[0] == 'S',
        "Slayer"@[1] == 'l',
        "Slayer"@[2] == 'a',
        "Slayer"@[3] == 'y',
        "Sorceress"@.len() == 9,
        "Sorceress"@[0] == 'S',
        "Sorceress"@[1] == 'o',
        "Sorceress"@[2] == 'r',
        "Sorceress"@[3] == 'c',
        "Souleater"@.len() == 9,
        "Souleater"@[0] == 'S',
        "Souleater"@[1] == 'o',
        "Souleater"@[2] == 'u',
        "Souleater"@[3] == 'l',
        "Soulfist"@.len() == 8,
        "Soulfist"@[0] == 'S',
        "Soulfist"@[1] == 'o',
        "Soulfist"@[2] == 'u',
        "Soulfist"@[3] == 'l',
        "Specialist"@.len() == 10,
        "Specialist"@[0] == 'S',
        "Specialist"@[1] == 'p',
        "Specialist"@[2] == 'e',
        "Specialist"@[3] == 'c',
        "Striker"@.len() == 7,
        "Striker"@[0] == 'S',
        "Striker"@[1] == 't',
        "Striker"@[2] == 'r',
        "Striker"@[3] == 'i',
        "Summoner"@.len() == 8,
        "Summoner"@[0] == 'S',
        "Summoner"@[1] == 'u',
        "Summoner"@[2] == 'm',
        "Summoner"@[3] == 'm',
        "Unknown"@.len() == 7,
        "Unknown"@[0] == 'U',
        "Unknown"@[1] == 'n',
        "Unknown"@[2] == 'k',
        "Unknown"@[3] == 'n',
        "Wardancer"@.len() == 9,
        "Wardancer"@[0] == 'W',
        "Wardancer"@[1] == 'a',
        "Wardancer"@[2] == 'r',
        "Wardancer"@[3] == 'd',
        "Warrior (Male)"@.len() == 14,
        "Warrior (Male)"@[0] == 'W',
        "Warrior (Male)"@[1] == 'a',
        "Warrior (Male)"@[2] == 'r',
        "Warrior (Male)"@[3] == 'r',
{
    reveal_strlit("");
    reveal_strlit("Aeromancer");
    reveal_strlit("Alchemist");
    reveal_strlit("Arcanist");
    reveal_strlit("Artillerist");
    reveal_strlit("Artist");
    reveal_strlit("Assassin");
    reveal_strlit("Bard");
    reveal_strlit("Berserker");
    reveal_strlit("Breaker");
    reveal_strlit("Deadeye");
    reveal_strlit("Deathblade");
    reveal_strlit("Destroyer");
    reveal_strlit("Female Warrior");
    reveal_strlit("Glaivier");
    reveal_strlit("Gunlancer");
    reveal_strlit("Gunner (Female)");
    reveal_strlit("Gunner (Male)");
    reveal_strlit("Gunslinger");
    reveal_strlit("Machinist");
    reveal_strlit("Mage");
    reveal_strlit("Martial Artist (Female)");
    reveal_strlit("Martial Artist (Male)");
    reveal_strlit("Paladin");
    reveal_strlit("Reaper");
    reveal_strlit("Scrapper");
    reveal_strlit("Shadowhunter");
    reveal_strlit("Sharpshooter");
    reveal_strlit("Slayer");
    reveal_strlit("Sorceress");
    reveal_strlit("Souleater");
    reveal_strlit("Soulfist");
    reveal_strlit("Specialist");
    reveal_strlit("Striker");
    reveal_strlit("Summoner");
    reveal_strlit("Unknown");
    reveal_strlit("Wardancer");
    reveal_strlit("Warrior (Male)");
}

/// A class id names a class of the game: its name is neither empty nor
/// "Unknown".
pub open spec fn is_named_class(class_id: u32) -> bool {
    class_name(class_id) != ""@ && class_name(class_id) != "Unknown"@
}

/// The support classes are exactly those named Paladin, Bard and Artist.
pub proof fn lemma_support_classes_by_name(class_id: u32)
    ensures
        is_support_class(class_id) <==> (class_name(class_id) == "Paladin"@ || class_name(class_id)
            == "Bard"@ || class_name(class_id) == "Artist"@),
{
    lemma_class_name_texts();
}

/// An engraving belongs to at most one class, and that class is a named
/// class of the game.
pub proof fn lemma_engraving_owner_is_a_class(engraving_id: u32, class_id: u32, other_id: u32)
    requires
        engraving_class(engraving_id) == Some(class_id),
    ensures
        is_named_class(class_id),
        engraving_class(engraving_id) == Some(other_id) ==> other_id == class_id,
{
    lemma_class_name_texts();
}

/// The engravings of a class.
pub open spec fn own_engravings(class_id: u32) -> Set<u32> {
    Set::new(|e: u32| engraving_class(e) == Some(class_id))
}

/// The classes that have engravings of their own.
pub open spec fn has_own_engravings(class_id: u32) -> bool {
    class_id == 102 || class_id == 103 || class_id == 104 || class_id == 105 || class_id == 112 || class_id == 202 || class_id == 203 || class_id == 204 || class_id == 205 || class_id == 302 || class_id == 303 || class_id == 304 || class_id == 305 || class_id == 312 || class_id == 313 || class_id == 402 || class_id == 403 || class_id == 404 || class_id == 405 || class_id == 502 || class_id == 503 || class_id == 504 || class_id == 505 || class_id == 512 || class_id == 602 || class_id == 603
}

/// The engravings of each class are, pair by pair: Berserker (102) mayhem and
/// berserker's technique (125, 188); Destroyer (103) 196, 197; Gunlancer
/// (104) 224, 225; Paladin (105) 282, 283; Slayer (112) 309, 320; Arcanist
/// (202) 200, 201; Summoner (203) 198, 199; Bard (204) 194, 195; Sorceress
/// (205) 293, 294; Wardancer (302) 189, 127; Scrapper (303) 190, 191;
/// Soulfist (304) 256, 257; Glaivier (305) 276, 277; Striker (312) 291, 292;
/// Breaker (313) 314, 315; Deathblade (402) 278, 279; Shadowhunter (403)
/// 280, 281; Reaper (404) 286, 287; Souleater (405) 311, 312; Sharpshooter
/// (502) 258, 259; Deadeye (503) 192, 129; Artillerist (504) 130, 193;
/// Machinist (505) 284, 285; Gunslinger (512) 289, 290; Artist (602) 305,
/// 306; Aeromancer (603) 307, 308.
pub proof fn lemma_class_engravings_as_listed()
    ensures
        own_engravings(102) == set![125u32, 188u32],
        own_engravings(103) == set![196u32, 197u32],
        own_engravings(104) == set![224u32, 225u32],
        own_engravings(105) == set![282u32, 283u32],
        own_engravings(112) == set![309u32, 320u32],
        own_engravings(202) == set![200u32, 201u32],
        own_engravings(203) == set![198u32, 199u32],
        own_engravings(204) == set![194u32, 195u32],
        own_engravings(205) == set![293u32, 294u32],
        own_engravings(302) == set![189u32, 127u32],
        own_engravings(303) == set![190u32, 191u32],
        own_engravings(304) == set![256u32, 257u32],
        own_engravings(305) == set![276u32, 277u32],
        own_engravings(312) == set![291u32, 292u32],
        own_engravings(313) == set![314u32, 315u32],
        own_engravings(402) == set![278u32, 279u32],
        own_engravings(403) == set![280u32, 281u32],
        own_engravings(404) == set![286u32, 287u32],
        own_engravings(405) == set![311u32, 312u32],
        own_engravings(502) == set![258u32, 259u32],
        own_engravings(503) == set![192u32, 129u32],
        own_engravings(504) == set![130u32, 193u32],
        own_engravings(505) == set![284u32, 285u32],
        own_engravings(512) == set![289u32, 290u32],
        own_engravings(602) == set![305u32, 306u32],
        own_engravings(603) == set![307u32, 308u32],
{
    broadcast use vstd::set::group_set_axioms;

    assert(own_engravings(102) =~= set![125u32, 188u32]);
    assert(own_engravings(103) =~= set![196u32, 197u32]);
    assert(own_engravings(104) =~= set![224u32, 225u32]);
    assert(own_engravings(105) =~= set![282u32, 283u32]);
    assert(own_engravings(112) =~= set![309u32, 320u32]);
    assert(own_engravings(202) =~= set![200u32, 201u32]);
    assert(own_engravings(203) =~= set![198u32, 199u32]);
    assert(own_engravings(204) =~= set![194u32, 195u32]);
    assert(own_engravings(205) =~= set![293u32, 294u32]);
    assert(own_engravings(302) =~= set![189u32, 127u32]);
    assert(own_engravings(303) =~= set![190u32, 191u32]);
    assert(own_engravings(304) =~= set![256u32, 257u32]);
    assert(own_engravings(305) =~= set![276u32, 277u32]);
    assert(own_engravings(312) =~= set![291u32, 292u32]);
    assert(own_engravings(313) =~= set![314u32, 315u32]);
    assert(own_engravings(402) =~= set![278u32, 279u32]);
    assert(own_engravings(403) =~= set![280u32, 281u32]);
    assert(own_engravings(404) =~= set![286u32, 287u32]);
    assert(own_engravings(405) =~= set![311u32, 312u32]);
    assert(own_engravings(502) =~= set![258u32, 259u32]);
    assert(own_engravings(503) =~= set![192u32, 129u32]);
    assert(own_engravings(504) =~= set![130u32, 193u32]);
    assert(own_engravings(505) =~= set![284u32, 285u32]);
    assert(own_engravings(512) =~= set![289u32, 290u32]);
    assert(own_engravings(602) =~= set![305u32, 306u32]);
    assert(own_engravings(603) =~= set![307u32, 308u32]);
}

/// Each of the classes that have engravings of their own has exactly two;
/// every other class (the base classes among them) has none.
pub proof fn lemma_own_engraving_count(class_id: u32)
    ensures
        own_engravings(class_id).finite(),
        own_engravings(class_id).len() == (if has_own_engravings(class_id) {
            2nat
        } else {
            0nat
        }),
{
    broadcast use vstd::set::group_set_axioms;
    let s = own_engravings(class_id);
    if class_id == 102 {
        assert(s =~= set![125u32, 188u32]);
    } else if class_id == 103 {
        assert(s =~= set![196u32, 197u32]);
    } else if class_id == 104 {
        assert(s =~= set![224u32, 225u32]);
    } else if class_id == 105 {
        assert(s =~= set![282u32, 283u32]);
    } else if class_id == 112 {
        assert(s =~= set![309u32, 320u32]);
    } else if class_id == 202 {
        assert(s =~= set![200u32, 201u32]);
    } else if class_id == 203 {
        assert(s =~= set![198u32, 199u32]);
    } else if class_id == 204 {
        assert(s =~= set![194u32, 195u32]);
    } else if class_id == 205 {
        assert(s =~= set![293u32, 294u32]);
    } else if class_id == 302 {
        assert(s =~= set![189u32, 127u32]);
    } else if class_id == 303 {
        assert(s =~= set![190u32, 191u32]);
    } else if class_id == 304 {
        assert(s =~= set![256u32, 257u32]);
    } else if class_id == 305 {
        assert(s =~= set![276u32, 277u32]);
    } else if class_id == 312 {
        assert(s =~= set![291u32, 292u32]);
    } else if class_id == 313 {
        assert(s =~= set![314u32, 315u32]);
    } else if class_id == 402 {
        assert(s =~= set![278u32, 279u32]);
    } else if class_id == 403 {
        assert(s =~= set![280u32, 281u32]);
    } else if class_id == 404 {
        assert(s =~= set![286u32, 287u32]);
    } else if class_id == 405 {
        assert(s =~= set![311u32, 312u32]);
    } else if class_id == 502 {
        assert(s =~= set![258u32, 259u32]);
    } else if class_id == 503 {
        assert(s =~= set![192u32, 129u32]);
    } else if class_id == 504 {
        assert(s =~= set![130u32, 193u32]);
    } else if class_id == 505 {
        assert(s =~= set![284u32, 285u32]);
    } else if class_id == 512 {
        assert(s =~= set![289u32, 290u32]);
    } else if class_id == 602 {
        assert(s =~= set![305u32, 306u32]);
    } else if class_id == 603 {
        assert(s =~= set![307u32, 308u32]);
    } else {
        assert(s =~= Set::<u32>::empty());
    }
}

/// Gem levels run from 0 to 10; 0 exactly for a value that is no level's,
/// and among recognised values a higher value gives a higher level.
pub proof fn lemma_gem_levels_ordered(v1: u32, v2: u32)
    ensures
        damage_gem_level(v1) <= 10,
        cooldown_gem_level(v1) <= 10,
        damage_gem_level(v1) == 0 <==> !(v1 == 300 || v1 == 600 || v1 == 900 || v1 == 1200 || v1
            == 1500 || v1 == 1800 || v1 == 2100 || v1 == 2400 || v1 == 3000 || v1 == 4000),
        cooldown_gem_level(v1) == 0 <==> !(200 <= v1 <= 2000 && v1 % 200 == 0),
        v1 < v2 && damage_gem_level(v1) > 0 && damage_gem_level(v2) > 0 ==> damage_gem_level(v1)
            < damage_gem_level(v2),
        v1 < v2 && cooldown_gem_level(v1) > 0 && cooldown_gem_level(v2) > 0 ==> cooldown_gem_level(
            v1,
        ) < cooldown_gem_level(v2),
{
}

} // verus!
