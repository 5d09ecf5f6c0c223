//! Mine floors: monster, dark and mushroom floors, the remixed treasure
//! chests, and what a rock spot drops.
use vstd::prelude::*;

use crate::rng::cs_random::{advance, below, init_state, next_state, pick, well_formed, RngState};
use crate::rng::{int_overflow, trunc_div, trunc_rem, CSRandom};
use crate::version::GameVersion;

verus! {

/// The three conditions of a floor.
#[derive(Clone, Copy, Debug, PartialEq, Eq, Structural, Hash)]
pub struct FloorConditions {
    pub is_monster_floor: bool,
    pub is_dark_floor: bool,
    pub is_mushroom_floor: bool,
}

/// Floors that are never monster floors: checkpoints, the first four and
/// the last nine floors of each forty, and the nineteenth.
pub open spec fn monster_exempt(level: int) -> bool {
    trunc_rem(level, 5) == 0 || trunc_rem(level, 40) < 5 || trunc_rem(level, 40) > 30
        || trunc_rem(level, 40) == 19
}

/// The seed of the monster-floor roll; newer versions multiply the level by 100.
pub open spec fn monster_seed(seed: i32, days_played: i32, level: i32, version: GameVersion) -> i32 {
    if version == GameVersion::V1_3 {
        (trunc_div(seed as int, 2) + days_played + level) as i32
    } else {
        (trunc_div(seed as int, 2) + days_played + level * 100) as i32
    }
}

pub open spec fn monster_spec(seed: i32, days_played: i32, level: i32, version: GameVersion) -> bool {
    !monster_exempt(level as int) && below(init_state(monster_seed(seed, days_played, level, version)), 44, 1000)
}

/// The seed of the darkness roll, shared with the newer mushroom roll.
pub open spec fn level_seed(seed: i32, days_played: i32, level: i32) -> i32 {
    (days_played * level + 4 * level + trunc_div(seed as int, 2)) as i32
}

pub open spec fn dark_spec(seed: i32, days_played: i32, level: i32) -> bool {
    let s = init_state(level_seed(seed, days_played, level));
    if trunc_rem(level as int, 10) == 0 || trunc_rem(level as int, 40) > 30 {
        false
    } else if below(s, 3, 10) && level > 2 {
        true
    } else {
        below(next_state(s), 15, 100) && level > 5 && level != 120
    }
}

/// The seed of the mushroom roll.
pub open spec fn mushroom_seed(seed: i32, days_played: i32, floor: i32, version: GameVersion) -> i32 {
    if version == GameVersion::V1_3 {
        (trunc_div(seed as int, 2) + floor + days_played) as i32
    } else {
        level_seed(seed, days_played, floor)
    }
}

/// The mushroom roll: a draw that may skip one more, a discarded draw, then
/// a 3.5% roll that counts below floor 81 only as a miss.
pub open spec fn mushroom_roll(s: RngState, floor: i32) -> bool {
    let s1 = if below(s, 3, 10) && floor > 2 {
        next_state(next_state(s))
    } else {
        next_state(s)
    };
    below(next_state(s1), 35, 1000) && floor > 80
}

pub open spec fn mushroom_spec(seed: i32, days_played: i32, floor: i32, version: GameVersion) -> bool {
    if trunc_rem(floor as int, 5) == 0 || monster_spec(seed, days_played, floor, version) {
        false
    } else {
        mushroom_roll(init_state(mushroom_seed(seed, days_played, floor, version)), floor)
    }
}

/// Whether a floor is a monster (infested) floor: no checkpoint, none of the
/// first four or last nine floors of a forty, and never the nineteenth.
pub fn is_monster_floor(seed: i32, days_played: i32, level: i32, version: GameVersion) -> (r: bool)
    ensures
        r == monster_spec(seed, days_played, level, version),
        level % 5 == 0 ==> !r,
{
    if level % 5 == 0 {
        return false;
    }
    if level % 40 < 5 {
        return false;
    }
    if level % 40 > 30 {
        return false;
    }
    if level % 40 == 19 {
        return false;
    }
    match version {
        GameVersion::V1_3 => is_monster_floor_v13(seed, days_played, level),
        _ => is_monster_floor_v14_plus(seed, days_played, level),
    }
}

/// The oldest version seeds with the level itself.
fn is_monster_floor_v13(seed: i32, days_played: i32, level: i32) -> (r: bool)
    ensures
        r == below(init_state(monster_seed(seed, days_played, level, GameVersion::V1_3)), 44, 1000),
{
    let mut rng = CSRandom::new(int_overflow((seed / 2) as i64 + days_played as i64 + level as i64));
    rng.chance(44, 1000)
}

/// Newer versions seed with the level times 100.
fn is_monster_floor_v14_plus(seed: i32, days_played: i32, level: i32) -> (r: bool)
    ensures
        r == below(init_state(monster_seed(seed, days_played, level, GameVersion::V1_4)), 44, 1000),
{
    let mut rng = CSRandom::new(
        int_overflow((seed / 2) as i64 + days_played as i64 + (level as i64) * 100),
    );
    rng.chance(44, 1000)
}

fn level_seed_of(seed: i32, days_played: i32, level: i32) -> (r: i32)
    ensures
        r == level_seed(seed, days_played, level),
{
    let d = days_played as i64;
    let l = level as i64;
    assert(-4611686018427387904 <= d * l <= 4611686018427387904) by (nonlinear_arith)
        requires
            -2147483648 <= d <= 2147483647,
            -2147483648 <= l <= 2147483647,
    ;
    int_overflow(d * l + 4 * l + (seed / 2) as i64)
}

/// Whether a floor is unusually dark: never a tenth floor nor one of the
/// last nine of a forty.
pub fn is_unusual_dark_floor(seed: i32, days_played: i32, level: i32) -> (r: bool)
    ensures
        r == dark_spec(seed, days_played, level),
        level % 10 == 0 ==> !r,
{
    if level % 10 == 0 {
        return false;
    }
    if level % 40 > 30 {
        return false;
    }
    let mut rng = CSRandom::new(level_seed_of(seed, days_played, level));
    if rng.chance(3, 10) && level > 2 {
        return true;
    }
    if rng.chance(15, 100) && level > 5 && level != 120 {
        return true;
    }
    false
}

/// Whether a floor is a mushroom floor: never a checkpoint, never a monster
/// floor, and only from floor 81 on.
pub fn is_mushroom_floor(seed: i32, days_played: i32, floor: i32, version: GameVersion) -> (r: bool)
    ensures
        r == mushroom_spec(seed, days_played, floor, version),
        floor % 5 == 0 ==> !r,
        floor <= 80 ==> !r,
        monster_spec(seed, days_played, floor, version) ==> !r,
{
    if floor % 5 == 0 {
        return false;
    }
    if is_monster_floor(seed, days_played, floor, version) {
        return false;
    }
    match version {
        GameVersion::V1_3 => is_mushroom_floor_v13(seed, days_played, floor),
        _ => is_mushroom_floor_v14_plus(seed, days_played, floor),
    }
}

fn mushroom_draws(rng: &mut CSRandom, floor: i32) -> (r: bool)
    requires
        well_formed(old(rng)@),
    ensures
        r == mushroom_roll(old(rng)@, floor),
{
    let skip = rng.chance(3, 10);
    if skip && floor > 2 {
        rng.sample_raw();
    }
    rng.sample_raw();
    rng.chance(35, 1000) && floor > 80
}

/// The oldest version seeds with the floor plus the day.
fn is_mushroom_floor_v13(seed: i32, days_played: i32, floor: i32) -> (r: bool)
    ensures
        r == mushroom_roll(init_state(mushroom_seed(seed, days_played, floor, GameVersion::V1_3)), floor),
{
    let mut rng = CSRandom::new(int_overflow((seed / 2) as i64 + floor as i64 + days_played as i64));
    mushroom_draws(&mut rng, floor)
}

/// Newer versions share the darkness seed.
fn is_mushroom_floor_v14_plus(seed: i32, days_played: i32, floor: i32) -> (r: bool)
    ensures
        r == mushroom_roll(init_state(level_seed(seed, days_played, floor)), floor),
{
    let mut rng = CSRandom::new(level_seed_of(seed, days_played, floor));
    mushroom_draws(&mut rng, floor)
}

/// All three conditions of a floor at once.
pub fn get_floor_conditions(seed: i32, days_played: i32, level: i32, version: GameVersion) -> (r: FloorConditions)
    ensures
        r.is_monster_floor == monster_spec(seed, days_played, level, version),
        r.is_dark_floor == dark_spec(seed, days_played, level),
        r.is_mushroom_floor == mushroom_spec(seed, days_played, level, version),
{
    let is_monster = is_monster_floor(seed, days_played, level, version);
    let is_dark = is_unusual_dark_floor(seed, days_played, level);
    let is_mushroom = if is_monster {
        false
    } else {
        is_mushroom_floor(seed, days_played, level, version)
    };
    FloorConditions { is_monster_floor: is_monster, is_dark_floor: is_dark, is_mushroom_floor: is_mushroom }
}

/// Which floor condition a range query asks for.
pub enum FloorKind {
    Monster,
    Dark,
    Mushroom,
}

pub open spec fn floor_has(seed: i32, days_played: i32, floor: i32, version: GameVersion, kind: FloorKind) -> bool {
    match kind {
        FloorKind::Monster => monster_spec(seed, days_played, floor, version),
        FloorKind::Dark => dark_spec(seed, days_played, floor),
        FloorKind::Mushroom => mushroom_spec(seed, days_played, floor, version),
    }
}

/// The floors of `[lo, hi]` with the condition `kind`, in ascending order.
pub open spec fn floors_where(
    seed: i32,
    days_played: i32,
    lo: int,
    hi: int,
    version: GameVersion,
    kind: FloorKind,
) -> Seq<i32>
    decreases hi - lo + 1,
{
    if hi < lo {
        Seq::empty()
    } else {
        let rest = floors_where(seed, days_played, lo, hi - 1, version, kind);
        if floor_has(seed, days_played, hi as i32, version, kind) {
            rest.push(hi as i32)
        } else {
            rest
        }
    }
}

fn floors_in_range(
    seed: i32,
    days_played: i32,
    start_floor: i32,
    end_floor: i32,
    version: GameVersion,
    kind: FloorKind,
) -> (r: Vec<i32>)
    ensures
        r@ == floors_where(seed, days_played, start_floor as int, end_floor as int, version, kind),
{
    let mut floors: Vec<i32> = Vec::new();
    let mut floor: i64 = start_floor as i64;
    while floor <= end_floor as i64
        invariant
            start_floor <= floor <= end_floor + 1 || (start_floor > end_floor && floor == start_floor),
            floors@ == floors_where(seed, days_played, start_floor as int, floor - 1, version, kind),
        decreases end_floor + 1 - floor,
    {
        let f = floor as i32;
        let hit = match kind {
            FloorKind::Monster => is_monster_floor(seed, days_played, f, version),
            FloorKind::Dark => is_unusual_dark_floor(seed, days_played, f),
            FloorKind::Mushroom => is_mushroom_floor(seed, days_played, f, version),
        };
        if hit {
            floors.push(f);
        }
        floor = floor + 1;
    }
    floors
}

/// The monster floors of `[start_floor, end_floor]`, in ascending order.
pub fn find_monster_floors(
    seed: i32,
    days_played: i32,
    start_floor: i32,
    end_floor: i32,
    version: GameVersion,
) -> (r: Vec<i32>)
    ensures
        r@ == floors_where(seed, days_played, start_floor as int, end_floor as int, version, FloorKind::Monster),
{
    floors_in_range(seed, days_played, start_floor, end_floor, version, FloorKind::Monster)
}

/// The dark floors of `[start_floor, end_floor]`, in ascending order.
pub fn find_dark_floors(seed: i32, days_played: i32, start_floor: i32, end_floor: i32) -> (r: Vec<i32>)
    ensures
        r@ == floors_where(seed, days_played, start_floor as int, end_floor as int, GameVersion::V1_6, FloorKind::Dark),
{
    floors_in_range(seed, days_played, start_floor, end_floor, GameVersion::V1_6, FloorKind::Dark)
}

/// The mushroom floors of `[start_floor, end_floor]`, in ascending order.
pub fn find_mushroom_floors(
    seed: i32,
    days_played: i32,
    start_floor: i32,
    end_floor: i32,
    version: GameVersion,
) -> (r: Vec<i32>)
    ensures
        r@ == floors_where(seed, days_played, start_floor as int, end_floor as int, version, FloorKind::Mushroom),
{
    floors_in_range(seed, days_played, start_floor, end_floor, version, FloorKind::Mushroom)
}

/// The kinds of item a remixed treasure chest holds.
#[derive(Clone, Copy, Debug, PartialEq, Eq, Structural, Hash)]
pub enum ChestItemType {
    Boots,
    MeleeWeapon,
    Ring,
}

/// An item of a remixed treasure chest.
#[derive(Clone, Copy, Debug, PartialEq, Eq, Structural, Hash)]
pub struct ChestItem {
    pub item_type: ChestItemType,
    pub item_id: i32,
}

pub open spec fn boots(id: i32) -> ChestItem {
    ChestItem { item_type: ChestItemType::Boots, item_id: id }
}

pub open spec fn weapon(id: i32) -> ChestItem {
    ChestItem { item_type: ChestItemType::MeleeWeapon, item_id: id }
}

pub open spec fn ring(id: i32) -> ChestItem {
    ChestItem { item_type: ChestItemType::Ring, item_id: id }
}

/// The choices of the chest on a floor; floors without a chest have none.
pub open spec fn chest_choices(floor: i32) -> Seq<ChestItem> {
    if floor == 10 {
        seq![boots(506), boots(507), weapon(12), weapon(17), weapon(22), weapon(31)]
    } else if floor == 20 {
        seq![weapon(11), weapon(24), weapon(20), ring(517), ring(519)]
    } else if floor == 50 {
        seq![boots(509), boots(510), boots(508), weapon(1), weapon(43)]
    } else if floor == 60 {
        seq![weapon(21), weapon(44), weapon(6), weapon(18), weapon(27)]
    } else if floor == 80 {
        seq![boots(512), boots(511), weapon(10), weapon(7), weapon(46), weapon(19)]
    } else if floor == 90 {
        seq![weapon(8), weapon(52), weapon(45), weapon(5), weapon(60)]
    } else if floor == 110 {
        seq![boots(514), boots(878), weapon(50), weapon(28)]
    } else {
        Seq::empty()
    }
}

/// The chest of a floor, chosen by a generator seeded with `seed * 512 + floor`.
pub open spec fn chest_spec(seed: i32, floor: i32) -> Option<ChestItem> {
    let choices = chest_choices(floor);
    if choices.len() == 0 {
        None
    } else {
        let s = init_state((seed * 512 + floor) as i32);
        Some(choices[pick(s, 0, choices.len() as int)])
    }
}

fn chest_choices_of(floor: i32) -> (r: Vec<ChestItem>)
    ensures
        r@ == chest_choices(floor),
{
    let b = ChestItemType::Boots;
    let w = ChestItemType::MeleeWeapon;
    let g = ChestItemType::Ring;
    let items: Vec<ChestItem> = if floor == 10 {
        vec![
            ChestItem { item_type: b, item_id: 506 },
            ChestItem { item_type: b, item_id: 507 },
            ChestItem { item_type: w, item_id: 12 },
            ChestItem { item_type: w, item_id: 17 },
            ChestItem { item_type: w, item_id: 22 },
            ChestItem { item_type: w, item_id: 31 },
        ]
    } else if floor == 20 {
        vec![
            ChestItem { item_type: w, item_id: 11 },
            ChestItem { item_type: w, item_id: 24 },
            ChestItem { item_type: w, item_id: 20 },
            ChestItem { item_type: g, item_id: 517 },
            ChestItem { item_type: g, item_id: 519 },
        ]
    } else if floor == 50 {
        vec![
            ChestItem { item_type: b, item_id: 509 },
            ChestItem { item_type: b, item_id: 510 },
            ChestItem { item_type: b, item_id: 508 },
            ChestItem { item_type: w, item_id: 1 },
            ChestItem { item_type: w, item_id: 43 },
        ]
    } else if floor == 60 {
        vec![
            ChestItem { item_type: w, item_id: 21 },
            ChestItem { item_type: w, item_id: 44 },
            ChestItem { item_type: w, item_id: 6 },
            ChestItem { item_type: w, item_id: 18 },
            ChestItem { item_type: w, item_id: 27 },
        ]
    } else if floor == 80 {
        vec![
            ChestItem { item_type: b, item_id: 512 },
            ChestItem { item_type: b, item_id: 511 },
            ChestItem { item_type: w, item_id: 10 },
            ChestItem { item_type: w, item_id: 7 },
            ChestItem { item_type: w, item_id: 46 },
            ChestItem { item_type: w, item_id: 19 },
        ]
    } else if floor == 90 {
        vec![
            ChestItem { item_type: w, item_id: 8 },
            ChestItem { item_type: w, item_id: 52 },
            ChestItem { item_type: w, item_id: 45 },
            ChestItem { item_type: w, item_id: 5 },
            ChestItem { item_type: w, item_id: 60 },
        ]
    } else if floor == 110 {
        vec![
            ChestItem { item_type: b, item_id: 514 },
            ChestItem { item_type: b, item_id: 878 },
            ChestItem { item_type: w, item_id: 50 },
            ChestItem { item_type: w, item_id: 28 },
        ]
    } else {
        Vec::new()
    };
    assert(items@ =~= chest_choices(floor));
    items
}

/// The contents of a remixed mine's treasure chest. Only floors 10, 20, 50,
/// 60, 80, 90 and 110 have one; elsewhere there is none.
pub fn remixed_mines_chest(seed: i32, floor: i32) -> (r: Option<ChestItem>)
    ensures
        r == chest_spec(seed, floor),
        r is Some <==> (floor == 10 || floor == 20 || floor == 50 || floor == 60 || floor == 80
            || floor == 90 || floor == 110),
{
    let items = chest_choices_of(floor);
    if items.len() == 0 {
        return None;
    }
    let mut rng = CSRandom::new(int_overflow((seed as i64) * 512 + floor as i64));
    let index = rng.next_range(0, items.len() as i32);
    Some(items[index as usize])
}

/// A drop of `item` at `per_mille` per thousand, which a geologist gets
/// twice at even odds; the items and the generator after.
pub open spec fn doubled_drop(s: RngState, per_mille: int, geologist: bool, item: i32) -> (Seq<i32>, RngState) {
    let s1 = next_state(s);
    if below(s, per_mille, 1000) {
        if geologist {
            if below(s1, 1, 2) {
                (seq![item, item], next_state(s1))
            } else {
                (seq![item], next_state(s1))
            }
        } else {
            (seq![item], s1)
        }
    } else {
        (Seq::empty(), s1)
    }
}

/// Copper or iron at three to one, from two draws.
pub open spec fn copper_or_iron(s: RngState) -> i32 {
    if !below(s, 3, 4) {
        378
    } else {
        380
    }
}

/// Deep ore: copper or iron a quarter of the time, else gold.
pub open spec fn deep_ore(s: RngState) -> i32 {
    if !below(s, 3, 4) {
        copper_or_iron(next_state(s))
    } else {
        384
    }
}

/// The ore of a rock spot by depth band.
pub open spec fn ore_by_depth(s: RngState, floor: i32) -> i32 {
    if floor < 40 {
        if floor >= 20 && below(s, 1, 10) {
            380
        } else {
            378
        }
    } else if floor < 80 {
        if floor >= 60 && below(s, 1, 10) {
            384
        } else {
            copper_or_iron(
                if floor >= 60 {
                    next_state(s)
                } else {
                    s
                },
            )
        }
    } else if floor < 120 {
        deep_ore(s)
    } else if below(s, floor - 100, 2000) {
        386
    } else {
        deep_ore(next_state(s))
    }
}

/// The ore drop: two discarded draws, coal at 25%, then ore by depth.
pub open spec fn ore_drops(s: RngState, floor: i32) -> Seq<i32> {
    let s1 = advance(s, 2);
    let coal = if below(s1, 1, 4) {
        seq![382i32]
    } else {
        Seq::empty()
    };
    coal.push(ore_by_depth(next_state(s1), floor))
}

/// What a rock spot drops.
pub open spec fn spot_spec(seed: i32, ladder: bool, geologist: bool, excavator: bool, floor: i32) -> Seq<i32> {
    let s1 = next_state(init_state(seed));
    let s2 = if !ladder {
        next_state(s1)
    } else {
        s1
    };
    let s3 = if geologist {
        next_state(s2)
    } else {
        s2
    };
    let (geodes, s4) = doubled_drop(s3, if excavator { 44 } else { 22 }, geologist, 535);
    let (frozen, s5) = doubled_drop(s4, if excavator { 10 } else { 5 }, geologist, 749);
    let ore = if below(s5, 5, 100) {
        ore_drops(next_state(s5), floor)
    } else {
        Seq::empty()
    };
    geodes + frozen + ore
}

fn drop_doubled(rng: &mut CSRandom, per_mille: i32, geologist: bool, item: i32) -> (r: Vec<i32>)
    requires
        well_formed(old(rng)@),
        0 <= per_mille,
    ensures
        well_formed(final(rng)@),
        (r@, final(rng)@) == doubled_drop(old(rng)@, per_mille as int, geologist, item),
{
    let mut items: Vec<i32> = Vec::new();
    if rng.chance(per_mille, 1000) {
        if geologist && rng.chance(1, 2) {
            items.push(item);
        }
        items.push(item);
    }
    proof {
        if items@.len() == 2 {
            assert(items@ =~= seq![item, item]);
        } else if items@.len() == 1 {
            assert(items@ =~= seq![item]);
        } else {
            assert(items@ =~= Seq::<i32>::empty());
        }
    }
    items
}

fn ore_drops_exec(rng: &mut CSRandom, floor: i32) -> (r: Vec<i32>)
    requires
        well_formed(old(rng)@),
    ensures
        well_formed(final(rng)@),
        r@ == ore_drops(old(rng)@, floor),
{
    let mut items: Vec<i32> = Vec::new();
    rng.skip(2);
    if rng.chance(1, 4) {
        items.push(382);
    }
    let ore = ore_by_depth_exec(rng, floor);
    items.push(ore);
    proof {
        if items@.len() == 2 {
            assert(items@.drop_last() =~= seq![382i32]);
        } else {
            assert(items@.drop_last() =~= Seq::<i32>::empty());
        }
    }
    items
}

fn copper_or_iron_exec(rng: &mut CSRandom) -> (r: i32)
    requires
        well_formed(old(rng)@),
    ensures
        well_formed(final(rng)@),
        r == copper_or_iron(old(rng)@),
{
    if !rng.chance(3, 4) {
        378
    } else {
        380
    }
}

fn deep_ore_exec(rng: &mut CSRandom) -> (r: i32)
    requires
        well_formed(old(rng)@),
    ensures
        well_formed(final(rng)@),
        r == deep_ore(old(rng)@),
{
    if !rng.chance(3, 4) {
        copper_or_iron_exec(rng)
    } else {
        384
    }
}

fn ore_by_depth_exec(rng: &mut CSRandom, floor: i32) -> (r: i32)
    requires
        well_formed(old(rng)@),
    ensures
        well_formed(final(rng)@),
        r == ore_by_depth(old(rng)@, floor),
{
    if floor < 40 {
        if floor >= 20 && rng.chance(1, 10) {
            380
        } else {
            378
        }
    } else if floor < 80 {
        if floor >= 60 && rng.chance(1, 10) {
            384
        } else {
            copper_or_iron_exec(rng)
        }
    } else if floor < 120 {
        deep_ore_exec(rng)
    } else if rng.chance(floor - 100, 2000) {
        386
    } else {
        deep_ore_exec(rng)
    }
}

/// What a rock spot drops, item by item: geodes, frozen geodes, coal and
/// ore. Its generator is seeded by the caller; an excavator doubles the
/// geode odds, a geologist may get each geode twice and draws once more,
/// and a spot without a ladder draws once more.
pub fn check_mines_spot(seed: i32, ladder: bool, geologist: bool, excavator: bool, floor: i32) -> (r: Vec<i32>)
    ensures
        r@ == spot_spec(seed, ladder, geologist, excavator, floor),
{
    let mut rng = CSRandom::new(seed);
    rng.sample_raw();
    if !ladder {
        rng.sample_raw();
    }
    if geologist {
        rng.sample_raw();
    }
    let mut objects = drop_doubled(&mut rng, if excavator { 44 } else { 22 }, geologist, 535);
    let mut frozen = drop_doubled(&mut rng, if excavator { 10 } else { 5 }, geologist, 749);
    objects.append(&mut frozen);
    if rng.chance(5, 100) {
        let mut ore = ore_drops_exec(&mut rng, floor);
        objects.append(&mut ore);
    }
    objects
}

/// The seed of a rock spot: `x * 1000 + y + floor + seed / 2`.
pub open spec fn spot_seed(seed: i32, floor: i32, x: i32, y: i32) -> i32 {
    (x * 1000 + y + floor + trunc_div(seed as int, 2)) as i32
}

/// What the rock spot at `(x, y)` on a floor drops.
pub fn check_mines_spot_at(
    seed: i32,
    floor: i32,
    x: i32,
    y: i32,
    ladder: bool,
    geologist: bool,
    excavator: bool,
) -> (r: Vec<i32>)
    ensures
        r@ == spot_spec(spot_seed(seed, floor, x, y), ladder, geologist, excavator, floor),
{
    let combined: i64 = (x as i64) * 1000 + y as i64 + floor as i64 + (seed / 2) as i64;
    check_mines_spot(int_overflow(combined), ladder, geologist, excavator, floor)
}

} // verus!
