//! What cracking a geode yields.
use vstd::prelude::*;

use crate::rng::cs_random::{advance, below, init_state, next_state, pick, well_formed, RngState};
use crate::rng::{int_overflow, trunc_div, CSRandom};
use crate::version::GameVersion;

verus! {

/// The kinds of geode.
#[derive(Clone, Copy, Debug, PartialEq, Eq, Structural, Hash)]
pub enum GeodeType {
    Geode,
    FrozenGeode,
    MagmaGeode,
    OmniGeode,
    ArtifactTrove,
    GoldenCoconut,
}

/// Minerals of the plain geode.
pub const GEODE_ITEMS: [i32; 16] = [
    538, 542, 548, 549, 552, 555, 556, 557, 558, 566, 568, 569, 571, 574, 576, 121,
];

/// Minerals of the frozen geode.
pub const FROZEN_ITEMS: [i32; 15] = [
    541, 544, 545, 546, 550, 551, 559, 560, 561, 564, 567, 572, 573, 577, 123,
];

/// Minerals of the magma geode.
pub const MAGMA_ITEMS: [i32; 13] = [
    539, 540, 543, 547, 553, 554, 562, 563, 565, 570, 575, 578, 122,
];

/// Minerals of the omni geode.
pub const OMNI_ITEMS: [i32; 44] = [
    538, 542, 548, 549, 552, 555, 556, 557, 558, 566, 568, 569, 571, 574, 576, 541, 544, 545, 546,
    550, 551, 559, 560, 561, 564, 567, 572, 573, 577, 539, 540, 543, 547, 553, 554, 562, 563, 565,
    570, 575, 578, 121, 122, 123,
];

/// Artifacts of the artifact trove.
pub const TROVE_ITEMS: [i32; 27] = [
    100, 101, 103, 104, 105, 106, 108, 109, 110, 111, 112, 113, 114, 115, 116, 117, 118, 119, 120,
    121, 122, 123, 124, 125, 166, 373, 797,
];

/// One item and how many of it.
#[derive(Clone, Copy, Debug, PartialEq, Eq, Structural, Hash)]
pub struct GeodeResult {
    pub item_id: i32,
    pub quantity: i32,
}

pub open spec fn result(item_id: int, quantity: int) -> GeodeResult {
    GeodeResult { item_id: item_id as i32, quantity: quantity as i32 }
}

/// The mineral list of a geode kind; the golden coconut has none.
pub open spec fn mineral_table(t: GeodeType) -> Seq<i32> {
    match t {
        GeodeType::Geode => GEODE_ITEMS@,
        GeodeType::FrozenGeode => FROZEN_ITEMS@,
        GeodeType::MagmaGeode => MAGMA_ITEMS@,
        GeodeType::OmniGeode => OMNI_ITEMS@,
        GeodeType::ArtifactTrove => TROVE_ITEMS@,
        GeodeType::GoldenCoconut => Seq::empty(),
    }
}

/// The draws before any choice: two bursts of a random length from the
/// second version on, and one draw for the bean check in the two newest.
pub open spec fn geode_warmup(s: RngState, version: GameVersion) -> RngState {
    let s1 = if version != GameVersion::V1_3 {
        let a = advance(next_state(s), pick(s, 1, 10) as nat);
        advance(next_state(a), pick(a, 1, 10) as nat)
    } else {
        s
    };
    if version == GameVersion::V1_5 || version == GameVersion::V1_6 {
        next_state(s1)
    } else {
        s1
    }
}

/// The golden coconut: a 5% hat (item -1) for a player without one, else
/// one of seven rewards.
pub open spec fn coconut_result(s: RngState, has_coconut_hat: bool) -> GeodeResult {
    if below(s, 5, 100) && !has_coconut_hat {
        result(-1, 1)
    } else {
        let c = pick(next_state(s), 0, 7);
        if c == 0 {
            result(69, 1)
        } else if c == 1 {
            result(835, 1)
        } else if c == 2 {
            result(833, 5)
        } else if c == 3 {
            result(831, 5)
        } else if c == 4 {
            result(820, 1)
        } else if c == 5 {
            result(292, 1)
        } else {
            result(386, 5)
        }
    }
}

/// The stack size of a resource drop and the generator after it: 1, 3 or
/// 5, made 10 at 10%, then 20 at 1%.
pub open spec fn initial_stack(s: RngState) -> (int, RngState) {
    let base = pick(s, 0, 3) * 2 + 1;
    let s1 = next_state(s);
    let a = if below(s1, 1, 10) {
        10
    } else {
        base
    };
    let s2 = next_state(s1);
    let b = if below(s2, 1, 100) {
        20
    } else {
        a
    };
    (b, next_state(s2))
}

/// Ore by geode kind and the deepest mine level reached.
pub open spec fn ore_result(s: RngState, t: GeodeType, deepest: int, stack: int) -> GeodeResult {
    match t {
        GeodeType::Geode => {
            let c = pick(s, 0, 3);
            if c == 0 {
                result(378, stack)
            } else if c == 1 {
                if deepest > 25 {
                    result(380, stack)
                } else {
                    result(378, stack)
                }
            } else {
                result(382, stack)
            }
        },
        GeodeType::FrozenGeode => {
            let c = pick(s, 0, 4);
            if c == 0 {
                result(378, stack)
            } else if c == 1 {
                result(380, stack)
            } else if c == 2 {
                result(382, stack)
            } else if deepest > 75 {
                result(384, stack)
            } else {
                result(380, stack)
            }
        },
        GeodeType::MagmaGeode | GeodeType::OmniGeode => {
            let c = pick(s, 0, 5);
            if c == 0 {
                result(378, stack)
            } else if c == 1 {
                result(380, stack)
            } else if c == 2 {
                result(382, stack)
            } else if c == 3 {
                result(384, stack)
            } else {
                result(386, stack / 2 + 1)
            }
        },
        _ => result(390, stack),
    }
}

/// The crystal of a geode kind; the omni geode draws one of three.
pub open spec fn crystal_of(s: RngState, t: GeodeType) -> int {
    match t {
        GeodeType::FrozenGeode => 84,
        GeodeType::MagmaGeode => 82,
        GeodeType::OmniGeode => 82 + pick(s, 0, 3) * 2,
        _ => 86,
    }
}

/// The resource branch: stone, clay or a crystal half the time, else ore.
pub open spec fn resource_result(s: RngState, t: GeodeType, deepest: int) -> GeodeResult {
    let (stack, s1) = initial_stack(s);
    if below(s1, 1, 2) {
        let s2 = next_state(s1);
        let c = pick(s2, 0, 4);
        if c <= 1 {
            result(390, stack)
        } else if c == 2 {
            result(330, 1)
        } else {
            result(crystal_of(next_state(s2), t), 1)
        }
    } else {
        ore_result(next_state(s1), t, deepest, stack)
    }
}

/// The mineral branch. The newest version checks for a prismatic shard
/// before choosing; older ones choose first and check only omni geodes.
pub open spec fn mineral_result(s: RngState, t: GeodeType, cracked: int, version: GameVersion) -> GeodeResult {
    let table = mineral_table(t);
    if version == GameVersion::V1_6 {
        if below(s, 8, 1000) && cracked > 15 {
            result(74, 1)
        } else {
            result(table[pick(next_state(s), 0, table.len() as int)] as int, 1)
        }
    } else {
        let item = table[pick(s, 0, table.len() as int)];
        if t == GeodeType::OmniGeode && below(next_state(s), 8, 1000) && cracked > 15 {
            result(74, 1)
        } else {
            result(item as int, 1)
        }
    }
}

/// What the geode numbered `cracked` yields.
pub open spec fn geode_spec(
    seed: i32,
    cracked: i32,
    t: GeodeType,
    deepest: int,
    version: GameVersion,
) -> GeodeResult {
    let s = geode_warmup(init_state((cracked + trunc_div(seed as int, 2)) as i32), version);
    if t == GeodeType::GoldenCoconut {
        coconut_result(s, false)
    } else if t == GeodeType::ArtifactTrove {
        result(TROVE_ITEMS@[pick(s, 0, 27)] as int, 1)
    } else {
        let mineral = if version == GameVersion::V1_6 {
            below(s, 1, 2)
        } else {
            !below(s, 1, 2)
        };
        if mineral {
            mineral_result(next_state(s), t, cracked as int, version)
        } else {
            resource_result(next_state(s), t, deepest)
        }
    }
}

fn table_item(t: GeodeType, i: usize) -> (r: i32)
    requires
        i < mineral_table(t).len(),
    ensures
        r == mineral_table(t)[i as int],
{
    match t {
        GeodeType::Geode => GEODE_ITEMS[i],
        GeodeType::FrozenGeode => FROZEN_ITEMS[i],
        GeodeType::MagmaGeode => MAGMA_ITEMS[i],
        GeodeType::OmniGeode => OMNI_ITEMS[i],
        GeodeType::ArtifactTrove => TROVE_ITEMS[i],
        GeodeType::GoldenCoconut => 0,
    }
}

fn table_len(t: GeodeType) -> (r: i32)
    ensures
        r == mineral_table(t).len(),
{
    match t {
        GeodeType::Geode => 16,
        GeodeType::FrozenGeode => 15,
        GeodeType::MagmaGeode => 13,
        GeodeType::OmniGeode => 44,
        GeodeType::ArtifactTrove => 27,
        GeodeType::GoldenCoconut => 0,
    }
}

/// Predicts what the geode numbered `geodes_cracked` yields. A golden
/// coconut's hat is reported as item `-1`.
pub fn next_geode_item(
    seed: i32,
    geodes_cracked: i32,
    geode_type: GeodeType,
    deepest_mine_level: i32,
    version: GameVersion,
) -> (r: GeodeResult)
    ensures
        r == geode_spec(seed, geodes_cracked, geode_type, deepest_mine_level as int, version),
{
    let mut rng = CSRandom::new(int_overflow(geodes_cracked as i64 + (seed / 2) as i64));
    if version.has_geode_warmup() {
        let num1 = rng.next_range(1, 10);
        rng.skip(num1 as u32);
        let num2 = rng.next_range(1, 10);
        rng.skip(num2 as u32);
    }
    if version.has_qi_bean_check() {
        rng.sample_raw();
    }
    if geode_type == GeodeType::GoldenCoconut {
        return get_coconut_result(&mut rng, false);
    }
    if geode_type == GeodeType::ArtifactTrove {
        let k = rng.next_max(27);
        return GeodeResult { item_id: TROVE_ITEMS[k as usize], quantity: 1 };
    }
    let get_mineral = if version.has_reversed_geode_check() {
        rng.chance(1, 2)
    } else {
        !rng.chance(1, 2)
    };
    if !get_mineral {
        let initial_stack = get_initial_stack(&mut rng);
        if rng.chance(1, 2) {
            let case = rng.next_max(4);
            if case <= 1 {
                return GeodeResult { item_id: 390, quantity: initial_stack };
            } else if case == 2 {
                return GeodeResult { item_id: 330, quantity: 1 };
            } else {
                let crystal = match geode_type {
                    GeodeType::FrozenGeode => 84,
                    GeodeType::MagmaGeode => 82,
                    GeodeType::OmniGeode => 82 + rng.next_max(3) * 2,
                    _ => 86,
                };
                return GeodeResult { item_id: crystal, quantity: 1 };
            }
        } else {
            return get_ore_result(&mut rng, geode_type, deepest_mine_level, initial_stack);
        }
    }
    let len = table_len(geode_type);
    if version.has_reversed_geode_check() {
        let prismatic = rng.chance(8, 1000);
        if prismatic && geodes_cracked > 15 {
            return GeodeResult { item_id: 74, quantity: 1 };
        }
        let k = rng.next_max(len);
        GeodeResult { item_id: table_item(geode_type, k as usize), quantity: 1 }
    } else {
        let k = rng.next_max(len);
        let item = table_item(geode_type, k as usize);
        if geode_type == GeodeType::OmniGeode && rng.chance(8, 1000) && geodes_cracked > 15 {
            return GeodeResult { item_id: 74, quantity: 1 };
        }
        GeodeResult { item_id: item, quantity: 1 }
    }
}

/// The stack size of a resource drop.
fn get_initial_stack(rng: &mut CSRandom) -> (r: i32)
    requires
        well_formed(old(rng)@),
    ensures
        well_formed(final(rng)@),
        (r as int, final(rng)@) == initial_stack(old(rng)@),
        1 <= r <= 20,
{
    let mut initial_stack = rng.next_max(3) * 2 + 1;
    if rng.chance(1, 10) {
        initial_stack = 10;
    }
    if rng.chance(1, 100) {
        initial_stack = 20;
    }
    initial_stack
}

/// Ore by geode kind and the deepest mine level reached.
fn get_ore_result(
    rng: &mut CSRandom,
    geode_type: GeodeType,
    deepest_mine_level: i32,
    initial_stack: i32,
) -> (r: GeodeResult)
    requires
        well_formed(old(rng)@),
        1 <= initial_stack <= 20,
    ensures
        r == ore_result(old(rng)@, geode_type, deepest_mine_level as int, initial_stack as int),
{
    match geode_type {
        GeodeType::Geode => {
            let case = rng.next_max(3);
            if case == 0 {
                GeodeResult { item_id: 378, quantity: initial_stack }
            } else if case == 1 {
                if deepest_mine_level > 25 {
                    GeodeResult { item_id: 380, quantity: initial_stack }
                } else {
                    GeodeResult { item_id: 378, quantity: initial_stack }
                }
            } else {
                GeodeResult { item_id: 382, quantity: initial_stack }
            }
        },
        GeodeType::FrozenGeode => {
            let case = rng.next_max(4);
            if case == 0 {
                GeodeResult { item_id: 378, quantity: initial_stack }
            } else if case == 1 {
                GeodeResult { item_id: 380, quantity: initial_stack }
            } else if case == 2 {
                GeodeResult { item_id: 382, quantity: initial_stack }
            } else if deepest_mine_level > 75 {
                GeodeResult { item_id: 384, quantity: initial_stack }
            } else {
                GeodeResult { item_id: 380, quantity: initial_stack }
            }
        },
        GeodeType::MagmaGeode | GeodeType::OmniGeode => {
            let case = rng.next_max(5);
            if case == 0 {
                GeodeResult { item_id: 378, quantity: initial_stack }
            } else if case == 1 {
                GeodeResult { item_id: 380, quantity: initial_stack }
            } else if case == 2 {
                GeodeResult { item_id: 382, quantity: initial_stack }
            } else if case == 3 {
                GeodeResult { item_id: 384, quantity: initial_stack }
            } else {
                GeodeResult { item_id: 386, quantity: initial_stack / 2 + 1 }
            }
        },
        _ => GeodeResult { item_id: 390, quantity: initial_stack },
    }
}

/// The golden coconut; `has_coconut_hat` rules out the hat.
fn get_coconut_result(rng: &mut CSRandom, has_coconut_hat: bool) -> (r: GeodeResult)
    requires
        well_formed(old(rng)@),
    ensures
        r == coconut_result(old(rng)@, has_coconut_hat),
{
    if rng.chance(5, 100) && !has_coconut_hat {
        return GeodeResult { item_id: -1, quantity: 1 };
    }
    let case = rng.next_max(7);
    if case == 0 {
        GeodeResult { item_id: 69, quantity: 1 }
    } else if case == 1 {
        GeodeResult { item_id: 835, quantity: 1 }
    } else if case == 2 {
        GeodeResult { item_id: 833, quantity: 5 }
    } else if case == 3 {
        GeodeResult { item_id: 831, quantity: 5 }
    } else if case == 4 {
        GeodeResult { item_id: 820, quantity: 1 }
    } else if case == 5 {
        GeodeResult { item_id: 292, quantity: 1 }
    } else {
        GeodeResult { item_id: 386, quantity: 5 }
    }
}

/// The results of `count` geodes of one kind, numbered from `start_geode`.
pub open spec fn geode_sequence(
    seed: i32,
    start: int,
    count: int,
    t: GeodeType,
    deepest: int,
    version: GameVersion,
) -> Seq<GeodeResult> {
    Seq::new(
        if count > 0 {
            count as nat
        } else {
            0
        },
        |i: int| geode_spec(seed, (start + i) as i32, t, deepest, version),
    )
}

/// Predicts `count` geodes of one kind in a row, numbered from `start_geode`.
pub fn predict_geode_sequence(
    seed: i32,
    start_geode: i32,
    count: i32,
    geode_type: GeodeType,
    deepest_mine_level: i32,
    version: GameVersion,
) -> (r: Vec<GeodeResult>)
    ensures
        r@ == geode_sequence(seed, start_geode as int, count as int, geode_type, deepest_mine_level as int, version),
{
    let mut results: Vec<GeodeResult> = Vec::new();
    let mut i: i32 = 0;
    while i < count
        invariant
            0 <= i,
            count > 0 ==> i <= count,
            count <= 0 ==> i == 0,
            results@ =~= geode_sequence(seed, start_geode as int, i as int, geode_type, deepest_mine_level as int, version),
        decreases count - i,
    {
        let n = int_overflow(start_geode as i64 + i as i64);
        let g = next_geode_item(seed, n, geode_type, deepest_mine_level, version);
        results.push(g);
        i = i + 1;
    }
    results
}

} // verus!
