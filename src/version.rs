//! The four game versions whose random behaviour differs, and the named
//! capabilities that the mechanics consult.
use vstd::prelude::*;

verus! {

/// A game version. Each one carries a fixed set of capability flags.
#[derive(Clone, Copy, Debug, Default, PartialEq, Eq, Structural, PartialOrd, Ord, Hash)]
pub enum GameVersion {
    /// Legacy additive seeding everywhere.
    V1_3,
    /// Hash-era mechanics without island content.
    V1_4,
    /// Island content and the extra island draws.
    V1_5,
    /// The newest rules: hashed night events, shop-based cart, reversed geodes.
    #[default]
    V1_6,
}

/// The pieces of `s` between dots, in order; an empty string is one empty piece.
pub open spec fn pieces(s: Seq<char>) -> Seq<Seq<char>>
    decreases s.len(),
{
    if s.len() == 0 {
        seq![Seq::<char>::empty()]
    } else {
        let rest = pieces(s.drop_last());
        if s.last() == '.' {
            rest.push(Seq::<char>::empty())
        } else {
            rest.update(rest.len() - 1, rest.last().push(s.last()))
        }
    }
}

pub open spec fn is_digit(c: char) -> bool {
    '0' <= c <= '9'
}

/// The decimal value of a string of digits.
pub open spec fn digits_value(d: Seq<char>) -> int
    decreases d.len(),
{
    if d.len() == 0 {
        0
    } else {
        digits_value(d.drop_last()) * 10 + (d.last() as int - '0' as int)
    }
}

/// How a piece reads as a `u32`: an optional `+`, then one or more digits,
/// with a value that fits.
pub open spec fn parse_piece(p: Seq<char>) -> Option<u32> {
    parse_digits(strip_plus(p))
}

/// A piece without its leading `+`, if it has one.
pub open spec fn strip_plus(p: Seq<char>) -> Seq<char> {
    if p.len() > 0 && p[0] == '+' {
        p.drop_first()
    } else {
        p
    }
}

/// One or more digits whose value fits a `u32`.
pub open spec fn parse_digits(d: Seq<char>) -> Option<u32> {
    if d.len() == 0 || !(forall|k: int| 0 <= k < d.len() ==> is_digit(#[trigger] d[k]))
        || digits_value(d) > u32::MAX {
        None
    } else {
        Some(digits_value(d) as u32)
    }
}

/// The pieces that read as numbers, in order; the others are skipped.
pub open spec fn numeric_parts(ps: Seq<Seq<char>>) -> Seq<u32>
    decreases ps.len(),
{
    if ps.len() == 0 {
        Seq::empty()
    } else {
        let rest = numeric_parts(ps.drop_last());
        match parse_piece(ps.last()) {
            Some(v) => rest.push(v),
            None => rest,
        }
    }
}

/// The version that a list of numeric components names: `1.3`, `1.4` and
/// `1.5` name themselves, and anything else names the newest version.
pub open spec fn version_of(parts: Seq<u32>) -> GameVersion {
    if parts.len() >= 1 && parts[0] == 1 && parts.len() >= 2 && parts[1] == 3 {
        GameVersion::V1_3
    } else if parts.len() >= 1 && parts[0] == 1 && parts.len() >= 2 && parts[1] == 4 {
        GameVersion::V1_4
    } else if parts.len() >= 1 && parts[0] == 1 && parts.len() >= 2 && parts[1] == 5 {
        GameVersion::V1_5
    } else {
        GameVersion::V1_6
    }
}

proof fn lemma_pieces_nonempty(s: Seq<char>)
    ensures
        pieces(s).len() >= 1,
    decreases s.len(),
{
    if s.len() > 0 {
        lemma_pieces_nonempty(s.drop_last());
    }
}

/// Reads `s[start..end]` as a `u32` the way `str::parse` does.
fn parse_piece_at(s: &str, start: usize, end: usize) -> (r: Option<u32>)
    requires
        start <= end <= s@.len(),
    ensures
        r == parse_piece(s@.subrange(start as int, end as int)),
{
    let ghost p = s@.subrange(start as int, end as int);
    let mut first = start;
    if start < end && s.get_char(start) == '+' {
        first = start + 1;
    }
    let ghost d = s@.subrange(first as int, end as int);
    assert(d =~= strip_plus(p));
    if first == end {
        return None;
    }
    // The value read so far, held at `u32::MAX + 1` once it no longer fits.
    let mut value: u64 = 0;
    let mut i: usize = first;
    while i < end
        invariant
            first <= i <= end <= s@.len(),
            d == s@.subrange(first as int, end as int),
            d == strip_plus(p),
            p == s@.subrange(start as int, end as int),
            forall|k: int| 0 <= k < i - first ==> is_digit(#[trigger] d[k]),
            value == (if digits_value(d.take(i - first)) > u32::MAX {
                u32::MAX + 1
            } else {
                digits_value(d.take(i - first))
            }),
        decreases end - i,
    {
        let c = s.get_char(i);
        if !('0' <= c && c <= '9') {
            assert(d[i - first] == c);
            assert(!is_digit(d[i - first]));
            assert(!(forall|k: int| 0 <= k < d.len() ==> is_digit(#[trigger] d[k])));
            return None;
        }
        let ghost prev = d.take(i - first);
        assert(d.take(i - first + 1).drop_last() =~= prev);
        assert(digits_value(d.take(i - first + 1)) == digits_value(prev) * 10 + (c as int - '0' as int));
        let digit: u64 = (c as u32 - '0' as u32) as u64;
        let grown: u64 = value * 10 + digit;
        value = if grown > 4294967295u64 {
            4294967296u64
        } else {
            grown
        };
        i = i + 1;
    }
    assert(d.take(end - first) =~= d);
    if value > 4294967295u64 {
        None
    } else {
        Some(value as u32)
    }
}

impl GameVersion {
    /// Reads a dotted version string such as `"1.5"` or `"1.6.4"`: the
    /// pieces between dots that read as numbers are kept, and `1.3`, `1.4`
    /// and `1.5` pick those versions. Any other string, future versions
    /// included, picks the newest version.
    pub fn parse(s: &str) -> (r: GameVersion)
        ensures
            r == version_of(numeric_parts(pieces(s@))),
    {
        let n = s.unicode_len();
        let mut parts: Vec<u32> = Vec::new();
        let mut start: usize = 0;
        let mut i: usize = 0;
        assert(s@.take(0) =~= Seq::<char>::empty());
        while i < n
            invariant
                n == s@.len(),
                start <= i <= n,
                pieces(s@.take(i as int)).len() >= 1,
                parts@ == numeric_parts(pieces(s@.take(i as int)).drop_last()),
                pieces(s@.take(i as int)).last() == s@.subrange(start as int, i as int),
            decreases n - i,
        {
            let ghost before = pieces(s@.take(i as int));
            assert(s@.take(i + 1).drop_last() =~= s@.take(i as int));
            assert(s@.take(i + 1).last() == s@[i as int]);
            let c = s.get_char(i);
            if c == '.' {
                let piece = parse_piece_at(s, start, i);
                assert(before.push(Seq::<char>::empty()).drop_last() =~= before);
                assert(numeric_parts(before) == match parse_piece(before.last()) {
                    Some(v) => numeric_parts(before.drop_last()).push(v),
                    None => numeric_parts(before.drop_last()),
                });
                if let Some(v) = piece {
                    parts.push(v);
                }
                start = i + 1;
            } else {
                let ghost after = before.update(before.len() - 1, before.last().push(c));
                assert(after.drop_last() =~= before.drop_last());
                assert(s@.subrange(start as int, i + 1) =~= s@.subrange(start as int, i as int).push(c));
            }
            i = i + 1;
        }
        assert(s@.take(n as int) =~= s@);
        let last = parse_piece_at(s, start, n);
        proof {
            lemma_pieces_nonempty(s@);
        }
        if let Some(v) = last {
            parts.push(v);
        }
        if parts.len() >= 2 && parts[0] == 1 {
            if parts[1] == 3 {
                return GameVersion::V1_3;
            } else if parts[1] == 4 {
                return GameVersion::V1_4;
            } else if parts[1] == 5 {
                return GameVersion::V1_5;
            }
        }
        GameVersion::V1_6
    }

    /// The legacy generator seeding of the oldest version.
    pub fn uses_legacy_random(&self) -> (r: bool)
        ensures
            r == (*self == GameVersion::V1_3),
    {
        matches!(self, GameVersion::V1_3)
    }

    /// Hash-based seeding, from the second version on.
    pub fn uses_hash_seeding(&self) -> (r: bool)
        ensures
            r == (*self != GameVersion::V1_3),
    {
        !self.uses_legacy_random()
    }

    /// Island content, in the two newest versions.
    pub fn has_ginger_isle(&self) -> (r: bool)
        ensures
            r == (*self == GameVersion::V1_5 || *self == GameVersion::V1_6),
    {
        matches!(self, GameVersion::V1_5 | GameVersion::V1_6)
    }

    /// Green-rain weather, in the newest version only.
    pub fn has_green_rain(&self) -> (r: bool)
        ensures
            r == (*self == GameVersion::V1_6),
    {
        matches!(self, GameVersion::V1_6)
    }

    /// The shop-based traveling-cart algorithm, in the newest version only.
    pub fn has_new_cart_system(&self) -> (r: bool)
        ensures
            r == (*self == GameVersion::V1_6),
    {
        matches!(self, GameVersion::V1_6)
    }

    /// Extra priming of the night-event generator, from the second version on.
    pub fn has_primed_night_events(&self) -> (r: bool)
        ensures
            r == (*self != GameVersion::V1_3),
    {
        !matches!(self, GameVersion::V1_3)
    }

    /// The windstorm night event, in the newest version only.
    pub fn has_windstorm_event(&self) -> (r: bool)
        ensures
            r == (*self == GameVersion::V1_6),
    {
        matches!(self, GameVersion::V1_6)
    }

    /// Mine floors seeded with the level times 100, from the second version on.
    pub fn uses_mine_level_multiplier(&self) -> (r: bool)
        ensures
            r == (*self != GameVersion::V1_3),
    {
        !matches!(self, GameVersion::V1_3)
    }

    /// The two warm-up bursts of geode draws, from the second version on.
    pub fn has_geode_warmup(&self) -> (r: bool)
        ensures
            r == (*self != GameVersion::V1_3),
    {
        !matches!(self, GameVersion::V1_3)
    }

    /// The extra geode draw for the bean check, in the two newest versions.
    pub fn has_qi_bean_check(&self) -> (r: bool)
        ensures
            r == (*self == GameVersion::V1_5 || *self == GameVersion::V1_6),
    {
        matches!(self, GameVersion::V1_5 | GameVersion::V1_6)
    }

    /// Mineral and resource branches of geodes checked in reverse order, in
    /// the newest version only.
    pub fn has_reversed_geode_check(&self) -> (r: bool)
        ensures
            r == (*self == GameVersion::V1_6),
    {
        matches!(self, GameVersion::V1_6)
    }

    /// The short name of the version, such as `"1.5"`.
    pub fn name(&self) -> (r: &'static str)
        ensures
            r@ == version_name(*self),
    {
        match self {
            GameVersion::V1_3 => "1.3",
            GameVersion::V1_4 => "1.4",
            GameVersion::V1_5 => "1.5",
            GameVersion::V1_6 => "1.6",
        }
    }
}

pub open spec fn version_name(v: GameVersion) -> Seq<char> {
    match v {
        GameVersion::V1_3 => "1.3"@,
        GameVersion::V1_4 => "1.4"@,
        GameVersion::V1_5 => "1.5"@,
        GameVersion::V1_6 => "1.6"@,
    }
}

} // verus!
