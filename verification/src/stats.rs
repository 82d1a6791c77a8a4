//! Stat growth and the hidden determinant values (DVs) behind a stat.
//!
//! A stat grows with the level from the species' base value, the
//! individual's DV (0 to 15) and the training bonus. The growth formula
//! rounds, so several DVs can lead to the same stat; this module
//! enumerates the sixteen outcomes and finds the DVs that fit an
//! observed stat.

use crate::symbols::{StatsSreen1Content, StatsSreen1ContentView};
use crate::text::{parse_i32, parsed_number};
use vstd::prelude::*;

verus! {

/// Whether `k` is the whole part of `sqrt(n) + 1/4`, for `n >= 0`.
///
/// `k <= sqrt(n) + 1/4` is `4k - 1 <= sqrt(16n)`, which holds for `k == 0`
/// and otherwise says `(4k - 1)^2 <= 16n`; `k` is the largest such number.
pub open spec fn is_quarter_root(n: int, k: int) -> bool {
    &&& 0 <= k
    &&& k == 0 || (4 * k - 1) * (4 * k - 1) <= 16 * n
    &&& (4 * k + 3) * (4 * k + 3) > 16 * n
}

/// The whole part of `sqrt(n) + 1/4` for `n >= 0`, and 0 for negative `n`.
pub open spec fn quarter_root(n: int) -> int {
    if n < 0 {
        0
    } else {
        choose|k: int| is_quarter_root(n, k)
    }
}

/// The share of the training bonus in a stat: the whole part of
/// `sqrt(exp - 1) + 1/4`, and nothing without training.
pub open spec fn effort_gain(exp: int) -> int {
    quarter_root(exp - 1)
}

/// Division that rounds toward zero.
pub open spec fn trunc_div(a: int, b: int) -> int
    recommends
        b > 0,
{
    if a >= 0 {
        a / b
    } else {
        -((-a) / b)
    }
}

/// What is added to a stat after scaling: the vitality stat has the level
/// and ten more, every other stat has five.
pub open spec fn stat_offset(level: int, is_hp: bool) -> int {
    if is_hp {
        level + 10
    } else {
        5
    }
}

/// The stat before scaling down and adding the offset.
pub open spec fn stat_raw(level: int, base: int, exp: int, dv: int) -> int {
    ((base + dv) * 2 + effort_gain(exp)) * level
}

/// The stat of an individual with the given DV.
pub open spec fn stat_value(level: int, base: int, exp: int, is_hp: bool, dv: int) -> int {
    trunc_div(stat_raw(level, base, exp, dv), 100) + stat_offset(level, is_hp)
}

/// At most one number is the whole part of `sqrt(n) + 1/4`.
pub proof fn lemma_quarter_root_unique(n: int, a: int, b: int)
    requires
        is_quarter_root(n, a),
        is_quarter_root(n, b),
    ensures
        a == b,
{
    if a < b {
        assert((4 * a + 3) * (4 * a + 3) <= (4 * b - 1) * (4 * b - 1)) by (nonlinear_arith)
            requires
                0 <= a,
                a + 1 <= b,
        ;
    } else if b < a {
        assert((4 * b + 3) * (4 * b + 3) <= (4 * a - 1) * (4 * a - 1)) by (nonlinear_arith)
            requires
                0 <= b,
                b + 1 <= a,
        ;
    }
}

/// Computes the whole part of `sqrt(n) + 1/4`.
fn quarter_root_exec(n: i64) -> (k: i64)
    requires
        n <= i32::MAX,
    ensures
        k == quarter_root(n as int),
        0 <= k <= 46341,
{
    if n < 0 {
        return 0;
    }
    let mut k: i64 = 0;
    loop
        invariant
            0 <= k <= 46341,
            0 <= n <= i32::MAX,
            k == 0 || (4 * k - 1) * (4 * k - 1) <= 16 * n,
        ensures
            is_quarter_root(n as int, k as int),
        decreases 46341 - k,
    {
        let m: i64 = 4 * k + 3;
        assert(0 <= m * m <= 185367 * 185367) by (nonlinear_arith)
            requires
                0 <= m <= 185367,
        ;
        if m * m > 16 * n {
            break;
        }
        assert(k < 46341) by (nonlinear_arith)
            requires
                m == 4 * k + 3,
                m * m <= 16 * n,
                n <= i32::MAX,
                0 <= k,
        ;
        k = k + 1;
    }
    proof {
        lemma_quarter_root_unique(n as int, k as int, quarter_root(n as int));
    }
    k
}

/// Whether each of the sixteen stats fits the machine integer that holds it.
pub open spec fn stats_fit(level: int, base: int, exp: int, is_hp: bool) -> bool {
    forall|dv: int|
        0 <= dv < 16 ==> i32::MIN <= #[trigger] stat_value(level, base, exp, is_hp, dv) <= i32::MAX
}

/// Computes the stat for one DV, or `None` where it does not fit.
fn stat_for_dv(level: i32, base: i32, gain: i64, is_hp: bool, dv: u8) -> (stat: Option<i32>)
    requires
        dv < 16,
        0 <= gain <= 46341,
    ensures
        ({
            let expected = trunc_div(((base + dv) * 2 + gain) * level, 100) + stat_offset(
                level as int,
                is_hp,
            );
            match stat {
                Some(v) => v == expected,
                None => expected < i32::MIN || expected > i32::MAX,
            }
        }),
{
    let doubled: i128 = (base as i128 + dv as i128) * 2 + gain as i128;
    assert(-0x2_0000_0000_0000_0000 <= doubled * level <= 0x2_0000_0000_0000_0000)
        by (nonlinear_arith)
        requires
            -0x2_0000_0000 <= doubled <= 0x2_0000_0000,
            -0x1_0000_0000 <= level <= 0x1_0000_0000,
    ;
    let raw: i128 = doubled * (level as i128);
    let scaled: i128 = if raw >= 0 {
        raw / 100
    } else {
        -((-raw) / 100)
    };
    let offset: i128 = if is_hp {
        level as i128 + 10
    } else {
        5
    };
    let value: i128 = scaled + offset;
    if value < i32::MIN as i128 || value > i32::MAX as i128 {
        None
    } else {
        Some(value as i32)
    }
}

/// The extent to which a stat varies with the DV: the stat for each of the
/// sixteen DVs, in the order of the DVs.
pub struct StatVariation {
    values: [i32; 16],
}

impl View for StatVariation {
    type V = Seq<int>;

    closed spec fn view(&self) -> Seq<int> {
        Seq::new(16, |dv: int| self.values[dv] as int)
    }
}

impl StatVariation {
    /// The variation that the growth formula gives for a level, a base stat
    /// and a training bonus.
    pub open spec fn spec_init(level: int, base: int, exp: int, is_hp: bool) -> Seq<int> {
        Seq::new(16, |dv: int| stat_value(level, base, exp, is_hp, dv))
    }

    /// Calculates the stat variation from the level, the base stat and the
    /// training bonus, or `None` where one of the sixteen stats does not
    /// fit `i32`. The vitality stat has its own offset.
    pub fn try_init(level: &i32, base: &i32, exp: &i32, is_hp: &bool) -> (variation: Option<
        StatVariation,
    >)
        ensures
            match variation {
                Some(v) => {
                    &&& stats_fit(*level as int, *base as int, *exp as int, *is_hp)
                    &&& v@ == Self::spec_init(*level as int, *base as int, *exp as int, *is_hp)
                },
                None => !stats_fit(*level as int, *base as int, *exp as int, *is_hp),
            },
    {
        let gain = quarter_root_exec(*exp as i64 - 1);
        let mut values: [i32; 16] = [0; 16];
        let mut dv: u8 = 0;
        while dv < 16
            invariant
                dv <= 16,
                gain == effort_gain(*exp as int),
                0 <= gain <= 46341,
                forall|i: int|
                    0 <= i < dv ==> values[i] == stat_value(
                        *level as int,
                        *base as int,
                        *exp as int,
                        *is_hp,
                        i,
                    ),
            decreases 16 - dv,
        {
            match stat_for_dv(*level, *base, gain, *is_hp, dv) {
                Some(v) => {
                    values[dv as usize] = v;
                },
                None => {
                    assert(!(i32::MIN <= stat_value(
                        *level as int,
                        *base as int,
                        *exp as int,
                        *is_hp,
                        dv as int,
                    ) <= i32::MAX));
                    return None;
                },
            }
            dv = dv + 1;
        }
        let variation = StatVariation { values };
        assert(variation@ =~= Self::spec_init(*level as int, *base as int, *exp as int, *is_hp));
        assert forall|i: int| 0 <= i < 16 implies i32::MIN <= #[trigger] stat_value(
            *level as int,
            *base as int,
            *exp as int,
            *is_hp,
            i,
        ) <= i32::MAX by {
            assert(values[i] == stat_value(*level as int, *base as int, *exp as int, *is_hp, i));
        }
        Some(variation)
    }

    /// Calculates the stat variation from the level, the base stat and the
    /// training bonus. The vitality stat has its own offset.
    ///
    /// The sixteen stats must fit `i32`; `try_init` tests that.
    pub fn init(level: &i32, base: &i32, exp: &i32, is_hp: &bool) -> (variation: StatVariation)
        requires
            stats_fit(*level as int, *base as int, *exp as int, *is_hp),
        ensures
            variation@ == Self::spec_init(*level as int, *base as int, *exp as int, *is_hp),
    {
        match Self::try_init(level, base, exp, is_hp) {
            Some(variation) => variation,
            None => {
                proof {
                    assert(false);
                }
                StatVariation { values: [0; 16] }
            },
        }
    }

    /// The stat for the DV `dv`.
    pub fn get(&self, dv: usize) -> (stat: i32)
        requires
            dv < 16,
        ensures
            self@.len() == 16,
            stat == self@[dv as int],
    {
        self.values[dv]
    }

    /// The sixteen stats, in the order of the DVs.
    pub fn values(&self) -> (values: &[i32; 16])
        ensures
            self@.len() == 16,
            values@.len() == 16,
            forall|dv: int| 0 <= dv < 16 ==> values@[dv] == self@[dv],
    {
        &self.values
    }

    /// A variation holds sixteen stats, one for each DV.
    pub proof fn lemma_len(&self)
        ensures
            self@.len() == 16,
    {
    }
}

/// Whether `value` occurs in `values`.
pub open spec fn occurs(values: Seq<int>, value: int) -> bool {
    exists|i: int| 0 <= i < values.len() && values[i] == value
}

/// Whether `i` is the first place at which `value` stands in `values`.
pub open spec fn is_first_match(values: Seq<int>, value: int, i: int) -> bool {
    &&& 0 <= i < values.len()
    &&& values[i] == value
    &&& forall|j: int| 0 <= j < i ==> values[j] != value
}

/// Whether `i` is the last place at which `value` stands in `values`.
pub open spec fn is_last_match(values: Seq<int>, value: int, i: int) -> bool {
    &&& 0 <= i < values.len()
    &&& values[i] == value
    &&& forall|j: int| i < j < values.len() ==> values[j] != value
}

/// The numbers of a slice as mathematical integers.
pub open spec fn ints(values: Seq<i32>) -> Seq<int> {
    values.map_values(|v: i32| v as int)
}

/// Finds the first place at which `value` stands in `values`.
fn find_first(values: &[i32], value: i32) -> (found: Option<usize>)
    ensures
        match found {
            Some(i) => is_first_match(ints(values@), value as int, i as int),
            None => !occurs(ints(values@), value as int),
        },
{
    let mut i: usize = 0;
    while i < values.len()
        invariant
            i <= values.len(),
            forall|j: int| 0 <= j < i ==> ints(values@)[j] != value,
        decreases values.len() - i,
    {
        if values[i] == value {
            return Some(i);
        }
        i = i + 1;
    }
    None
}

/// Finds the last place at which `value` stands in `values`.
fn find_last(values: &[i32], value: i32) -> (found: Option<usize>)
    ensures
        match found {
            Some(i) => is_last_match(ints(values@), value as int, i as int),
            None => !occurs(ints(values@), value as int),
        },
{
    let mut i: usize = values.len();
    while i > 0
        invariant
            i <= values.len(),
            forall|j: int| i <= j < values.len() ==> ints(values@)[j] != value,
        decreases i,
    {
        i = i - 1;
        if values[i] == value {
            return Some(i);
        }
    }
    None
}

/// The range of DVs that fit a stat, both ends inclusive.
pub struct DvRange {
    pub min: i32,
    pub max: i32,
}

impl DvRange {
    /// Finds the DVs that fit a stat: the first and the last DV whose stat in
    /// `variation` is `current_stat`. There is none where no DV gives that
    /// stat: the stat then contradicts the level and the base stat.
    pub fn init(current_stat: &i32, variation: &StatVariation) -> (range: Option<DvRange>)
        ensures
            match range {
                Some(r) => {
                    &&& is_first_match(variation@, *current_stat as int, r.min as int)
                    &&& is_last_match(variation@, *current_stat as int, r.max as int)
                },
                None => !occurs(variation@, *current_stat as int),
            },
    {
        assert(ints(variation.values@) =~= variation@);
        let first = find_first(variation.values.as_slice(), *current_stat);
        let last = find_last(variation.values.as_slice(), *current_stat);
        match (first, last) {
            (Some(a), Some(b)) => Some(DvRange { min: a as i32, max: b as i32 }),
            _ => None,
        }
    }
}

/// Division by a hundred that rounds toward zero never turns the order of
/// two numbers around.
proof fn lemma_trunc_div_monotonic(a: int, b: int)
    requires
        a <= b,
    ensures
        trunc_div(a, 100) <= trunc_div(b, 100),
{
}

/// With a level that is not negative, a higher DV never gives a lower stat.
pub proof fn lemma_stat_monotonic(level: int, base: int, exp: int, is_hp: bool, low: int, high: int)
    requires
        0 <= level,
        low <= high,
    ensures
        stat_value(level, base, exp, is_hp, low) <= stat_value(level, base, exp, is_hp, high),
{
    let gain = effort_gain(exp);
    assert(((base + low) * 2 + gain) * level <= ((base + high) * 2 + gain) * level)
        by (nonlinear_arith)
        requires
            0 <= level,
            low <= high,
    ;
    lemma_trunc_div_monotonic(stat_raw(level, base, exp, low), stat_raw(level, base, exp, high));
}

/// With a level that is not negative, the stats of a variation never
/// decrease from one DV to the next.
pub proof fn lemma_variation_sorted(level: int, base: int, exp: int, is_hp: bool)
    requires
        0 <= level,
    ensures
        forall|low: int, high: int|
            0 <= low <= high < 16 ==> StatVariation::spec_init(level, base, exp, is_hp)[low]
                <= StatVariation::spec_init(level, base, exp, is_hp)[high],
{
    assert forall|low: int, high: int| 0 <= low <= high < 16 implies StatVariation::spec_init(
        level,
        base,
        exp,
        is_hp,
    )[low] <= StatVariation::spec_init(level, base, exp, is_hp)[high] by {
        lemma_stat_monotonic(level, base, exp, is_hp, low, high);
    }
}

/// With a level that is not negative, the DVs between the first and the
/// last that fit a stat are exactly the DVs that fit it.
pub proof fn lemma_range_is_exact(
    level: int,
    base: int,
    exp: int,
    is_hp: bool,
    stat: int,
    min: int,
    max: int,
)
    requires
        0 <= level,
        is_first_match(StatVariation::spec_init(level, base, exp, is_hp), stat, min),
        is_last_match(StatVariation::spec_init(level, base, exp, is_hp), stat, max),
    ensures
        min <= max,
        forall|dv: int|
            0 <= dv < 16 ==> (min <= dv <= max <==> stat_value(level, base, exp, is_hp, dv)
                == stat),
{
    let variation = StatVariation::spec_init(level, base, exp, is_hp);
    assert forall|dv: int| 0 <= dv < 16 implies (min <= dv <= max <==> stat_value(
        level,
        base,
        exp,
        is_hp,
        dv,
    ) == stat) by {
        assert(variation[dv] == stat_value(level, base, exp, is_hp, dv));
        if min <= dv <= max {
            lemma_stat_monotonic(level, base, exp, is_hp, min, dv);
            lemma_stat_monotonic(level, base, exp, is_hp, dv, max);
        }
    }
}

/// Returns the stats for the sixteen DVs, where the index is the DV.
/// The vitality stat has its own offset, hence `is_hp`.
///
/// The sixteen stats must fit `i32`; `StatVariation::try_init` tests that.
pub fn get_dv_stat_pairs(level: &i32, base: &i32, exp: &i32, is_hp: &bool) -> (pairs: Vec<i32>)
    requires
        stats_fit(*level as int, *base as int, *exp as int, *is_hp),
    ensures
        ints(pairs@) == StatVariation::spec_init(*level as int, *base as int, *exp as int, *is_hp),
{
    let variation = StatVariation::init(level, base, exp, is_hp);
    let mut pairs: Vec<i32> = Vec::with_capacity(16);
    let mut dv: usize = 0;
    while dv < 16
        invariant
            dv <= 16,
            pairs@.len() == dv,
            forall|i: int| 0 <= i < dv ==> pairs@[i] == variation@[i],
        decreases 16 - dv,
    {
        pairs.push(variation.get(dv));
        dv = dv + 1;
    }
    assert(ints(pairs@) =~= variation@);
    pairs
}

/// Returns the vitality stats for the sixteen DVs, where the index is the DV.
///
/// The sixteen stats must fit `i32`; `StatVariation::try_init` tests that.
pub fn get_dv_hp_pairs(level: i32, base: i32, exp: i32) -> (pairs: Vec<i32>)
    requires
        stats_fit(level as int, base as int, exp as int, true),
    ensures
        ints(pairs@) == StatVariation::spec_init(level as int, base as int, exp as int, true),
{
    get_dv_stat_pairs(&level, &base, &exp, &true)
}

/// Whether `range` holds the first and the last place at which `value`
/// stands in `values`, or is empty where `value` stands nowhere.
pub open spec fn is_match_range(values: Seq<int>, value: int, range: Option<(usize, usize)>) -> bool {
    match range {
        Some((first, last)) => {
            &&& is_first_match(values, value, first as int)
            &&& is_last_match(values, value, last as int)
        },
        None => !occurs(values, value),
    }
}

/// Finds the DVs that fit a stat: the first and the last DV whose stat is
/// `stat_val`, both inclusive.
pub fn find_dv_range(stat_val: &i32, dv_stat_pairs: &[i32; 16]) -> (range: Option<(usize, usize)>)
    ensures
        is_match_range(ints(dv_stat_pairs@), *stat_val as int, range),
{
    let first = find_first(dv_stat_pairs.as_slice(), *stat_val);
    let last = find_last(dv_stat_pairs.as_slice(), *stat_val);
    match (first, last) {
        (Some(a), Some(b)) => Some((a, b)),
        _ => None,
    }
}

/// Why a value has no range in a list.
#[derive(Debug, Clone, Copy, PartialEq, Eq, Structural)]
pub enum RangeError {
    /// The list holds no values.
    Empty,
    /// The list does not hold the value.
    NotFound,
}

/// Returns the range in which the value stands in a list: the first and
/// the last place that holds it, both inclusive.
pub fn find_value_range(value: i32, vector: Vec<i32>) -> (range: Result<(usize, usize), RangeError>)
    ensures
        match range {
            Ok((start, end)) => {
                &&& is_first_match(ints(vector@), value as int, start as int)
                &&& is_last_match(ints(vector@), value as int, end as int)
            },
            Err(RangeError::Empty) => vector@.len() == 0,
            Err(RangeError::NotFound) => vector@.len() > 0 && !occurs(ints(vector@), value as int),
        },
{
    if vector.len() < 1 {
        return Err(RangeError::Empty);
    }
    let first = find_first(vector.as_slice(), value);
    let last = find_last(vector.as_slice(), value);
    match (first, last) {
        (Some(a), Some(b)) => Ok((a, b)),
        _ => Err(RangeError::NotFound),
    }
}

/// The stats of an individual.
#[derive(Debug)]
pub struct Stats {
    pub hp: i32,
    pub attack: i32,
    pub defense: i32,
    pub speed: i32,
    pub special: i32,
}

/// The stats of an individual as the screen shows them.
#[derive(Debug)]
pub struct CurrentStats {
    pub hp: i32,
    pub attack: i32,
    pub defense: i32,
    pub speed: i32,
    pub special: i32,
}

/// The base stats of a species.
#[derive(Debug)]
pub struct BaseStats {
    pub hp: i32,
    pub attack: i32,
    pub defense: i32,
    pub speed: i32,
    pub special: i32,
}

/// The training bonus that an individual has gained, stat by stat.
#[derive(Debug)]
pub struct Experience {
    pub hp: i32,
    pub attack: i32,
    pub defense: i32,
    pub speed: i32,
    pub special: i32,
}

/// The training bonus that an individual has gained, stat by stat.
#[derive(Debug)]
pub struct StatExperience {
    pub hp: i32,
    pub attack: i32,
    pub defense: i32,
    pub speed: i32,
    pub special: i32,
}

/// The stats that the texts of a screen stand for, if each is a number.
pub open spec fn stats_of(content: StatsSreen1ContentView) -> Option<Stats> {
    match (
        parsed_number(content.hp),
        parsed_number(content.attack),
        parsed_number(content.defense),
        parsed_number(content.speed),
        parsed_number(content.special),
    ) {
        (Some(hp), Some(attack), Some(defense), Some(speed), Some(special)) => Some(
            Stats {
                hp: hp as i32,
                attack: attack as i32,
                defense: defense as i32,
                speed: speed as i32,
                special: special as i32,
            },
        ),
        _ => None,
    }
}

impl Stats {
    /// The stats that a screen shows, or `None` where one of them is no
    /// number.
    pub fn from_screen_content(content: &StatsSreen1Content) -> (stats: Option<Stats>)
        ensures
            stats == stats_of(content@),
    {
        let hp = parse_i32(content.hp.as_str())?;
        let attack = parse_i32(content.attack.as_str())?;
        let defense = parse_i32(content.defense.as_str())?;
        let speed = parse_i32(content.speed.as_str())?;
        let special = parse_i32(content.special.as_str())?;
        Some(Stats { hp, attack, defense, speed, special })
    }
}

impl Experience {
    /// The training bonus of an individual that has never battled.
    pub fn with_no_experience() -> (exp: Experience)
        ensures
            exp.hp == 0,
            exp.attack == 0,
            exp.defense == 0,
            exp.speed == 0,
            exp.special == 0,
    {
        Experience { hp: 0, attack: 0, defense: 0, speed: 0, special: 0 }
    }
}

/// The stats for the sixteen DVs, stat by stat.
pub struct DvTable {
    pub hp: [i32; 16],
    pub attack: [i32; 16],
    pub defense: [i32; 16],
    pub speed: [i32; 16],
    pub special: [i32; 16],
}

impl DvTable {
    /// Whether every stat of the table fits `i32`.
    pub open spec fn fits(level: int, base: BaseStats, exp: Experience) -> bool {
        &&& stats_fit(level, base.hp as int, exp.hp as int, true)
        &&& stats_fit(level, base.attack as int, exp.attack as int, false)
        &&& stats_fit(level, base.defense as int, exp.defense as int, false)
        &&& stats_fit(level, base.speed as int, exp.speed as int, false)
        &&& stats_fit(level, base.special as int, exp.special as int, false)
    }

    /// Calculates the table for a level, the base stats of the species and
    /// the training bonus. Only the vitality stat has the vitality offset.
    pub fn new(level: &i32, base: &BaseStats, exp: &Experience) -> (table: DvTable)
        requires
            Self::fits(*level as int, *base, *exp),
        ensures
            ints(table.hp@) == StatVariation::spec_init(
                *level as int,
                base.hp as int,
                exp.hp as int,
                true,
            ),
            ints(table.attack@) == StatVariation::spec_init(
                *level as int,
                base.attack as int,
                exp.attack as int,
                false,
            ),
            ints(table.defense@) == StatVariation::spec_init(
                *level as int,
                base.defense as int,
                exp.defense as int,
                false,
            ),
            ints(table.speed@) == StatVariation::spec_init(
                *level as int,
                base.speed as int,
                exp.speed as int,
                false,
            ),
            ints(table.special@) == StatVariation::spec_init(
                *level as int,
                base.special as int,
                exp.special as int,
                false,
            ),
    {
        let hp = StatVariation::init(level, &base.hp, &exp.hp, &true);
        let attack = StatVariation::init(level, &base.attack, &exp.attack, &false);
        let defense = StatVariation::init(level, &base.defense, &exp.defense, &false);
        let speed = StatVariation::init(level, &base.speed, &exp.speed, &false);
        let special = StatVariation::init(level, &base.special, &exp.special, &false);
        assert(ints(hp.values@) =~= hp@);
        assert(ints(attack.values@) =~= attack@);
        assert(ints(defense.values@) =~= defense@);
        assert(ints(speed.values@) =~= speed@);
        assert(ints(special.values@) =~= special@);
        DvTable {
            hp: hp.values,
            attack: attack.values,
            defense: defense.values,
            speed: speed.values,
            special: special.values,
        }
    }
}

/// The range of DVs that fit each stat of an individual, both ends
/// inclusive, or nothing where the stat fits no DV.
pub struct DvRanges {
    pub hp: Option<(usize, usize)>,
    pub attack: Option<(usize, usize)>,
    pub defense: Option<(usize, usize)>,
    pub speed: Option<(usize, usize)>,
    pub special: Option<(usize, usize)>,
}

impl DvRanges {
    /// Finds, stat by stat, the DVs of the table that fit the stats.
    pub fn new(stats: &Stats, dv_table: &DvTable) -> (ranges: DvRanges)
        ensures
            is_match_range(ints(dv_table.hp@), stats.hp as int, ranges.hp),
            is_match_range(ints(dv_table.attack@), stats.attack as int, ranges.attack),
            is_match_range(ints(dv_table.defense@), stats.defense as int, ranges.defense),
            is_match_range(ints(dv_table.speed@), stats.speed as int, ranges.speed),
            is_match_range(ints(dv_table.special@), stats.special as int, ranges.special),
    {
        DvRanges {
            hp: find_dv_range(&stats.hp, &dv_table.hp),
            attack: find_dv_range(&stats.attack, &dv_table.attack),
            defense: find_dv_range(&stats.defense, &dv_table.defense),
            speed: find_dv_range(&stats.speed, &dv_table.speed),
            special: find_dv_range(&stats.special, &dv_table.special),
        }
    }
}

} // verus!
