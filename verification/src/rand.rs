//! Random generation functions convenient for game development.
//!
//! A [`Noise`] turns a seed and an index into a 32-bit value that looks random
//! yet is the same on every run and every machine. The value is the 32-bit
//! MurmurHash3 of the index, taken as four little-endian bytes and keyed with
//! the seed: a fixed chain of wrapping multiplications, additions, rotations
//! and shifts, each of which can be undone. For a fixed seed the generator is
//! therefore a permutation of the 32-bit integers, and so it is for a fixed
//! index read as a function of the seed.

use std::time::UNIX_EPOCH;
use vstd::prelude::*;

verus! {

/// `x` with its bits rotated to the left by `n` places, for `0 < n < 32`: the
/// bits pushed out at the top come back in at the bottom.
pub open spec fn rotated_left(x: u32, n: u32) -> u32 {
    (x << n) | (x >> ((32 - n) as u32))
}

/// `x` with its bits rotated to the right by `n` places, for `0 < n < 32`.
pub open spec fn rotated_right(x: u32, n: u32) -> u32 {
    (x >> n) | (x << ((32 - n) as u32))
}

/// The first stage of the hash: the index alone, before the seed comes in.
pub open spec fn scrambled(x: u32) -> u32 {
    rotated_left(x.wrapping_mul(0xcc9e_2d51), 15).wrapping_mul(0x1b87_3593)
}

/// The second stage: the scrambled index `k` folded into the seed.
pub open spec fn keyed(seed: u32, k: u32) -> u32 {
    rotated_left(seed ^ k, 13).wrapping_mul(5).wrapping_add(0xe654_6b64) ^ 4
}

/// The last stage: the avalanche that spreads every input bit over the word.
pub open spec fn finalized(h: u32) -> u32 {
    let a = h ^ (h >> 16);
    let b = a.wrapping_mul(0x85eb_ca6b);
    let c = b ^ (b >> 13);
    let d = c.wrapping_mul(0xc2b2_ae35);
    d ^ (d >> 16)
}

/// The value that a generator seeded with `seed` gives for the index `x`.
pub open spec fn noise_value(seed: u32, x: u32) -> u32 {
    finalized(keyed(seed, scrambled(x)))
}

/// Undoes [`scrambled`].
pub open spec fn unscrambled(k: u32) -> u32 {
    rotated_right(k.wrapping_mul(0x56ed_309b), 15).wrapping_mul(0xdee1_3bb1)
}

/// Undoes [`keyed`] where the seed is known: the `k` that was folded in.
pub open spec fn unkeyed(seed: u32, h: u32) -> u32 {
    rotated_right((h ^ 4).wrapping_sub(0xe654_6b64).wrapping_mul(0xcccc_cccd), 13) ^ seed
}

/// Undoes [`finalized`].
pub open spec fn unfinalized(v: u32) -> u32 {
    let d = v ^ (v >> 16);
    let c = d.wrapping_mul(0x7ed1_b41d);
    let b = c ^ (c >> 13) ^ (c >> 26);
    let a = b.wrapping_mul(0xa5cb_9243);
    a ^ (a >> 16)
}

/// The one index at which a generator seeded with `seed` gives `value`.
pub open spec fn noise_index(seed: u32, value: u32) -> u32 {
    unscrambled(unkeyed(seed, unfinalized(value)))
}

/// The one seed under which the index `x` gives `value`.
pub open spec fn noise_seed(x: u32, value: u32) -> u32 {
    unkeyed(scrambled(x), unfinalized(value))
}

proof fn lemma_scrambled_undone(x: u32)
    ensures
        unscrambled(scrambled(x)) == x,
{
    let a = x.wrapping_mul(0xcc9e_2d51);
    let b = rotated_left(a, 15);
    let c = b.wrapping_mul(0x1b87_3593);
    assert(c.wrapping_mul(0x56ed_309b) == b) by (bit_vector)
        requires
            c == b.wrapping_mul(0x1b87_3593),
    ;
    assert(rotated_right(b, 15) == a) by (bit_vector)
        requires
            b == rotated_left(a, 15),
    ;
    assert(a.wrapping_mul(0xdee1_3bb1) == x) by (bit_vector)
        requires
            a == x.wrapping_mul(0xcc9e_2d51),
    ;
}

proof fn lemma_unscrambled_undone(k: u32)
    ensures
        scrambled(unscrambled(k)) == k,
{
    let a = k.wrapping_mul(0x56ed_309b);
    let b = rotated_right(a, 15);
    let c = b.wrapping_mul(0xdee1_3bb1);
    assert(c.wrapping_mul(0xcc9e_2d51) == b) by (bit_vector)
        requires
            c == b.wrapping_mul(0xdee1_3bb1),
    ;
    assert(rotated_left(b, 15) == a) by (bit_vector)
        requires
            b == rotated_right(a, 15),
    ;
    assert(a.wrapping_mul(0x1b87_3593) == k) by (bit_vector)
        requires
            a == k.wrapping_mul(0x56ed_309b),
    ;
}

proof fn lemma_keyed_undone(seed: u32, k: u32)
    ensures
        unkeyed(seed, keyed(seed, k)) == k,
        unkeyed(k, keyed(seed, k)) == seed,
{
    let a = seed ^ k;
    let b = rotated_left(a, 13);
    let c = b.wrapping_mul(5);
    let d = c.wrapping_add(0xe654_6b64);
    let e = d ^ 4;
    assert(e ^ 4 == d) by (bit_vector)
        requires
            e == d ^ 4,
    ;
    assert(d.wrapping_sub(0xe654_6b64) == c) by (bit_vector)
        requires
            d == c.wrapping_add(0xe654_6b64),
    ;
    assert(c.wrapping_mul(0xcccc_cccd) == b) by (bit_vector)
        requires
            c == b.wrapping_mul(5),
    ;
    assert(rotated_right(b, 13) == a) by (bit_vector)
        requires
            b == rotated_left(a, 13),
    ;
    assert(a ^ seed == k && a ^ k == seed) by (bit_vector)
        requires
            a == seed ^ k,
    ;
}

proof fn lemma_unkeyed_undone(seed: u32, h: u32)
    ensures
        keyed(seed, unkeyed(seed, h)) == h,
        keyed(unkeyed(seed, h), seed) == h,
{
    let a = h ^ 4;
    let b = a.wrapping_sub(0xe654_6b64);
    let c = b.wrapping_mul(0xcccc_cccd);
    let d = rotated_right(c, 13);
    let k = d ^ seed;
    assert(seed ^ k == d && k ^ seed == d) by (bit_vector)
        requires
            k == d ^ seed,
    ;
    assert(rotated_left(d, 13) == c) by (bit_vector)
        requires
            d == rotated_right(c, 13),
    ;
    assert(c.wrapping_mul(5) == b) by (bit_vector)
        requires
            c == b.wrapping_mul(0xcccc_cccd),
    ;
    assert(b.wrapping_add(0xe654_6b64) == a) by (bit_vector)
        requires
            b == a.wrapping_sub(0xe654_6b64),
    ;
    assert(a ^ 4 == h) by (bit_vector)
        requires
            a == h ^ 4,
    ;
}

proof fn lemma_finalized_undone(h: u32)
    ensures
        unfinalized(finalized(h)) == h,
{
    let a = h ^ (h >> 16);
    let b = a.wrapping_mul(0x85eb_ca6b);
    let c = b ^ (b >> 13);
    let d = c.wrapping_mul(0xc2b2_ae35);
    let v = d ^ (d >> 16);
    assert(v ^ (v >> 16) == d) by (bit_vector)
        requires
            v == d ^ (d >> 16),
    ;
    assert(d.wrapping_mul(0x7ed1_b41d) == c) by (bit_vector)
        requires
            d == c.wrapping_mul(0xc2b2_ae35),
    ;
    assert(c ^ (c >> 13) ^ (c >> 26) == b) by (bit_vector)
        requires
            c == b ^ (b >> 13),
    ;
    assert(b.wrapping_mul(0xa5cb_9243) == a) by (bit_vector)
        requires
            b == a.wrapping_mul(0x85eb_ca6b),
    ;
    assert(a ^ (a >> 16) == h) by (bit_vector)
        requires
            a == h ^ (h >> 16),
    ;
}

proof fn lemma_unfinalized_undone(v: u32)
    ensures
        finalized(unfinalized(v)) == v,
{
    let d = v ^ (v >> 16);
    let c = d.wrapping_mul(0x7ed1_b41d);
    let b = c ^ (c >> 13) ^ (c >> 26);
    let a = b.wrapping_mul(0xa5cb_9243);
    let h = a ^ (a >> 16);
    assert(h ^ (h >> 16) == a) by (bit_vector)
        requires
            h == a ^ (a >> 16),
    ;
    assert(a.wrapping_mul(0x85eb_ca6b) == b) by (bit_vector)
        requires
            a == b.wrapping_mul(0xa5cb_9243),
    ;
    assert(b ^ (b >> 13) == c) by (bit_vector)
        requires
            b == c ^ (c >> 13) ^ (c >> 26),
    ;
    assert(c.wrapping_mul(0xc2b2_ae35) == d) by (bit_vector)
        requires
            c == d.wrapping_mul(0x7ed1_b41d),
    ;
    assert(d ^ (d >> 16) == v) by (bit_vector)
        requires
            d == v ^ (v >> 16),
    ;
}

/// For a fixed seed the generator is one-to-one and onto: [`noise_index`]
/// finds the index behind every value, and every 32-bit value has one.
pub proof fn lemma_index_recovered(seed: u32, x: u32, value: u32)
    ensures
        noise_index(seed, noise_value(seed, x)) == x,
        noise_value(seed, noise_index(seed, value)) == value,
{
    lemma_finalized_undone(keyed(seed, scrambled(x)));
    lemma_keyed_undone(seed, scrambled(x));
    lemma_scrambled_undone(x);
    lemma_unscrambled_undone(unkeyed(seed, unfinalized(value)));
    lemma_unkeyed_undone(seed, unfinalized(value));
    lemma_unfinalized_undone(value);
}

/// For a fixed index the generator is one-to-one and onto in the seed:
/// [`noise_seed`] finds the seed behind every value.
pub proof fn lemma_seed_recovered(seed: u32, x: u32, value: u32)
    ensures
        noise_seed(x, noise_value(seed, x)) == seed,
        noise_value(noise_seed(x, value), x) == value,
{
    lemma_finalized_undone(keyed(seed, scrambled(x)));
    lemma_keyed_undone(seed, scrambled(x));
    lemma_unkeyed_undone(scrambled(x), unfinalized(value));
    lemma_unfinalized_undone(value);
}

/// Two different indices never give the same value under one seed. In
/// particular a value is never followed by itself at the next index.
pub proof fn lemma_indices_never_collide(seed: u32, x: u32, y: u32)
    requires
        x != y,
    ensures
        noise_value(seed, x) != noise_value(seed, y),
{
    lemma_index_recovered(seed, x, 0);
    lemma_index_recovered(seed, y, 0);
}

/// Two different seeds never give the same value at one index.
pub proof fn lemma_seeds_never_collide(seed: u32, other: u32, x: u32)
    requires
        seed != other,
    ensures
        noise_value(seed, x) != noise_value(other, x),
{
    lemma_seed_recovered(seed, x, 0);
    lemma_seed_recovered(other, x, 0);
}

/// `x` rotated to the left by `n` places.
fn rotate_left(x: u32, n: u32) -> (r: u32)
    requires
        0 < n < 32,
    ensures
        r == rotated_left(x, n),
{
    (x << n) | (x >> (32 - n))
}

/// One end of a range of values.
#[derive(Clone, Copy, Debug, PartialEq, Eq)]
pub enum Bound {
    /// The range reaches this value and holds it.
    Included(u32),
    /// The range reaches this value and leaves it out.
    Excluded(u32),
    /// The range has no end on this side.
    Unbounded,
}

/// Why a generator gave no value.
#[derive(Clone, Copy, Debug, PartialEq, Eq)]
pub enum NoiseError {
    /// The range asked for holds no value: its upper end does not lie above
    /// its lower end.
    InvalidRange,
}

/// The least value of a range that starts at `start`.
pub open spec fn lower_limit(start: Bound) -> int {
    match start {
        Bound::Included(x) => x as int,
        Bound::Excluded(x) => x + 1,
        Bound::Unbounded => 0,
    }
}

/// The first value above a range that ends at `end`. A range without an upper
/// end stops short of `u32::MAX`.
pub open spec fn upper_limit(end: Bound) -> int {
    match end {
        Bound::Included(x) => x + 1,
        Bound::Excluded(x) => x as int,
        Bound::Unbounded => u32::MAX as int,
    }
}

/// `value` brought into the half-open range from `low` to `high`, or the
/// error where that range is empty.
pub open spec fn reduced(value: u32, low: int, high: int) -> Result<u32, NoiseError> {
    if high <= low {
        Err(NoiseError::InvalidRange)
    } else {
        Ok((low + (value as int) % (high - low)) as u32)
    }
}

/// The seed that a reading of the clock gives. The reading is in whole
/// seconds since the Unix epoch and is taken modulo `u32::MAX`; a clock that
/// stands before the epoch has no reading and counts as the epoch itself.
pub open spec fn clock_seed(reading: Option<u64>) -> u32 {
    match reading {
        Some(secs) => (secs % 0xffff_ffff) as u32,
        None => 0,
    }
}

/// Reads the system clock with `std::time::SystemTime::elapsed`, asked of the
/// Unix epoch, and hands back the whole seconds that have passed since then,
/// or `None` where the clock stands before the epoch. Nothing is claimed of
/// the reading.
#[verifier::external_body]
fn unix_seconds() -> (reading: Option<u64>) {
    match UNIX_EPOCH.elapsed() {
        Ok(elapsed) => Some(elapsed.as_secs()),
        Err(_) => None,
    }
}

/// A random number generator that can produce consistent but still unpredictable outputs given
/// the same inputs. Useful for perlin noise generation.
#[derive(Clone, Copy, Debug)]
pub struct Noise {
    /// The seed used to make generated numbers unique.
    pub seed: u32,
    /// The counter for `Noise::next` and `Noise::next_range`.
    pub index: u32,
}

impl Noise {
    /// A fresh generator with the given seed.
    pub open spec fn seeded(seed: u32) -> Noise {
        Noise { seed, index: 0 }
    }

    /// The value of this generator at the index `x`. It depends on the seed
    /// and on `x` alone.
    pub open spec fn value_at(self, x: u32) -> u32 {
        noise_value(self.seed, x)
    }

    /// The value of this generator at the index `x`, brought into the range
    /// between the two bounds.
    pub open spec fn value_in(self, x: u32, start: Bound, end: Bound) -> Result<u32, NoiseError> {
        reduced(self.value_at(x), lower_limit(start), upper_limit(end))
    }

    /// This generator after `n` numbers were drawn from it. The counter wraps
    /// around past `u32::MAX`.
    pub open spec fn advanced(self, n: nat) -> Noise {
        Noise { seed: self.seed, index: ((self.index + n) % 0x1_0000_0000) as u32 }
    }

    /// The number that the `n`-th draw from now gives, for `n` from 1.
    pub open spec fn drawn(self, n: nat) -> u32 {
        self.value_at(self.advanced(n).index)
    }

    /// Create a `Noise` instance. The seed is set to the number of seconds since the unix epoch.
    /// To avoid epochalypse problems, it actually returns `seconds % u32::MAX` so it will
    /// wrap around once it runs out of 32 bit numbers. A clock that stands
    /// before the epoch counts as the epoch itself.
    pub fn new() -> (noise: Noise)
        ensures
            noise.index == 0,
            noise.seed < u32::MAX,
            exists|reading: Option<u64>| noise == Noise::seeded(#[trigger] clock_seed(reading)),
    {
        Noise::from_clock(unix_seconds())
    }

    /// Create the `Noise` instance that [`Noise::new`] makes when the clock
    /// reads `reading`: the whole seconds since the unix epoch, or `None`
    /// where the clock stands before it.
    pub fn from_clock(reading: Option<u64>) -> (noise: Noise)
        ensures
            noise == Noise::seeded(clock_seed(reading)),
            noise.seed < u32::MAX,
    {
        let seed: u32 = match reading {
            Some(secs) => (secs % 0xffff_ffff) as u32,
            None => 0,
        };
        Noise { seed, index: 0 }
    }

    /// Create a `Noise` instance with seed already decided.
    pub fn from_seed(seed: u32) -> (noise: Noise)
        ensures
            noise == Noise::seeded(seed),
    {
        Noise { seed, index: 0 }
    }

    /// Get a pseudorandom number associated with the value `x`.
    pub fn get(&self, x: u32) -> (value: u32)
        ensures
            value == self.value_at(x),
    {
        let mut k: u32 = x.wrapping_mul(0xcc9e_2d51);
        k = rotate_left(k, 15);
        k = k.wrapping_mul(0x1b87_3593);
        let mut h: u32 = self.seed ^ k;
        h = rotate_left(h, 13);
        h = h.wrapping_mul(5).wrapping_add(0xe654_6b64);
        h = h ^ 4;
        h = h ^ (h >> 16);
        h = h.wrapping_mul(0x85eb_ca6b);
        h = h ^ (h >> 13);
        h = h.wrapping_mul(0xc2b2_ae35);
        h ^ (h >> 16)
    }

    /// Get the next pseudorandom number. This increments an internal counter
    /// and just returns the number calculated from the value of the counter.
    /// Past `u32::MAX` the counter starts again at 0.
    pub fn next(&mut self) -> (value: u32)
        ensures
            *final(self) == old(self).advanced(1),
            value == old(self).drawn(1),
    {
        self.index = self.index.wrapping_add(1);
        self.get(self.index)
    }

    /// Get a pseudorandom number in the range between `start` and `end`.
    pub fn get_range(&self, index: u32, start: Bound, end: Bound) -> (value: Result<
        u32,
        NoiseError,
    >)
        ensures
            value == self.value_in(index, start, end),
            value is Err <==> upper_limit(end) <= lower_limit(start),
            value matches Ok(v) ==> lower_limit(start) <= v < upper_limit(end),
    {
        let low: u64 = match start {
            Bound::Included(x) => x as u64,
            Bound::Excluded(x) => x as u64 + 1,
            Bound::Unbounded => 0,
        };
        let high: u64 = match end {
            Bound::Included(x) => x as u64 + 1,
            Bound::Excluded(x) => x as u64,
            Bound::Unbounded => u32::MAX as u64,
        };
        if high <= low {
            return Err(NoiseError::InvalidRange);
        }
        let offset: u64 = self.get(index) as u64 % (high - low);
        Ok((low + offset) as u32)
    }

    /// Get the next pseudorandom number in the range between `start` and
    /// `end`. The counter moves on whether or not the range holds a value.
    pub fn next_range(&mut self, start: Bound, end: Bound) -> (value: Result<u32, NoiseError>)
        ensures
            *final(self) == old(self).advanced(1),
            value == old(self).value_in(old(self).advanced(1).index, start, end),
            value is Err <==> upper_limit(end) <= lower_limit(start),
            value matches Ok(v) ==> lower_limit(start) <= v < upper_limit(end),
    {
        self.index = self.index.wrapping_add(1);
        self.get_range(self.index, start, end)
    }
}

/// The two raw numbers from which the gradient at a corner of the noise grid
/// is made: the first comes from the corner's column, the second from its
/// row. Columns draw on the even indices and rows on the odd ones, so the two
/// never read the same index.
pub fn gradient_noise(noise: &Noise, cell_x: u32, cell_y: u32) -> (components: (u32, u32))
    ensures
        components.0 == noise.value_at(cell_x.wrapping_mul(2)),
        components.1 == noise.value_at(cell_y.wrapping_mul(2).wrapping_add(1)),
{
    let across: u32 = noise.get(cell_x.wrapping_mul(2));
    let down: u32 = noise.get(cell_y.wrapping_mul(2).wrapping_add(1));
    (across, down)
}

/// The index that a column of the grid reads is never the index that a row
/// reads: the first is even and the second is odd.
pub proof fn lemma_columns_and_rows_read_apart(cell_x: u32, cell_y: u32)
    ensures
        cell_x.wrapping_mul(2) != cell_y.wrapping_mul(2).wrapping_add(1),
{
    let across = cell_x.wrapping_mul(2);
    let down = cell_y.wrapping_mul(2).wrapping_add(1);
    assert(across & 1 == 0) by (bit_vector)
        requires
            across == cell_x.wrapping_mul(2),
    ;
    assert(down & 1 == 1) by (bit_vector)
        requires
            down == cell_y.wrapping_mul(2).wrapping_add(1),
    ;
}

/// What a generator gives depends on its seed and on the index asked for, and
/// on nothing else: two generators with one seed agree at every index and in
/// every range, wherever their counters stand.
pub proof fn lemma_same_seed_same_values(a: Noise, b: Noise, x: u32, start: Bound, end: Bound)
    requires
        a.seed == b.seed,
    ensures
        a.value_at(x) == b.value_at(x),
        a.value_in(x, start, end) == b.value_in(x, start, end),
        Noise::seeded(a.seed).value_at(x) == a.value_at(x),
{
}

/// A range that holds a value always yields one, and the value lies in the
/// range: at or above its lower limit and below its upper limit.
pub proof fn lemma_value_within_range(noise: Noise, x: u32, start: Bound, end: Bound)
    requires
        lower_limit(start) < upper_limit(end),
    ensures
        noise.value_in(x, start, end) is Ok,
        lower_limit(start) <= noise.value_in(x, start, end)->Ok_0 < upper_limit(end),
{
}

/// Drawing `m` numbers and then `n` more leaves the generator where drawing
/// `m + n` leaves it, and gives the same numbers on the way.
pub proof fn lemma_draws_add_up(noise: Noise, m: nat, n: nat)
    ensures
        noise.advanced(0) == noise,
        noise.advanced(m).advanced(n) == noise.advanced(m + n),
        noise.advanced(m).drawn(n) == noise.drawn(m + n),
{
}

/// No number comes twice among the draws from one generator, as long as fewer
/// than 2^32 draws lie between the two: the `i`-th and the `j`-th draw differ.
pub proof fn lemma_draws_never_repeat(noise: Noise, i: nat, j: nat)
    requires
        i < j,
        j - i < 0x1_0000_0000,
    ensures
        noise.drawn(i) != noise.drawn(j),
{
    let a = noise.advanced(i).index;
    let b = noise.advanced(j).index;
    lemma_indices_never_collide(noise.seed, a, b);
}

impl Default for Noise {
    /// The same as [`Noise::new`]: a fresh generator seeded from the clock.
    fn default() -> (noise: Noise)
        ensures
            noise.index == 0,
            noise.seed < u32::MAX,
            exists|reading: Option<u64>| noise == Noise::seeded(#[trigger] clock_seed(reading)),
    {
        Noise::new()
    }
}

} // verus!
