//! Ids derived from an id: the sub-ids of an id are the first values of an
//! ISAAC-64 generator seeded with the id mixed with an angle, so the same
//! id, angle and count give the same sub-ids, and asking for fewer gives a
//! prefix of asking for more.
use vstd::prelude::*;
use rand::Isaac64Rng;
use rand::Rng;
use rand::SeedableRng;
use vstd::std_specs::convert::FromSpecImpl;

verus! {

#[verifier::external_type_specification]
#[verifier::external_body]
pub struct ExIsaac64Rng(Isaac64Rng);

/// The values that a generator will yield from now on, by position: the
/// next value is at position 0.
pub uninterp spec fn isaac64_upcoming(rng: Isaac64Rng) -> Map<nat, u64>;

/// The values that an ISAAC-64 generator seeded with the single word `seed`
/// yields, by position.
pub uninterp spec fn isaac64_stream(seed: u64) -> Map<nat, u64>;

/// `Isaac64Rng::from_seed` with a one-word seed. The crate documents that
/// generators built from the same seed yield the same sequence; the
/// contract names that sequence and says the new generator yields it from
/// its start.
#[verifier::external_body]
fn isaac64_from_seed(seed: u64) -> (rng: Isaac64Rng)
    ensures
        isaac64_upcoming(rng) == isaac64_stream(seed),
{
    Isaac64Rng::from_seed(&[seed])
}

/// `Rng::gen::<u64>` on an ISAAC-64 generator, which returns its next
/// 64-bit value: the contract says it returns the value at position 0 and
/// that every later value moves up one position. Which values those are is
/// left to the name `isaac64_stream`.
#[verifier::external_body]
fn isaac64_next(rng: &mut Isaac64Rng) -> (word: u64)
    ensures
        word == isaac64_upcoming(*old(rng))[0],
        forall|i: nat| #[trigger]
            isaac64_upcoming(*final(rng))[i] == isaac64_upcoming(*old(rng))[i + 1],
{
    rng.gen::<u64>()
}

#[derive(Copy, Clone, PartialEq, Eq, Debug, Structural)]
pub enum Angle {
    A,
    B,
}

/// The number an angle mixes into the seed.
pub open spec fn angle_code(angle: Angle) -> u64 {
    match angle {
        Angle::A => 11,
        Angle::B => 13,
    }
}

impl From<Angle> for u64 {
    fn from(angle: Angle) -> (code: u64) {
        match angle {
            Angle::A => 11,
            Angle::B => 13,
        }
    }
}

impl FromSpecImpl<Angle> for u64 {
    open spec fn obeys_from_spec() -> bool {
        true
    }

    open spec fn from_spec(angle: Angle) -> u64 {
        angle_code(angle)
    }
}

/// The `n` sub-ids of `id` along `angle`.
pub open spec fn sub_id_seq(id: u64, angle: Angle, n: nat) -> Seq<u64> {
    Seq::new(n, |i: int| isaac64_stream(id ^ angle_code(angle))[i as nat])
}

pub trait SubIds {
    fn sub_ids(&self, angle: Angle, n: usize) -> Vec<Self> where Self: Sized;
}

impl SubIds for u64 {
    fn sub_ids(&self, angle: Angle, n: usize) -> (ids: Vec<u64>)
        ensures
            ids@ == sub_id_seq(*self, angle, n as nat),
    {
        let angle_number: u64 = From::from(angle);
        let seed = *self ^ angle_number;
        let mut rng = isaac64_from_seed(seed);
        let mut sub_ids: Vec<u64> = Vec::new();
        let mut i: usize = 0;
        while i < n
            invariant
                i <= n,
                sub_ids@.len() == i,
                forall|j: int| 0 <= j < i ==> sub_ids@[j] == isaac64_stream(seed)[j as nat],
                forall|j: nat| #[trigger]
                    isaac64_upcoming(rng)[j] == isaac64_stream(seed)[j + (i as nat)],
            decreases n - i,
        {
            let ghost before = rng;
            let sub_id: u64 = isaac64_next(&mut rng);
            proof {
                assert(isaac64_upcoming(before)[0] == isaac64_stream(seed)[0 + (i as nat)]);
                assert forall|j: nat| #[trigger]
                    isaac64_upcoming(rng)[j] == isaac64_stream(seed)[j + ((i + 1) as nat)] by {
                    assert(isaac64_upcoming(before)[j + 1] == isaac64_stream(seed)[(j + 1) + (i as nat)]);
                    assert((j + 1) + (i as nat) == j + ((i + 1) as nat));
                }
            }
            sub_ids.push(sub_id);
            i = i + 1;
        }
        proof {
            assert(sub_ids@ =~= sub_id_seq(*self, angle, n as nat));
        }
        sub_ids
    }
}

/// Asking for fewer sub-ids gives a prefix of asking for more.
pub proof fn lemma_sub_ids_prefix(id: u64, angle: Angle, n: nat, m: nat)
    requires
        n <= m,
    ensures
        sub_id_seq(id, angle, n) == sub_id_seq(id, angle, m).take(n as int),
{
    assert(sub_id_seq(id, angle, n) =~= sub_id_seq(id, angle, m).take(n as int));
}

} // verus!
