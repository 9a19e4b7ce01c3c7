//! Sub-communicators.
use vstd::prelude::*;
use vstd::relations::{sorted_by, total_ordering};
use vstd::seq_lib::lemma_sorted_unique;

use crate::hccl::color::{calculate_color, color_of, law_colour_is_the_hash_reduced};
use crate::hccl::communicator::Communicator;
use crate::hccl::types::{checked, hccl_check, HcclError, HcclResult};

verus! {

/// The arguments with which HCCL is asked for a sub-communicator.
#[derive(Debug, Clone, PartialEq, Eq)]
pub struct SubCommRequest {
    /// The communicator to split.
    pub comm: usize,
    /// The ranks of the group, in order.
    pub rank_ids: Vec<u32>,
    /// The identifier on which the members must agree.
    pub sub_comm_id: u64,
    /// This rank, within the group.
    pub group_rank: u32,
}

/// The order of ranks.
pub open spec fn not_above() -> spec_fn(i32, i32) -> bool {
    |a: i32, b: i32| a <= b
}

/// The same ranks in order.
pub open spec fn in_order(ranks: Seq<i32>) -> Seq<i32> {
    ranks.sort_by(not_above())
}

/// Whether every rank is one of the world.
pub open spec fn all_within(ranks: Seq<i32>, world_size: i32) -> bool {
    forall|i: int| 0 <= i < ranks.len() ==> 0 <= #[trigger] ranks[i] < world_size
}

/// Whether `at` is the first position of `rank`.
pub open spec fn first_position(ranks: Seq<i32>, rank: i32, at: int) -> bool {
    &&& 0 <= at < ranks.len()
    &&& ranks[at] == rank
    &&& forall|i: int| 0 <= i < at ==> #[trigger] ranks[i] != rank
}

/// The identifier of the `counter`-th sub-communicator with a colour.
pub open spec fn sub_comm_id(color: i32, counter: u64) -> u64 {
    ((color as nat * 1000 + counter) % 0x1_0000_0000_0000_0000) as u64
}

/// `slice::sort` puts the elements in order and keeps them all.
#[verifier::external_body]
fn sort(ranks: &mut Vec<i32>)
    ensures
        final(ranks)@.to_multiset() == old(ranks)@.to_multiset(),
        sorted_by(final(ranks)@, not_above()),
{
    ranks.sort()
}

/// Ranks in order are the same ranks, none above the next.
pub proof fn law_in_order_sorts(ranks: Seq<i32>)
    ensures
        in_order(ranks).to_multiset() == ranks.to_multiset(),
        sorted_by(in_order(ranks), not_above()),
        total_ordering(not_above()),
{
    assert(total_ordering(not_above()));
    ranks.lemma_sort_by_ensures(not_above());
}

proof fn lemma_sorting_is_in_order(sorted: Seq<i32>, ranks: Seq<i32>)
    requires
        sorted.to_multiset() == ranks.to_multiset(),
        sorted_by(sorted, not_above()),
    ensures
        sorted == in_order(ranks),
{
    law_in_order_sorts(ranks);
    lemma_sorted_unique(sorted, in_order(ranks), not_above());
}

/// Putting ranks in order neither adds nor loses one.
proof fn lemma_same_ranks(ranks: Seq<i32>, rank: i32)
    ensures
        in_order(ranks).contains(rank) <==> ranks.contains(rank),
        in_order(ranks).len() == ranks.len(),
{
    broadcast use vstd::seq_lib::group_to_multiset_ensures;

    law_in_order_sorts(ranks);
    assert(in_order(ranks).to_multiset().len() == ranks.to_multiset().len());
    assert(in_order(ranks).contains(rank) <==> in_order(ranks).to_multiset().count(rank) > 0);
    assert(ranks.contains(rank) <==> ranks.to_multiset().count(rank) > 0);
}

proof fn lemma_within(ranks: Seq<i32>, world_size: i32)
    ensures
        all_within(in_order(ranks), world_size) <==> all_within(ranks, world_size),
{
    if all_within(ranks, world_size) {
        assert forall|i: int| 0 <= i < in_order(ranks).len() implies 0 <= #[trigger] in_order(
            ranks,
        )[i] < world_size by {
            lemma_same_ranks(ranks, in_order(ranks)[i]);
            assert(in_order(ranks).contains(in_order(ranks)[i]));
        }
    }
    if all_within(in_order(ranks), world_size) {
        assert forall|i: int| 0 <= i < ranks.len() implies 0 <= #[trigger] ranks[i]
            < world_size by {
            lemma_same_ranks(ranks, ranks[i]);
            assert(ranks.contains(ranks[i]));
        }
    }
}

impl Communicator {
    /// Splits off a group of ranks. Ranks outside the group get nothing.
    pub fn split_from(&mut self, ranks: Vec<i32>) -> (request: Result<
        Option<SubCommRequest>,
        HcclError,
    >)
        requires
            all_within(ranks@, old(self).global_world_size) && ranks@.contains(old(self).rank)
                ==> old(self).split_counter < u64::MAX,
        ensures
            !all_within(ranks@, old(self).global_world_size) ==> {
                &&& request matches Err(HcclError::InvalidSplit(given))
                &&& given@ == in_order(ranks@)
                &&& *final(self) == *old(self)
            },
            all_within(ranks@, old(self).global_world_size) && !ranks@.contains(old(self).rank)
                ==> {
                &&& request matches Ok(None)
                &&& *final(self) == *old(self)
            },
            all_within(ranks@, old(self).global_world_size) && ranks@.contains(old(self).rank)
                ==> {
                &&& request matches Ok(Some(r))
                &&& old(self).is_split_request(ranks@, r)
                &&& *final(self) == (Communicator {
                    split_counter: (old(self).split_counter + 1) as u64,
                    ..*old(self)
                })
            },
    {
        let ghost given = ranks@;
        let mut sorted = ranks;
        sort(&mut sorted);
        proof {
            lemma_sorting_is_in_order(sorted@, given);
            lemma_within(given, self.global_world_size);
            lemma_same_ranks(given, self.rank);
        }
        let mut rank_ids: Vec<u32> = Vec::new();
        let mut found: Option<usize> = None;
        let mut i: usize = 0;
        while i < sorted.len()
            invariant
                i <= sorted@.len(),
                given == ranks@,
                sorted@ == in_order(given),
                all_within(sorted@, self.global_world_size) <==> all_within(
                    given,
                    self.global_world_size,
                ),
                *self == *old(self),
                forall|k: int|
                    0 <= k < i ==> 0 <= #[trigger] sorted@[k] < self.global_world_size,
                rank_ids@.len() == i,
                forall|k: int| 0 <= k < i ==> #[trigger] rank_ids@[k] == sorted@[k] as u32,
                match found {
                    Some(at) => at < i && first_position(sorted@, self.rank, at as int),
                    None => forall|k: int| 0 <= k < i ==> #[trigger] sorted@[k] != self.rank,
                },
            decreases sorted@.len() - i,
        {
            let rank: i32 = sorted[i];
            if rank < 0 || rank >= self.global_world_size {
                assert(!all_within(sorted@, self.global_world_size));
                return Err(HcclError::InvalidSplit(sorted));
            }
            if found.is_none() && rank == self.rank {
                found = Some(i);
            }
            rank_ids.push(rank as u32);
            i = i + 1;
        }
        let position: usize = match found {
            Some(position) => position,
            None => {
                return Ok(None);
            },
        };
        assert(sorted@.contains(self.rank)) by {
            assert(sorted@[position as int] == self.rank);
        }
        self.split_counter = self.split_counter + 1;
        let color: u64 = calculate_color(sorted.as_slice()) as u64;
        let sub_comm_id: u64 = color.wrapping_mul(1000).wrapping_add(self.split_counter);
        assert(rank_ids@ =~= in_order(given).map_values(|r: i32| r as u32));
        Ok(
            Some(
                SubCommRequest {
                    comm: self.inner,
                    rank_ids,
                    sub_comm_id,
                    group_rank: position as u32,
                },
            ),
        )
    }

    /// Whether `request` asks for the group of `ranks`, of which this rank is one.
    pub open spec fn is_split_request(self, ranks: Seq<i32>, request: SubCommRequest) -> bool {
        &&& request.comm == self.inner
        &&& request.rank_ids@ == in_order(ranks).map_values(|r: i32| r as u32)
        &&& request.rank_ids@.len() == ranks.len()
        &&& request.sub_comm_id == sub_comm_id(
            color_of(in_order(ranks)),
            (self.split_counter + 1) as u64,
        )
        &&& exists|at: int| #[trigger]
            first_position(in_order(ranks), self.rank, at) && request.group_rank == at as u32
    }

    /// Makes the sub-communicator of what HCCL returned for a request.
    pub fn finish_split(
        &self,
        request: &SubCommRequest,
        result: HcclResult,
        sub_comm: usize,
    ) -> (comm: Result<Self, HcclError>)
        ensures
            comm == (match checked(result) {
                Err(error) => Err::<Communicator, HcclError>(HcclError::HcclError(error)),
                Ok(_) => Ok(
                    Communicator {
                        inner: sub_comm,
                        world_size: request.rank_ids.len() as i32,
                        rank: request.group_rank as i32,
                        global_world_size: self.global_world_size,
                        global_rank: self.global_rank,
                        device: self.device,
                        split_counter: 0,
                    },
                ),
            }),
    {
        match hccl_check(result) {
            Err(error) => Err(HcclError::from(error)),
            Ok(_) => Ok(
                Communicator {
                    inner: sub_comm,
                    world_size: request.rank_ids.len() as i32,
                    rank: request.group_rank as i32,
                    global_world_size: self.global_world_size,
                    global_rank: self.global_rank,
                    device: self.device,
                    split_counter: 0,
                },
            ),
        }
    }

    /// Splits off a group of all ranks.
    pub fn split_all(&mut self) -> (request: Result<SubCommRequest, HcclError>)
        requires
            0 <= old(self).rank < old(self).global_world_size,
            old(self).split_counter < u64::MAX,
        ensures
            request matches Ok(r) && old(self).is_split_request(
                every_rank(old(self).global_world_size),
                r,
            ) && r.group_rank == old(self).rank && r.rank_ids@.len()
                == old(self).global_world_size && forall|i: int|
                0 <= i < r.rank_ids@.len() ==> #[trigger] r.rank_ids@[i] == i,
            *final(self) == (Communicator {
                split_counter: (old(self).split_counter + 1) as u64,
                ..*old(self)
            }),
    {
        let mut ranks: Vec<i32> = Vec::new();
        let mut next: i32 = 0;
        while next < self.global_world_size
            invariant
                *self == *old(self),
                0 <= next <= self.global_world_size,
                ranks@ =~= every_rank(next),
            decreases self.global_world_size - next,
        {
            ranks.push(next);
            next = next + 1;
        }
        proof {
            let all = every_rank(self.global_world_size);
            assert(all[self.rank as int] == self.rank);
            lemma_sorting_is_in_order(all, all);
        }
        match self.split_from(ranks) {
            Ok(Some(request)) => Ok(request),
            Ok(None) => vstd::pervasive::unreached(),
            Err(error) => Err(error),
        }
    }
}

/// The ranks from zero up to a world's size.
pub open spec fn every_rank(world_size: i32) -> Seq<i32> {
    Seq::new(world_size as nat, |i: int| i as i32)
}

/// The order in which a group's ranks are given does not matter: requests by the
/// same communicator for the same ranks agree in everything.
pub proof fn law_split_ignores_order(
    comm: Communicator,
    left: Seq<i32>,
    right: Seq<i32>,
    one: SubCommRequest,
    other: SubCommRequest,
)
    requires
        left.to_multiset() == right.to_multiset(),
        comm.is_split_request(left, one),
        comm.is_split_request(right, other),
    ensures
        one.comm == other.comm,
        one.rank_ids@ == other.rank_ids@,
        one.sub_comm_id == other.sub_comm_id,
        one.group_rank == other.group_rank,
{
    law_in_order_sorts(right);
    lemma_sorting_is_in_order(in_order(right), left);
}

/// Members of one group that have split equally often ask for the same ranks
/// under the same identifier, whatever order they were given the ranks in.
pub proof fn law_members_agree(
    here: Communicator,
    there: Communicator,
    left: Seq<i32>,
    right: Seq<i32>,
    one: SubCommRequest,
    other: SubCommRequest,
)
    requires
        left.to_multiset() == right.to_multiset(),
        here.split_counter == there.split_counter,
        here.is_split_request(left, one),
        there.is_split_request(right, other),
    ensures
        one.rank_ids@ == other.rank_ids@,
        one.sub_comm_id == other.sub_comm_id,
{
    law_in_order_sorts(right);
    lemma_sorting_is_in_order(in_order(right), left);
}

/// A communicator that splits off the same group again does so under another
/// identifier.
pub proof fn law_repeated_splits_differ(
    earlier: Communicator,
    later: Communicator,
    left: Seq<i32>,
    right: Seq<i32>,
    one: SubCommRequest,
    other: SubCommRequest,
)
    requires
        left.to_multiset() == right.to_multiset(),
        earlier.split_counter < later.split_counter < u64::MAX,
        earlier.is_split_request(left, one),
        later.is_split_request(right, other),
    ensures
        one.sub_comm_id != other.sub_comm_id,
{
    law_in_order_sorts(right);
    lemma_sorting_is_in_order(in_order(right), left);
}

/// A member's rank in the group is where its rank stands among the group's ranks,
/// so different members have different ranks in the group.
pub proof fn law_group_ranks_differ(
    here: Communicator,
    there: Communicator,
    ranks: Seq<i32>,
    one: SubCommRequest,
    other: SubCommRequest,
)
    requires
        ranks.len() <= u32::MAX,
        here.rank != there.rank,
        here.is_split_request(ranks, one),
        there.is_split_request(ranks, other),
    ensures
        one.rank_ids@[one.group_rank as int] == here.rank as u32,
        one.group_rank != other.group_rank,
{
    lemma_same_ranks(ranks, here.rank);
}

/// A request names the group: all its ranks, each as often as it was given and in
/// order, on the communicator's own handle. The rank in the group is the first place
/// at which this rank stands.
pub proof fn law_request_names_the_group(
    comm: Communicator,
    ranks: Seq<i32>,
    request: SubCommRequest,
)
    requires
        comm.is_split_request(ranks, request),
        all_within(ranks, comm.global_world_size),
        ranks.len() <= u32::MAX,
    ensures
        request.comm == comm.inner,
        request.rank_ids@.len() == ranks.len(),
        forall|i: int, j: int|
            0 <= i <= j < request.rank_ids@.len() ==> request.rank_ids@[i] <= request.rank_ids@[j],
        forall|rank: i32| #[trigger]
            ranks.contains(rank) ==> rank >= 0 && request.rank_ids@.contains(rank as u32),
        request.group_rank < request.rank_ids@.len(),
        request.rank_ids@[request.group_rank as int] == comm.rank,
        forall|i: int|
            0 <= i < request.group_rank ==> #[trigger] request.rank_ids@[i] != comm.rank,
        ranks.contains(comm.rank),
{
    law_in_order_sorts(ranks);
    lemma_within(ranks, comm.global_world_size);
    lemma_same_ranks(ranks, comm.rank);
    let sorted = in_order(ranks);
    assert(all_within(sorted, comm.global_world_size));
    assert forall|i: int, j: int| 0 <= i <= j < request.rank_ids@.len() implies request.rank_ids@[i]
        <= request.rank_ids@[j] by {
        assert(0 <= sorted[i] && 0 <= sorted[j]);
        if i < j {
            assert(not_above()(sorted[i], sorted[j]));
        }
    }
    assert forall|rank: i32| #[trigger] ranks.contains(rank) implies rank >= 0
        && request.rank_ids@.contains(rank as u32) by {
        lemma_same_ranks(ranks, rank);
        let i = choose|i: int| 0 <= i < sorted.len() && sorted[i] == rank;
        assert(request.rank_ids@[i] == rank as u32);
    }
    let at = choose|at: int| #[trigger]
        first_position(sorted, comm.rank, at) && request.group_rank == at as u32;
    assert(sorted[at] == comm.rank);
    assert forall|i: int| 0 <= i < request.group_rank implies #[trigger] request.rank_ids@[i]
        != comm.rank by {
        assert(sorted[i] != comm.rank);
        assert(sorted[i] >= 0);
    }
}

/// A group is refused exactly if one of its ranks is negative or not below the size of
/// the world.
pub proof fn law_groups_within_the_world(ranks: Seq<i32>, world_size: i32)
    ensures
        all_within(ranks, world_size) <==> forall|rank: i32| #[trigger]
            ranks.contains(rank) ==> rank >= 0 && rank < world_size,
{
    if forall|rank: i32| #[trigger] ranks.contains(rank) ==> rank >= 0 && rank < world_size {
        assert forall|i: int| 0 <= i < ranks.len() implies 0 <= #[trigger] ranks[i]
            < world_size by {
            assert(ranks.contains(ranks[i]));
        }
    }
}

/// The identifier of a sub-communicator holds its colour in the thousands and counts up
/// by one from one split to the next.
pub proof fn law_identifier_holds_colour_and_counter(color: i32, counter: u64)
    requires
        0 <= color,
    ensures
        counter < 1000 ==> sub_comm_id(color, counter) as int / 1000 == color && sub_comm_id(
            color,
            counter,
        ) as int % 1000 == counter,
        counter < u64::MAX && sub_comm_id(color, counter) < u64::MAX ==> sub_comm_id(
            color,
            (counter + 1) as u64,
        ) == sub_comm_id(color, counter) + 1,
        counter < u64::MAX && sub_comm_id(color, counter) == u64::MAX ==> sub_comm_id(
            color,
            (counter + 1) as u64,
        ) == 0,
{
}

/// A request carries the identifier of its group's colour and of the split that is
/// being made, counted from one.
pub proof fn law_request_counts_the_splits(
    comm: Communicator,
    ranks: Seq<i32>,
    request: SubCommRequest,
)
    requires
        comm.is_split_request(ranks, request),
        comm.split_counter < 999,
    ensures
        request.sub_comm_id as int % 1000 == comm.split_counter + 1,
        request.sub_comm_id as int / 1000 == color_of(in_order(ranks)),
{
    law_colour_is_the_hash_reduced(in_order(ranks));
    law_identifier_holds_colour_and_counter(
        color_of(in_order(ranks)),
        (comm.split_counter + 1) as u64,
    );
}

} // verus!
