//! Merging the answers of mirror hosts: every host's records in the order
//! in which the hosts were asked, and every host's failure beside them.

use vstd::prelude::*;
use crate::decode::{decode_record, decoded_record, outcome_model};
use crate::error::{DecodeError, DecodeErrorModel, TransportError};
use crate::fields::Record;
use crate::json::json_document;

verus! {

/// Why one host's leg brought no records, by the stage that failed.
#[derive(Clone, Debug, PartialEq, Eq)]
pub enum LegError {
    /// The request brought no answer.
    Transport(TransportError),
    /// The answer could not be decoded.
    Decode(DecodeError),
}

/// The mathematical value of a [`LegError`].
pub enum LegErrorModel {
    Transport(Seq<char>),
    Decode(DecodeErrorModel),
}

impl DeepView for LegError {
    type V = LegErrorModel;

    open spec fn deep_view(&self) -> LegErrorModel {
        match self {
            LegError::Transport(e) => LegErrorModel::Transport(e.deep_view()),
            LegError::Decode(e) => LegErrorModel::Decode(e.deep_view()),
        }
    }
}

/// The failure of one host: its position among the hosts asked, and why.
#[derive(Clone, Debug, PartialEq, Eq)]
pub struct HostFailure {
    pub host: usize,
    pub error: LegError,
}

/// The mathematical value of a [`HostFailure`].
pub struct FailureModel {
    pub host: int,
    pub error: LegErrorModel,
}

impl DeepView for HostFailure {
    type V = FailureModel;

    open spec fn deep_view(&self) -> FailureModel {
        FailureModel { host: self.host as int, error: self.error.deep_view() }
    }
}

/// What a fan-out call ends in: the records of the hosts that answered and
/// the failures of those that did not.
#[derive(Clone, Debug, PartialEq, Eq)]
pub struct FetchOutcome<T> {
    pub items: Vec<T>,
    pub failures: Vec<HostFailure>,
}

/// The records that the leg brought; none where it failed.
pub open spec fn leg_items<T>(leg: Result<Vec<T>, LegError>) -> Seq<T> {
    match leg {
        Ok(records) => records@,
        Err(_) => Seq::empty(),
    }
}

/// The failure of the leg of host `host`; none where it succeeded.
pub open spec fn leg_failures<T>(host: int, leg: Result<Vec<T>, LegError>) -> Seq<HostFailure> {
    match leg {
        Ok(_) => Seq::empty(),
        Err(error) => seq![HostFailure { host: host as usize, error }],
    }
}

/// The records of all legs that succeeded, host after host in the order of
/// `legs`, each host's records in their own order.
pub open spec fn merged_items<T>(legs: Seq<Result<Vec<T>, LegError>>) -> Seq<T>
    decreases legs.len(),
{
    if legs.len() == 0 {
        Seq::empty()
    } else {
        merged_items(legs.drop_last()) + leg_items(legs.last())
    }
}

/// The failures of all legs that failed, in the order of `legs`, each with
/// the position of its host.
pub open spec fn merged_failures<T>(legs: Seq<Result<Vec<T>, LegError>>) -> Seq<HostFailure>
    decreases legs.len(),
{
    if legs.len() == 0 {
        Seq::empty()
    } else {
        merged_failures(legs.drop_last()) + leg_failures(legs.len() - 1, legs.last())
    }
}

/// Merges the legs of a fan-out call. `legs[i]` is what host `i` ended in.
pub fn merge<T>(legs: Vec<Result<Vec<T>, LegError>>) -> (r: FetchOutcome<T>)
    ensures
        r.items@ == merged_items(legs@),
        r.failures@ == merged_failures(legs@),
{
    let ghost all = legs@;
    let count: usize = legs.len();
    let mut legs = legs;
    let mut items: Vec<T> = Vec::new();
    let mut failures: Vec<HostFailure> = Vec::new();
    let mut host: usize = 0;
    while legs.len() > 0
        invariant
            host + legs@.len() == all.len(),
            all.len() == count,
            legs@ == all.skip(host as int),
            items@ == merged_items(all.take(host as int)),
            failures@ == merged_failures(all.take(host as int)),
        decreases legs@.len(),
    {
        proof {
            let now = all.take(host as int + 1);
            assert(now.drop_last() =~= all.take(host as int));
            assert(now.last() == all[host as int]);
            assert(legs@[0] == all[host as int]);
        }
        let leg = legs.remove(0);
        assert(legs@ =~= all.skip(host as int + 1));
        match leg {
            Ok(mut records) => {
                items.append(&mut records);
            },
            Err(error) => {
                failures.push(HostFailure { host, error });
            },
        }
        host += 1;
    }
    assert(all.take(host as int) =~= all);
    FetchOutcome { items, failures }
}

/// What the leg of one host ends in, given what the transport brought: the
/// records that the body spells as a JSON array, or the failure by its stage.
pub open spec fn leg_outcome<T: Record>(response: Result<Vec<u8>, TransportError>) -> Result<
    Seq<T::V>,
    LegErrorModel,
> {
    match response {
        Err(e) => Err(LegErrorModel::Transport(e.deep_view())),
        Ok(body) => match decoded_record::<Vec<T>>(json_document(body@), body@) {
            Ok(records) => Ok(records),
            Err(e) => Err(LegErrorModel::Decode(e)),
        },
    }
}

/// The value of a leg.
pub open spec fn leg_model<T: DeepView>(leg: Result<Vec<T>, LegError>) -> Result<
    Seq<T::V>,
    LegErrorModel,
> {
    match leg {
        Ok(records) => Ok(records.deep_view()),
        Err(e) => Err(e.deep_view()),
    }
}

/// Settles the leg of one host: decodes the body that the transport brought
/// as an array of `T`, or keeps the transport's failure.
pub fn settle_leg<T: Record>(response: Result<Vec<u8>, TransportError>) -> (r: Result<
    Vec<T>,
    LegError,
>)
    ensures
        leg_model(r) == leg_outcome::<T>(response),
{
    match response {
        Err(e) => Err(LegError::Transport(e)),
        Ok(body) => match decode_record::<Vec<T>>(body.as_slice()) {
            Ok(records) => Ok(records),
            Err(e) => Err(LegError::Decode(e)),
        },
    }
}

/// The records that a fan-out call ends in, given what the transport brought
/// from each host: those of every host whose leg succeeded, host after host
/// in the order in which the hosts were asked.
pub open spec fn fetched_items<T: Record>(responses: Seq<Result<Vec<u8>, TransportError>>) -> Seq<
    T::V,
>
    decreases responses.len(),
{
    if responses.len() == 0 {
        Seq::empty()
    } else {
        fetched_items::<T>(responses.drop_last()) + match leg_outcome::<T>(responses.last()) {
            Ok(records) => records,
            Err(_) => Seq::empty(),
        }
    }
}

/// The failures that a fan-out call ends in: one for every host whose leg
/// failed, in the order in which the hosts were asked.
pub open spec fn fetched_failures<T: Record>(
    responses: Seq<Result<Vec<u8>, TransportError>>,
) -> Seq<FailureModel>
    decreases responses.len(),
{
    if responses.len() == 0 {
        Seq::empty()
    } else {
        fetched_failures::<T>(responses.drop_last()) + match leg_outcome::<T>(responses.last()) {
            Ok(_) => Seq::empty(),
            Err(error) => seq![FailureModel { host: responses.len() - 1, error }],
        }
    }
}

/// Merging legs gives what the responses that they were settled from call
/// for.
proof fn merged_is_fetched<T: Record>(
    legs: Seq<Result<Vec<T>, LegError>>,
    responses: Seq<Result<Vec<u8>, TransportError>>,
)
    requires
        legs.len() == responses.len(),
        legs.len() <= usize::MAX,
        forall|k: int| 0 <= k < legs.len() ==> leg_model(#[trigger] legs[k]) == leg_outcome::<T>(
            responses[k],
        ),
    ensures
        merged_items(legs).map_values(|x: T| x.deep_view()) == fetched_items::<T>(responses),
        merged_failures(legs).map_values(|f: HostFailure| f.deep_view()) == fetched_failures::<T>(
            responses,
        ),
    decreases legs.len(),
{
    if legs.len() == 0 {
        assert(merged_items(legs).map_values(|x: T| x.deep_view()) =~= fetched_items::<T>(
            responses,
        ));
        assert(merged_failures(legs).map_values(|f: HostFailure| f.deep_view())
            =~= fetched_failures::<T>(responses));
    } else {
        merged_is_fetched::<T>(legs.drop_last(), responses.drop_last());
        assert(leg_model(legs.last()) == leg_outcome::<T>(responses.last()));
        assert(merged_items(legs).map_values(|x: T| x.deep_view()) =~= fetched_items::<T>(
            responses,
        ));
        assert(merged_failures(legs).map_values(|f: HostFailure| f.deep_view())
            =~= fetched_failures::<T>(responses));
    }
}

/// Settles every host's leg and merges them. `responses[i]` is what the
/// transport brought from host `i`: the body of its answer, or its failure.
pub fn aggregate<T: Record>(responses: Vec<Result<Vec<u8>, TransportError>>) -> (r: FetchOutcome<T>)
    ensures
        r.items.deep_view() == fetched_items::<T>(responses@),
        r.failures.deep_view() == fetched_failures::<T>(responses@),
{
    let ghost all = responses@;
    let count: usize = responses.len();
    let mut responses = responses;
    let mut legs: Vec<Result<Vec<T>, LegError>> = Vec::new();
    while responses.len() > 0
        invariant
            all.len() == count,
            legs@.len() + responses@.len() == all.len(),
            responses@ == all.skip(legs@.len() as int),
            forall|k: int|
                0 <= k < legs@.len() ==> leg_model(#[trigger] legs@[k]) == leg_outcome::<T>(all[k]),
        decreases responses@.len(),
    {
        assert(responses@[0] == all[legs@.len() as int]);
        let response = responses.remove(0);
        assert(responses@ =~= all.skip(legs@.len() as int + 1));
        let leg = settle_leg::<T>(response);
        legs.push(leg);
    }
    proof {
        merged_is_fetched::<T>(legs@, all);
    }
    let outcome = merge(legs);
    assert(outcome.items.deep_view() =~= outcome.items@.map_values(|x: T| x.deep_view()));
    assert(outcome.failures.deep_view() =~= outcome.failures@.map_values(
        |f: HostFailure| f.deep_view(),
    ));
    outcome
}

/// The legs of a fan-out call while they come in, each kept at the position
/// of its host, so that the order in which they arrive leaves no trace.
pub struct FanOut<T> {
    slots: Vec<Option<Result<Vec<T>, LegError>>>,
}

impl<T> FanOut<T> {
    /// What is held for each host: `None` until its leg has come in.
    pub closed spec fn slots(self) -> Seq<Option<Result<Vec<T>, LegError>>> {
        self.slots@
    }

    /// Whether every host's leg has come in.
    pub open spec fn settled(self) -> bool {
        forall|i: int| 0 <= i < self.slots().len() ==> (#[trigger] self.slots()[i]) is Some
    }

    /// The legs, host by host. It is meant for a call that is settled.
    pub open spec fn legs(self) -> Seq<Result<Vec<T>, LegError>> {
        Seq::new(self.slots().len(), |i: int| self.slots()[i]->0)
    }

    /// A call to `hosts` hosts, none of which has answered yet.
    pub fn new(hosts: usize) -> (r: Self)
        ensures
            r.slots() == nothing_yet::<T>(hosts as nat),
    {
        let mut slots: Vec<Option<Result<Vec<T>, LegError>>> = Vec::new();
        let mut i: usize = 0;
        while i < hosts
            invariant
                i <= hosts,
                slots@.len() == i,
                forall|k: int| 0 <= k < i ==> (#[trigger] slots@[k]) is None,
            decreases hosts - i,
        {
            slots.push(None);
            i += 1;
        }
        assert(slots@ =~= nothing_yet::<T>(hosts as nat));
        FanOut { slots }
    }

    /// The number of hosts asked.
    pub fn hosts(&self) -> (r: usize)
        ensures
            r == self.slots().len(),
    {
        self.slots.len()
    }

    /// Takes in the leg of host `host`. It is refused, and dropped, where
    /// there is no such host or its leg has come in before: no host is
    /// counted twice.
    pub fn record(&mut self, host: usize, leg: Result<Vec<T>, LegError>) -> (accepted: bool)
        ensures
            accepted == (host < old(self).slots().len() && old(self).slots()[host as int] is None),
            final(self).slots() == after_arrival(old(self).slots(), host as int, leg),
    {
        if host < self.slots.len() && self.slots[host].is_none() {
            self.slots.set(host, Some(leg));
            true
        } else {
            false
        }
    }

    /// Whether every host's leg has come in.
    pub fn is_settled(&self) -> (r: bool)
        ensures
            r == self.settled(),
    {
        let mut i: usize = 0;
        while i < self.slots.len()
            invariant
                i <= self.slots@.len(),
                forall|k: int| 0 <= k < i ==> (#[trigger] self.slots@[k]) is Some,
            decreases self.slots@.len() - i,
        {
            if self.slots[i].is_none() {
                return false;
            }
            i += 1;
        }
        true
    }

    /// Ends the call. Once every leg has come in the legs are merged in the
    /// order of the hosts; before that nothing is handed out, and the call
    /// comes back as it is.
    pub fn finish(self) -> (r: Result<FetchOutcome<T>, FanOut<T>>)
        ensures
            match r {
                Ok(outcome) => {
                    &&& self.settled()
                    &&& outcome.items@ == merged_items(self.legs())
                    &&& outcome.failures@ == merged_failures(self.legs())
                },
                Err(call) => !self.settled() && call == self,
            },
    {
        if !self.is_settled() {
            return Err(self);
        }
        let ghost all = self.slots@;
        let count: usize = self.slots.len();
        let mut slots = self.slots;
        let mut legs: Vec<Result<Vec<T>, LegError>> = Vec::new();
        while slots.len() > 0
            invariant
                all.len() == count,
                legs@.len() + slots@.len() == all.len(),
                slots@ == all.skip(legs@.len() as int),
                forall|i: int| 0 <= i < all.len() ==> (#[trigger] all[i]) is Some,
                forall|k: int| 0 <= k < legs@.len() ==> (#[trigger] legs@[k]) == all[k]->0,
            decreases slots@.len(),
        {
            assert(slots@[0] == all[legs@.len() as int]);
            let slot = slots.remove(0);
            assert(slots@ =~= all.skip(legs@.len() as int + 1));
            legs.push(slot.unwrap());
        }
        assert(legs@ =~= self.legs());
        Ok(merge(legs))
    }
}

/// What is held for each host once the leg `leg` of host `host` has come in
/// to a call that held `slots`: the leg is kept at the position of its host,
/// unless there is no such host or its leg has come in before.
pub open spec fn after_arrival<T>(
    slots: Seq<Option<Result<Vec<T>, LegError>>>,
    host: int,
    leg: Result<Vec<T>, LegError>,
) -> Seq<Option<Result<Vec<T>, LegError>>> {
    if 0 <= host < slots.len() && slots[host] is None {
        slots.update(host, Some(leg))
    } else {
        slots
    }
}

/// What is held for each host once the legs of `arrivals` have come in, one
/// after the other.
pub open spec fn after_arrivals<T>(
    slots: Seq<Option<Result<Vec<T>, LegError>>>,
    arrivals: Seq<(int, Result<Vec<T>, LegError>)>,
) -> Seq<Option<Result<Vec<T>, LegError>>>
    decreases arrivals.len(),
{
    if arrivals.len() == 0 {
        slots
    } else {
        after_arrival(
            after_arrivals(slots, arrivals.drop_last()),
            arrivals.last().0,
            arrivals.last().1,
        )
    }
}

/// What a call to `hosts` hosts holds before any leg has come in.
pub open spec fn nothing_yet<T>(hosts: nat) -> Seq<Option<Result<Vec<T>, LegError>>> {
    Seq::new(hosts, |i: int| None)
}

/// What a call holds once every host's leg has come in.
pub open spec fn every_leg<T>(legs: Seq<Result<Vec<T>, LegError>>) -> Seq<
    Option<Result<Vec<T>, LegError>>,
> {
    Seq::new(legs.len(), |i: int| Some(legs[i]))
}

/// Whether a leg of host `host` is among `arrivals`.
pub open spec fn arrived<T>(arrivals: Seq<(int, Result<Vec<T>, LegError>)>, host: int) -> bool {
    exists|k: int| 0 <= k < arrivals.len() && (#[trigger] arrivals[k]).0 == host
}

/// While the legs of a call come in, each host that has reported holds its
/// own leg and each other host holds none, in whatever order they came.
proof fn arrivals_fill_their_slots<T>(
    legs: Seq<Result<Vec<T>, LegError>>,
    arrivals: Seq<(int, Result<Vec<T>, LegError>)>,
)
    requires
        forall|k: int|
            0 <= k < arrivals.len() ==> 0 <= (#[trigger] arrivals[k]).0 < legs.len()
                && arrivals[k].1 == legs[arrivals[k].0],
    ensures
        after_arrivals(nothing_yet(legs.len()), arrivals).len() == legs.len(),
        forall|i: int|
            0 <= i < legs.len() ==> (#[trigger] after_arrivals(
                nothing_yet(legs.len()),
                arrivals,
            )[i]) == (if arrived(arrivals, i) {
                Some(legs[i])
            } else {
                None
            }),
    decreases arrivals.len(),
{
    if arrivals.len() > 0 {
        let earlier = arrivals.drop_last();
        assert forall|k: int| 0 <= k < earlier.len() implies 0 <= (#[trigger] earlier[k]).0
            < legs.len() && earlier[k].1 == legs[earlier[k].0] by {
            assert(earlier[k] == arrivals[k]);
        }
        arrivals_fill_their_slots(legs, earlier);
        let last = arrivals[arrivals.len() - 1];
        assert(arrivals.last() == last);
        assert forall|i: int| 0 <= i < legs.len() implies arrived(arrivals, i) == (arrived(
            earlier,
            i,
        ) || last.0 == i) by {
            if arrived(earlier, i) {
                let k = choose|k: int| 0 <= k < earlier.len() && (#[trigger] earlier[k]).0 == i;
                assert(arrivals[k] == earlier[k]);
            }
            if arrived(arrivals, i) && last.0 != i {
                let k = choose|k: int| 0 <= k < arrivals.len() && (#[trigger] arrivals[k]).0 == i;
                assert(earlier[k] == arrivals[k]);
            }
        }
    }
}

/// The order in which the legs of a call come in leaves no trace: once a leg
/// of every host has come in, each host holds its own leg, so that the call
/// ends in the merge of the legs in the order of the hosts.
pub proof fn arrival_order_leaves_no_trace<T>(
    legs: Seq<Result<Vec<T>, LegError>>,
    arrivals: Seq<(int, Result<Vec<T>, LegError>)>,
)
    requires
        forall|k: int|
            0 <= k < arrivals.len() ==> 0 <= (#[trigger] arrivals[k]).0 < legs.len()
                && arrivals[k].1 == legs[arrivals[k].0],
        forall|i: int| 0 <= i < legs.len() ==> arrived(arrivals, i),
    ensures
        after_arrivals(nothing_yet(legs.len()), arrivals) == every_leg(legs),
{
    arrivals_fill_their_slots(legs, arrivals);
    assert(after_arrivals(nothing_yet(legs.len()), arrivals) =~= every_leg(legs));
}

/// A call that holds every host's leg is settled, and ends in the merge of
/// those legs.
pub proof fn a_full_call_is_settled<T>(call: FanOut<T>, legs: Seq<Result<Vec<T>, LegError>>)
    requires
        call.slots() == every_leg(legs),
    ensures
        call.settled(),
        call.legs() == legs,
{
    assert(call.legs() =~= legs);
}

/// Where every host answers, there is no failure.
pub proof fn all_hosts_answer<T>(legs: Seq<Result<Vec<T>, LegError>>)
    requires
        forall|i: int| 0 <= i < legs.len() ==> (#[trigger] legs[i]) is Ok,
    ensures
        merged_failures(legs) == Seq::<HostFailure>::empty(),
    decreases legs.len(),
{
    if legs.len() > 0 {
        all_hosts_answer(legs.drop_last());
        assert(legs.last() is Ok);
    }
}

/// Where exactly one host fails, whichever it is, the call ends in exactly
/// one failure, which names that host, and in the records of all the other
/// hosts, in the order in which the hosts were asked.
pub proof fn one_host_fails<T>(legs: Seq<Result<Vec<T>, LegError>>, failed: int)
    requires
        0 <= failed < legs.len(),
        legs[failed] is Err,
        forall|i: int| 0 <= i < legs.len() && i != failed ==> (#[trigger] legs[i]) is Ok,
    ensures
        merged_failures(legs) == seq![
            HostFailure { host: failed as usize, error: legs[failed]->Err_0 },
        ],
        merged_items(legs) == merged_items(legs.remove(failed)),
    decreases legs.len(),
{
    let before = legs.drop_last();
    if failed == legs.len() - 1 {
        all_hosts_answer(before);
        assert(legs.remove(failed) =~= before);
        assert(merged_items(legs) =~= merged_items(before));
        assert(merged_failures(legs) =~= seq![
            HostFailure { host: failed as usize, error: legs[failed]->Err_0 },
        ]);
    } else {
        assert(before[failed] == legs[failed]);
        assert forall|i: int| 0 <= i < before.len() && i != failed implies (
        #[trigger] before[i]) is Ok by {
            assert(before[i] == legs[i]);
        }
        one_host_fails(before, failed);
        assert(legs.last() is Ok);
        let others = legs.remove(failed);
        assert(others.drop_last() =~= before.remove(failed));
        assert(others.last() == legs.last());
        assert(merged_failures(legs) =~= seq![
            HostFailure { host: failed as usize, error: legs[failed]->Err_0 },
        ]);
    }
}

/// With three hosts of which one fails, the records are those of the two
/// others, the earlier host's first.
pub proof fn one_of_three_fails<T>(legs: Seq<Result<Vec<T>, LegError>>, failed: int)
    requires
        legs.len() == 3,
        0 <= failed < 3,
        legs[failed] is Err,
        forall|i: int| 0 <= i < 3 && i != failed ==> (#[trigger] legs[i]) is Ok,
    ensures
        merged_failures(legs).len() == 1,
        merged_failures(legs)[0].host == failed,
        merged_items(legs) == leg_items(legs.remove(failed)[0]) + leg_items(legs.remove(failed)[1]),
{
    one_host_fails(legs, failed);
    let others = legs.remove(failed);
    assert(others.len() == 2);
    let head = others.drop_last();
    assert(head.len() == 1);
    assert(merged_items(head.drop_last()) =~= Seq::<T>::empty());
    assert(merged_items(head) =~= leg_items(head[0]));
    assert(merged_items(others) =~= leg_items(others[0]) + leg_items(others[1]));
}

} // verus!
