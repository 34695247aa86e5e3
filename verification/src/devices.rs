//! The list of cameras.

use vstd::prelude::*;

use crate::com::Platform;
use crate::error::CaptureError;
use crate::error::Failure;
use crate::machine::lemma_arrived;
use crate::machine::run;
use crate::machine::times;
use crate::machine::Machine;
use crate::media::Profile;

verus! {

/// How many attributes a query for cameras has room for.
pub const QUERY_CAPACITY: u32 = 1;

/// The devices in a list whose entries can be vacant, in order.
pub open spec fn present<T>(slots: Seq<Option<T>>) -> Seq<T> {
    slots.filter(|slot: Option<T>| slot is Some).map_values(|slot: Option<T>| slot->0)
}

/// The first `count` of the entries in `slots`, or all of them where there are fewer.
pub open spec fn first_entries<T>(slots: Seq<Option<T>>, count: u32) -> Seq<Option<T>> {
    if count <= slots.len() {
        slots.take(count as int)
    } else {
        slots
    }
}

/// One more entry is one more device, unless it is vacant.
proof fn present_one_more<T>(slots: Seq<Option<T>>)
    requires
        slots.len() > 0,
    ensures
        present(slots) == match slots.last() {
            Some(device) => present(slots.drop_last()).push(device),
            None => present(slots.drop_last()),
        },
{
    reveal(Seq::filter);
    if let Some(device) = slots.last() {
        assert(present(slots) =~= present(slots.drop_last()).push(device));
    }
}

/// Leaves out the vacant entries.
pub fn collect_present<T>(slots: Vec<Option<T>>) -> (res: Vec<T>)
    ensures
        res@ == present(slots@),
{
    let mut devices: Vec<T> = Vec::new();
    for slot in iter: slots
        invariant
            iter.seq() == slots@,
            devices@ == present(slots@.take(iter.index() as int)),
    {
        proof {
            assert(slots@.take(iter.index() + 1).drop_last() =~= slots@.take(iter.index() as int));
            present_one_more(slots@.take(iter.index() + 1));
        }
        if let Some(device) = slot {
            devices.push(device);
        }
    }
    assert(slots@.take(slots@.len() as int) =~= slots@);
    devices
}

/// Leaves out the vacant ones of the first `count` entries, and all entries behind them.
fn collect_first_present<T>(slots: Vec<Option<T>>, count: u32) -> (res: Vec<T>)
    ensures
        res@ == present(first_entries(slots@, count)),
{
    let mut slots = slots;
    slots.truncate(count as usize);
    collect_present(slots)
}

/// What enumerating the devices gives: how many entries there are, and whether the pointer to them
/// is null.
#[derive(Clone, Copy, Debug, PartialEq, Eq, Structural)]
pub struct DeviceList {
    pub count: u32,
    pub is_null: bool,
}

/// The next call that lists the cameras, with what it needs. `L` is what holds the list.
pub enum DevicesStep<P: Platform, L> {
    /// Create an attribute store with room for `capacity` attributes.
    CreateQuery { capacity: u32 },
    /// Restrict `query` to local video capture devices.
    SetQueryType { query: P::Attributes },
    /// Enumerate the devices that `query` asks for.
    Enumerate { query: P::Attributes },
    /// Copy the `count` entries out of the list that the platform owns.
    CopyList { count: u32 },
    /// Free the list that the platform gave.
    FreeList { devices: L },
    /// There is nothing left to do.
    Finished(Result<L, CaptureError<P::Error>>),
}

/// What a call that lists the cameras came back with. `S` is what holds the copied entries.
pub enum DevicesReply<P: Platform, S> {
    /// The attribute store, which can be left out.
    QueryCreated(Result<Option<P::Attributes>, P::Error>),
    QueryTypeSet(Result<(), P::Error>),
    Enumerated(Result<DeviceList, P::Error>),
    /// The entries, some of which can be vacant.
    Copied(S),
    Freed,
}

impl<P: Platform, L> DevicesStep<P, L> {
    /// The first call.
    #[verifier::allow_in_spec]
    pub fn start() -> Self
        returns
            (DevicesStep::<P, L>::CreateQuery { capacity: QUERY_CAPACITY }),
    {
        DevicesStep::CreateQuery { capacity: QUERY_CAPACITY }
    }
}

impl<P: Platform> View for DevicesStep<P, Vec<P::Activate>> {
    type V = DevicesStep<P, Seq<P::Activate>>;

    open spec fn view(&self) -> DevicesStep<P, Seq<P::Activate>> {
        match *self {
            DevicesStep::CreateQuery { capacity } => DevicesStep::CreateQuery { capacity },
            DevicesStep::SetQueryType { query } => DevicesStep::SetQueryType { query },
            DevicesStep::Enumerate { query } => DevicesStep::Enumerate { query },
            DevicesStep::CopyList { count } => DevicesStep::CopyList { count },
            DevicesStep::FreeList { devices } => DevicesStep::FreeList { devices: devices@ },
            DevicesStep::Finished(Ok(devices)) => DevicesStep::Finished(Ok(devices@)),
            DevicesStep::Finished(Err(error)) => DevicesStep::Finished(Err(error)),
        }
    }
}

impl<P: Platform> View for DevicesReply<P, Vec<Option<P::Activate>>> {
    type V = DevicesReply<P, Seq<Option<P::Activate>>>;

    open spec fn view(&self) -> DevicesReply<P, Seq<Option<P::Activate>>> {
        match *self {
            DevicesReply::QueryCreated(outcome) => DevicesReply::QueryCreated(outcome),
            DevicesReply::QueryTypeSet(outcome) => DevicesReply::QueryTypeSet(outcome),
            DevicesReply::Enumerated(outcome) => DevicesReply::Enumerated(outcome),
            DevicesReply::Copied(slots) => DevicesReply::Copied(slots@),
            DevicesReply::Freed => DevicesReply::Freed,
        }
    }
}

impl<P: Platform> Machine for DevicesStep<P, Seq<P::Activate>> {
    type Setting = Profile;

    type Reply = DevicesReply<P, Seq<Option<P::Activate>>>;

    /// A reply to another call than the pending one changes nothing.
    open spec fn after(
        self,
        profile: Profile,
        reply: DevicesReply<P, Seq<Option<P::Activate>>>,
    ) -> Self {
        match (self, reply) {
            (DevicesStep::CreateQuery { .. }, DevicesReply::QueryCreated(Ok(Some(query)))) =>
                DevicesStep::SetQueryType { query },
            (DevicesStep::CreateQuery { .. }, DevicesReply::QueryCreated(Ok(None))) =>
                DevicesStep::Finished(
                Err(CaptureError::plain(Failure::CreateQueryAttributes(profile))),
            ),
            (DevicesStep::CreateQuery { .. }, DevicesReply::QueryCreated(Err(cause))) =>
                DevicesStep::Finished(
                Err(CaptureError::caused(Failure::CreateQueryAttributes(profile), cause)),
            ),
            (DevicesStep::SetQueryType { query }, DevicesReply::QueryTypeSet(Ok(()))) =>
                DevicesStep::Enumerate { query },
            (DevicesStep::SetQueryType { .. }, DevicesReply::QueryTypeSet(Err(cause))) =>
                DevicesStep::Finished(
                Err(CaptureError::caused(Failure::SetQueryType(profile), cause)),
            ),
            (DevicesStep::Enumerate { .. }, DevicesReply::Enumerated(Ok(list))) => match (
                list.count == 0,
                list.is_null,
            ) {
                (true, true) => DevicesStep::Finished(Ok(Seq::empty())),
                (true, false) => DevicesStep::FreeList { devices: Seq::empty() },
                (false, true) => DevicesStep::Finished(
                    Err(CaptureError::plain(Failure::NullDeviceList)),
                ),
                (false, false) => DevicesStep::CopyList { count: list.count },
            },
            (DevicesStep::Enumerate { .. }, DevicesReply::Enumerated(Err(cause))) =>
                DevicesStep::Finished(Err(CaptureError::caused(Failure::EnumerateDevices, cause))),
            (DevicesStep::CopyList { count }, DevicesReply::Copied(slots)) => DevicesStep::FreeList {
                devices: present(first_entries(slots, count)),
            },
            (DevicesStep::FreeList { devices }, DevicesReply::Freed) => DevicesStep::Finished(
                Ok(devices),
            ),
            _ => self,
        }
    }

    open spec fn is_finished(self) -> bool {
        self is Finished
    }

    proof fn result_stands(
        self,
        profile: Profile,
        reply: DevicesReply<P, Seq<Option<P::Activate>>>,
    ) {
    }
}

/// Takes the reply to the pending call and gives the next one.
pub fn enumerate_video_capture_devices<P: Platform>(
    profile: Profile,
    step: DevicesStep<P, Vec<P::Activate>>,
    reply: DevicesReply<P, Vec<Option<P::Activate>>>,
) -> (next: DevicesStep<P, Vec<P::Activate>>)
    ensures
        next@ == step@.after(profile, reply@),
{
    match (step, reply) {
        (DevicesStep::CreateQuery { .. }, DevicesReply::QueryCreated(outcome)) => match outcome {
            Ok(Some(query)) => DevicesStep::SetQueryType { query },
            Ok(None) => DevicesStep::Finished(
                Err(CaptureError::plain(Failure::CreateQueryAttributes(profile))),
            ),
            Err(cause) => DevicesStep::Finished(
                Err(CaptureError::caused(Failure::CreateQueryAttributes(profile), cause)),
            ),
        },
        (DevicesStep::SetQueryType { query }, DevicesReply::QueryTypeSet(outcome)) =>
            match outcome {
                Ok(()) => DevicesStep::Enumerate { query },
                Err(cause) => DevicesStep::Finished(
                    Err(CaptureError::caused(Failure::SetQueryType(profile), cause)),
                ),
            },
        (DevicesStep::Enumerate { .. }, DevicesReply::Enumerated(outcome)) => match outcome {
            Ok(list) => match (list.count == 0, list.is_null) {
                (true, true) => DevicesStep::Finished(Ok(Vec::new())),
                (true, false) => DevicesStep::FreeList { devices: Vec::new() },
                (false, true) => DevicesStep::Finished(
                    Err(CaptureError::plain(Failure::NullDeviceList)),
                ),
                (false, false) => DevicesStep::CopyList { count: list.count },
            },
            Err(cause) => DevicesStep::Finished(
                Err(CaptureError::caused(Failure::EnumerateDevices, cause)),
            ),
        },
        (DevicesStep::CopyList { count }, DevicesReply::Copied(slots)) => DevicesStep::FreeList {
            devices: collect_first_present(slots, count),
        },
        (DevicesStep::FreeList { devices }, DevicesReply::Freed) => DevicesStep::Finished(
            Ok(devices),
        ),
        (step, _) => step,
    }
}

/// The cameras in a list that was enumerated and whose entries are `slots`: none where a null
/// pointer should lead to entries.
pub open spec fn cameras_of<T>(list: DeviceList, slots: Seq<Option<T>>) -> Option<Seq<T>> {
    if list.count == 0 {
        Some(Seq::empty())
    } else if list.is_null {
        None
    } else {
        Some(present(first_entries(slots, list.count)))
    }
}

/// The cameras, if each call succeeds; else the first failure. No camera is no failure.
pub open spec fn devices_outcome<P: Platform>(
    profile: Profile,
    created: Result<Option<P::Attributes>, P::Error>,
    type_set: Result<(), P::Error>,
    enumerated: Result<DeviceList, P::Error>,
    slots: Seq<Option<P::Activate>>,
) -> Result<Seq<P::Activate>, CaptureError<P::Error>> {
    match (created, type_set, enumerated) {
        (Err(cause), _, _) => Err(
            CaptureError::caused(Failure::CreateQueryAttributes(profile), cause),
        ),
        (Ok(None), _, _) => Err(CaptureError::plain(Failure::CreateQueryAttributes(profile))),
        (Ok(Some(_)), Err(cause), _) => Err(
            CaptureError::caused(Failure::SetQueryType(profile), cause),
        ),
        (Ok(Some(_)), Ok(()), Err(cause)) => Err(
            CaptureError::caused(Failure::EnumerateDevices, cause),
        ),
        (Ok(Some(_)), Ok(()), Ok(list)) => match cameras_of(list, slots) {
            None => Err(CaptureError::plain(Failure::NullDeviceList)),
            Some(cameras) => Ok(cameras),
        },
    }
}

/// Whatever the calls come back with, the cameras or the first failure is returned.
pub proof fn devices_are_listed_or_first_failure_returned<P: Platform>(
    profile: Profile,
    created: Result<Option<P::Attributes>, P::Error>,
    type_set: Result<(), P::Error>,
    enumerated: Result<DeviceList, P::Error>,
    slots: Seq<Option<P::Activate>>,
)
    ensures
        run(
            DevicesStep::<P, Seq<P::Activate>>::start(),
            profile,
            seq![
                DevicesReply::QueryCreated(created),
                DevicesReply::QueryTypeSet(type_set),
                DevicesReply::Enumerated(enumerated),
                DevicesReply::Copied(slots),
                DevicesReply::Freed,
            ],
        ) == DevicesStep::<P, Seq<P::Activate>>::Finished(
            devices_outcome::<P>(profile, created, type_set, enumerated, slots),
        ),
{
    reveal_with_fuel(run, 6);
}

/// Whether `reply` hands over a list that has to be freed, be it one without entries.
pub open spec fn hands_over_list<P: Platform>() -> spec_fn(
    DevicesStep<P, Seq<P::Activate>>,
    DevicesReply<P, Seq<Option<P::Activate>>>,
) -> bool {
    |step: DevicesStep<P, Seq<P::Activate>>, reply: DevicesReply<P, Seq<Option<P::Activate>>>|
        step is Enumerate && (reply matches DevicesReply::Enumerated(Ok(list)) && !list.is_null)
}

/// Whether `reply` says that the list has been freed.
pub open spec fn frees_list<P: Platform>() -> spec_fn(
    DevicesStep<P, Seq<P::Activate>>,
    DevicesReply<P, Seq<Option<P::Activate>>>,
) -> bool {
    |step: DevicesStep<P, Seq<P::Activate>>, reply: DevicesReply<P, Seq<Option<P::Activate>>>|
        step is FreeList && reply is Freed
}

/// A list of devices that the platform hands over is freed once, after its entries, if it has any,
/// have been copied and before there is a result; and no other list is freed.
pub proof fn each_list_is_freed_once<P: Platform>(
    profile: Profile,
    replies: Seq<DevicesReply<P, Seq<Option<P::Activate>>>>,
)
    ensures
        ({
            let start = DevicesStep::<P, Seq<P::Activate>>::start();
            let reached = run(start, profile, replies);
            let given = times(start, profile, replies, hands_over_list());
            let freed = times(start, profile, replies, frees_list());
            &&& given == freed + if reached is CopyList || reached is FreeList {
                1nat
            } else {
                0nat
            }
            &&& given <= 1
            &&& reached is Finished ==> given == freed
            &&& (reached is CreateQuery || reached is SetQueryType || reached is Enumerate) ==> given
                == 0
        }),
    decreases replies.len(),
{
    if replies.len() > 0 {
        each_list_is_freed_once::<P>(profile, replies.drop_last());
    }
}

/// Devices are only enumerated with the query that was created, once it is restricted to local video
/// capture devices.
pub proof fn query_is_restricted_before_use<P: Platform>(
    profile: Profile,
    replies: Seq<DevicesReply<P, Seq<Option<P::Activate>>>>,
)
    ensures
        ({
            let reached = run(DevicesStep::<P, Seq<P::Activate>>::start(), profile, replies);
            &&& reached matches DevicesStep::SetQueryType { query } ==> replies.contains(
                DevicesReply::QueryCreated(Ok(Some(query))),
            )
            &&& reached matches DevicesStep::Enumerate { query } ==> {
                &&& replies.contains(DevicesReply::QueryCreated(Ok(Some(query))))
                &&& replies.contains(DevicesReply::QueryTypeSet(Ok(())))
            }
        }),
    decreases replies.len(),
{
    if replies.len() > 0 {
        query_is_restricted_before_use::<P>(profile, replies.drop_last());
        lemma_arrived(replies);
        match replies.last() {
            DevicesReply::QueryTypeSet(Ok(done)) => {
                assert(done == ());
            },
            _ => {},
        }
    }
}

/// Whether `cameras` are those in a list that was enumerated on the way.
pub open spec fn are_cameras_enumerated<P: Platform>(
    replies: Seq<DevicesReply<P, Seq<Option<P::Activate>>>>,
    cameras: Seq<P::Activate>,
) -> bool {
    exists|list: DeviceList, slots: Seq<Option<P::Activate>>|
        {
            &&& #[trigger] cameras_of(list, slots) == Some(cameras)
            &&& replies.contains(DevicesReply::Enumerated(Ok(list)))
            &&& list.count != 0 ==> replies.contains(DevicesReply::Copied(slots))
        }
}

/// Whatever arrives and in whatever order, cameras that are returned are those in the list that was
/// enumerated, in its order.
pub proof fn returned_cameras_were_enumerated<P: Platform>(
    profile: Profile,
    replies: Seq<DevicesReply<P, Seq<Option<P::Activate>>>>,
)
    ensures
        run(
            DevicesStep::<P, Seq<P::Activate>>::start(),
            profile,
            replies,
        ) matches DevicesStep::Finished(Ok(cameras)) ==> are_cameras_enumerated(replies, cameras),
{
    cameras_so_far::<P>(profile, replies);
}

/// Whether one of `replies` brought a list of `count` entries.
spec fn leads_to_entries<P: Platform>(
    replies: Seq<DevicesReply<P, Seq<Option<P::Activate>>>>,
    count: u32,
) -> bool {
    exists|list: DeviceList|
        {
            &&& #[trigger] replies.contains(DevicesReply::Enumerated(Ok(list)))
            &&& list.count == count
            &&& !list.is_null
            &&& count != 0
        }
}

/// What is known of the cameras on the way.
proof fn cameras_so_far<P: Platform>(
    profile: Profile,
    replies: Seq<DevicesReply<P, Seq<Option<P::Activate>>>>,
)
    ensures
        match run(DevicesStep::<P, Seq<P::Activate>>::start(), profile, replies) {
            DevicesStep::CopyList { count } => leads_to_entries(replies, count),
            DevicesStep::FreeList { devices } => are_cameras_enumerated(replies, devices),
            DevicesStep::Finished(Ok(devices)) => are_cameras_enumerated(replies, devices),
            _ => true,
        },
    decreases replies.len(),
{
    if replies.len() > 0 {
        let before = replies.drop_last();
        cameras_so_far::<P>(profile, before);
        lemma_arrived(replies);
        match (
            run(DevicesStep::<P, Seq<P::Activate>>::start(), profile, before),
            replies.last(),
        ) {
            (DevicesStep::Enumerate { .. }, DevicesReply::Enumerated(Ok(list))) => {
                assert(replies.contains(DevicesReply::Enumerated(Ok(list))));
                let slots = Seq::<Option<P::Activate>>::empty();
                assert(cameras_of(list, slots) == Some(Seq::<P::Activate>::empty()) || list.count
                    != 0);
            },
            (DevicesStep::CopyList { count }, reply) => {
                let list = choose|list: DeviceList|
                    {
                        &&& #[trigger] before.contains(DevicesReply::Enumerated(Ok(list)))
                        &&& list.count == count
                        &&& !list.is_null
                        &&& count != 0
                    };
                assert(replies.contains(DevicesReply::Enumerated(Ok(list))));
                if let DevicesReply::Copied(slots) = reply {
                    assert(cameras_of(list, slots) == Some(present(first_entries(slots, count))));
                }
            },
            (DevicesStep::FreeList { devices }, _) => {
                cameras_stay::<P>(replies, devices);
            },
            (DevicesStep::Finished(Ok(devices)), _) => {
                cameras_stay::<P>(replies, devices);
            },
            _ => {},
        }
    }
}

/// One more reply takes nothing back.
proof fn cameras_stay<P: Platform>(
    replies: Seq<DevicesReply<P, Seq<Option<P::Activate>>>>,
    cameras: Seq<P::Activate>,
)
    requires
        replies.len() > 0,
        are_cameras_enumerated(replies.drop_last(), cameras),
    ensures
        are_cameras_enumerated(replies, cameras),
{
    let before = replies.drop_last();
    lemma_arrived(replies);
    let (list, slots) = choose|list: DeviceList, slots: Seq<Option<P::Activate>>|
        {
            &&& #[trigger] cameras_of(list, slots) == Some(cameras)
            &&& before.contains(DevicesReply::Enumerated(Ok(list)))
            &&& list.count != 0 ==> before.contains(DevicesReply::Copied(slots))
        };
    assert(cameras_of(list, slots) == Some(cameras));
    assert(replies.contains(DevicesReply::Enumerated(Ok(list))));
}

/// Whether `cameras` are the present ones of the first `count` entries in `slots`, each once and in
/// order: `places` says where each of them stands.
pub open spec fn stand_at<T>(
    places: Seq<int>,
    slots: Seq<Option<T>>,
    count: int,
    cameras: Seq<T>,
) -> bool {
    &&& places.len() == cameras.len()
    &&& forall|k: int|
        0 <= k < places.len() ==> 0 <= #[trigger] places[k] < slots.len() && places[k] < count
            && slots[places[k]] == Some(cameras[k])
    &&& forall|j: int, k: int|
        0 <= j < k < places.len() ==> #[trigger] places[j] < #[trigger] places[k]
    &&& forall|i: int|
        0 <= i < slots.len() && i < count && #[trigger] slots[i] is Some ==> places.contains(i)
}

/// Whether `cameras` are the present ones of the first `count` entries in `slots`, each once and in
/// order.
pub open spec fn are_the_present_entries<T>(
    slots: Seq<Option<T>>,
    count: u32,
    cameras: Seq<T>,
) -> bool {
    exists|places: Seq<int>| #[trigger] stand_at(places, slots, count as int, cameras)
}

/// What is left of a list are its present entries.
proof fn first_present_entries_are_left<T>(slots: Seq<Option<T>>, count: u32)
    ensures
        are_the_present_entries(slots, count, present(first_entries(slots, count))),
{
    let kept = first_entries(slots, count);
    let places = present_entries_stand_at(kept);
    assert forall|i: int|
        0 <= i < slots.len() && i < count && #[trigger] slots[i] is Some implies places.contains(
        i,
    ) by {
        assert(kept[i] == slots[i]);
    }
    assert(stand_at(places, slots, count as int, present(kept)));
}

/// The present entries stand where they stand.
proof fn present_entries_stand_at<T>(slots: Seq<Option<T>>) -> (places: Seq<int>)
    ensures
        stand_at(places, slots, slots.len() as int, present(slots)),
    decreases slots.len(),
{
    if slots.len() == 0 {
        reveal(Seq::filter);
        Seq::empty()
    } else {
        let before = slots.drop_last();
        let last = slots.len() - 1;
        let earlier = present_entries_stand_at(before);
        present_one_more(slots);
        let places = if slots.last() is Some {
            earlier.push(last)
        } else {
            earlier
        };
        assert forall|i: int| 0 <= i < slots.len() && #[trigger] slots[i] is Some implies
            places.contains(i) by {
            if i < last {
                assert(before[i] == slots[i]);
                assert(earlier.contains(i));
                let k = earlier.index_of(i);
                assert(places[k] == i);
            } else {
                assert(places[places.len() - 1] == i);
            }
        }
        assert forall|k: int| 0 <= k < places.len() implies 0 <= #[trigger] places[k]
            < slots.len() && slots[places[k]] == Some(present(slots)[k]) by {
            if k < earlier.len() {
                assert(places[k] == earlier[k]);
                assert(before[earlier[k]] == slots[earlier[k]]);
            }
        }
        assert forall|j: int, k: int| 0 <= j < k < places.len() implies #[trigger] places[j]
            < #[trigger] places[k] by {
            assert(places[j] == earlier[j]);
            if k < earlier.len() {
                assert(places[k] == earlier[k]);
            }
        }
        places
    }
}

/// Where a list is enumerated and its entries are copied, each present entry with an index below
/// the count is returned, once and in order, and nothing else is.
pub proof fn each_present_entry_is_returned_once_and_in_order<P: Platform>(
    profile: Profile,
    query: P::Attributes,
    count: u32,
    slots: Seq<Option<P::Activate>>,
)
    ensures
        run(
            DevicesStep::<P, Seq<P::Activate>>::start(),
            profile,
            seq![
                DevicesReply::QueryCreated(Ok(Some(query))),
                DevicesReply::QueryTypeSet(Ok(())),
                DevicesReply::Enumerated(Ok(DeviceList { count, is_null: false })),
                DevicesReply::Copied(slots),
                DevicesReply::Freed,
            ],
        ) matches DevicesStep::Finished(Ok(cameras)) && are_the_present_entries(slots, count, cameras),
{
    reveal_with_fuel(run, 6);
    first_present_entries_are_left(slots, count);
    if count == 0 {
        assert(stand_at(Seq::<int>::empty(), slots, 0, Seq::<P::Activate>::empty()));
    }
}

/// Where all the entries are present, as many cameras are returned as were counted, and each is the
/// entry with the same index.
pub proof fn list_without_vacant_entries_is_returned_as_it_is<P: Platform>(
    profile: Profile,
    query: P::Attributes,
    count: u32,
    slots: Seq<Option<P::Activate>>,
)
    requires
        count <= slots.len(),
        forall|i: int| 0 <= i < count ==> #[trigger] slots[i] is Some,
    ensures
        run(
            DevicesStep::<P, Seq<P::Activate>>::start(),
            profile,
            seq![
                DevicesReply::QueryCreated(Ok(Some(query))),
                DevicesReply::QueryTypeSet(Ok(())),
                DevicesReply::Enumerated(Ok(DeviceList { count, is_null: false })),
                DevicesReply::Copied(slots),
                DevicesReply::Freed,
            ],
        ) matches DevicesStep::Finished(Ok(cameras)) && cameras.len() == count && (forall|i: int|
            0 <= i < count ==> Some(#[trigger] cameras[i]) == slots[i]),
{
    reveal_with_fuel(run, 6);
    all_present_are_kept(slots.take(count as int));
}

/// Nothing is left out where nothing is vacant.
proof fn all_present_are_kept<T>(slots: Seq<Option<T>>)
    requires
        forall|i: int| 0 <= i < slots.len() ==> #[trigger] slots[i] is Some,
    ensures
        present(slots).len() == slots.len(),
        forall|i: int| 0 <= i < slots.len() ==> Some(#[trigger] present(slots)[i]) == slots[i],
    decreases slots.len(),
{
    reveal(Seq::filter);
    if slots.len() > 0 {
        assert forall|i: int| 0 <= i < slots.drop_last().len() implies #[trigger] slots.drop_last()[i]
            is Some by {
            assert(slots.drop_last()[i] == slots[i]);
        }
        all_present_are_kept(slots.drop_last());
        present_one_more(slots);
        assert(slots[slots.len() - 1] == slots.last());
    }
}

/// The first camera that is returned is the present entry with the lowest index.
pub proof fn first_camera_is_the_lowest_present_entry<P: Platform>(
    profile: Profile,
    query: P::Attributes,
    count: u32,
    slots: Seq<Option<P::Activate>>,
    i: int,
    device: P::Activate,
)
    requires
        0 <= i < slots.len(),
        i < count,
        slots[i] == Some(device),
        forall|j: int| 0 <= j < i ==> #[trigger] slots[j] is None,
    ensures
        run(
            DevicesStep::<P, Seq<P::Activate>>::start(),
            profile,
            seq![
                DevicesReply::QueryCreated(Ok(Some(query))),
                DevicesReply::QueryTypeSet(Ok(())),
                DevicesReply::Enumerated(Ok(DeviceList { count, is_null: false })),
                DevicesReply::Copied(slots),
                DevicesReply::Freed,
            ],
        ) matches DevicesStep::Finished(Ok(cameras)) && cameras.len() > 0 && cameras[0] == device,
{
    each_present_entry_is_returned_once_and_in_order::<P>(profile, query, count, slots);
    if let DevicesStep::Finished(Ok(cameras)) = run(
        DevicesStep::<P, Seq<P::Activate>>::start(),
        profile,
        seq![
            DevicesReply::QueryCreated(Ok(Some(query))),
            DevicesReply::QueryTypeSet(Ok(())),
            DevicesReply::Enumerated(Ok(DeviceList { count, is_null: false })),
            DevicesReply::Copied(slots),
            DevicesReply::Freed,
        ],
    ) {
        let places = choose|places: Seq<int>| #[trigger]
            stand_at(places, slots, count as int, cameras);
        assert(slots[i] is Some);
        assert(places.contains(i));
        let k = places.index_of(i);
        assert(places[k] == i);
        assert(slots[places[0]] == Some(cameras[0]));
        if k > 0 {
            assert(places[0] < places[k]);
        }
    }
}

/// An empty list holds no camera. A vacant entry more adds nothing to the cameras, and a present one
/// adds itself behind them.
pub proof fn entries_are_taken_one_by_one<T>(slots: Seq<Option<T>>, device: T)
    ensures
        present(Seq::<Option<T>>::empty()) == Seq::<T>::empty(),
        present(slots.push(None)) == present(slots),
        present(slots.push(Some(device))) == present(slots).push(device),
{
    reveal(Seq::filter);
    assert(present(Seq::<Option<T>>::empty()) =~= Seq::<T>::empty());
    assert(slots.push(None).drop_last() =~= slots);
    assert(slots.push(Some(device)).drop_last() =~= slots);
    present_one_more(slots.push(None));
    present_one_more(slots.push(Some(device)));
}

/// Cameras are returned exactly if all the calls are good and the list is not a null pointer that
/// should lead to entries. Else the failure names what went wrong first, with its cause where it has
/// one. A list without entries holds no camera, and that is no failure.
pub proof fn cameras_take_three_good_calls<P: Platform>(
    profile: Profile,
    created: Result<Option<P::Attributes>, P::Error>,
    type_set: Result<(), P::Error>,
    enumerated: Result<DeviceList, P::Error>,
    slots: Seq<Option<P::Activate>>,
    error: CaptureError<P::Error>,
)
    ensures
        ({
            let reached = run(
                DevicesStep::<P, Seq<P::Activate>>::start(),
                profile,
                seq![
                    DevicesReply::QueryCreated(created),
                    DevicesReply::QueryTypeSet(type_set),
                    DevicesReply::Enumerated(enumerated),
                    DevicesReply::Copied(slots),
                    DevicesReply::Freed,
                ],
            );
            &&& (reached matches DevicesStep::Finished(Ok(_))) <==> {
                &&& created matches Ok(Some(_))
                &&& type_set is Ok
                &&& enumerated matches Ok(list)
                &&& !list.is_null || list.count == 0
            }
            &&& enumerated matches Ok(list) ==> (list.count == 0 ==> (reached
                matches DevicesStep::Finished(Ok(cameras)) ==> cameras.len() == 0))
            &&& reached == DevicesStep::<P, Seq<P::Activate>>::Finished(Err(error)) <==> match (
                created,
                type_set,
                enumerated,
            ) {
                (Err(cause), _, _) => error.failure == Failure::CreateQueryAttributes(profile)
                    && error.cause == Some(cause),
                (Ok(None), _, _) => error.failure == Failure::CreateQueryAttributes(profile)
                    && error.cause is None,
                (Ok(Some(_)), Err(cause), _) => error.failure == Failure::SetQueryType(profile)
                    && error.cause == Some(cause),
                (Ok(Some(_)), Ok(_), Err(cause)) => error.failure == Failure::EnumerateDevices
                    && error.cause == Some(cause),
                (Ok(Some(_)), Ok(_), Ok(list)) => list.is_null && list.count != 0 && error.failure
                    == Failure::NullDeviceList && error.cause is None,
            }
        }),
{
    reveal_with_fuel(run, 6);
}

/// The query that was created goes through all the calls, and it has room for one attribute. As many
/// entries are copied as were counted, what was copied is freed before it is returned, and so is a
/// list without entries. A reply to another call than the pending one leads nowhere.
pub proof fn device_calls_hand_on_what_they_got<P: Platform>(
    profile: Profile,
    step: DevicesStep<P, Seq<P::Activate>>,
    reply: DevicesReply<P, Seq<Option<P::Activate>>>,
)
    ensures
        DevicesStep::<P, Seq<P::Activate>>::start() matches DevicesStep::CreateQuery { capacity }
            && capacity == 1,
        step is CreateQuery ==> {
            &&& reply matches DevicesReply::QueryCreated(Ok(Some(query))) ==> step.after(
                profile,
                reply,
            ) == (DevicesStep::SetQueryType::<P, Seq<P::Activate>> { query })
            &&& reply !is QueryCreated ==> step.after(profile, reply) == step
        },
        step matches DevicesStep::SetQueryType { query } ==> {
            &&& reply matches DevicesReply::QueryTypeSet(Ok(_)) ==> step.after(profile, reply) == (
            DevicesStep::Enumerate::<P, Seq<P::Activate>> { query })
            &&& reply !is QueryTypeSet ==> step.after(profile, reply) == step
        },
        step is Enumerate ==> {
            &&& reply matches DevicesReply::Enumerated(Ok(list)) ==> (!list.is_null ==> {
                &&& list.count != 0 ==> step.after(profile, reply) == (DevicesStep::CopyList::<
                    P,
                    Seq<P::Activate>,
                > { count: list.count })
                &&& list.count == 0 ==> (step.after(profile, reply) matches DevicesStep::FreeList {
                    devices,
                } && devices.len() == 0)
            })
            &&& reply !is Enumerated ==> step.after(profile, reply) == step
        },
        step matches DevicesStep::CopyList { count } ==> {
            &&& reply matches DevicesReply::Copied(slots) ==> (step.after(profile, reply)
                matches DevicesStep::FreeList { devices } && are_the_present_entries(
                slots,
                count,
                devices,
            ))
            &&& reply !is Copied ==> step.after(profile, reply) == step
        },
        step matches DevicesStep::FreeList { devices } ==> {
            &&& reply is Freed ==> step.after(profile, reply) == DevicesStep::<
                P,
                Seq<P::Activate>,
            >::Finished(Ok(devices))
            &&& reply !is Freed ==> step.after(profile, reply) == step
        },
        step is Finished ==> step.after(profile, reply) == step,
{
    match (step, reply) {
        (DevicesStep::CopyList { count }, DevicesReply::Copied(slots)) => {
            first_present_entries_are_left(slots, count);
        },
        _ => {},
    }
}

/// What is said of a list is said of the entries that it holds, and of nothing else.
pub proof fn listed_cameras_are_what_is_held<P: Platform>(
    step: DevicesStep<P, Vec<P::Activate>>,
    reply: DevicesReply<P, Vec<Option<P::Activate>>>,
)
    ensures
        step matches DevicesStep::CreateQuery { capacity } ==> step@ == (DevicesStep::CreateQuery::<
            P,
            Seq<P::Activate>,
        > { capacity }),
        step matches DevicesStep::SetQueryType { query } ==> step@ == (DevicesStep::SetQueryType::<
            P,
            Seq<P::Activate>,
        > { query }),
        step matches DevicesStep::Enumerate { query } ==> step@ == (DevicesStep::Enumerate::<
            P,
            Seq<P::Activate>,
        > { query }),
        step matches DevicesStep::CopyList { count } ==> step@ == (DevicesStep::CopyList::<
            P,
            Seq<P::Activate>,
        > { count }),
        step matches DevicesStep::FreeList { devices } ==> step@ == (DevicesStep::FreeList::<
            P,
            Seq<P::Activate>,
        > { devices: devices@ }),
        step matches DevicesStep::Finished(Ok(devices)) ==> step@ == DevicesStep::<
            P,
            Seq<P::Activate>,
        >::Finished(Ok(devices@)),
        step matches DevicesStep::Finished(Err(error)) ==> step@ == DevicesStep::<
            P,
            Seq<P::Activate>,
        >::Finished(Err(error)),
        reply matches DevicesReply::QueryCreated(outcome) ==> reply@ == DevicesReply::<
            P,
            Seq<Option<P::Activate>>,
        >::QueryCreated(outcome),
        reply matches DevicesReply::QueryTypeSet(outcome) ==> reply@ == DevicesReply::<
            P,
            Seq<Option<P::Activate>>,
        >::QueryTypeSet(outcome),
        reply matches DevicesReply::Enumerated(outcome) ==> reply@ == DevicesReply::<
            P,
            Seq<Option<P::Activate>>,
        >::Enumerated(outcome),
        reply matches DevicesReply::Copied(slots) ==> reply@ == DevicesReply::<
            P,
            Seq<Option<P::Activate>>,
        >::Copied(slots@),
        reply is Freed ==> reply@ is Freed,
{
}

} // verus!
