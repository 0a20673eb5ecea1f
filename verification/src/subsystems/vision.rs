use vstd::prelude::*;

verus! {

/// `<usize as uom::num::FromPrimitive>::from_i32` (num-traits). Trusted:
/// claims the conversion succeeds exactly on non-negative values and then
/// keeps the value, as the source's range check shows (usize has at least
/// 32 bits).
#[verifier::external_body]
fn usize_from_i32(v: i32) -> (r: Option<usize>)
    ensures
        r == (if v >= 0 { Some(v as usize) } else { None::<usize> }),
{
    <usize as uom::num::FromPrimitive>::from_i32(v)
}

/// What the tag tracker knows, as mathematical values.
pub struct VisionView {
    /// Fiducial ids of the latest camera results, in the camera's order.
    pub fiducial_ids: Seq<i32>,
    /// Fiducial ids of the results before the latest update.
    pub last_fiducial_ids: Seq<i32>,
    /// The last valid tag id that was targeted (0 before any).
    pub saved_id: i32,
}

/// Tag tracking of a limelight camera: the fiducial ids it reported on the
/// latest and the previous update, and the last valid tag it targeted.
#[derive(Clone, Debug)]
pub struct Vision {
    fiducial_ids: Vec<i32>,
    last_fiducial_ids: Vec<i32>,
    saved_id: i32,
}

/// The id of the targeted tag in a list of fiducial ids: the first one, or
/// -1 when no tag is seen.
pub open spec fn targeted_id(ids: Seq<i32>) -> i32 {
    if ids.len() > 0 {
        ids[0]
    } else {
        -1i32
    }
}

/// The saved id after results `ids` arrive: the targeted tag when it is a
/// valid one, otherwise the previous saved id.
pub open spec fn next_saved_id(ids: Seq<i32>, saved_id: i32) -> i32 {
    if ids.len() > 0 && ids[0] != -1 {
        ids[0]
    } else {
        saved_id
    }
}

/// Position of tag `id` in the field's tag table, whose entries are numbered
/// from 1: `id - 1` for positive ids, none otherwise.
pub open spec fn tag_table_index(id: i32) -> Option<usize> {
    if id >= 1 {
        Some((id - 1) as usize)
    } else {
        None
    }
}

impl View for Vision {
    type V = VisionView;

    closed spec fn view(&self) -> VisionView {
        VisionView {
            fiducial_ids: self.fiducial_ids@,
            last_fiducial_ids: self.last_fiducial_ids@,
            saved_id: self.saved_id,
        }
    }
}

impl Vision {
    /// A tracker that has seen nothing yet.
    pub fn new() -> (v: Vision)
        ensures
            v@.fiducial_ids == Seq::<i32>::empty(),
            v@.last_fiducial_ids == Seq::<i32>::empty(),
            v@.saved_id == 0,
    {
        Vision { fiducial_ids: Vec::new(), last_fiducial_ids: Vec::new(), saved_id: 0 }
    }

    /// Takes in one camera update. `fetched` holds the fiducial ids of the new
    /// results, or nothing when they could not be fetched, in which case the
    /// latest results stay as they were.
    pub fn update(&mut self, fetched: Option<Vec<i32>>)
        ensures
            final(self)@.last_fiducial_ids == old(self)@.fiducial_ids,
            final(self)@.fiducial_ids == (match fetched {
                Some(ids) => ids@,
                None => old(self)@.fiducial_ids,
            }),
            final(self)@.saved_id == next_saved_id(final(self)@.fiducial_ids, old(self)@.saved_id),
            final(self)@.fiducial_ids.len() > 0 && final(self)@.fiducial_ids[0] != -1
                ==> final(self)@.saved_id == final(self)@.fiducial_ids[0],
            !(final(self)@.fiducial_ids.len() > 0 && final(self)@.fiducial_ids[0] != -1)
                ==> final(self)@.saved_id == old(self)@.saved_id,
    {
        self.last_fiducial_ids = self.fiducial_ids.clone();
        match fetched {
            Some(ids) => {
                self.fiducial_ids = ids;
            },
            None => {},
        }
        if self.fiducial_ids.len() > 0 && self.fiducial_ids[0] != -1 && self.fiducial_ids[0]
            != self.saved_id {
            self.saved_id = self.fiducial_ids[0];
        }
    }

    /// The id of the targeted tag as of the last update; -1 when no tag is seen.
    pub fn get_id(&self) -> (id: i32)
        ensures
            id == targeted_id(self@.fiducial_ids),
            self@.fiducial_ids.len() > 0 ==> id == self@.fiducial_ids[0],
            self@.fiducial_ids.len() == 0 ==> id == -1,
    {
        if self.fiducial_ids.len() > 0 {
            self.fiducial_ids[0]
        } else {
            -1
        }
    }

    /// The fiducial ids of the results before the last update.
    pub fn get_last_results(&self) -> (ids: Vec<i32>)
        ensures
            ids@ == self@.last_fiducial_ids,
    {
        self.last_fiducial_ids.clone()
    }

    /// The last valid tag id targeted; 0 when none has been.
    pub fn saved_id(&self) -> (id: i32)
        ensures
            id == self@.saved_id,
    {
        self.saved_id
    }

    /// Position of tag `id` in the field's tag table.
    pub fn tag_index(id: i32) -> (index: Option<usize>)
        requires
            id > i32::MIN,
        ensures
            index == tag_table_index(id),
    {
        usize_from_i32(id - 1)
    }
}

/// The targeted tag is the first fiducial result, -1 when there is none;
/// and results whose first id is a valid tag make that tag the saved id,
/// while other results keep the saved id.
pub proof fn lemma_target_is_first_fiducial(ids: Seq<i32>, saved_id: i32)
    ensures
        ids.len() > 0 ==> targeted_id(ids) == ids[0],
        ids.len() == 0 ==> targeted_id(ids) == -1,
        ids.len() > 0 && ids[0] != -1 ==> next_saved_id(ids, saved_id) == ids[0],
        !(ids.len() > 0 && ids[0] != -1) ==> next_saved_id(ids, saved_id) == saved_id,
{
}

/// After an update the saved id is the targeted tag whenever a valid tag is
/// targeted, and it only ever changes to a tag that was targeted.
pub proof fn lemma_saved_id_follows_target(ids: Seq<i32>, saved_id: i32)
    ensures
        targeted_id(ids) != -1 ==> next_saved_id(ids, saved_id) == targeted_id(ids),
        next_saved_id(ids, saved_id) == saved_id || next_saved_id(ids, saved_id) == targeted_id(
            ids,
        ),
        next_saved_id(ids, saved_id) != -1 || saved_id == -1,
{
}

/// Tag ids and table positions correspond one to one: the entry at position
/// `i` belongs to tag `i + 1`.
pub proof fn lemma_tag_index_inverse(id: i32)
    requires
        id > i32::MIN,
    ensures
        tag_table_index(id) matches Some(i) ==> i + 1 == id,
        tag_table_index(id) is None <==> id < 1,
{
}

/// How a limelight's trust weight compares with zero.
#[derive(Clone, Copy, Debug, PartialEq, Eq, Structural)]
pub enum WeightSign {
    /// The weight is greater than zero.
    Positive,
    /// The weight is zero or less.
    NotPositive,
    /// The weight compares with nothing (it is not a number).
    Unordered,
}

/// Which robot poses a fusion of two limelights uses.
#[derive(Clone, Copy, Debug, PartialEq, Eq, Structural)]
pub enum FusionSource {
    /// No fused pose is produced.
    NoPose,
    /// Only the first limelight's pose, as it is.
    First,
    /// Only the second limelight's pose, as it is.
    Second,
    /// The weighted average of both poses.
    Weighted,
}

/// The choice of poses for two limelights with the given weights and
/// whether each reported a robot pose: none when neither has a positive
/// weight; one limelight alone when it has a positive weight and a pose and
/// the other's weight is not positive; otherwise the weighted average when
/// both reported a pose, and none when one did not.
pub open spec fn fusion_choice(
    first: WeightSign,
    first_has_pose: bool,
    second: WeightSign,
    second_has_pose: bool,
) -> FusionSource {
    if first == WeightSign::NotPositive && second == WeightSign::NotPositive {
        FusionSource::NoPose
    } else if first == WeightSign::Positive && first_has_pose && second == WeightSign::NotPositive {
        FusionSource::First
    } else if second == WeightSign::Positive && second_has_pose && first == WeightSign::NotPositive {
        FusionSource::Second
    } else if first_has_pose && second_has_pose {
        FusionSource::Weighted
    } else {
        FusionSource::NoPose
    }
}

/// The same choice seen from the other limelight.
pub open spec fn swapped(source: FusionSource) -> FusionSource {
    match source {
        FusionSource::First => FusionSource::Second,
        FusionSource::Second => FusionSource::First,
        other => other,
    }
}

/// Decides which poses the fusion of two limelights uses.
pub fn fusion_source(
    first: WeightSign,
    first_has_pose: bool,
    second: WeightSign,
    second_has_pose: bool,
) -> (source: FusionSource)
    ensures
        source == fusion_choice(first, first_has_pose, second, second_has_pose),
{
    let first_blind = match first {
        WeightSign::NotPositive => true,
        _ => false,
    };
    let second_blind = match second {
        WeightSign::NotPositive => true,
        _ => false,
    };
    let first_sees = match first {
        WeightSign::Positive => true,
        _ => false,
    };
    let second_sees = match second {
        WeightSign::Positive => true,
        _ => false,
    };
    if first_blind && second_blind {
        return FusionSource::NoPose;
    }
    if first_sees && first_has_pose && second_blind {
        return FusionSource::First;
    }
    if second_sees && second_has_pose && first_blind {
        return FusionSource::Second;
    }
    if !first_has_pose || !second_has_pose {
        return FusionSource::NoPose;
    }
    FusionSource::Weighted
}

/// Fusion does not depend on which limelight is called the first: swapping
/// the two swaps the choice.
pub proof fn lemma_fusion_symmetric(
    first: WeightSign,
    first_has_pose: bool,
    second: WeightSign,
    second_has_pose: bool,
)
    ensures
        fusion_choice(second, second_has_pose, first, first_has_pose) == swapped(
            fusion_choice(first, first_has_pose, second, second_has_pose),
        ),
{
}

/// Fusion only uses poses that were reported, and only trusts a limelight
/// alone when its weight is positive and the other's is not.
pub proof fn lemma_fusion_uses_reported_poses(
    first: WeightSign,
    first_has_pose: bool,
    second: WeightSign,
    second_has_pose: bool,
)
    ensures
        fusion_choice(first, first_has_pose, second, second_has_pose) == FusionSource::First
            ==> first_has_pose && first == WeightSign::Positive && second == WeightSign::NotPositive,
        fusion_choice(first, first_has_pose, second, second_has_pose) == FusionSource::Second
            ==> second_has_pose && second == WeightSign::Positive && first == WeightSign::NotPositive,
        fusion_choice(first, first_has_pose, second, second_has_pose) == FusionSource::Weighted
            ==> first_has_pose && second_has_pose,
        first == WeightSign::NotPositive && second == WeightSign::NotPositive ==> fusion_choice(
            first,
            first_has_pose,
            second,
            second_has_pose,
        ) == FusionSource::NoPose,
{
}

} // verus!
