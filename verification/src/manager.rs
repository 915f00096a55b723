//! The generic command manager: per-device cache of the last quantized value
//! sent to every feature, used to suppress redundant writes.
//!
//! `update_vibration` and `update_rotation` validate a command's cardinality
//! and targets, quantize each target to its feature's resolution, compare
//! against the cache, and report exactly the features whose value changed.
//! The precomputed stop command set drives every feature to rest through the
//! same path.

use vstd::prelude::*;
use crate::config::{features_wf, DeviceAttributes, FeatureAttributes};
use crate::messages::{
    AbstractCommand, ButtplugError, RotateCmd, RotateSubcommand, VibrateCmd, VibrateSubcommand,
};
use crate::quantize::{lemma_quantize_bounds, quantize, quantize_spec, TARGET_SCALE};

verus! {

/// A command must carry either one broadcast feature command or exactly one
/// per feature.
pub open spec fn cardinality_ok(len: int, n: int) -> bool {
    len == 1 || len == n
}

/// Quantized speed and direction of one rotation feature.
#[derive(Clone, Copy, Debug, PartialEq, Eq, Structural)]
pub struct RotationValue {
    pub speed: u32,
    pub clockwise: bool,
}

// ---------------------------------------------------------------------------
// Vibration command model
// ---------------------------------------------------------------------------

/// A broadcast command must address an existing feature; a per-feature list
/// must be in feature order.
pub open spec fn vib_indices_ok(subs: Seq<VibrateSubcommand>, n: int) -> bool {
    if subs.len() == 1 {
        (subs[0].index as int) < n
    } else {
        forall|j: int| 0 <= j < subs.len() ==> (#[trigger] subs[j]).index as int == j
    }
}

pub open spec fn vib_targets_ok(subs: Seq<VibrateSubcommand>) -> bool {
    forall|j: int| 0 <= j < subs.len() ==> (#[trigger] subs[j]).speed <= TARGET_SCALE
}

/// A vibration command is accepted for an `n`-feature device exactly when
/// its cardinality, indices and targets are all in order.
pub open spec fn vib_cmd_valid(subs: Seq<VibrateSubcommand>, n: int) -> bool {
    &&& cardinality_ok(subs.len() as int, n)
    &&& vib_indices_ok(subs, n)
    &&& vib_targets_ok(subs)
}

/// The target addressed to feature `i` after broadcast expansion.
pub open spec fn vib_target(subs: Seq<VibrateSubcommand>, i: int) -> u32 {
    if subs.len() == 1 {
        subs[0].speed
    } else {
        subs[i].speed
    }
}

/// Feature `i`'s target quantized to its step resolution.
pub open spec fn vib_quantized(subs: Seq<VibrateSubcommand>, attrs: Seq<FeatureAttributes>, i: int) -> int {
    quantize_spec(vib_target(subs, i) as int, attrs[i].step_count as int)
}

/// The cache a valid vibration command leaves behind.
pub open spec fn vib_new_cache(subs: Seq<VibrateSubcommand>, attrs: Seq<FeatureAttributes>) -> Seq<u32> {
    Seq::new(attrs.len(), |i: int| vib_quantized(subs, attrs, i) as u32)
}

/// No feature's quantized value differs from the cache: the whole command is
/// a no-op.
pub open spec fn vib_all_unchanged(
    subs: Seq<VibrateSubcommand>,
    attrs: Seq<FeatureAttributes>,
    cache: Seq<u32>,
) -> bool {
    forall|i: int| 0 <= i < attrs.len() ==> vib_quantized(subs, attrs, i) == cache[i] as int
}

// ---------------------------------------------------------------------------
// Rotation command model
// ---------------------------------------------------------------------------

pub open spec fn rot_indices_ok(subs: Seq<RotateSubcommand>, n: int) -> bool {
    if subs.len() == 1 {
        (subs[0].index as int) < n
    } else {
        forall|j: int| 0 <= j < subs.len() ==> (#[trigger] subs[j]).index as int == j
    }
}

pub open spec fn rot_targets_ok(subs: Seq<RotateSubcommand>) -> bool {
    forall|j: int| 0 <= j < subs.len() ==> (#[trigger] subs[j]).speed <= TARGET_SCALE
}

pub open spec fn rot_cmd_valid(subs: Seq<RotateSubcommand>, n: int) -> bool {
    &&& cardinality_ok(subs.len() as int, n)
    &&& rot_indices_ok(subs, n)
    &&& rot_targets_ok(subs)
}

pub open spec fn rot_target(subs: Seq<RotateSubcommand>, i: int) -> u32 {
    if subs.len() == 1 {
        subs[0].speed
    } else {
        subs[i].speed
    }
}

/// The direction addressed to feature `i` after broadcast expansion.
pub open spec fn rot_direction(subs: Seq<RotateSubcommand>, i: int) -> bool {
    if subs.len() == 1 {
        subs[0].clockwise
    } else {
        subs[i].clockwise
    }
}

pub open spec fn rot_quantized(subs: Seq<RotateSubcommand>, attrs: Seq<FeatureAttributes>, i: int) -> int {
    quantize_spec(rot_target(subs, i) as int, attrs[i].step_count as int)
}

pub open spec fn rot_new_speed_cache(subs: Seq<RotateSubcommand>, attrs: Seq<FeatureAttributes>) -> Seq<u32> {
    Seq::new(attrs.len(), |i: int| rot_quantized(subs, attrs, i) as u32)
}

pub open spec fn rot_new_direction_cache(subs: Seq<RotateSubcommand>, attrs: Seq<FeatureAttributes>) -> Seq<bool> {
    Seq::new(attrs.len(), |i: int| rot_direction(subs, i))
}

/// Whether feature `i`'s rotation state (speed or direction) changes.
pub open spec fn rot_changed(
    subs: Seq<RotateSubcommand>,
    attrs: Seq<FeatureAttributes>,
    speed_cache: Seq<u32>,
    direction_cache: Seq<bool>,
    i: int,
) -> bool {
    rot_quantized(subs, attrs, i) != speed_cache[i] as int
        || rot_direction(subs, i) != direction_cache[i]
}

pub open spec fn rot_all_unchanged(
    subs: Seq<RotateSubcommand>,
    attrs: Seq<FeatureAttributes>,
    speed_cache: Seq<u32>,
    direction_cache: Seq<bool>,
) -> bool {
    forall|i: int| 0 <= i < attrs.len()
        ==> !rot_changed(subs, attrs, speed_cache, direction_cache, i)
}

// ---------------------------------------------------------------------------
// Validation outcome, shared by the manager and every adapter
// ---------------------------------------------------------------------------

/// How a vibration command's validation maps onto a result: rejected if and
/// only if invalid, with the variant naming the first rule broken.
pub open spec fn vib_validation_post<T>(r: Result<T, ButtplugError>, subs: Seq<VibrateSubcommand>, n: int) -> bool {
    &&& (r is Err <==> !vib_cmd_valid(subs, n))
    &&& (!cardinality_ok(subs.len() as int, n) <==> r == Err::<T, ButtplugError>(
            ButtplugError::InvalidCardinality { given: subs.len() as usize, expected: n as usize }))
    &&& ((cardinality_ok(subs.len() as int, n) && !vib_indices_ok(subs, n))
            <==> r == Err::<T, ButtplugError>(ButtplugError::InvalidFeatureIndex))
    &&& ((cardinality_ok(subs.len() as int, n) && vib_indices_ok(subs, n) && !vib_targets_ok(subs))
            <==> r == Err::<T, ButtplugError>(ButtplugError::TargetOutOfRange))
}

/// The rotation counterpart of [`vib_validation_post`].
pub open spec fn rot_validation_post<T>(r: Result<T, ButtplugError>, subs: Seq<RotateSubcommand>, n: int) -> bool {
    &&& (r is Err <==> !rot_cmd_valid(subs, n))
    &&& (!cardinality_ok(subs.len() as int, n) <==> r == Err::<T, ButtplugError>(
            ButtplugError::InvalidCardinality { given: subs.len() as usize, expected: n as usize }))
    &&& ((cardinality_ok(subs.len() as int, n) && !rot_indices_ok(subs, n))
            <==> r == Err::<T, ButtplugError>(ButtplugError::InvalidFeatureIndex))
    &&& ((cardinality_ok(subs.len() as int, n) && rot_indices_ok(subs, n) && !rot_targets_ok(subs))
            <==> r == Err::<T, ButtplugError>(ButtplugError::TargetOutOfRange))
}

// ---------------------------------------------------------------------------
// Stop command set
// ---------------------------------------------------------------------------

/// The feature commands of the precomputed vibration stop command: every
/// feature addressed in order, target zero.
pub open spec fn stop_vibrate_subs(n: nat) -> Seq<VibrateSubcommand> {
    Seq::new(n, |i: int| VibrateSubcommand { index: i as u32, speed: 0 })
}

/// The feature commands of the precomputed rotation stop command.
pub open spec fn stop_rotate_subs(n: nat) -> Seq<RotateSubcommand> {
    Seq::new(n, |i: int| RotateSubcommand { index: i as u32, speed: 0, clockwise: false })
}

/// The stop command set of a device with `n_vib` vibration and `n_rot`
/// rotation features: one vibration stop command if the device vibrates,
/// then one rotation stop command if it rotates.
pub open spec fn is_stop_commands(cmds: Seq<AbstractCommand>, n_vib: nat, n_rot: nat) -> bool {
    let want: int = (if n_vib > 0 { 1int } else { 0int }) + (if n_rot > 0 { 1int } else { 0int });
    &&& cmds.len() == want
    &&& n_vib > 0 ==> (cmds[0] matches AbstractCommand::Vibrate(vc)
            && vc.speeds@ == stop_vibrate_subs(n_vib))
    &&& n_rot > 0 ==> (cmds[if n_vib > 0 { 1int } else { 0int }] matches AbstractCommand::Rotate(rc)
            && rc.rotations@ == stop_rotate_subs(n_rot))
}

/// Build the vibration stop command for an `n`-feature device.
pub fn make_stop_vibrate_cmd(n: usize) -> (c: VibrateCmd)
    requires
        n <= u32::MAX,
    ensures
        c.device_index == 0,
        c.speeds@ == stop_vibrate_subs(n as nat),
{
    let mut speeds: Vec<VibrateSubcommand> = Vec::new();
    let mut i: usize = 0;
    while i < n
        invariant
            n <= u32::MAX,
            0 <= i <= n,
            speeds@.len() == i,
            forall|k: int| 0 <= k < i ==> speeds@[k] == stop_vibrate_subs(n as nat)[k],
        decreases n - i,
    {
        speeds.push(VibrateSubcommand { index: i as u32, speed: 0 });
        i += 1;
    }
    proof {
        assert(speeds@ =~= stop_vibrate_subs(n as nat));
    }
    VibrateCmd { device_index: 0, speeds }
}

/// Build the rotation stop command for an `n`-feature device.
pub fn make_stop_rotate_cmd(n: usize) -> (c: RotateCmd)
    requires
        n <= u32::MAX,
    ensures
        c.device_index == 0,
        c.rotations@ == stop_rotate_subs(n as nat),
{
    let mut rotations: Vec<RotateSubcommand> = Vec::new();
    let mut i: usize = 0;
    while i < n
        invariant
            n <= u32::MAX,
            0 <= i <= n,
            rotations@.len() == i,
            forall|k: int| 0 <= k < i ==> rotations@[k] == stop_rotate_subs(n as nat)[k],
        decreases n - i,
    {
        rotations.push(RotateSubcommand { index: i as u32, speed: 0, clockwise: false });
        i += 1;
    }
    proof {
        assert(rotations@ =~= stop_rotate_subs(n as nat));
    }
    RotateCmd { device_index: 0, rotations }
}

/// Build the whole stop command set for a device.
pub fn make_stop_commands(n_vib: usize, n_rot: usize) -> (r: Vec<AbstractCommand>)
    requires
        n_vib <= u32::MAX,
        n_rot <= u32::MAX,
    ensures
        is_stop_commands(r@, n_vib as nat, n_rot as nat),
{
    let mut cmds: Vec<AbstractCommand> = Vec::new();
    if n_vib > 0 {
        cmds.push(AbstractCommand::Vibrate(make_stop_vibrate_cmd(n_vib)));
    }
    if n_rot > 0 {
        cmds.push(AbstractCommand::Rotate(make_stop_rotate_cmd(n_rot)));
    }
    cmds
}

// ---------------------------------------------------------------------------
// The manager
// ---------------------------------------------------------------------------

/// Per-device command state: one cache entry per declared feature, created
/// at construction, never removed, only updated.
#[derive(Debug)]
pub struct GenericCommandManager {
    pub vibrate_attrs: Vec<FeatureAttributes>,
    pub vibrate_cache: Vec<u32>,
    pub rotate_attrs: Vec<FeatureAttributes>,
    pub rotate_speed_cache: Vec<u32>,
    pub rotate_direction_cache: Vec<bool>,
    pub stop_commands: Vec<AbstractCommand>,
}

impl GenericCommandManager {
    /// Structural invariant: one cache entry per feature, every cached value
    /// within its feature's resolution, and the stop command set precomputed.
    pub open spec fn wf(&self) -> bool {
        &&& features_wf(self.vibrate_attrs@)
        &&& features_wf(self.rotate_attrs@)
        &&& self.vibrate_cache@.len() == self.vibrate_attrs@.len()
        &&& forall|i: int| 0 <= i < self.vibrate_cache@.len()
                ==> (#[trigger] self.vibrate_cache@[i]) <= self.vibrate_attrs@[i].step_count
        &&& self.rotate_speed_cache@.len() == self.rotate_attrs@.len()
        &&& self.rotate_direction_cache@.len() == self.rotate_attrs@.len()
        &&& forall|i: int| 0 <= i < self.rotate_speed_cache@.len()
                ==> (#[trigger] self.rotate_speed_cache@[i]) <= self.rotate_attrs@[i].step_count
        &&& is_stop_commands(
            self.stop_commands@,
            self.vibrate_attrs@.len(),
            self.rotate_attrs@.len(),
        )
    }

    /// A fresh manager for a device with the given attributes: every cache
    /// entry at rest.
    pub fn new(attrs: &DeviceAttributes) -> (r: GenericCommandManager)
        requires
            attrs.wf(),
        ensures
            r.wf(),
            r.vibrate_attrs@ == attrs.vibrate@,
            r.rotate_attrs@ == attrs.rotate@,
            r.vibrate_cache@ == Seq::new(attrs.vibrate@.len(), |i: int| 0u32),
            r.rotate_speed_cache@ == Seq::new(attrs.rotate@.len(), |i: int| 0u32),
            r.rotate_direction_cache@ == Seq::new(attrs.rotate@.len(), |i: int| false),
    {
        let n_vib = attrs.vibrate.len();
        let n_rot = attrs.rotate.len();
        let mut vibrate_attrs: Vec<FeatureAttributes> = Vec::new();
        let mut vibrate_cache: Vec<u32> = Vec::new();
        let mut i: usize = 0;
        while i < n_vib
            invariant
                n_vib == attrs.vibrate@.len(),
                0 <= i <= n_vib,
                vibrate_attrs@ == attrs.vibrate@.take(i as int),
                vibrate_cache@.len() == i,
                forall|k: int| 0 <= k < i ==> vibrate_cache@[k] == 0u32,
            decreases n_vib - i,
        {
            vibrate_attrs.push(attrs.vibrate[i]);
            vibrate_cache.push(0);
            proof {
                assert(vibrate_attrs@ =~= attrs.vibrate@.take(i + 1 as int));
            }
            i += 1;
        }
        let mut rotate_attrs: Vec<FeatureAttributes> = Vec::new();
        let mut rotate_speed_cache: Vec<u32> = Vec::new();
        let mut rotate_direction_cache: Vec<bool> = Vec::new();
        let mut i: usize = 0;
        while i < n_rot
            invariant
                n_rot == attrs.rotate@.len(),
                0 <= i <= n_rot,
                rotate_attrs@ == attrs.rotate@.take(i as int),
                rotate_speed_cache@.len() == i,
                rotate_direction_cache@.len() == i,
                forall|k: int| 0 <= k < i ==> rotate_speed_cache@[k] == 0u32,
                forall|k: int| 0 <= k < i ==> rotate_direction_cache@[k] == false,
            decreases n_rot - i,
        {
            rotate_attrs.push(attrs.rotate[i]);
            rotate_speed_cache.push(0);
            rotate_direction_cache.push(false);
            proof {
                assert(rotate_attrs@ =~= attrs.rotate@.take(i + 1 as int));
            }
            i += 1;
        }
        let stop_commands = make_stop_commands(n_vib, n_rot);
        proof {
            assert(attrs.vibrate@.take(n_vib as int) =~= attrs.vibrate@);
            assert(attrs.rotate@.take(n_rot as int) =~= attrs.rotate@);
            assert(vibrate_cache@ =~= Seq::new(attrs.vibrate@.len(), |i: int| 0u32));
            assert(rotate_speed_cache@ =~= Seq::new(attrs.rotate@.len(), |i: int| 0u32));
            assert(rotate_direction_cache@ =~= Seq::new(attrs.rotate@.len(), |i: int| false));
        }
        GenericCommandManager {
            vibrate_attrs,
            vibrate_cache,
            rotate_attrs,
            rotate_speed_cache,
            rotate_direction_cache,
            stop_commands,
        }
    }

    /// The precomputed stop command set; pure.
    pub fn get_stop_commands(&self) -> (r: &Vec<AbstractCommand>)
        ensures
            r@ == self.stop_commands@,
    {
        &self.stop_commands
    }

    /// Validate, quantize and cache a vibration command.
    ///
    /// Returns `Ok(None)` when no feature's quantized value changes (the
    /// pure no-op signal). Otherwise returns one slot per feature: the new
    /// quantized value for changed features, empty for unchanged ones —
    /// unless `match_all` is set, in which case every slot is filled so the
    /// caller can rebuild a full wire image.
    #[verifier::loop_isolation(false)]
    pub fn update_vibration(&mut self, msg: &VibrateCmd, match_all: bool)
        -> (r: Result<Option<Vec<Option<u32>>>, ButtplugError>)
        requires
            old(self).wf(),
        ensures
            final(self).wf(),
            final(self).vibrate_attrs@ == old(self).vibrate_attrs@,
            final(self).rotate_attrs@ == old(self).rotate_attrs@,
            final(self).rotate_speed_cache@ == old(self).rotate_speed_cache@,
            final(self).rotate_direction_cache@ == old(self).rotate_direction_cache@,
            final(self).stop_commands@ == old(self).stop_commands@,
            ({
                let subs = msg.speeds@;
                let attrs = old(self).vibrate_attrs@;
                let n = attrs.len() as int;
                let cache = old(self).vibrate_cache@;
                &&& vib_validation_post(r, subs, n)
                &&& r is Err ==> *final(self) == *old(self)
                &&& ((vib_cmd_valid(subs, n) && vib_all_unchanged(subs, attrs, cache))
                        <==> r == Ok::<Option<Vec<Option<u32>>>, ButtplugError>(None))
                &&& r == Ok::<Option<Vec<Option<u32>>>, ButtplugError>(None)
                        ==> *final(self) == *old(self)
                &&& (vib_cmd_valid(subs, n) && !vib_all_unchanged(subs, attrs, cache)) ==> ({
                    &&& r matches Ok(Some(_))
                    &&& final(self).vibrate_cache@ == vib_new_cache(subs, attrs)
                })
                &&& (r matches Ok(Some(v)) ==> {
                    &&& v@.len() == n
                    &&& forall|i: int| 0 <= i < n ==> (#[trigger] v@[i]) == (
                        if match_all || vib_quantized(subs, attrs, i) != cache[i] as int {
                            Some(vib_new_cache(subs, attrs)[i])
                        } else {
                            None::<u32>
                        })
                })
            }),
    {
        let n = self.vibrate_attrs.len();
        if msg.speeds.len() != 1 && msg.speeds.len() != n {
            return Err(ButtplugError::InvalidCardinality { given: msg.speeds.len(), expected: n });
        }
        if msg.speeds.len() == 1 {
            if msg.speeds[0].index as usize >= n {
                return Err(ButtplugError::InvalidFeatureIndex);
            }
        } else {
            let mut j: usize = 0;
            while j < msg.speeds.len()
                invariant
                    0 <= j <= msg.speeds@.len(),
                    forall|k: int| 0 <= k < j ==> (#[trigger] msg.speeds@[k]).index as int == k,
                decreases msg.speeds@.len() - j,
            {
                if msg.speeds[j].index as usize != j {
                    return Err(ButtplugError::InvalidFeatureIndex);
                }
                j += 1;
            }
        }
        let mut j: usize = 0;
        while j < msg.speeds.len()
            invariant
                0 <= j <= msg.speeds@.len(),
                vib_indices_ok(msg.speeds@, self.vibrate_attrs@.len() as int),
                cardinality_ok(msg.speeds@.len() as int, self.vibrate_attrs@.len() as int),
                forall|k: int| 0 <= k < j ==> (#[trigger] msg.speeds@[k]).speed <= TARGET_SCALE,
            decreases msg.speeds@.len() - j,
        {
            if msg.speeds[j].speed > TARGET_SCALE {
                return Err(ButtplugError::TargetOutOfRange);
            }
            j += 1;
        }
        let ghost subs = msg.speeds@;
        let ghost attrs = self.vibrate_attrs@;
        let ghost cache = self.vibrate_cache@;
        let mut new_cache: Vec<u32> = Vec::new();
        let mut slots: Vec<Option<u32>> = Vec::new();
        let mut changed = false;
        let mut i: usize = 0;
        while i < n
            invariant
                *self == *old(self),
                self.wf(),
                subs == msg.speeds@,
                attrs == self.vibrate_attrs@,
                cache == self.vibrate_cache@,
                n == attrs.len(),
                vib_cmd_valid(subs, n as int),
                0 <= i <= n,
                new_cache@.len() == i,
                slots@.len() == i,
                forall|k: int| 0 <= k < i ==> (#[trigger] new_cache@[k]) as int == vib_quantized(subs, attrs, k),
                forall|k: int| 0 <= k < i ==> (#[trigger] new_cache@[k]) <= attrs[k].step_count,
                forall|k: int| 0 <= k < i ==> (#[trigger] slots@[k]) == (
                    if vib_quantized(subs, attrs, k) != cache[k] as int {
                        Some(new_cache@[k])
                    } else {
                        None::<u32>
                    }),
                changed == !(forall|k: int| 0 <= k < i
                    ==> vib_quantized(subs, attrs, k) == cache[k] as int),
            decreases n - i,
        {
            let target = if msg.speeds.len() == 1 {
                msg.speeds[0].speed
            } else {
                msg.speeds[i].speed
            };
            assert(target == vib_target(subs, i as int));
            let q = quantize(target, self.vibrate_attrs[i].step_count);
            if q != self.vibrate_cache[i] {
                changed = true;
                slots.push(Some(q));
            } else {
                slots.push(None);
            }
            new_cache.push(q);
            proof {
                if q != cache[i as int] {
                    assert(vib_quantized(subs, attrs, i as int) != cache[i as int] as int);
                }
            }
            i += 1;
        }
        if !changed {
            return Ok(None);
        }
        proof {
            assert(new_cache@ =~= vib_new_cache(subs, attrs));
        }
        if match_all {
            let mut filled: Vec<Option<u32>> = Vec::new();
            let mut i: usize = 0;
            while i < n
                invariant
                    n == new_cache@.len(),
                    0 <= i <= n,
                    filled@.len() == i,
                    forall|k: int| 0 <= k < i ==> (#[trigger] filled@[k]) == Some(new_cache@[k]),
                decreases n - i,
            {
                filled.push(Some(new_cache[i]));
                i += 1;
            }
            self.vibrate_cache = new_cache;
            return Ok(Some(filled));
        }
        self.vibrate_cache = new_cache;
        Ok(Some(slots))
    }

    /// Validate, quantize and cache a rotation command.
    ///
    /// Speed is quantized like vibration; direction is binary and tracked
    /// independently per feature. A feature's slot is filled exactly when
    /// its speed or its direction changed; `Ok(None)` signals a pure no-op.
    #[verifier::loop_isolation(false)]
    pub fn update_rotation(&mut self, msg: &RotateCmd)
        -> (r: Result<Option<Vec<Option<RotationValue>>>, ButtplugError>)
        requires
            old(self).wf(),
        ensures
            final(self).wf(),
            final(self).vibrate_attrs@ == old(self).vibrate_attrs@,
            final(self).rotate_attrs@ == old(self).rotate_attrs@,
            final(self).vibrate_cache@ == old(self).vibrate_cache@,
            final(self).stop_commands@ == old(self).stop_commands@,
            ({
                let subs = msg.rotations@;
                let attrs = old(self).rotate_attrs@;
                let n = attrs.len() as int;
                let speeds = old(self).rotate_speed_cache@;
                let dirs = old(self).rotate_direction_cache@;
                &&& rot_validation_post(r, subs, n)
                &&& r is Err ==> *final(self) == *old(self)
                &&& ((rot_cmd_valid(subs, n) && rot_all_unchanged(subs, attrs, speeds, dirs))
                        <==> r == Ok::<Option<Vec<Option<RotationValue>>>, ButtplugError>(None))
                &&& r == Ok::<Option<Vec<Option<RotationValue>>>, ButtplugError>(None)
                        ==> *final(self) == *old(self)
                &&& (rot_cmd_valid(subs, n) && !rot_all_unchanged(subs, attrs, speeds, dirs)) ==> ({
                    &&& r matches Ok(Some(_))
                    &&& final(self).rotate_speed_cache@ == rot_new_speed_cache(subs, attrs)
                    &&& final(self).rotate_direction_cache@ == rot_new_direction_cache(subs, attrs)
                })
                &&& (r matches Ok(Some(v)) ==> {
                    &&& v@.len() == n
                    &&& forall|i: int| 0 <= i < n ==> (#[trigger] v@[i]) == (
                        if rot_changed(subs, attrs, speeds, dirs, i) {
                            Some(RotationValue {
                                speed: rot_new_speed_cache(subs, attrs)[i],
                                clockwise: rot_direction(subs, i),
                            })
                        } else {
                            None::<RotationValue>
                        })
                })
            }),
    {
        let n = self.rotate_attrs.len();
        if msg.rotations.len() != 1 && msg.rotations.len() != n {
            return Err(ButtplugError::InvalidCardinality { given: msg.rotations.len(), expected: n });
        }
        if msg.rotations.len() == 1 {
            if msg.rotations[0].index as usize >= n {
                return Err(ButtplugError::InvalidFeatureIndex);
            }
        } else {
            let mut j: usize = 0;
            while j < msg.rotations.len()
                invariant
                    0 <= j <= msg.rotations@.len(),
                    forall|k: int| 0 <= k < j ==> (#[trigger] msg.rotations@[k]).index as int == k,
                decreases msg.rotations@.len() - j,
            {
                if msg.rotations[j].index as usize != j {
                    return Err(ButtplugError::InvalidFeatureIndex);
                }
                j += 1;
            }
        }
        let mut j: usize = 0;
        while j < msg.rotations.len()
            invariant
                0 <= j <= msg.rotations@.len(),
                forall|k: int| 0 <= k < j ==> (#[trigger] msg.rotations@[k]).speed <= TARGET_SCALE,
            decreases msg.rotations@.len() - j,
        {
            if msg.rotations[j].speed > TARGET_SCALE {
                return Err(ButtplugError::TargetOutOfRange);
            }
            j += 1;
        }
        let ghost subs = msg.rotations@;
        let ghost attrs = self.rotate_attrs@;
        let ghost speeds = self.rotate_speed_cache@;
        let ghost dirs = self.rotate_direction_cache@;
        let mut new_speeds: Vec<u32> = Vec::new();
        let mut new_dirs: Vec<bool> = Vec::new();
        let mut slots: Vec<Option<RotationValue>> = Vec::new();
        let mut changed = false;
        let mut i: usize = 0;
        while i < n
            invariant
                0 <= i <= n,
                new_speeds@.len() == i,
                new_dirs@.len() == i,
                slots@.len() == i,
                forall|k: int| 0 <= k < i ==> (#[trigger] new_speeds@[k]) as int == rot_quantized(subs, attrs, k),
                forall|k: int| 0 <= k < i ==> (#[trigger] new_speeds@[k]) <= attrs[k].step_count,
                forall|k: int| 0 <= k < i ==> (#[trigger] new_dirs@[k]) == rot_direction(subs, k),
                forall|k: int| 0 <= k < i ==> (#[trigger] slots@[k]) == (
                    if rot_changed(subs, attrs, speeds, dirs, k) {
                        Some(RotationValue { speed: new_speeds@[k], clockwise: new_dirs@[k] })
                    } else {
                        None::<RotationValue>
                    }),
                changed == !(forall|k: int| 0 <= k < i
                    ==> !rot_changed(subs, attrs, speeds, dirs, k)),
            decreases n - i,
        {
            let (target, clockwise) = if msg.rotations.len() == 1 {
                (msg.rotations[0].speed, msg.rotations[0].clockwise)
            } else {
                (msg.rotations[i].speed, msg.rotations[i].clockwise)
            };
            assert(target == rot_target(subs, i as int));
            assert(clockwise == rot_direction(subs, i as int));
            let q = quantize(target, self.rotate_attrs[i].step_count);
            if q != self.rotate_speed_cache[i] || clockwise != self.rotate_direction_cache[i] {
                changed = true;
                slots.push(Some(RotationValue { speed: q, clockwise }));
                assert(rot_changed(subs, attrs, speeds, dirs, i as int));
            } else {
                slots.push(None);
                assert(!rot_changed(subs, attrs, speeds, dirs, i as int));
            }
            new_speeds.push(q);
            new_dirs.push(clockwise);
            i += 1;
        }
        if !changed {
            return Ok(None);
        }
        proof {
            assert(new_speeds@ =~= rot_new_speed_cache(subs, attrs));
            assert(new_dirs@ =~= rot_new_direction_cache(subs, attrs));
        }
        self.rotate_speed_cache = new_speeds;
        self.rotate_direction_cache = new_dirs;
        Ok(Some(slots))
    }
}

// ---------------------------------------------------------------------------
// Laws
// ---------------------------------------------------------------------------

/// Idempotence of vibration updates: once a valid command's quantized
/// targets are cached, submitting the same command again changes nothing,
/// so the second call is a pure no-op and triggers zero writes.
pub proof fn lemma_vibrate_idempotent(subs: Seq<VibrateSubcommand>, attrs: Seq<FeatureAttributes>)
    requires
        features_wf(attrs),
        vib_cmd_valid(subs, attrs.len() as int),
    ensures
        vib_all_unchanged(subs, attrs, vib_new_cache(subs, attrs)),
{
    assert forall|i: int| 0 <= i < attrs.len()
        implies vib_quantized(subs, attrs, i) == vib_new_cache(subs, attrs)[i] as int by {
        lemma_quantize_bounds(vib_target(subs, i) as int, attrs[i].step_count as int);
    }
}

/// Idempotence of rotation updates: after a valid rotation command's speeds
/// and directions are cached, the same command changes nothing.
pub proof fn lemma_rotation_idempotent(subs: Seq<RotateSubcommand>, attrs: Seq<FeatureAttributes>)
    requires
        features_wf(attrs),
        rot_cmd_valid(subs, attrs.len() as int),
    ensures
        rot_all_unchanged(
            subs,
            attrs,
            rot_new_speed_cache(subs, attrs),
            rot_new_direction_cache(subs, attrs),
        ),
{
    assert forall|i: int| 0 <= i < attrs.len()
        implies !rot_changed(
            subs,
            attrs,
            rot_new_speed_cache(subs, attrs),
            rot_new_direction_cache(subs, attrs),
            i,
        ) by {
        lemma_quantize_bounds(rot_target(subs, i) as int, attrs[i].step_count as int);
    }
}

/// Stop through the normal path: the precomputed vibration stop command is
/// valid for its device, quantizes to zero on every feature, and is a pure
/// no-op exactly when every cached value is already zero. So a stop drives
/// every cached value to zero via writes, and an immediately repeated stop
/// produces zero writes.
pub proof fn lemma_stop_vibrate_drives_to_rest(attrs: Seq<FeatureAttributes>, cache: Seq<u32>)
    requires
        features_wf(attrs),
        attrs.len() > 0,
        cache.len() == attrs.len(),
    ensures
        vib_cmd_valid(stop_vibrate_subs(attrs.len()), attrs.len() as int),
        vib_new_cache(stop_vibrate_subs(attrs.len()), attrs)
            == Seq::new(attrs.len(), |i: int| 0u32),
        vib_all_unchanged(stop_vibrate_subs(attrs.len()), attrs, cache)
            <==> cache == Seq::new(attrs.len(), |i: int| 0u32),
{
    let subs = stop_vibrate_subs(attrs.len());
    assert forall|i: int| 0 <= i < attrs.len()
        implies vib_quantized(subs, attrs, i) == 0 by {
        crate::quantize::lemma_quantize_zero(attrs[i].step_count as int);
    }
    assert(vib_new_cache(subs, attrs) =~= Seq::new(attrs.len(), |i: int| 0u32));
    if vib_all_unchanged(subs, attrs, cache) {
        assert(cache =~= Seq::new(attrs.len(), |i: int| 0u32));
    }
}

/// The rotation half of the stop law: the precomputed rotation stop command
/// quantizes to speed zero, direction at rest, on every feature.
pub proof fn lemma_stop_rotate_drives_to_rest(
    attrs: Seq<FeatureAttributes>,
    speeds: Seq<u32>,
    dirs: Seq<bool>,
)
    requires
        features_wf(attrs),
        attrs.len() > 0,
        speeds.len() == attrs.len(),
        dirs.len() == attrs.len(),
    ensures
        rot_cmd_valid(stop_rotate_subs(attrs.len()), attrs.len() as int),
        rot_new_speed_cache(stop_rotate_subs(attrs.len()), attrs)
            == Seq::new(attrs.len(), |i: int| 0u32),
        rot_new_direction_cache(stop_rotate_subs(attrs.len()), attrs)
            == Seq::new(attrs.len(), |i: int| false),
        rot_all_unchanged(stop_rotate_subs(attrs.len()), attrs, speeds, dirs)
            <==> (speeds == Seq::new(attrs.len(), |i: int| 0u32)
                && dirs == Seq::new(attrs.len(), |i: int| false)),
{
    let subs = stop_rotate_subs(attrs.len());
    assert forall|i: int| 0 <= i < attrs.len()
        implies rot_quantized(subs, attrs, i) == 0 by {
        crate::quantize::lemma_quantize_zero(attrs[i].step_count as int);
    }
    assert(rot_new_speed_cache(subs, attrs) =~= Seq::new(attrs.len(), |i: int| 0u32));
    assert(rot_new_direction_cache(subs, attrs) =~= Seq::new(attrs.len(), |i: int| false));
    if rot_all_unchanged(subs, attrs, speeds, dirs) {
        assert forall|i: int| 0 <= i < attrs.len()
            implies speeds[i] == 0u32 && dirs[i] == false by {
            assert(!rot_changed(subs, attrs, speeds, dirs, i));
            assert(rot_quantized(subs, attrs, i) == 0);
        }
        assert(speeds =~= Seq::new(attrs.len(), |i: int| 0u32));
        assert(dirs =~= Seq::new(attrs.len(), |i: int| false));
    }
}

/// Direction change: a rotation command that repeats a feature's cached
/// speed but flips its direction is a change (so the adapter issues a speed
/// write, then a direction-change write); repeating both speed and
/// direction is no change at all (zero writes).
pub proof fn lemma_rotation_direction_change(
    subs: Seq<RotateSubcommand>,
    attrs: Seq<FeatureAttributes>,
    speeds: Seq<u32>,
    dirs: Seq<bool>,
    i: int,
)
    requires
        features_wf(attrs),
        speeds.len() == attrs.len(),
        dirs.len() == attrs.len(),
        0 <= i < attrs.len(),
        rot_quantized(subs, attrs, i) == speeds[i] as int,
    ensures
        rot_direction(subs, i) != dirs[i] ==> rot_changed(subs, attrs, speeds, dirs, i),
        rot_direction(subs, i) == dirs[i] ==> !rot_changed(subs, attrs, speeds, dirs, i),
{
}

} // verus!
