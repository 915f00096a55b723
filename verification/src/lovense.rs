//! Adapter for the Lovense family.
//!
//! The family speaks a text protocol. Vibration uses one of two batching
//! policies per command: a single aggregate write when every feature changes
//! to the same value (or the device has one feature and it changed), and one
//! addressed write per changed feature otherwise. Rotation issues a speed
//! write on change, followed by a direction-change write when the direction
//! flipped. The protocol variant is only discoverable through a live
//! identification handshake, whose decisions live in [`crate::handshake`];
//! [`Lovense::try_create`] finishes construction from a resolved identifier.

use vstd::prelude::*;
use crate::config::{
    find_name, has_entry, has_locale, DeviceAttributes, DeviceProtocolConfiguration,
};
use crate::manager::{
    is_stop_commands, make_stop_commands, make_stop_rotate_cmd, make_stop_vibrate_cmd,
    rot_all_unchanged, rot_changed, rot_cmd_valid, rot_direction, rot_new_direction_cache,
    rot_new_speed_cache, rot_validation_post, vib_all_unchanged, vib_cmd_valid, vib_new_cache,
    vib_quantized, vib_validation_post, GenericCommandManager, RotationValue,
};
use crate::messages::{
    AbstractCommand, ButtplugError, DeviceWriteCmd, Endpoint, RotateCmd, RotateSubcommand,
    VibrateCmd, VibrateSubcommand,
};
use crate::quantize::{dec_digits, push_decimal};

verus! {

// ---------------------------------------------------------------------------
// Wire images
// ---------------------------------------------------------------------------

/// `Vibrate:<speed>;` — the aggregate vibration write.
pub open spec fn lovense_vibrate_all_bytes(speed: int) -> Seq<u8> {
    seq![86u8, 105u8, 98u8, 114u8, 97u8, 116u8, 101u8, 58u8] + dec_digits(speed) + seq![59u8]
}

/// `Vibrate<feature>:<speed>;` — one addressed vibration write; features are
/// numbered from 1 on the wire.
pub open spec fn lovense_vibrate_one_bytes(feature: int, speed: int) -> Seq<u8> {
    seq![86u8, 105u8, 98u8, 114u8, 97u8, 116u8, 101u8] + dec_digits(feature) + seq![58u8]
        + dec_digits(speed) + seq![59u8]
}

/// `Rotate:<speed>;` — the rotation speed write.
pub open spec fn lovense_rotate_bytes(speed: int) -> Seq<u8> {
    seq![82u8, 111u8, 116u8, 97u8, 116u8, 101u8, 58u8] + dec_digits(speed) + seq![59u8]
}

/// `RotateChange;` — flips the rotation direction.
pub open spec fn lovense_rotate_change_bytes() -> Seq<u8> {
    seq![82u8, 111u8, 116u8, 97u8, 116u8, 101u8, 67u8, 104u8, 97u8, 110u8, 103u8, 101u8, 59u8]
}

fn vibrate_all_cmd_bytes(speed: u32) -> (r: Vec<u8>)
    ensures
        r@ == lovense_vibrate_all_bytes(speed as int),
{
    let mut v: Vec<u8> = Vec::new();
    v.push(86);
    v.push(105);
    v.push(98);
    v.push(114);
    v.push(97);
    v.push(116);
    v.push(101);
    v.push(58);
    push_decimal(&mut v, speed);
    v.push(59);
    proof {
        assert(v@ =~= lovense_vibrate_all_bytes(speed as int));
    }
    v
}

fn vibrate_one_cmd_bytes(feature: u32, speed: u32) -> (r: Vec<u8>)
    ensures
        r@ == lovense_vibrate_one_bytes(feature as int, speed as int),
{
    let mut v: Vec<u8> = Vec::new();
    v.push(86);
    v.push(105);
    v.push(98);
    v.push(114);
    v.push(97);
    v.push(116);
    v.push(101);
    push_decimal(&mut v, feature);
    v.push(58);
    push_decimal(&mut v, speed);
    v.push(59);
    proof {
        assert(v@ =~= lovense_vibrate_one_bytes(feature as int, speed as int));
    }
    v
}

fn rotate_cmd_bytes(speed: u32) -> (r: Vec<u8>)
    ensures
        r@ == lovense_rotate_bytes(speed as int),
{
    let mut v: Vec<u8> = Vec::new();
    v.push(82);
    v.push(111);
    v.push(116);
    v.push(97);
    v.push(116);
    v.push(101);
    v.push(58);
    push_decimal(&mut v, speed);
    v.push(59);
    proof {
        assert(v@ =~= lovense_rotate_bytes(speed as int));
    }
    v
}

fn rotate_change_cmd_bytes() -> (r: Vec<u8>)
    ensures
        r@ == lovense_rotate_change_bytes(),
{
    let mut v: Vec<u8> = Vec::new();
    v.push(82);
    v.push(111);
    v.push(116);
    v.push(97);
    v.push(116);
    v.push(101);
    v.push(67);
    v.push(104);
    v.push(97);
    v.push(110);
    v.push(103);
    v.push(101);
    v.push(59);
    proof {
        assert(v@ =~= lovense_rotate_change_bytes());
    }
    v
}

// ---------------------------------------------------------------------------
// Batching policy
// ---------------------------------------------------------------------------

/// The slot the manager reports for feature `i`: the new quantized value if
/// it changed, empty otherwise.
pub open spec fn vib_slot(
    subs: Seq<VibrateSubcommand>,
    attrs: Seq<crate::config::FeatureAttributes>,
    cache: Seq<u32>,
    i: int,
) -> Option<u32> {
    if vib_quantized(subs, attrs, i) != cache[i] as int {
        Some(vib_new_cache(subs, attrs)[i])
    } else {
        None
    }
}

/// The single-channel-aggregate policy applies when the first feature
/// changed and either the device has one feature or every feature's slot is
/// the same — that is, every feature changes to the same value.
pub open spec fn lovense_aggregate(
    subs: Seq<VibrateSubcommand>,
    attrs: Seq<crate::config::FeatureAttributes>,
    cache: Seq<u32>,
) -> bool {
    &&& vib_slot(subs, attrs, cache, 0) is Some
    &&& (attrs.len() == 1 || forall|i: int| 0 <= i < attrs.len()
            ==> #[trigger] vib_slot(subs, attrs, cache, i) == vib_slot(subs, attrs, cache, 0))
}

/// The data payloads of the per-feature-addressed policy over features
/// `0 .. upto`: one `Vibrate<i+1>:<value>;` write per changed feature, in
/// feature order.
pub open spec fn lovense_pf_writes(
    subs: Seq<VibrateSubcommand>,
    attrs: Seq<crate::config::FeatureAttributes>,
    cache: Seq<u32>,
    upto: int,
) -> Seq<Seq<u8>>
    decreases upto,
{
    if upto <= 0 {
        Seq::empty()
    } else {
        let prev = lovense_pf_writes(subs, attrs, cache, upto - 1);
        if vib_slot(subs, attrs, cache, upto - 1) is Some {
            prev.push(lovense_vibrate_one_bytes(
                upto,
                vib_new_cache(subs, attrs)[upto - 1] as int,
            ))
        } else {
            prev
        }
    }
}

/// A changed feature below `upto` guarantees at least one per-feature write.
proof fn lemma_pf_writes_nonempty(
    subs: Seq<VibrateSubcommand>,
    attrs: Seq<crate::config::FeatureAttributes>,
    cache: Seq<u32>,
    upto: int,
    i: int,
)
    requires
        0 <= i < upto,
        vib_slot(subs, attrs, cache, i) is Some,
    ensures
        lovense_pf_writes(subs, attrs, cache, upto).len() > 0,
    decreases upto,
{
    if i < upto - 1 {
        lemma_pf_writes_nonempty(subs, attrs, cache, upto - 1, i);
    }
}

// ---------------------------------------------------------------------------
// The adapter
// ---------------------------------------------------------------------------

/// Protocol adapter for the Lovense device family.
#[derive(Debug)]
pub struct Lovense {
    pub name: String,
    pub manager: GenericCommandManager,
    pub stop_commands: Vec<AbstractCommand>,
    /// Direction last applied on the wire; the device flips on
    /// `RotateChange;`, so a write is issued only when this disagrees with a
    /// command's direction.
    pub rotation_direction: bool,
}

/// Everything a Lovense vibration command does.
pub open spec fn lovense_vibrate_post(
    pre: Lovense,
    post: Lovense,
    subs: Seq<VibrateSubcommand>,
    r: Result<Vec<DeviceWriteCmd>, ButtplugError>,
) -> bool {
    let attrs = pre.manager.vibrate_attrs@;
    let n = attrs.len() as int;
    let cache = pre.manager.vibrate_cache@;
    &&& post.name@ == pre.name@
    &&& post.stop_commands@ == pre.stop_commands@
    &&& post.rotation_direction == pre.rotation_direction
    &&& post.manager.vibrate_attrs@ == pre.manager.vibrate_attrs@
    &&& post.manager.rotate_attrs@ == pre.manager.rotate_attrs@
    &&& post.manager.rotate_speed_cache@ == pre.manager.rotate_speed_cache@
    &&& post.manager.rotate_direction_cache@ == pre.manager.rotate_direction_cache@
    &&& vib_validation_post(r, subs, n)
    &&& r is Err ==> post == pre
    &&& (vib_cmd_valid(subs, n) && vib_all_unchanged(subs, attrs, cache)) ==> ({
        &&& r matches Ok(w) && w@.len() == 0
        &&& post == pre
    })
    &&& (vib_cmd_valid(subs, n) && !vib_all_unchanged(subs, attrs, cache)) ==> ({
        &&& post.manager.vibrate_cache@ == vib_new_cache(subs, attrs)
        &&& lovense_aggregate(subs, attrs, cache) ==> (r matches Ok(w)
            && w@.len() == 1
            && w@[0].endpoint == Endpoint::Tx
            && w@[0].write_with_response == false
            && w@[0].data@ == lovense_vibrate_all_bytes(vib_new_cache(subs, attrs)[0] as int))
        &&& !lovense_aggregate(subs, attrs, cache) ==> (r matches Ok(w)
            && w@.len() == lovense_pf_writes(subs, attrs, cache, n).len()
            && forall|k: int| 0 <= k < w@.len() ==> ((#[trigger] w@[k]).endpoint == Endpoint::Tx
                && w@[k].write_with_response == false
                && w@[k].data@ == lovense_pf_writes(subs, attrs, cache, n)[k]))
    })
}

/// Everything a Lovense rotation command does: a speed write for a changed
/// first feature, a direction-change write after it exactly when the
/// direction flipped.
pub open spec fn lovense_rotate_post(
    pre: Lovense,
    post: Lovense,
    subs: Seq<RotateSubcommand>,
    r: Result<Vec<DeviceWriteCmd>, ButtplugError>,
) -> bool {
    let attrs = pre.manager.rotate_attrs@;
    let n = attrs.len() as int;
    let speeds = pre.manager.rotate_speed_cache@;
    let dirs = pre.manager.rotate_direction_cache@;
    &&& post.name@ == pre.name@
    &&& post.stop_commands@ == pre.stop_commands@
    &&& post.manager.vibrate_attrs@ == pre.manager.vibrate_attrs@
    &&& post.manager.rotate_attrs@ == pre.manager.rotate_attrs@
    &&& post.manager.vibrate_cache@ == pre.manager.vibrate_cache@
    &&& rot_validation_post(r, subs, n)
    &&& r is Err ==> post == pre
    &&& (rot_cmd_valid(subs, n) && rot_all_unchanged(subs, attrs, speeds, dirs)) ==> ({
        &&& r matches Ok(w) && w@.len() == 0
        &&& post == pre
    })
    &&& (rot_cmd_valid(subs, n) && !rot_all_unchanged(subs, attrs, speeds, dirs)) ==> ({
        &&& post.manager.rotate_speed_cache@ == rot_new_speed_cache(subs, attrs)
        &&& post.manager.rotate_direction_cache@ == rot_new_direction_cache(subs, attrs)
        &&& n > 0 && !rot_changed(subs, attrs, speeds, dirs, 0) ==> (r matches Ok(w)
            && w@.len() == 0 && post.rotation_direction == pre.rotation_direction)
        &&& n > 0 && rot_changed(subs, attrs, speeds, dirs, 0) ==> ({
            let s0 = rot_new_speed_cache(subs, attrs)[0] as int;
            let c0 = rot_direction(subs, 0);
            &&& c0 == pre.rotation_direction ==> (r matches Ok(w)
                && w@.len() == 1
                && w@[0].endpoint == Endpoint::Tx
                && w@[0].write_with_response == false
                && w@[0].data@ == lovense_rotate_bytes(s0)
                && post.rotation_direction == pre.rotation_direction)
            &&& c0 != pre.rotation_direction ==> (r matches Ok(w)
                && w@.len() == 2
                && w@[0].endpoint == Endpoint::Tx
                && w@[0].write_with_response == false
                && w@[0].data@ == lovense_rotate_bytes(s0)
                && w@[1].endpoint == Endpoint::Tx
                && w@[1].write_with_response == false
                && w@[1].data@ == lovense_rotate_change_bytes()
                && post.rotation_direction == c0)
        })
    })
}

impl Lovense {
    pub open spec fn wf(&self) -> bool {
        &&& self.manager.wf()
        &&& is_stop_commands(
            self.stop_commands@,
            self.manager.vibrate_attrs@.len(),
            self.manager.rotate_attrs@.len(),
        )
        &&& self.manager.rotate_attrs@.len() > 0
                ==> self.rotation_direction == self.manager.rotate_direction_cache@[0]
    }

    /// Construct an adapter with a fresh command manager.
    pub fn new(name: &str, attributes: &DeviceAttributes) -> (r: Lovense)
        requires
            attributes.wf(),
        ensures
            r.wf(),
            r.name@ == name@,
            r.manager.vibrate_attrs@ == attributes.vibrate@,
            r.manager.rotate_attrs@ == attributes.rotate@,
            r.manager.vibrate_cache@ == Seq::new(attributes.vibrate@.len(), |i: int| 0u32),
            r.manager.rotate_speed_cache@ == Seq::new(attributes.rotate@.len(), |i: int| 0u32),
            r.manager.rotate_direction_cache@ == Seq::new(attributes.rotate@.len(), |i: int| false),
            r.rotation_direction == false,
    {
        let manager = GenericCommandManager::new(attributes);
        let stop_commands = make_stop_commands(attributes.vibrate.len(), attributes.rotate.len());
        Lovense { name: name.to_owned(), manager, stop_commands, rotation_direction: false }
    }

    /// Finish dynamic construction: resolve the identifier parsed from the
    /// identification handshake through the registry, pick the `en-us`
    /// display name, and build the adapter. An unknown identifier or a
    /// missing name means the identification response was unusable.
    pub fn try_create(identifier: &Vec<u8>, configuration: &DeviceProtocolConfiguration)
        -> (r: Result<Lovense, ButtplugError>)
        requires
            configuration.wf(),
        ensures
            lovense_create_post(configuration.entries@, identifier@, r),
    {
        let ghost entries = configuration.entries@;
        let entry = match configuration.get_attributes(identifier) {
            Some(e) => e,
            None => {
                proof {
                    if exists|j: int| #[trigger] resolvable(entries, identifier@, j) {
                        let j = choose|j: int| #[trigger] resolvable(entries, identifier@, j);
                        assert(entries[j].identifier@ == identifier@);
                        assert(has_entry(entries, identifier@));
                    }
                }
                return Err(ButtplugError::HandshakeFailed);
            },
        };
        let ghost j0 = choose|j: int| 0 <= j < entries.len()
            && (#[trigger] entries[j]).identifier@ == identifier@
            && entry == &entries[j]
            && (forall|k: int| 0 <= k < j ==> entries[k].identifier@ != identifier@);
        let locale = en_us_locale_bytes();
        let name = match find_name(&entry.names, &locale) {
            Some(n) => n,
            None => {
                // No display name under the locale: the first matching entry
                // cannot resolve, and no other entry is the first match.
                proof {
                    if exists|j: int| #[trigger] resolvable(entries, identifier@, j) {
                        let j = choose|j: int| #[trigger] resolvable(entries, identifier@, j);
                        if j < j0 {
                            assert(entries[j].identifier@ == identifier@);
                            assert(false);
                        } else if j0 < j {
                            assert(entries[j0].identifier@ != identifier@);
                            assert(false);
                        } else {
                            assert(has_locale(entries[j0].names@, en_us_locale()));
                            assert(false);
                        }
                    }
                }
                return Err(ButtplugError::HandshakeFailed);
            },
        };
        proof {
            assert(resolvable(entries, identifier@, j0));
        }
        Ok(Lovense::new(name.as_str(), &entry.attributes))
    }

    pub fn name(&self) -> (r: &String)
        ensures
            r@ == self.name@,
    {
        &self.name
    }

    /// The precomputed stop command set; pure.
    pub fn get_stop_commands(&self) -> (r: &Vec<AbstractCommand>)
        ensures
            r@ == self.stop_commands@,
    {
        &self.stop_commands
    }

    /// Translate a vibration command under the family's batching rules.
    #[verifier::loop_isolation(false)]
    pub fn handle_vibrate_cmd(&mut self, msg: &VibrateCmd)
        -> (r: Result<Vec<DeviceWriteCmd>, ButtplugError>)
        requires
            old(self).wf(),
        ensures
            final(self).wf(),
            lovense_vibrate_post(*old(self), *final(self), msg.speeds@, r),
    {
        let ghost subs = msg.speeds@;
        let ghost attrs = self.manager.vibrate_attrs@;
        let ghost cache = self.manager.vibrate_cache@;
        let slots = match self.manager.update_vibration(msg, false) {
            Ok(Some(s)) => s,
            Ok(None) => {
                return Ok(Vec::new());
            },
            Err(e) => {
                return Err(e);
            },
        };
        proof {
            assert(forall|i: int| 0 <= i < slots@.len()
                ==> (#[trigger] slots@[i]) == vib_slot(subs, attrs, cache, i));
        }
        let n = slots.len();
        // Aggregate exactly when the first slot is filled and either the
        // device has one feature or every slot is the same.
        let mut all_equal = true;
        let mut i: usize = 1;
        while i < n
            invariant
                1 <= i <= n || (n == 0 && i == 1),
                all_equal == (forall|k: int| 0 <= k < i && k < n
                    ==> #[trigger] vib_slot(subs, attrs, cache, k) == vib_slot(subs, attrs, cache, 0)),
            decreases n - i,
        {
            let same = match (&slots[i], &slots[0]) {
                (Some(a), Some(b)) => *a == *b,
                (None, None) => true,
                _ => false,
            };
            if !same {
                all_equal = false;
            }
            i += 1;
        }
        let aggregate = n >= 1 && slots[0].is_some() && (n == 1 || all_equal);
        proof {
            assert(aggregate == lovense_aggregate(subs, attrs, cache));
        }
        let mut writes: Vec<DeviceWriteCmd> = Vec::new();
        if aggregate {
            let speed = match slots[0] {
                Some(s) => s,
                None => {
                    proof {
                        assert(false);
                    }
                    0
                },
            };
            writes.push(DeviceWriteCmd {
                endpoint: Endpoint::Tx,
                data: vibrate_all_cmd_bytes(speed),
                write_with_response: false,
            });
            return Ok(writes);
        }
        let mut i: usize = 0;
        while i < n
            invariant
                0 <= i <= n,
                writes@.len() == lovense_pf_writes(subs, attrs, cache, i as int).len(),
                forall|k: int| 0 <= k < writes@.len() ==> ((#[trigger] writes@[k]).endpoint == Endpoint::Tx
                    && writes@[k].write_with_response == false
                    && writes@[k].data@ == lovense_pf_writes(subs, attrs, cache, i as int)[k]),
            decreases n - i,
        {
            match slots[i] {
                Some(speed) => {
                    writes.push(DeviceWriteCmd {
                        endpoint: Endpoint::Tx,
                        data: vibrate_one_cmd_bytes((i + 1) as u32, speed),
                        write_with_response: false,
                    });
                },
                None => {},
            }
            i += 1;
        }
        Ok(writes)
    }

    /// Translate a rotation command: a speed write when the first feature's
    /// rotation state changed, then a direction-change write when its
    /// direction disagrees with the one last applied on the wire.
    pub fn handle_rotate_cmd(&mut self, msg: &RotateCmd)
        -> (r: Result<Vec<DeviceWriteCmd>, ButtplugError>)
        requires
            old(self).wf(),
        ensures
            final(self).wf(),
            lovense_rotate_post(*old(self), *final(self), msg.rotations@, r),
    {
        let ghost subs = msg.rotations@;
        let ghost attrs = self.manager.rotate_attrs@;
        let ghost speeds = self.manager.rotate_speed_cache@;
        let ghost dirs = self.manager.rotate_direction_cache@;
        let slots = match self.manager.update_rotation(msg) {
            Ok(Some(s)) => s,
            Ok(None) => {
                return Ok(Vec::new());
            },
            Err(e) => {
                return Err(e);
            },
        };
        let mut writes: Vec<DeviceWriteCmd> = Vec::new();
        if slots.len() > 0 {
            match slots[0] {
                Some(rv) => {
                    writes.push(DeviceWriteCmd {
                        endpoint: Endpoint::Tx,
                        data: rotate_cmd_bytes(rv.speed),
                        write_with_response: false,
                    });
                    if rv.clockwise != self.rotation_direction {
                        self.rotation_direction = rv.clockwise;
                        writes.push(DeviceWriteCmd {
                            endpoint: Endpoint::Tx,
                            data: rotate_change_cmd_bytes(),
                            write_with_response: false,
                        });
                    }
                },
                None => {},
            }
        }
        Ok(writes)
    }

    /// Replay the precomputed stop command set through the normal vibrate
    /// and rotate paths: every cached value is driven to rest, and a device
    /// already at rest sees zero writes.
    pub fn handle_stop_device_cmd(&mut self) -> (r: Result<Vec<DeviceWriteCmd>, ButtplugError>)
        requires
            old(self).wf(),
        ensures
            final(self).wf(),
            lovense_stop_post(*old(self), *final(self), r),
    {
        let ghost pre = *old(self);
        let ghost vib_attrs = self.manager.vibrate_attrs@;
        let ghost rot_attrs = self.manager.rotate_attrs@;
        let n_vib = self.manager.vibrate_attrs.len();
        let n_rot = self.manager.rotate_attrs.len();
        let mut writes: Vec<DeviceWriteCmd> = Vec::new();
        if n_vib > 0 {
            let stop = make_stop_vibrate_cmd(n_vib);
            proof {
                crate::manager::lemma_stop_vibrate_drives_to_rest(
                    self.manager.vibrate_attrs@,
                    self.manager.vibrate_cache@,
                );
                if !vib_all_unchanged(
                    crate::manager::stop_vibrate_subs(n_vib as nat),
                    vib_attrs,
                    pre.manager.vibrate_cache@,
                ) && !lovense_aggregate(
                    crate::manager::stop_vibrate_subs(n_vib as nat),
                    vib_attrs,
                    pre.manager.vibrate_cache@,
                ) {
                    let subs = crate::manager::stop_vibrate_subs(n_vib as nat);
                    let cache = pre.manager.vibrate_cache@;
                    let w = choose|i: int| 0 <= i < vib_attrs.len()
                        && vib_quantized(subs, vib_attrs, i) != cache[i] as int;
                    lemma_pf_writes_nonempty(subs, vib_attrs, cache, n_vib as int, w);
                }
            }
            let mut w = match self.handle_vibrate_cmd(&stop) {
                Ok(w) => w,
                Err(e) => {
                    return Err(e);
                },
            };
            writes.append(&mut w);
        }
        proof {
            assert(self.manager.vibrate_cache@ =~= Seq::new(vib_attrs.len(), |i: int| 0u32));
        }
        let ghost mid = *self;
        let ghost vib_writes = writes@;
        if n_rot > 0 {
            let stop = make_stop_rotate_cmd(n_rot);
            proof {
                crate::manager::lemma_stop_rotate_drives_to_rest(
                    self.manager.rotate_attrs@,
                    self.manager.rotate_speed_cache@,
                    self.manager.rotate_direction_cache@,
                );
            }
            let mut w = match self.handle_rotate_cmd(&stop) {
                Ok(w) => w,
                Err(e) => {
                    return Err(e);
                },
            };
            writes.append(&mut w);
        }
        proof {
            assert(self.manager.rotate_speed_cache@ =~= Seq::new(rot_attrs.len(), |i: int| 0u32));
            assert(self.manager.rotate_direction_cache@ =~= Seq::new(rot_attrs.len(), |i: int| false));
            let vib_rest = pre.manager.vibrate_cache@ == Seq::new(vib_attrs.len(), |i: int| 0u32);
            let rot_rest = pre.manager.rotate_speed_cache@ == Seq::new(rot_attrs.len(), |i: int| 0u32)
                && pre.manager.rotate_direction_cache@ == Seq::new(rot_attrs.len(), |i: int| false);
            if vib_rest && rot_rest {
                assert(pre.manager.vibrate_cache@ =~= Seq::new(vib_attrs.len(), |i: int| 0u32));
                assert(mid == pre);
                assert(*self == pre);
                assert(writes@.len() == 0);
            }
            if !vib_rest {
                assert(vib_writes.len() > 0);
                assert(writes@.len() > 0);
            }
        }
        Ok(writes)
    }

    /// Dispatch an abstract command by kind. Linear motion has no
    /// translation in this family.
    pub fn handle(&mut self, cmd: &AbstractCommand) -> (r: Result<Vec<DeviceWriteCmd>, ButtplugError>)
        requires
            old(self).wf(),
        ensures
            final(self).wf(),
            lovense_handle_post(*old(self), *final(self), *cmd, r),
    {
        match cmd {
            AbstractCommand::Vibrate(msg) => self.handle_vibrate_cmd(msg),
            AbstractCommand::Rotate(msg) => self.handle_rotate_cmd(msg),
            AbstractCommand::Stop(_) => self.handle_stop_device_cmd(),
            AbstractCommand::LinearMove(_) => Err(ButtplugError::UnsupportedCommand),
        }
    }
}

/// Everything [`Lovense::handle`] does, by command kind.
pub open spec fn lovense_handle_post(
    pre: Lovense,
    post: Lovense,
    cmd: AbstractCommand,
    r: Result<Vec<DeviceWriteCmd>, ButtplugError>,
) -> bool {
    &&& cmd matches AbstractCommand::Vibrate(m) ==> lovense_vibrate_post(pre, post, m.speeds@, r)
    &&& cmd matches AbstractCommand::Rotate(m) ==> lovense_rotate_post(pre, post, m.rotations@, r)
    &&& cmd matches AbstractCommand::Stop(_) ==> lovense_stop_post(pre, post, r)
    &&& cmd matches AbstractCommand::LinearMove(_) ==> (post == pre
        && r == Err::<Vec<DeviceWriteCmd>, ButtplugError>(ButtplugError::UnsupportedCommand))
}

/// Everything a Lovense stop does: replayed through the normal paths, it
/// drives every cached value to rest (writes are issued exactly for the
/// features not already at rest) and never fails; repeating it immediately
/// produces zero writes.
pub open spec fn lovense_stop_post(
    pre: Lovense,
    post: Lovense,
    r: Result<Vec<DeviceWriteCmd>, ButtplugError>,
) -> bool {
    let n_vib = pre.manager.vibrate_attrs@.len();
    let n_rot = pre.manager.rotate_attrs@.len();
    let vib_rest = pre.manager.vibrate_cache@ == Seq::new(n_vib, |i: int| 0u32);
    let rot_rest = pre.manager.rotate_speed_cache@ == Seq::new(n_rot, |i: int| 0u32)
        && pre.manager.rotate_direction_cache@ == Seq::new(n_rot, |i: int| false);
    &&& r is Ok
    &&& post.name@ == pre.name@
    &&& post.stop_commands@ == pre.stop_commands@
    &&& post.manager.vibrate_attrs@ == pre.manager.vibrate_attrs@
    &&& post.manager.rotate_attrs@ == pre.manager.rotate_attrs@
    &&& post.manager.vibrate_cache@ == Seq::new(n_vib, |i: int| 0u32)
    &&& post.manager.rotate_speed_cache@ == Seq::new(n_rot, |i: int| 0u32)
    &&& post.manager.rotate_direction_cache@ == Seq::new(n_rot, |i: int| false)
    &&& (vib_rest && rot_rest) ==> (r matches Ok(w) && w@.len() == 0 && post == pre)
    &&& !vib_rest ==> (r matches Ok(w) && w@.len() > 0)
}

/// What dynamic construction yields: a fresh, well-formed adapter built from
/// the first registry entry carrying the identifier, or a handshake error
/// when the identifier is unknown or has no `en-us` display name.
/// The registry row that resolves `identifier`: the first entry carrying
/// it, provided that entry has a display name under the adapter's locale.
pub open spec fn resolvable(
    entries: Seq<crate::config::ConfigEntry>,
    identifier: Seq<u8>,
    j: int,
) -> bool {
    &&& 0 <= j < entries.len()
    &&& entries[j].identifier@ == identifier
    &&& (forall|k: int| 0 <= k < j ==> entries[k].identifier@ != identifier)
    &&& has_locale(entries[j].names@, en_us_locale())
}

pub open spec fn lovense_create_post(
    entries: Seq<crate::config::ConfigEntry>,
    identifier: Seq<u8>,
    r: Result<Lovense, ButtplugError>,
) -> bool {
    &&& !has_entry(entries, identifier)
            ==> r == Err::<Lovense, ButtplugError>(ButtplugError::HandshakeFailed)
    &&& r is Err ==> r == Err::<Lovense, ButtplugError>(ButtplugError::HandshakeFailed)
    &&& (r is Ok <==> exists|j: int| #[trigger] resolvable(entries, identifier, j))
    &&& r matches Ok(l) ==> ({
        &&& l.wf()
        &&& l.rotation_direction == false
        &&& exists|j: int| 0 <= j < entries.len()
            && (#[trigger] entries[j]).identifier@ == identifier
            && (forall|k: int| 0 <= k < j ==> entries[k].identifier@ != identifier)
            && l.manager.vibrate_attrs@ == entries[j].attributes.vibrate@
            && l.manager.rotate_attrs@ == entries[j].attributes.rotate@
            && has_locale(entries[j].names@, en_us_locale())
            && l.manager.vibrate_cache@ == Seq::new(
                entries[j].attributes.vibrate@.len(), |i: int| 0u32)
            && l.manager.rotate_speed_cache@ == Seq::new(
                entries[j].attributes.rotate@.len(), |i: int| 0u32)
            && l.manager.rotate_direction_cache@ == Seq::new(
                entries[j].attributes.rotate@.len(), |i: int| false)
    })
}

impl Lovense {
    /// Finish the identification handshake: a resolved state constructs the
    /// adapter through the registry; any other outcome is a handshake
    /// failure — in particular, no command manager is ever created for a
    /// device that was removed mid-probe.
    pub fn from_handshake(
        state: crate::handshake::HandshakeState,
        configuration: &DeviceProtocolConfiguration,
    ) -> (r: Result<Lovense, ButtplugError>)
        requires
            configuration.wf(),
        ensures
            state matches crate::handshake::HandshakeState::Resolved(id)
                ==> lovense_create_post(configuration.entries@, id@, r),
            !(state is Resolved)
                ==> r == Err::<Lovense, ButtplugError>(ButtplugError::HandshakeFailed),
    {
        match state {
            crate::handshake::HandshakeState::Resolved(id) => {
                Lovense::try_create(&id, configuration)
            },
            _ => Err(ButtplugError::HandshakeFailed),
        }
    }
}

/// Idempotence at the wire: when one vibration command runs twice in a row
/// through [`Lovense::handle_vibrate_cmd`] (each call meeting that
/// function's contract), the second call returns zero writes and leaves the
/// adapter untouched.
pub proof fn lemma_lovense_vibrate_idempotent(
    pre: Lovense,
    mid: Lovense,
    post: Lovense,
    subs: Seq<VibrateSubcommand>,
    r1: Result<Vec<DeviceWriteCmd>, ButtplugError>,
    r2: Result<Vec<DeviceWriteCmd>, ButtplugError>,
)
    requires
        pre.wf(),
        vib_cmd_valid(subs, pre.manager.vibrate_attrs@.len() as int),
        lovense_vibrate_post(pre, mid, subs, r1),
        lovense_vibrate_post(mid, post, subs, r2),
    ensures
        r2 matches Ok(w) && w@.len() == 0,
        post == mid,
{
    let attrs = pre.manager.vibrate_attrs@;
    if !vib_all_unchanged(subs, attrs, pre.manager.vibrate_cache@) {
        crate::manager::lemma_vibrate_idempotent(subs, attrs);
    }
}

/// Stop idempotence at the wire: a stop immediately after a stop finds every
/// cached value already at rest, returns zero writes, and leaves the adapter
/// untouched.
pub proof fn lemma_lovense_stop_idempotent(
    pre: Lovense,
    mid: Lovense,
    post: Lovense,
    r1: Result<Vec<DeviceWriteCmd>, ButtplugError>,
    r2: Result<Vec<DeviceWriteCmd>, ButtplugError>,
)
    requires
        lovense_stop_post(pre, mid, r1),
        lovense_stop_post(mid, post, r2),
    ensures
        r2 matches Ok(w) && w@.len() == 0,
        post == mid,
{
}

/// The locale tag the adapter resolves display names under.
pub open spec fn en_us_locale() -> Seq<u8> {
    seq![101u8, 110u8, 45u8, 117u8, 115u8]
}

fn en_us_locale_bytes() -> (r: Vec<u8>)
    ensures
        r@ == en_us_locale(),
{
    let mut v: Vec<u8> = Vec::new();
    v.push(101);
    v.push(110);
    v.push(45);
    v.push(117);
    v.push(115);
    proof {
        assert(v@ =~= en_us_locale());
    }
    v
}

} // verus!
