//! Feature attributes and the device capability registry's lookup interface.

use vstd::prelude::*;
use crate::messages::Endpoint;

verus! {

/// What the registry knows about one feature: its step resolution and the
/// channel its writes go to.
#[derive(Clone, Copy, Debug, PartialEq, Eq, Structural)]
pub struct FeatureAttributes {
    /// Number of steps the feature supports; at least 1.
    pub step_count: u32,
    /// Channel identifier for writes addressing this feature.
    pub channel: Endpoint,
}

/// Registry-sourced attributes of one device, per command kind.
#[derive(Debug)]
pub struct DeviceAttributes {
    pub vibrate: Vec<FeatureAttributes>,
    pub rotate: Vec<FeatureAttributes>,
}

/// Every step resolution is at least 1, and the feature count small enough
/// that features can be addressed by `u32` index.
pub open spec fn features_wf(attrs: Seq<FeatureAttributes>) -> bool {
    &&& attrs.len() <= u32::MAX
    &&& forall|i: int| 0 <= i < attrs.len() ==> (#[trigger] attrs[i]).step_count >= 1
}

impl DeviceAttributes {
    pub open spec fn wf(&self) -> bool {
        features_wf(self.vibrate@) && features_wf(self.rotate@)
    }
}

/// A device display name in one locale.
#[derive(Debug)]
pub struct LocalizedName {
    /// Locale tag, e.g. `b"en-us"`.
    pub locale: Vec<u8>,
    pub name: String,
}

/// One registry row: a raw device identifier with its display names and
/// feature attributes.
#[derive(Debug)]
pub struct ConfigEntry {
    pub identifier: Vec<u8>,
    pub names: Vec<LocalizedName>,
    pub attributes: DeviceAttributes,
}

/// The device capability registry's lookup interface: a pure, in-memory
/// identifier-to-attributes table.
#[derive(Debug)]
pub struct DeviceProtocolConfiguration {
    pub entries: Vec<ConfigEntry>,
}

impl DeviceProtocolConfiguration {
    pub open spec fn wf(&self) -> bool {
        forall|i: int| 0 <= i < self.entries@.len() ==> (#[trigger] self.entries@[i]).attributes.wf()
    }
}

/// Byte-string equality.
pub fn bytes_eq(a: &Vec<u8>, b: &Vec<u8>) -> (r: bool)
    ensures
        r == (a@ == b@),
{
    if a.len() != b.len() {
        assert(a@ != b@);
        return false;
    }
    let n = a.len();
    let mut i: usize = 0;
    while i < n
        invariant
            n == a@.len() == b@.len(),
            0 <= i <= n,
            forall|k: int| 0 <= k < i ==> a@[k] == b@[k],
        decreases n - i,
    {
        if a[i] != b[i] {
            return false;
        }
        i += 1;
    }
    proof {
        assert(a@ =~= b@);
    }
    true
}

/// Whether some entry of `entries` carries `ident` as its identifier.
pub open spec fn has_entry(entries: Seq<ConfigEntry>, ident: Seq<u8>) -> bool {
    exists|j: int| 0 <= j < entries.len() && (#[trigger] entries[j]).identifier@ == ident
}

/// Whether some name of `names` carries `locale` as its locale tag.
pub open spec fn has_locale(names: Seq<LocalizedName>, locale: Seq<u8>) -> bool {
    exists|j: int| 0 <= j < names.len() && (#[trigger] names[j]).locale@ == locale
}

impl DeviceProtocolConfiguration {
    /// Resolve a raw device identifier to its registry row. A miss is a
    /// normal outcome the caller must handle, not an error.
    ///
    /// Returns the first entry whose identifier matches.
    pub fn get_attributes(&self, identifier: &Vec<u8>) -> (r: Option<&ConfigEntry>)
        ensures
            r is Some <==> has_entry(self.entries@, identifier@),
            r matches Some(e) ==> exists|j: int|
                0 <= j < self.entries@.len()
                && (#[trigger] self.entries@[j]).identifier@ == identifier@
                && e == &self.entries@[j]
                && forall|k: int| 0 <= k < j ==> self.entries@[k].identifier@ != identifier@,
    {
        let n = self.entries.len();
        let mut i: usize = 0;
        while i < n
            invariant
                n == self.entries@.len(),
                0 <= i <= n,
                forall|k: int| 0 <= k < i ==> (#[trigger] self.entries@[k]).identifier@ != identifier@,
            decreases n - i,
        {
            if bytes_eq(&self.entries[i].identifier, identifier) {
                return Some(&self.entries[i]);
            }
            i += 1;
        }
        None
    }
}

/// Find the display name for a locale tag: the first matching entry.
pub fn find_name<'a>(names: &'a Vec<LocalizedName>, locale: &Vec<u8>) -> (r: Option<&'a String>)
    ensures
        r is Some <==> has_locale(names@, locale@),
        r matches Some(s) ==> exists|j: int|
            0 <= j < names@.len()
            && (#[trigger] names@[j]).locale@ == locale@
            && s == &names@[j].name
            && forall|k: int| 0 <= k < j ==> names@[k].locale@ != locale@,
{
    let n = names.len();
    let mut i: usize = 0;
    while i < n
        invariant
            n == names@.len(),
            0 <= i <= n,
            forall|k: int| 0 <= k < i ==> (#[trigger] names@[k]).locale@ != locale@,
        decreases n - i,
    {
        if bytes_eq(&names[i].locale, locale) {
            return Some(&names[i].name);
        }
        i += 1;
    }
    None
}

} // verus!
