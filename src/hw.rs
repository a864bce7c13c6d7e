//! Hardware acceleration devices: their kinds, which kinds take a physical
//! interface index, and the pool of devices built once per process.
use vstd::prelude::*;

verus! {

/// Physical hardware device identifier.
#[derive(Debug, Clone, Copy, PartialEq, Eq, Structural)]
pub enum HWDeviceIndex {
    /// A device that takes no index.
    Global,
    /// A device on the physical interface with this index.
    Index(u8),
}

impl From<u8> for HWDeviceIndex {
    fn from(index: u8) -> (r: Self)
        ensures
            r == HWDeviceIndex::Index(index),
    {
        HWDeviceIndex::Index(index)
    }
}

impl vstd::std_specs::convert::FromSpecImpl<u8> for HWDeviceIndex {
    open spec fn obeys_from_spec() -> bool {
        true
    }

    open spec fn from_spec(index: u8) -> Self {
        HWDeviceIndex::Index(index)
    }
}

/// Kinds of hardware acceleration device the decode library knows.
#[derive(Debug, Clone, Copy, PartialEq, Eq, Structural)]
pub enum HWDeviceKind {
    Vdpau,
    Cuda,
    Vaapi,
    Dxva2,
    Qsv,
    VideoToolbox,
    D3d11va,
    Drm,
    OpenCl,
    MediaCodec,
    Vulkan,
    D3d12va,
}

/// Whether devices of this kind are addressed by a physical interface index.
pub open spec fn indexable(k: HWDeviceKind) -> bool {
    k is Cuda || k is Drm || k is Vaapi || k is Vulkan
}

impl HWDeviceKind {
    /// Whether devices of this kind are addressed by a physical interface index.
    pub fn is_indexable(&self) -> (r: bool)
        ensures
            r == indexable(*self),
    {
        match self {
            HWDeviceKind::Cuda | HWDeviceKind::Drm | HWDeviceKind::Vaapi | HWDeviceKind::Vulkan => true,
            _ => false,
        }
    }
}

/// The kinds of `s`, in order, that are (`want` true) or are not indexable.
pub open spec fn kinds_where(s: Seq<HWDeviceKind>, want: bool) -> Seq<HWDeviceKind>
    decreases s.len(),
{
    if s.len() == 0 {
        Seq::empty()
    } else {
        let p = kinds_where(s.drop_last(), want);
        if indexable(s.last()) == want {
            p.push(s.last())
        } else {
            p
        }
    }
}

fn select_kinds(all: &Vec<HWDeviceKind>, want: bool) -> (r: Vec<HWDeviceKind>)
    ensures
        r@ == kinds_where(all@, want),
{
    let mut out: Vec<HWDeviceKind> = Vec::new();
    let mut i: usize = 0;
    while i < all.len()
        invariant
            i <= all@.len(),
            out@ == kinds_where(all@.subrange(0, i as int), want),
        decreases all@.len() - i,
    {
        let k = all[i];
        proof {
            let next = all@.subrange(0, i + 1);
            assert(next.drop_last() =~= all@.subrange(0, i as int));
            assert(next.last() == k);
        }
        if k.is_indexable() == want {
            out.push(k);
        }
        i += 1;
    }
    assert(all@.subrange(0, all@.len() as int) =~= all@);
    out
}

/// Of the supported kinds `all`, those that take an interface index, in order.
pub fn all_indexable(all: &Vec<HWDeviceKind>) -> (r: Vec<HWDeviceKind>)
    ensures
        r@ == kinds_where(all@, true),
{
    select_kinds(all, true)
}

/// Of the supported kinds `all`, those that take no index, in order.
pub fn all_global(all: &Vec<HWDeviceKind>) -> (r: Vec<HWDeviceKind>)
    ensures
        r@ == kinds_where(all@, false),
{
    select_kinds(all, false)
}

/// Whether `kind` is among the supported kinds `all`.
pub fn is_available(all: &Vec<HWDeviceKind>, kind: HWDeviceKind) -> (r: bool)
    ensures
        r == all@.contains(kind),
{
    let mut i: usize = 0;
    while i < all.len()
        invariant
            i <= all@.len(),
            forall|j: int| 0 <= j < i ==> all@[j] != kind,
        decreases all@.len() - i,
    {
        if all[i] == kind {
            return true;
        }
        i += 1;
    }
    false
}

/// The first device of kind `k` in `s`.
pub open spec fn first_in<D>(s: Seq<(HWDeviceKind, D)>, k: HWDeviceKind) -> Option<D>
    decreases s.len(),
{
    if s.len() == 0 {
        None
    } else if s[0].0 == k {
        Some(s[0].1)
    } else {
        first_in(s.drop_first(), k)
    }
}

/// The first device of kind `k` over the interfaces `ifs`, in index order.
pub open spec fn first_in_interfaces<D>(ifs: Seq<Seq<(HWDeviceKind, D)>>, k: HWDeviceKind) -> Option<D>
    decreases ifs.len(),
{
    if ifs.len() == 0 {
        None
    } else {
        match first_in(ifs[0], k) {
            Some(d) => Some(d),
            None => first_in_interfaces(ifs.drop_first(), k),
        }
    }
}

/// Most physical interfaces probed.
pub const MAX_INTERFACES: u8 = 4;

/// The usable hardware devices: those that take no index, and per physical
/// interface, numbered densely from 0, those on it. Probing stops at the first
/// interface that yields no device.
pub struct HWDevicePool<D> {
    global: Vec<(HWDeviceKind, D)>,
    devices: Vec<(u8, Vec<(HWDeviceKind, D)>)>,
    closed: bool,
}

impl<D> HWDevicePool<D> {
    #[verifier::type_invariant]
    spec fn inv(&self) -> bool {
        &&& self.devices@.len() <= MAX_INTERFACES
        &&& forall|i: int| 0 <= i < self.devices@.len() ==> self.devices@[i].0 == i
        &&& forall|i: int| 0 <= i < self.devices@.len() ==> self.devices@[i].1@.len() > 0
    }

    /// Devices that take no index.
    pub closed spec fn global_spec(&self) -> Seq<(HWDeviceKind, D)> {
        self.global@
    }

    /// Devices per interface, in index order.
    pub closed spec fn interfaces(&self) -> Seq<Seq<(HWDeviceKind, D)>> {
        self.devices@.map_values(|p: (u8, Vec<(HWDeviceKind, D)>)| p.1@)
    }

    /// Whether probing has stopped on an interface without devices.
    pub closed spec fn is_closed(&self) -> bool {
        self.closed
    }

    /// The first device of kind `k`: among those that take no index, then over the
    /// interfaces in index order.
    pub open spec fn first_spec(&self, k: HWDeviceKind) -> Option<D> {
        match first_in(self.global_spec(), k) {
            Some(d) => Some(d),
            None => first_in_interfaces(self.interfaces(), k),
        }
    }

    /// The interface to probe next, if probing goes on.
    pub open spec fn next_probe_spec(&self) -> Option<u8> {
        if self.is_closed() || self.interfaces().len() >= MAX_INTERFACES {
            None
        } else {
            Some(self.interfaces().len() as u8)
        }
    }

    /// A pool with the devices that take no index, and no interface probed yet.
    pub fn new(global: Vec<(HWDeviceKind, D)>) -> (p: Self)
        ensures
            p.global_spec() == global@,
            p.interfaces().len() == 0,
            !p.is_closed(),
    {
        HWDevicePool { global, devices: Vec::new(), closed: false }
    }

    /// The index of the interface to probe next: `None` once an interface yielded
    /// no device or every interface was probed.
    pub fn next_probe(&self) -> (r: Option<u8>)
        ensures
            r == self.next_probe_spec(),
    {
        proof {
            use_type_invariant(self);
        }
        if self.closed || self.devices.len() >= MAX_INTERFACES as usize {
            None
        } else {
            Some(self.devices.len() as u8)
        }
    }

    /// Records the devices that probing the next interface yielded. None at all
    /// ends probing; otherwise they are kept under that interface's index.
    pub fn add_interface(&mut self, found: Vec<(HWDeviceKind, D)>)
        requires
            old(self).next_probe_spec() is Some,
        ensures
            final(self).global_spec() == old(self).global_spec(),
            found@.len() == 0 ==> final(self).is_closed() && final(self).interfaces() == old(self).interfaces(),
            found@.len() > 0 ==> !final(self).is_closed() && final(self).interfaces() == old(self).interfaces().push(found@),
    {
        proof {
            use_type_invariant(&*self);
        }
        if found.len() == 0 {
            self.closed = true;
        } else {
            let index = self.devices.len() as u8;
            let ghost before = self.devices@;
            let mut devices = Vec::new();
            std::mem::swap(&mut devices, &mut self.devices);
            devices.push((index, found));
            let mut global = Vec::new();
            std::mem::swap(&mut global, &mut self.global);
            *self = HWDevicePool { global, devices, closed: false };
            proof {
                assert(self.interfaces() =~= before.map_values(|p: (u8, Vec<(HWDeviceKind, D)>)| p.1@).push(found@));
            }
        }
    }

    /// The first device of kind `k`: among those that take no index, then over the
    /// interfaces in index order.
    pub fn first(&self, k: HWDeviceKind) -> (r: Option<&D>)
        ensures
            r matches Some(d) ==> self.first_spec(k) == Some(*d),
            r is None ==> self.first_spec(k) is None,
    {
        match find_in(&self.global, k) {
            Some(d) => Some(d),
            None => {
                let mut i: usize = 0;
                assert(self.interfaces().subrange(0, self.interfaces().len() as int) =~= self.interfaces());
                while i < self.devices.len()
                    invariant
                        i <= self.devices@.len(),
                        first_in(self.global_spec(), k) is None,
                        first_in_interfaces(self.interfaces(), k) == first_in_interfaces(
                            self.interfaces().subrange(i as int, self.interfaces().len() as int),
                            k,
                        ),
                    decreases self.devices@.len() - i,
                {
                    let ghost rest = self.interfaces().subrange(i as int, self.interfaces().len() as int);
                    proof {
                        assert(rest[0] == self.devices@[i as int].1@);
                        assert(rest.drop_first() =~= self.interfaces().subrange(i + 1, self.interfaces().len() as int));
                    }
                    match find_in(&self.devices[i].1, k) {
                        Some(d) => {
                            return Some(d);
                        },
                        None => {},
                    }
                    i += 1;
                }
                None
            },
        }
    }
}

fn find_in<D>(s: &Vec<(HWDeviceKind, D)>, k: HWDeviceKind) -> (r: Option<&D>)
    ensures
        r matches Some(d) ==> first_in(s@, k) == Some(*d),
        r is None ==> first_in(s@, k) is None,
{
    let mut i: usize = 0;
    assert(s@.subrange(0, s@.len() as int) =~= s@);
    while i < s.len()
        invariant
            i <= s@.len(),
            first_in(s@, k) == first_in(s@.subrange(i as int, s@.len() as int), k),
        decreases s@.len() - i,
    {
        let ghost rest = s@.subrange(i as int, s@.len() as int);
        proof {
            assert(rest[0] == s@[i as int]);
            assert(rest.drop_first() =~= s@.subrange(i + 1, s@.len() as int));
        }
        if s[i].0 == k {
            return Some(&s[i].1);
        }
        i += 1;
    }
    None
}

} // verus!
