//! The RTL-SDR devices on the bus.

use crate::error::{ErrorView, RtlsdrError};
use vstd::prelude::*;

verus! {

/// Who made a USB device, and which of their products it is.
#[derive(Debug, Clone, Copy, PartialEq, Eq, Structural)]
pub struct UsbIds {
    pub vendor_id: u16,
    pub product_id: u16,
}

/// What was read from a device that could be opened. A string that the device does not have, or
/// that could not be read, is `None`.
#[derive(Debug)]
pub struct Probe {
    pub ids: UsbIds,
    pub manufacturer: Option<String>,
    pub product: Option<String>,
    pub serial: Option<String>,
}

/// A device on the bus: its ids, if they could be read; whether a device with these ids is known
/// to be an RTL-SDR; and what was read from it, if it could be opened.
#[derive(Debug)]
pub struct BusDevice {
    pub ids: Option<UsbIds>,
    pub known: bool,
    pub probe: Option<Probe>,
}

#[derive(Debug, Clone, PartialEq, Eq)]
pub struct DeviceDescriptor {
    pub index: usize,
    pub vendor_id: u16,
    pub product_id: u16,
    pub manufacturer: String,
    pub product: String,
    pub serial: String,
}

/// A [`DeviceDescriptor`] with its strings as sequences of characters.
#[verifier::ext_equal]
pub struct DescriptorView {
    pub index: int,
    pub vendor_id: u16,
    pub product_id: u16,
    pub manufacturer: Seq<char>,
    pub product: Seq<char>,
    pub serial: Seq<char>,
}

impl View for DeviceDescriptor {
    type V = DescriptorView;

    open spec fn view(&self) -> DescriptorView {
        DescriptorView {
            index: self.index as int,
            vendor_id: self.vendor_id,
            product_id: self.product_id,
            manufacturer: self.manufacturer@,
            product: self.product@,
            serial: self.serial@,
        }
    }
}

/// A string of a device; empty if there is none.
pub open spec fn text_or_empty(read: Option<String>) -> Seq<char> {
    match read {
        Some(text) => text@,
        None => Seq::empty(),
    }
}

impl Probe {
    /// The descriptor of the device, as the RTL-SDR with the given index.
    pub open spec fn descriptor(self, index: int) -> DescriptorView {
        DescriptorView {
            index,
            vendor_id: self.ids.vendor_id,
            product_id: self.ids.product_id,
            manufacturer: text_or_empty(self.manufacturer),
            product: text_or_empty(self.product),
            serial: text_or_empty(self.serial),
        }
    }
}

impl BusDevice {
    /// Whether the device is an RTL-SDR.
    pub open spec fn is_rtlsdr(self) -> bool {
        self.ids is Some && self.known
    }
}

/// How many of the devices are RTL-SDRs.
pub open spec fn rtlsdr_count(list: Seq<BusDevice>) -> nat
    decreases list.len(),
{
    if list.len() == 0 {
        0
    } else {
        rtlsdr_count(list.drop_last()) + if list.last().is_rtlsdr() {
            1nat
        } else {
            0
        }
    }
}

/// The descriptors of the RTL-SDRs that could be opened, in the order of the bus. The index of a
/// device is the number of RTL-SDRs before it, whether those could be opened or not.
pub open spec fn descriptors(list: Seq<BusDevice>) -> Seq<DescriptorView>
    decreases list.len(),
{
    if list.len() == 0 {
        Seq::empty()
    } else {
        let before = descriptors(list.drop_last());
        match list.last().probe {
            Some(probe) if list.last().is_rtlsdr() => before.push(
                probe.descriptor(rtlsdr_count(list.drop_last()) as int),
            ),
            _ => before,
        }
    }
}

/// A string of a device; empty if there is none.
fn read_string(read: &Option<String>) -> (text: String)
    ensures
        text@ == text_or_empty(*read),
{
    match read {
        Some(text) => text.clone(),
        None => String::new(),
    }
}

/// A walk over the bus that gives the RTL-SDRs their indices.
#[derive(Debug)]
pub struct DeviceScan {
    pub next_index: usize,
}

impl DeviceScan {
    pub fn new() -> (scan: DeviceScan)
        ensures
            scan.next_index == 0,
    {
        DeviceScan { next_index: 0 }
    }

    /// The index of the next device on the bus, if it is an RTL-SDR and so is to be opened.
    pub fn give_index(&mut self, ids: Option<UsbIds>, known: bool) -> (index: Option<usize>)
        requires
            old(self).next_index < usize::MAX,
        ensures
            match index {
                Some(i) => {
                    &&& ids is Some && known
                    &&& i == old(self).next_index
                    &&& final(self).next_index == i + 1
                },
                None => {
                    &&& !(ids is Some && known)
                    &&& final(self).next_index == old(self).next_index
                },
            },
    {
        if ids.is_some() && known {
            let index: usize = self.next_index;
            self.next_index = index + 1;
            Some(index)
        } else {
            None
        }
    }

    /// The descriptor of an RTL-SDR with its index; none if the device could not be opened.
    pub fn describe(index: usize, probe: &Option<Probe>) -> (d: Option<DeviceDescriptor>)
        ensures
            match (d, *probe) {
                (Some(d), Some(p)) => d@ == p.descriptor(index as int),
                (None, None) => true,
                _ => false,
            },
    {
        match probe {
            Some(p) => Some(
                DeviceDescriptor {
                    index,
                    vendor_id: p.ids.vendor_id,
                    product_id: p.ids.product_id,
                    manufacturer: read_string(&p.manufacturer),
                    product: read_string(&p.product),
                    serial: read_string(&p.serial),
                },
            ),
            None => None,
        }
    }
}

/// The devices on the bus, as they were found.
#[derive(Debug)]
pub struct DeviceDescriptors {
    pub list: Vec<BusDevice>,
}

impl View for DeviceDescriptors {
    type V = Seq<BusDevice>;

    open spec fn view(&self) -> Seq<BusDevice> {
        self.list@
    }
}

/// Descriptors with their strings as sequences of characters.
pub open spec fn descriptor_views(found: Seq<DeviceDescriptor>) -> Seq<DescriptorView> {
    found.map_values(|d: DeviceDescriptor| d@)
}

impl DeviceDescriptors {
    pub fn new(list: Vec<BusDevice>) -> (d: DeviceDescriptors)
        ensures
            d@ == list@,
    {
        DeviceDescriptors { list }
    }

    /// Returns the found RTL-SDR devices.
    pub fn iter(&self) -> (found: Vec<DeviceDescriptor>)
        ensures
            descriptor_views(found@) == descriptors(self@),
    {
        let mut scan = DeviceScan::new();
        let mut found: Vec<DeviceDescriptor> = Vec::new();
        assert(self@.take(0) =~= Seq::empty());
        assert(descriptor_views(found@) =~= Seq::empty());
        let mut i: usize = 0;
        while i < self.list.len()
            invariant
                i <= self.list.len(),
                scan.next_index == rtlsdr_count(self@.take(i as int)),
                scan.next_index <= i,
                descriptor_views(found@) == descriptors(self@.take(i as int)),
            decreases self.list.len() - i,
        {
            let device = &self.list[i];
            proof {
                let upto = self@.take(i + 1);
                assert(upto.drop_last() =~= self@.take(i as int));
                assert(upto.last() == *device);
            }
            if let Some(index) = scan.give_index(device.ids, device.known) {
                if let Some(d) = DeviceScan::describe(index, &device.probe) {
                    let ghost before = found@;
                    found.push(d);
                    assert(descriptor_views(found@) =~= descriptor_views(before).push(d@));
                }
            }
            i += 1;
        }
        assert(self@.take(i as int) =~= self@);
        found
    }
}

/// The indices of the descriptors increase, so no two devices share one; each is below the number
/// of RTL-SDRs on the bus.
pub proof fn law_indices_increase(list: Seq<BusDevice>)
    ensures
        forall|i: int, j: int|
            0 <= i < j < descriptors(list).len() ==> descriptors(list)[i].index < descriptors(
                list,
            )[j].index,
        forall|i: int|
            0 <= i < descriptors(list).len() ==> 0 <= (#[trigger] descriptors(list)[i]).index
                < rtlsdr_count(list),
        descriptors(list).len() <= rtlsdr_count(list) <= list.len(),
    decreases list.len(),
{
    if list.len() > 0 {
        law_indices_increase(list.drop_last());
    }
}

/// What is found on the first devices of the bus stays what is found first, whatever devices
/// follow. So a walk that looks for the first device may end as soon as it has found one.
pub proof fn law_prefix_finds_the_same(list: Seq<BusDevice>, n: int)
    requires
        0 <= n <= list.len(),
    ensures
        descriptors(list.take(n)).len() <= descriptors(list).len(),
        descriptors(list).take(descriptors(list.take(n)).len() as int) == descriptors(
            list.take(n),
        ),
    decreases list.len(),
{
    if n == list.len() {
        assert(list.take(n) =~= list);
        assert(descriptors(list).take(descriptors(list).len() as int) =~= descriptors(list));
    } else {
        let before = list.drop_last();
        assert(before.take(n) =~= list.take(n));
        law_prefix_finds_the_same(before, n);
        let k = descriptors(list.take(n)).len() as int;
        assert(descriptors(list).take(k) =~= descriptors(before).take(k));
    }
}

/// A device that could not be opened is missing from the list, and every other device keeps its
/// index: the list is the one with the device, without the descriptor of that index.
pub proof fn law_unopened_device_keeps_its_index(list: Seq<BusDevice>, at: int)
    requires
        0 <= at < list.len(),
        list[at].is_rtlsdr(),
    ensures
        ({
            let closed = list.update(at, BusDevice { probe: None, ..list[at] });
            let index = rtlsdr_count(list.take(at)) as int;
            &&& rtlsdr_count(closed) == rtlsdr_count(list)
            &&& descriptors(closed) == descriptors(list).filter(
                |d: DescriptorView| d.index != index,
            )
        }),
    decreases list.len(),
{
    let gone = BusDevice { probe: None, ..list[at] };
    let closed = list.update(at, gone);
    let index = rtlsdr_count(list.take(at)) as int;
    let keep = |d: DescriptorView| d.index != index;
    let before = list.drop_last();
    reveal(Seq::filter);
    assert(descriptors(list).drop_last().push(descriptors(list).last()) =~= descriptors(list)
        || descriptors(list).len() == 0);
    if at == list.len() - 1 {
        assert(closed.drop_last() =~= before);
        assert(list.take(at) =~= before);
        law_indices_increase(before);
        lemma_filter_all(descriptors(before), keep);
        if list.last().probe is Some {
            assert(descriptors(list).drop_last() =~= descriptors(before));
        }
    } else {
        assert(closed.drop_last() =~= before.update(at, gone));
        assert(before.take(at) =~= list.take(at));
        law_unopened_device_keeps_its_index(before, at);
        if list.last().is_rtlsdr() && list.last().probe is Some {
            assert(descriptors(list).drop_last() =~= descriptors(before));
            lemma_count_grows(before, at);
        }
    }
}

proof fn lemma_filter_all<A>(s: Seq<A>, keep: spec_fn(A) -> bool)
    requires
        forall|i: int| 0 <= i < s.len() ==> keep(#[trigger] s[i]),
    ensures
        s.filter(keep) == s,
    decreases s.len(),
{
    reveal(Seq::filter);
    if s.len() > 0 {
        assert(keep(s[s.len() - 1]));
        assert forall|i: int| 0 <= i < s.drop_last().len() implies keep(
            #[trigger] s.drop_last()[i],
        ) by {
            assert(keep(s[i]));
        }
        lemma_filter_all(s.drop_last(), keep);
        assert(s.drop_last().push(s.last()) =~= s);
    } else {
        assert(s.filter(keep) =~= s);
    }
}

/// More RTL-SDRs are on the bus than before one of them.
proof fn lemma_count_grows(list: Seq<BusDevice>, at: int)
    requires
        0 <= at < list.len(),
        list[at].is_rtlsdr(),
    ensures
        rtlsdr_count(list.take(at)) < rtlsdr_count(list),
    decreases list.len(),
{
    if at == list.len() - 1 {
        assert(list.take(at) =~= list.drop_last());
    } else {
        assert(list.take(at) =~= list.drop_last().take(at));
        lemma_count_grows(list.drop_last(), at);
    }
}

/// What is reported when no device has the index that was asked for.
pub open spec fn no_device_at(index: usize) -> ErrorView {
    ErrorView::Message("No device found at index "@ + crate::text::decimal(index as nat))
}

/// `r` is the descriptor with the given index among `found`, or the report that there is none.
pub open spec fn is_info(
    found: Seq<DescriptorView>,
    index: usize,
    r: Result<DescriptorView, ErrorView>,
) -> bool {
    match r {
        Ok(d) => {
            &&& found.contains(d)
            &&& d.index == index
            &&& forall|i: int|
                0 <= i < found.len() && (#[trigger] found[i]).index == index ==> found[i] == d
        },
        Err(e) => {
            &&& forall|i: int| 0 <= i < found.len() ==> (#[trigger] found[i]).index != index
            &&& e == no_device_at(index)
        },
    }
}

/// A result with the descriptor and the error as they read.
pub open spec fn info_view(r: Result<DeviceDescriptor, RtlsdrError>) -> Result<
    DescriptorView,
    ErrorView,
> {
    match r {
        Ok(d) => Ok(d@),
        Err(e) => Err(e@),
    }
}

impl DeviceDescriptors {
    /// The descriptor with the given index.
    pub fn info(&self, index: usize) -> (r: Result<DeviceDescriptor, RtlsdrError>)
        ensures
            is_info(descriptors(self@), index, info_view(r)),
    {
        let mut found = self.iter();
        let ghost all = descriptors(self@);
        proof {
            law_indices_increase(self@);
        }
        let mut i: usize = 0;
        while i < found.len()
            invariant
                i <= found.len(),
                descriptor_views(found@) == all,
                forall|j: int| 0 <= j < i ==> (#[trigger] all[j]).index != index,
                forall|j: int, k: int| 0 <= j < k < all.len() ==> all[j].index < all[k].index,
                all == descriptors(self@),
            decreases found.len() - i,
        {
            assert(all[i as int] == found[i as int]@);
            if found[i].index == index {
                let d = found.swap_remove(i);
                assert(all.contains(d@));
                return Ok(d);
            }
            i += 1;
        }
        let mut text = "No device found at index ".to_owned();
        crate::text::push_decimal(&mut text, index);
        Err(RtlsdrError::RtlsdrErr(text))
    }
}

/// Every descriptor is read from its device. With the RTL-SDRs on the bus numbered from zero in the
/// order of the bus (`all` holds their places), the descriptor with index `i` is that of RTL-SDR
/// `i`: its ids are the ones that were read from it, and each of its strings has the characters
/// that were read, or none if none were read. The descriptors come in the order of the bus, and
/// none of the RTL-SDRs that could be opened is missing.
pub proof fn law_descriptor_is_read_from_its_device(list: Seq<BusDevice>) -> (all: Seq<int>)
    ensures
        all.len() == rtlsdr_count(list),
        forall|j: int, k: int| 0 <= j < k < all.len() ==> all[j] < all[k],
        forall|at: int| #[trigger]
            all.contains(at) <==> 0 <= at < list.len() && list[at].ids is Some && list[at].known,
        forall|j: int, k: int|
            0 <= j < k < descriptors(list).len() ==> descriptors(list)[j].index < descriptors(
                list,
            )[k].index,
        forall|k: int|
            0 <= k < descriptors(list).len() ==> {
                let d = #[trigger] descriptors(list)[k];
                let probe = list[all[d.index]].probe;
                &&& 0 <= d.index < all.len()
                &&& probe is Some
                &&& d.vendor_id == probe->0.ids.vendor_id
                &&& d.product_id == probe->0.ids.product_id
                &&& probe->0.manufacturer matches Some(text) ==> d.manufacturer == text@
                &&& probe->0.manufacturer is None ==> d.manufacturer.len() == 0
                &&& probe->0.product matches Some(text) ==> d.product == text@
                &&& probe->0.product is None ==> d.product.len() == 0
                &&& probe->0.serial matches Some(text) ==> d.serial == text@
                &&& probe->0.serial is None ==> d.serial.len() == 0
            },
        forall|j: int|
            0 <= j < all.len() && list[#[trigger] all[j]].probe is Some ==> exists|k: int|
                0 <= k < descriptors(list).len() && (#[trigger] descriptors(list)[k]).index == j,
    decreases list.len(),
{
    if list.len() == 0 {
        Seq::empty()
    } else {
        let before = list.drop_last();
        let last = list.len() - 1;
        let found = descriptors(before);
        let rest = law_descriptor_is_read_from_its_device(before);
        assert forall|j: int| 0 <= j < rest.len() implies 0 <= #[trigger] rest[j] < last by {
            assert(rest.contains(rest[j]));
        }
        if list.last().ids is Some && list.last().known {
            let all = rest.push(last);
            assert forall|at: int| #[trigger] all.contains(at) <==> 0 <= at < list.len()
                && list[at].ids is Some && list[at].known by {
                if at == last {
                    assert(all[rest.len() as int] == at);
                } else {
                    if rest.contains(at) {
                        let j = choose|j: int| 0 <= j < rest.len() && rest[j] == at;
                        assert(all[j] == at);
                    }
                    if all.contains(at) {
                        let j = choose|j: int| 0 <= j < all.len() && all[j] == at;
                        assert(rest[j] == at);
                    }
                }
            }
            assert forall|k: int| 0 <= k < found.len() implies (
            #[trigger] descriptors(list)[k]) == found[k] && all[found[k].index]
                == rest[found[k].index] by {}
            assert forall|j: int|
                0 <= j < all.len() && list[#[trigger] all[j]].probe is Some implies exists|k: int|
                0 <= k < descriptors(list).len() && (#[trigger] descriptors(list)[k]).index
                    == j by {
                if j < rest.len() {
                    assert(list[rest[j]].probe is Some);
                    let k = choose|k: int|
                        0 <= k < found.len() && (#[trigger] found[k]).index == j;
                    assert(descriptors(list)[k].index == j);
                } else {
                    assert(descriptors(list)[found.len() as int].index == j);
                }
            }
            all
        } else {
            assert(descriptors(list) == found);
            rest
        }
    }
}

/// A descriptor reads as what it is, field by field, and so does every one of a list.
pub proof fn law_descriptor_reads_as_it_is(d: DeviceDescriptor, found: Seq<DeviceDescriptor>)
    ensures
        d@.index == d.index,
        d@.vendor_id == d.vendor_id,
        d@.product_id == d.product_id,
        d@.manufacturer == d.manufacturer@,
        d@.product == d.product@,
        d@.serial == d.serial@,
        descriptor_views(found).len() == found.len(),
        forall|k: int|
            0 <= k < found.len() ==> (#[trigger] descriptor_views(found)[k]) == found[k]@,
{
}

/// Describing a device that could be opened hands on what was read from it: each string has the
/// same characters, and is empty only if none was read or if it was read as empty.
pub proof fn law_description_hands_on_what_was_read(
    index: usize,
    probe: Option<Probe>,
    d: Option<DeviceDescriptor>,
)
    requires
        call_ensures(DeviceScan::describe, (index, &probe), d),
    ensures
        d is Some <==> probe is Some,
        d is Some ==> {
            let (read, shown) = (probe->0, d->0);
            &&& shown.index == index
            &&& shown.vendor_id == read.ids.vendor_id
            &&& shown.product_id == read.ids.product_id
            &&& read.manufacturer matches Some(text) ==> shown.manufacturer@ == text@
            &&& read.manufacturer is None ==> shown.manufacturer@.len() == 0
            &&& read.product matches Some(text) ==> shown.product@ == text@
            &&& read.product is None ==> shown.product@.len() == 0
            &&& read.serial matches Some(text) ==> shown.serial@ == text@
            &&& read.serial is None ==> shown.serial@.len() == 0
        },
{
}

/// The list of devices shows what is on the bus: RTL-SDR `i` of the bus, if it could be opened, has
/// one descriptor, with index `i` and with what was read from it. (`all` holds the places of the
/// RTL-SDRs on the bus.)
pub proof fn law_list_shows_what_is_on_the_bus(
    bus: DeviceDescriptors,
    found: Vec<DeviceDescriptor>,
) -> (all: Seq<int>)
    requires
        call_ensures(DeviceDescriptors::iter, (&bus,), found),
    ensures
        forall|j: int, k: int| 0 <= j < k < all.len() ==> all[j] < all[k],
        forall|at: int| #[trigger]
            all.contains(at) <==> 0 <= at < bus.list@.len() && bus.list@[at].ids is Some
                && bus.list@[at].known,
        forall|j: int, k: int| 0 <= j < k < found@.len() ==> found@[j].index < found@[k].index,
        forall|k: int|
            0 <= k < found@.len() ==> {
                let d = #[trigger] found@[k];
                let probe = bus.list@[all[d.index as int]].probe;
                &&& d.index < all.len()
                &&& probe is Some
                &&& d.vendor_id == probe->0.ids.vendor_id
                &&& d.product_id == probe->0.ids.product_id
                &&& probe->0.manufacturer matches Some(text) ==> d.manufacturer@ == text@
                &&& probe->0.manufacturer is None ==> d.manufacturer@.len() == 0
                &&& probe->0.product matches Some(text) ==> d.product@ == text@
                &&& probe->0.product is None ==> d.product@.len() == 0
                &&& probe->0.serial matches Some(text) ==> d.serial@ == text@
                &&& probe->0.serial is None ==> d.serial@.len() == 0
            },
        forall|j: int|
            0 <= j < all.len() && bus.list@[#[trigger] all[j]].probe is Some ==> exists|k: int|
                0 <= k < found@.len() && (#[trigger] found@[k]).index == j,
{
    let all = law_descriptor_is_read_from_its_device(bus.list@);
    let views = descriptors(bus.list@);
    assert(descriptor_views(found@) == views);
    assert forall|k: int| 0 <= k < found@.len() implies (#[trigger] found@[k])@ == views[k] by {
        assert(descriptor_views(found@)[k] == found@[k]@);
    }
    assert forall|j: int, k: int| 0 <= j < k < found@.len() implies found@[j].index
        < found@[k].index by {
        assert(found@[j]@.index == found@[j].index);
        assert(views[j].index < views[k].index);
    }
    assert forall|j: int|
        0 <= j < all.len() && bus.list@[#[trigger] all[j]].probe is Some implies exists|k: int|
        0 <= k < found@.len() && (#[trigger] found@[k]).index == j by {
        let k = choose|k: int| 0 <= k < views.len() && (#[trigger] views[k]).index == j;
        assert(found@[k]@ == views[k]);
    }
    all
}

/// Looking a device up and listing the devices agree: the device with an index is the one that the
/// list shows with that index, field by field. If the list shows none, the report gives the index
/// in decimal.
pub proof fn law_lookup_agrees_with_the_list(
    bus: DeviceDescriptors,
    found: Vec<DeviceDescriptor>,
    index: usize,
    r: Result<DeviceDescriptor, RtlsdrError>,
)
    requires
        call_ensures(DeviceDescriptors::iter, (&bus,), found),
        call_ensures(DeviceDescriptors::info, (&bus, index), r),
    ensures
        forall|k: int|
            0 <= k < found@.len() && (#[trigger] found@[k]).index == index ==> {
                &&& r matches Ok(d)
                &&& d.index == index
                &&& d.vendor_id == found@[k].vendor_id
                &&& d.product_id == found@[k].product_id
                &&& d.manufacturer@ == found@[k].manufacturer@
                &&& d.product@ == found@[k].product@
                &&& d.serial@ == found@[k].serial@
            },
        (forall|k: int| 0 <= k < found@.len() ==> (#[trigger] found@[k]).index != index) ==> (
        r matches Err(RtlsdrError::RtlsdrErr(text)) && text@ == "No device found at index "@
            + crate::text::decimal(index as nat)),
{
    let views = descriptors(bus.list@);
    assert(descriptor_views(found@) == views);
    assert forall|k: int| 0 <= k < found@.len() implies (#[trigger] found@[k])@ == views[k] by {
        assert(descriptor_views(found@)[k] == found@[k]@);
    }
    if let Ok(d) = r {
        let k = choose|k: int| 0 <= k < views.len() && views[k] == d@;
        assert(found@[k]@ == d@);
        assert(found@[k].index == index);
    }
}

/// Only an RTL-SDR is given an index, and each the next one: the first index is zero, and it grows
/// by one with every device that is given one, and with no other.
pub proof fn law_each_rtlsdr_is_given_the_next_index(ids: Option<UsbIds>, known: bool)
    ensures
        forall|scan: DeviceScan| #[trigger]
            call_ensures(DeviceScan::new, (), scan) ==> scan.next_index == 0,
        forall|scan: &mut DeviceScan, index: Option<usize>| #[trigger]
            call_ensures(DeviceScan::give_index, (scan, ids, known), index) ==> {
                &&& index is Some <==> ids is Some && known
                &&& index matches Some(i) ==> i == scan.next_index && final(scan).next_index
                    == scan.next_index + 1
                &&& index is None ==> final(scan).next_index == scan.next_index
            },
{
}

} // verus!
