//! Building [`DeviceInfo`] records from a device's native properties.
//!
//! The native device manager hands over, per device, a bag of typed
//! property values; that bag is modelled here as [`DeviceProperties`], a
//! record of plain values. Everything that decides — defaulting, bus-type
//! mapping, the usage-pair fan-out, the USB-only interface number — is
//! verified against the spec predicates below.

use crate::device_info::{spec_path_token, BusType, DeviceInfo};
use crate::device_info::make_path_token;
use crate::error::HidResult;
use vstd::prelude::*;

verus! {

/// One entry of a device's usage-pairs property. Either field is `None`
/// when the native dictionary lacks the key or holds a non-numeric value.
#[derive(Debug, Clone, Copy, PartialEq, Eq, Structural)]
pub struct UsagePair {
    pub usage_page: Option<i32>,
    pub usage: Option<i32>,
}

/// The plain-value record of what the native layer reports for one device:
/// each field is `None` when the device lacks the property.
#[derive(Debug)]
pub struct DeviceProperties {
    pub vendor_id: Option<i32>,
    pub product_id: Option<i32>,
    /// The registry entry id behind the device's service handle; the stable
    /// path token is built from it.
    pub registry_entry_id: Option<u64>,
    pub serial_number: Option<String>,
    pub manufacturer: Option<String>,
    pub product: Option<String>,
    pub version_number: Option<i32>,
    pub transport: Option<String>,
    pub primary_usage_page: Option<i32>,
    pub primary_usage: Option<i32>,
    /// The device's additional usage-page/usage pairs, in property order.
    pub usage_pairs: Vec<UsagePair>,
    /// What the ancestor-chain search for "bInterfaceNumber" found.
    pub usb_interface_number: Option<i32>,
    /// The "MaxInputReportSize" property.
    pub max_input_report_len: Option<i32>,
    /// The raw report descriptor, when the device exposes one.
    pub report_descriptor: Option<Vec<u8>>,
}

/// The bus type a native transport string maps to; anything unrecognized
/// (or absent) is `Unknown`.
pub open spec fn spec_bus_type(transport: Option<Seq<char>>) -> BusType {
    match transport {
        Some(t) => {
            if t == "USB"@ {
                BusType::Usb
            } else if t == "Bluetooth"@ {
                BusType::Bluetooth
            } else if t == "I2C"@ {
                BusType::I2c
            } else if t == "SPI"@ {
                BusType::Spi
            } else {
                BusType::Unknown
            }
        },
        None => BusType::Unknown,
    }
}

/// The view of an optional string.
pub open spec fn opt_view(s: Option<String>) -> Option<Seq<char>> {
    match s {
        Some(x) => Some(x@),
        None => None,
    }
}

/// Map the native transport string to a [`BusType`].
pub fn bus_type_of(transport: &Option<String>) -> (r: BusType)
    ensures
        r == spec_bus_type(opt_view(*transport)),
{
    match transport {
        Some(t) => {
            if t.eq(&String::from_str("USB")) {
                BusType::Usb
            } else if t.eq(&String::from_str("Bluetooth")) {
                BusType::Bluetooth
            } else if t.eq(&String::from_str("I2C")) {
                BusType::I2c
            } else if t.eq(&String::from_str("SPI")) {
                BusType::Spi
            } else {
                BusType::Unknown
            }
        },
        None => BusType::Unknown,
    }
}

/// Whether `info` is exactly the record that enumeration yields for a
/// device with properties `props` at the given usage pair: identity fields
/// defaulted when absent, the path token built from the registry entry id
/// (empty without one), the bus type mapped from the transport string, and
/// the interface number derived only for USB devices (with -1 for "not
/// applicable").
pub open spec fn is_info_for(
    info: DeviceInfo,
    props: DeviceProperties,
    usage_page: u16,
    usage: u16,
) -> bool {
    &&& info.vendor_id == spec_opt_i32_as_u16(props.vendor_id)
    &&& info.product_id == spec_opt_i32_as_u16(props.product_id)
    &&& info.bus_type == spec_bus_type(opt_view(props.transport))
    &&& info.path@ == (match props.registry_entry_id {
        Some(id) => spec_path_token(id as nat),
        None => Seq::<char>::empty(),
    })
    &&& opt_view(info.serial_number) == opt_view(props.serial_number)
    &&& info.release_number == spec_opt_i32_as_u16(props.version_number)
    &&& opt_view(info.manufacturer_string) == opt_view(props.manufacturer)
    &&& opt_view(info.product_string) == opt_view(props.product)
    &&& info.usage_page == usage_page
    &&& info.usage == usage
    &&& info.interface_number == (if spec_bus_type(opt_view(props.transport)) is Usb {
        match props.usb_interface_number {
            Some(n) => n,
            None => (-1) as i32,
        }
    } else {
        (-1) as i32
    })
}

/// An absent property defaults to zero; a present one is truncated to the
/// 16-bit field, as the native values are.
pub open spec fn spec_opt_i32_as_u16(v: Option<i32>) -> u16 {
    match v {
        Some(x) => x as u16,
        None => 0,
    }
}

fn opt_i32_as_u16(v: &Option<i32>) -> (r: u16)
    ensures
        r == spec_opt_i32_as_u16(*v),
{
    match v {
        Some(x) => #[verifier::truncate] (*x as u16),
        None => 0,
    }
}

fn clone_opt_string(s: &Option<String>) -> (r: Option<String>)
    ensures
        opt_view(r) == opt_view(*s),
{
    match s {
        Some(x) => Some(x.clone()),
        None => None,
    }
}

/// Build the [`DeviceInfo`] record for `props` at one usage pair.
pub fn create_device_info_with_usage(
    props: &DeviceProperties,
    usage_page: u16,
    usage: u16,
) -> (info: DeviceInfo)
    ensures
        is_info_for(info, *props, usage_page, usage),
{
    let bus_type = bus_type_of(&props.transport);
    let path = match props.registry_entry_id {
        Some(id) => make_path_token(id),
        None => String::new(),
    };
    let interface_number: i32 = if let BusType::Usb = bus_type {
        match props.usb_interface_number {
            Some(n) => n,
            None => -1,
        }
    } else {
        -1
    };
    DeviceInfo {
        vendor_id: opt_i32_as_u16(&props.vendor_id),
        product_id: opt_i32_as_u16(&props.product_id),
        bus_type,
        path,
        serial_number: clone_opt_string(&props.serial_number),
        release_number: opt_i32_as_u16(&props.version_number),
        manufacturer_string: clone_opt_string(&props.manufacturer),
        product_string: clone_opt_string(&props.product),
        usage_page,
        usage,
        interface_number,
    }
}

/// Whether a usage-pairs entry yields a record of its own: both fields must
/// be numeric, and the primary pair is not repeated.
pub open spec fn pair_qualifies(pair: UsagePair, primary_page: i32, primary_usage: i32) -> bool {
    match (pair.usage_page, pair.usage) {
        (Some(page), Some(usage)) => !(page == primary_page && usage == primary_usage),
        _ => false,
    }
}

/// The usage pairs that yield records of their own, in property order.
pub open spec fn qualifying_pairs(
    pairs: Seq<UsagePair>,
    primary_page: i32,
    primary_usage: i32,
) -> Seq<(i32, i32)>
    decreases pairs.len(),
{
    if pairs.len() == 0 {
        Seq::empty()
    } else {
        qualifying_pairs(pairs.drop_last(), primary_page, primary_usage) + (if pair_qualifies(
            pairs.last(),
            primary_page,
            primary_usage,
        ) {
            seq![(pairs.last().usage_page->0, pairs.last().usage->0)]
        } else {
            Seq::empty()
        })
    }
}

/// Whether `out` is exactly the record list enumeration yields for one
/// device: first the record for the primary usage pair (defaulted to zero
/// when the device fails to report one), then one record per qualifying
/// entry of the usage-pairs property, in order.
pub open spec fn infos_match(props: DeviceProperties, out: Seq<DeviceInfo>) -> bool {
    let primary_page = spec_opt_i32_or_zero(props.primary_usage_page);
    let primary_usage = spec_opt_i32_or_zero(props.primary_usage);
    let pairs = qualifying_pairs(props.usage_pairs@, primary_page, primary_usage);
    &&& out.len() == 1 + pairs.len()
    &&& is_info_for(out[0], props, primary_page as u16, primary_usage as u16)
    &&& forall|i: int|
        0 <= i < pairs.len() ==> is_info_for(
            #[trigger] out[i + 1],
            props,
            pairs[i].0 as u16,
            pairs[i].1 as u16,
        )
}

/// An absent numeric property defaults to zero.
pub open spec fn spec_opt_i32_or_zero(v: Option<i32>) -> i32 {
    match v {
        Some(x) => x,
        None => 0,
    }
}

fn opt_i32_or_zero(v: &Option<i32>) -> (r: i32)
    ensures
        r == spec_opt_i32_or_zero(*v),
{
    match v {
        Some(x) => *x,
        None => 0,
    }
}

/// Get device information for every usage of one device: one record per
/// usage-page/usage pair, the primary pair first. A device that fails to
/// yield a primary pair still yields one record with default usage fields.
pub fn get_device_infos(props: &DeviceProperties) -> (out: Vec<DeviceInfo>)
    ensures
        infos_match(*props, out@),
{
    let primary_page = opt_i32_or_zero(&props.primary_usage_page);
    let primary_usage = opt_i32_or_zero(&props.primary_usage);
    let mut out: Vec<DeviceInfo> = Vec::new();
    out.push(
        create_device_info_with_usage(
            props,
            #[verifier::truncate] (primary_page as u16),
            #[verifier::truncate] (primary_usage as u16),
        ),
    );
    let ghost all_pairs = props.usage_pairs@;
    let mut i: usize = 0;
    while i < props.usage_pairs.len()
        invariant
            0 <= i <= all_pairs.len(),
            props.usage_pairs@ == all_pairs,
            out@.len() == 1 + qualifying_pairs(
                all_pairs.take(i as int),
                primary_page,
                primary_usage,
            ).len(),
            is_info_for(out@[0], *props, primary_page as u16, primary_usage as u16),
            forall|j: int|
                0 <= j < qualifying_pairs(all_pairs.take(i as int), primary_page,
                primary_usage).len() ==> is_info_for(
                    #[trigger] out@[j + 1],
                    *props,
                    qualifying_pairs(all_pairs.take(i as int), primary_page, primary_usage)[j].0
                        as u16,
                    qualifying_pairs(all_pairs.take(i as int), primary_page, primary_usage)[j].1
                        as u16,
                ),
        decreases all_pairs.len() - i,
    {
        let pair = props.usage_pairs[i];
        proof {
            assert(all_pairs.take(i + 1).drop_last() =~= all_pairs.take(i as int));
            assert(all_pairs.take(i + 1).last() == all_pairs[i as int]);
        }
        if let (Some(page), Some(usage)) = (pair.usage_page, pair.usage) {
            if !(page == primary_page && usage == primary_usage) {
                out.push(
                    create_device_info_with_usage(
                        props,
                        #[verifier::truncate] (page as u16),
                        #[verifier::truncate] (usage as u16),
                    ),
                );
            }
        }
        i = i + 1;
    }
    proof {
        assert(all_pairs.take(i as int) =~= all_pairs);
    }
    out
}

/// Whether `out` is exactly the concatenation, in order, of each device's
/// record list.
pub open spec fn all_infos_match(records: Seq<DeviceProperties>, out: Seq<DeviceInfo>) -> bool
    decreases records.len(),
{
    if records.len() == 0 {
        out.len() == 0
    } else {
        exists|k: int|
            0 <= k <= out.len() && infos_match(records[0], #[trigger] out.take(k))
                && all_infos_match(records.drop_first(), out.skip(k))
    }
}

proof fn lemma_all_infos_snoc(
    records: Seq<DeviceProperties>,
    out: Seq<DeviceInfo>,
    props: DeviceProperties,
    add: Seq<DeviceInfo>,
)
    requires
        all_infos_match(records, out),
        infos_match(props, add),
    ensures
        all_infos_match(records.push(props), out + add),
    decreases records.len(),
{
    if records.len() == 0 {
        let k = add.len() as int;
        assert((out + add).take(k) =~= add);
        assert((out + add).skip(k) =~= Seq::<DeviceInfo>::empty());
        assert(records.push(props).drop_first() =~= Seq::<DeviceProperties>::empty());
        assert(all_infos_match(records.push(props), out + add)) by {
            assert(0 <= k <= (out + add).len() && infos_match(records.push(props)[0], (out
                + add).take(k)) && all_infos_match(records.push(props).drop_first(), (out
                + add).skip(k)));
        }
    } else {
        let k = choose|k: int|
            0 <= k <= out.len() && infos_match(records[0], #[trigger] out.take(k))
                && all_infos_match(records.drop_first(), out.skip(k));
        lemma_all_infos_snoc(records.drop_first(), out.skip(k), props, add);
        assert(records.drop_first().push(props) =~= records.push(props).drop_first());
        assert(out.skip(k) + add =~= (out + add).skip(k));
        assert((out + add).take(k) =~= out.take(k));
        assert(all_infos_match(records.push(props), out + add)) by {
            assert(0 <= k <= (out + add).len() && infos_match(records.push(props)[0], (out
                + add).take(k)) && all_infos_match(records.push(props).drop_first(), (out
                + add).skip(k)));
        }
    }
}

/// Enumerate every record of every device: the concatenation, in device
/// order, of each device's per-usage records.
pub fn get_hid_device_info_vector(records: &Vec<DeviceProperties>) -> (r: HidResult<
    Vec<DeviceInfo>,
>)
    ensures
        r matches Ok(v) && all_infos_match(records@, v@),
{
    let mut out: Vec<DeviceInfo> = Vec::new();
    let mut i: usize = 0;
    proof {
        assert(records@.take(0) =~= Seq::<DeviceProperties>::empty());
    }
    while i < records.len()
        invariant
            0 <= i <= records@.len(),
            all_infos_match(records@.take(i as int), out@),
        decreases records@.len() - i,
    {
        let mut infos = get_device_infos(&records[i]);
        let ghost out_before = out@;
        let ghost added = infos@;
        out.append(&mut infos);
        proof {
            lemma_all_infos_snoc(records@.take(i as int), out_before, records@[i as int], added);
            assert(records@.take(i as int).push(records@[i as int]) =~= records@.take(i + 1));
        }
        i = i + 1;
    }
    proof {
        assert(records@.take(i as int) =~= records@);
    }
    Ok(out)
}

} // verus!
