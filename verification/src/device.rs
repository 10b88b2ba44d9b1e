//! Device discovery: the descriptor of the device and the choice of its
//! endpoint among all that were enumerated.

use crate::error::ProtocolError;
use vstd::prelude::*;

verus! {

/// Vendor id of the device.
pub const DEFAULT_VENDOR_ID: u16 = 0x1532;

/// Product id of the device on the cable.
pub const DEFAULT_WIRED_PRODUCT_ID: u16 = 0x00c2;

/// Product id of the device behind its wireless receiver.
pub const DEFAULT_WIRELESS_PRODUCT_ID: u16 = 0x00c3;

/// HID usage of the configuration interface.
pub const DEFAULT_USAGE: u16 = 2;

/// HID usage page of the configuration interface.
pub const DEFAULT_USAGE_PAGE: u16 = 1;

/// What an endpoint must report to be taken for the device.
#[derive(Clone, Copy, Debug, PartialEq, Eq, Structural)]
pub struct DeviceDescriptor {
    pub vendor_id: u16,
    pub wired_product_id: u16,
    pub wireless_product_id: u16,
    pub usage: u16,
    pub usage_page: u16,
}

/// One enumerated HID endpoint.
#[derive(Debug, PartialEq, Eq)]
pub struct Endpoint {
    pub vendor_id: u16,
    pub product_id: u16,
    pub usage: u16,
    pub usage_page: u16,
    pub interface_number: i32,
    /// The platform's path of the endpoint, by which it is opened.
    pub path: Vec<u8>,
}

impl DeviceDescriptor {
    /// The product ids under which the device may appear.
    pub open spec fn product_ids(self) -> Set<u16> {
        set![self.wired_product_id, self.wireless_product_id]
    }

    /// Whether an endpoint is taken for the device: vendor id, usage and
    /// usage page are those of the descriptor, and the product id is one of
    /// its candidates.
    pub open spec fn accepts(self, endpoint: Endpoint) -> bool {
        &&& endpoint.vendor_id == self.vendor_id
        &&& self.product_ids().contains(endpoint.product_id)
        &&& endpoint.usage == self.usage
        &&& endpoint.usage_page == self.usage_page
    }

    /// The descriptor with each value that is given in place of its default.
    pub open spec fn spec_with_overrides(
        vendor_id: Option<u16>,
        wired_product_id: Option<u16>,
        wireless_product_id: Option<u16>,
        usage: Option<u16>,
        usage_page: Option<u16>,
    ) -> DeviceDescriptor {
        DeviceDescriptor {
            vendor_id: vendor_id.unwrap_or(DEFAULT_VENDOR_ID),
            wired_product_id: wired_product_id.unwrap_or(DEFAULT_WIRED_PRODUCT_ID),
            wireless_product_id: wireless_product_id.unwrap_or(DEFAULT_WIRELESS_PRODUCT_ID),
            usage: usage.unwrap_or(DEFAULT_USAGE),
            usage_page: usage_page.unwrap_or(DEFAULT_USAGE_PAGE),
        }
    }

    /// The descriptor with each value that is given in place of its default.
    pub fn with_overrides(
        vendor_id: Option<u16>,
        wired_product_id: Option<u16>,
        wireless_product_id: Option<u16>,
        usage: Option<u16>,
        usage_page: Option<u16>,
    ) -> (descriptor: DeviceDescriptor)
        ensures
            descriptor == Self::spec_with_overrides(
                vendor_id,
                wired_product_id,
                wireless_product_id,
                usage,
                usage_page,
            ),
    {
        DeviceDescriptor {
            vendor_id: vendor_id.unwrap_or(DEFAULT_VENDOR_ID),
            wired_product_id: wired_product_id.unwrap_or(DEFAULT_WIRED_PRODUCT_ID),
            wireless_product_id: wireless_product_id.unwrap_or(DEFAULT_WIRELESS_PRODUCT_ID),
            usage: usage.unwrap_or(DEFAULT_USAGE),
            usage_page: usage_page.unwrap_or(DEFAULT_USAGE_PAGE),
        }
    }

    /// Whether an endpoint is taken for the device.
    pub fn matches(&self, endpoint: &Endpoint) -> (accepted: bool)
        ensures
            accepted == self.accepts(*endpoint),
    {
        endpoint.vendor_id == self.vendor_id && (endpoint.product_id == self.wired_product_id
            || endpoint.product_id == self.wireless_product_id) && endpoint.usage == self.usage
            && endpoint.usage_page == self.usage_page
    }
}

impl Default for DeviceDescriptor {
    /// The descriptor of the device as it is shipped.
    fn default() -> (descriptor: DeviceDescriptor)
        ensures
            descriptor == (DeviceDescriptor {
                vendor_id: 0x1532,
                wired_product_id: 0x00c2,
                wireless_product_id: 0x00c3,
                usage: 2,
                usage_page: 1,
            }),
    {
        DeviceDescriptor {
            vendor_id: DEFAULT_VENDOR_ID,
            wired_product_id: DEFAULT_WIRED_PRODUCT_ID,
            wireless_product_id: DEFAULT_WIRELESS_PRODUCT_ID,
            usage: DEFAULT_USAGE,
            usage_page: DEFAULT_USAGE_PAGE,
        }
    }
}

/// Whether `index` is the place of the first endpoint that the descriptor
/// accepts.
pub open spec fn is_first_match(
    endpoints: Seq<Endpoint>,
    descriptor: DeviceDescriptor,
    index: int,
) -> bool {
    &&& 0 <= index < endpoints.len()
    &&& descriptor.accepts(endpoints[index])
    &&& forall|earlier: int| 0 <= earlier < index ==> !descriptor.accepts(#[trigger] endpoints[earlier])
}

/// Whether the descriptor accepts none of the endpoints.
pub open spec fn no_match(endpoints: Seq<Endpoint>, descriptor: DeviceDescriptor) -> bool {
    forall|index: int| 0 <= index < endpoints.len() ==> !descriptor.accepts(#[trigger] endpoints[index])
}

/// The place of the first endpoint that the descriptor accepts, in the order
/// of the enumeration; `None` where it accepts none.
pub fn find_first_match(endpoints: &[Endpoint], descriptor: &DeviceDescriptor) -> (found: Option<
    usize,
>)
    ensures
        match found {
            Some(index) => is_first_match(endpoints@, *descriptor, index as int),
            None => no_match(endpoints@, *descriptor),
        },
{
    let mut index: usize = 0;
    while index < endpoints.len()
        invariant
            index <= endpoints@.len(),
            forall|earlier: int|
                0 <= earlier < index ==> !descriptor.accepts(#[trigger] endpoints@[earlier]),
        decreases endpoints@.len() - index,
    {
        if descriptor.matches(&endpoints[index]) {
            return Some(index);
        }
        index = index + 1;
    }
    None
}

/// Selects the device: the first endpoint, in the order of the enumeration,
/// that the descriptor accepts.
///
/// Fails with `DeviceNotFound` where the descriptor accepts none, so always
/// on an empty list. Which of several accepted endpoints comes first is the
/// platform's choice.
pub fn get_device_info<'a>(endpoints: &'a [Endpoint], descriptor: &DeviceDescriptor) -> (result:
    Result<&'a Endpoint, ProtocolError>)
    ensures
        match result {
            Ok(endpoint) => exists|index: int|
                is_first_match(endpoints@, *descriptor, index) && *endpoint == endpoints@[index],
            Err(error) => error == ProtocolError::DeviceNotFound && no_match(
                endpoints@,
                *descriptor,
            ),
        },
        endpoints@.len() == 0 ==> result is Err,
{
    match find_first_match(endpoints, descriptor) {
        Some(index) => Ok(&endpoints[index]),
        None => Err(ProtocolError::DeviceNotFound),
    }
}

/// The first match is unique: two places that both are the first match are
/// one place.
pub proof fn lemma_first_match_unique(
    endpoints: Seq<Endpoint>,
    descriptor: DeviceDescriptor,
    first: int,
    second: int,
)
    requires
        is_first_match(endpoints, descriptor, first),
        is_first_match(endpoints, descriptor, second),
    ensures
        first == second,
{
}

/// A list of one accepted endpoint has that endpoint as its first match.
pub proof fn lemma_single_accepted_endpoint_is_selected(
    endpoint: Endpoint,
    descriptor: DeviceDescriptor,
)
    requires
        descriptor.accepts(endpoint),
    ensures
        is_first_match(seq![endpoint], descriptor, 0),
        !no_match(seq![endpoint], descriptor),
{
    assert(seq![endpoint][0] == endpoint);
}

/// An endpoint that differs from an accepted one in its vendor id, its usage
/// or its usage page is not accepted; nor is one that differs in its product
/// id, unless the new product id is the descriptor's other candidate. A list
/// of that endpoint alone has no match.
pub proof fn lemma_differing_endpoint_is_excluded(
    accepted: Endpoint,
    other: Endpoint,
    descriptor: DeviceDescriptor,
)
    requires
        descriptor.accepts(accepted),
        other.vendor_id != accepted.vendor_id || other.usage != accepted.usage || other.usage_page
            != accepted.usage_page || (other.product_id != accepted.product_id
            && !descriptor.product_ids().contains(other.product_id)),
    ensures
        !descriptor.accepts(other),
        no_match(seq![other], descriptor),
{
}

} // verus!
