//! The advertisement payload: flags, the advertised service and the
//! complete local name, in a fixed 31-byte buffer.
use vstd::prelude::*;

verus! {

/// Capacity of an advertising packet's payload.
pub const ADV_CAPACITY: usize = 31;

/// Longest device name that fits after the header.
pub const MAX_NAME_LEN: usize = 22;

/// Flags field value: LE general discoverable, BR/EDR not supported.
pub const ADV_FLAGS_LE_ONLY_GENERAL_DISC: u8 = 0x06;

#[verifier::external_type_specification]
#[verifier::external_body]
#[verifier::reject_recursive_types(T)]
pub struct ExHeaplessVec<T, const N: usize>(heapless::Vec<T, N>);

/// The bytes held by an advertising buffer, in order.
pub uninterp spec fn adv_contents(v: heapless::Vec<u8, 31>) -> Seq<u8>;

/// Relies on heapless::Vec::new: the vector starts empty.
#[verifier::external_body]
fn adv_buffer_new() -> (r: heapless::Vec<u8, 31>)
    ensures
        adv_contents(r) == Seq::<u8>::empty(),
{
    heapless::Vec::new()
}

/// Relies on heapless::Vec::extend_from_slice: when the bytes do not fit in
/// the capacity nothing changes and it fails, else it appends them all.
#[verifier::external_body]
fn adv_buffer_extend(v: &mut heapless::Vec<u8, 31>, bytes: &[u8]) -> (r: Result<(), ()>)
    ensures
        adv_contents(*old(v)).len() + bytes@.len() > ADV_CAPACITY ==> r is Err && adv_contents(*final(v))
            == adv_contents(*old(v)),
        adv_contents(*old(v)).len() + bytes@.len() <= ADV_CAPACITY ==> r is Ok && adv_contents(*final(v))
            == adv_contents(*old(v)) + bytes@,
{
    v.extend_from_slice(bytes)
}

/// Why no payload could be built.
#[derive(Clone, Copy, Debug, PartialEq, Eq, Structural)]
pub enum AdvertisingError {
    /// The name does not fit in the packet after the header.
    NameTooLong,
}

/// The advertising payload for device `name`: a flags structure, the
/// complete list of 16-bit services (0x181A, environmental sensing), and
/// the complete local name.
pub open spec fn adv_payload(name: Seq<u8>) -> Seq<u8> {
    seq![
        0x02u8, 0x01u8, ADV_FLAGS_LE_ONLY_GENERAL_DISC,
        0x03u8, 0x03u8, 0x1Au8, 0x18u8,
        (name.len() + 1) as u8, 0x09u8,
    ] + name
}

/// Builds the advertising payload for device `name`; it fails when the name
/// is longer than the packet leaves room for.
pub fn advertisement_data(name: &[u8]) -> (r: Result<heapless::Vec<u8, 31>, AdvertisingError>)
    ensures
        r is Ok <==> name@.len() <= MAX_NAME_LEN,
        r matches Ok(v) ==> adv_contents(v) == adv_payload(name@),
        r matches Err(e) ==> e == AdvertisingError::NameTooLong,
{
    if name.len() > MAX_NAME_LEN {
        return Err(AdvertisingError::NameTooLong);
    }
    let mut data = adv_buffer_new();
    let header: [u8; 9] = [
        0x02,
        0x01,
        ADV_FLAGS_LE_ONLY_GENERAL_DISC,
        0x03,
        0x03,
        0x1A,
        0x18,
        name.len() as u8 + 1,
        0x09,
    ];
    if adv_buffer_extend(&mut data, header.as_slice()).is_err() {
        return Err(AdvertisingError::NameTooLong);
    }
    if adv_buffer_extend(&mut data, name).is_err() {
        return Err(AdvertisingError::NameTooLong);
    }
    proof {
        assert(header@ =~= seq![
            0x02u8, 0x01u8, ADV_FLAGS_LE_ONLY_GENERAL_DISC,
            0x03u8, 0x03u8, 0x1Au8, 0x18u8,
            (name@.len() + 1) as u8, 0x09u8,
        ]);
    }
    Ok(data)
}

/// The scan response payload: the complete list of 16-bit services with
/// 0x180A, device information.
pub fn scan_response_data() -> (r: [u8; 4])
    ensures
        r@ == seq![0x03u8, 0x03u8, 0x0Au8, 0x18u8],
{
    [0x03, 0x03, 0x0A, 0x18]
}

} // verus!
