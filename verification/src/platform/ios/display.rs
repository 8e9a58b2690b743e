//! The single display of an iOS device.

use vstd::prelude::*;
use uuid::Uuid;

verus! {

#[verifier::external_type_specification]
#[verifier::external_body]
pub struct ExUuid(Uuid);

/// The 128-bit value of a UUID, most significant byte first (`Uuid::as_u128`).
pub uninterp spec fn uuid_value(u: Uuid) -> u128;

/// `Uuid::as_u128`: the UUID's value as a big-endian 128-bit integer.
#[verifier::external_body]
pub fn uuid_as_u128(u: &Uuid) -> (v: u128)
    ensures
        v == uuid_value(*u),
{
    u.as_u128()
}

/// A version-4 (random) UUID per RFC 9562: version nibble 4 (bits 76..79) and the
/// RFC 4122 variant `10` (bits 62..63).
pub open spec fn is_random_uuid(v: u128) -> bool {
    &&& (v >> 76u128) & 0xF == 4
    &&& (v >> 62u128) & 0x3 == 2
}

/// `Uuid::new_v4`: a random UUID. The random bits are unknown; the source sets the
/// version and variant bits, and the contract says only that.
#[verifier::external_body]
fn new_random_uuid() -> (u: Uuid)
    ensures
        is_random_uuid(uuid_value(u)),
{
    Uuid::new_v4()
}

/// A rectangle in whole points.
#[derive(Clone, Copy, Debug, PartialEq, Eq, Structural)]
pub struct DisplayBounds {
    pub x: u32,
    pub y: u32,
    pub width: u32,
    pub height: u32,
}

/// The display an iOS app runs on: id 1, a random UUID fixed at creation, and a
/// 390 x 844 point screen at the origin.
pub struct IosDisplay {
    id: u32,
    uuid: Uuid,
    bounds: DisplayBounds,
}

impl IosDisplay {
    /// The display's UUID.
    pub closed spec fn uuid_spec(&self) -> Uuid {
        self.uuid
    }

    /// The display's id.
    pub closed spec fn id_spec(&self) -> u32 {
        self.id
    }

    /// The display's bounds.
    pub closed spec fn bounds_spec(&self) -> DisplayBounds {
        self.bounds
    }

    /// The device display, with a fresh random UUID.
    pub fn new() -> (d: Self)
        ensures
            d.id_spec() == 1,
            is_random_uuid(uuid_value(d.uuid_spec())),
            d.bounds_spec() == (DisplayBounds { x: 0, y: 0, width: 390, height: 844 }),
    {
        IosDisplay {
            id: 1,
            uuid: new_random_uuid(),
            bounds: DisplayBounds { x: 0, y: 0, width: 390, height: 844 },
        }
    }

    /// The display's id.
    pub fn id(&self) -> (id: u32)
        ensures
            id == self.id_spec(),
    {
        self.id
    }

    /// The display's UUID (the same on every call).
    pub fn uuid(&self) -> (u: Uuid)
        ensures
            u == self.uuid_spec(),
    {
        self.uuid
    }

    /// The display's bounds.
    pub fn bounds(&self) -> (b: DisplayBounds)
        ensures
            b == self.bounds_spec(),
    {
        self.bounds
    }
}

} // verus!
