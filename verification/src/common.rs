//! Identifiers and matchers shared by several extensions.

use vstd::prelude::*;

verus! {

/// The raw value that CLAP reserves to mean "no identifier".
pub const CLAP_INVALID_ID: u32 = 0xffff_ffffu32;

/// A CLAP identifier: any 32-bit value except [`CLAP_INVALID_ID`].
#[derive(Copy, Clone, Debug, PartialEq, Eq, Hash)]
pub struct ClapId {
    raw: u32,
}

impl ClapId {
    /// The raw value this identifier stands for.
    pub closed spec fn value(self) -> u32 {
        self.raw
    }

    /// Every identifier holds a raw value other than the invalid one.
    pub open spec fn wf(self) -> bool {
        self.value() != CLAP_INVALID_ID
    }

    /// The identifier that holds the given raw value.
    pub closed spec fn new_spec(raw: u32) -> ClapId {
        ClapId { raw }
    }

    /// An identifier is the one that holds its own raw value, and holding a valid raw value
    /// makes it valid.
    pub proof fn lemma_new_spec_value(id: ClapId)
        ensures
            ClapId::new_spec(id.value()) == id,
            forall|raw: u32| #[trigger] ClapId::new_spec(raw).value() == raw,
            forall|raw: u32| raw != CLAP_INVALID_ID ==> #[trigger] ClapId::new_spec(raw).wf(),
    {
    }

    /// Creates an identifier from a raw value that is known to be valid.
    pub fn new(raw: u32) -> (id: ClapId)
        requires
            raw != CLAP_INVALID_ID,
        ensures
            id == Self::new_spec(raw),
            id.value() == raw,
            id.wf(),
    {
        ClapId { raw }
    }

    /// Creates an identifier from a raw value, or `None` for the invalid raw value.
    pub fn from_raw(raw: u32) -> (id: Option<ClapId>)
        ensures
            raw == CLAP_INVALID_ID <==> id is None,
            id matches Some(i) ==> i == Self::new_spec(raw) && i.value() == raw && i.wf(),
    {
        if raw == CLAP_INVALID_ID {
            None
        } else {
            Some(ClapId { raw })
        }
    }

    /// Returns the raw value of this identifier.
    pub fn get(self) -> (raw: u32)
        ensures
            raw == self.value(),
    {
        self.raw
    }

    /// The raw value of an optional identifier, using the invalid raw value for `None`.
    pub open spec fn spec_optional_to_raw(value: Option<ClapId>) -> u32 {
        match value {
            Some(id) => id.value(),
            None => CLAP_INVALID_ID,
        }
    }

    /// Turns an optional identifier into its raw value, using the invalid raw value for `None`.
    pub fn optional_to_raw(value: Option<ClapId>) -> (raw: u32)
        ensures
            raw == Self::spec_optional_to_raw(value),
    {
        match value {
            Some(id) => id.raw,
            None => CLAP_INVALID_ID,
        }
    }
}

/// Whether a note property applies to one specific value or to all of them.
#[derive(Copy, Clone, Debug, PartialEq, Eq, Hash)]
pub enum Match<T> {
    /// Applies to this specific value only.
    Specific(T),
    /// Applies to every value.
    All,
}

impl Match<u16> {
    /// What a raw value stands for: any negative value means "all".
    pub open spec fn spec_from_raw(raw: i16) -> Match<u16> {
        if raw < 0 {
            Match::All
        } else {
            Match::Specific(raw as u16)
        }
    }

    /// The raw value of a matcher: `-1` for "all".
    pub open spec fn spec_to_raw(self) -> i16 {
        match self {
            Match::Specific(v) => v as i16,
            Match::All => -1i16,
        }
    }

    /// Creates a matcher from its raw value; any negative value means "all".
    pub fn from_raw(raw: i16) -> (m: Match<u16>)
        ensures
            m == Self::spec_from_raw(raw),
    {
        if raw < 0 {
            Match::All
        } else {
            Match::Specific(raw as u16)
        }
    }

    /// Returns the raw value of this matcher: `-1` for "all".
    pub fn to_raw(&self) -> (raw: i16)
        ensures
            raw == self.spec_to_raw(),
    {
        match self {
            Match::Specific(v) => *v as i16,
            Match::All => -1i16,
        }
    }
}

/// Whether a matcher survives the trip through its raw value: "all", or a value that fits the
/// non-negative half of the raw range.
pub open spec fn match_fits_raw(m: Match<u16>) -> bool {
    match m {
        Match::Specific(v) => v <= 0x7fffu16,
        Match::All => true,
    }
}

/// Turning a matcher into its raw value and back gives the same matcher, whenever the value fits
/// the raw range.
pub proof fn lemma_match_raw_roundtrip(m: Match<u16>)
    requires
        match_fits_raw(m),
    ensures
        Match::<u16>::spec_from_raw(m.spec_to_raw()) == m,
{
    match m {
        Match::Specific(v) => {
            assert(v <= 0x7fffu16 ==> (v as i16) >= 0 && ((v as i16) as u16) == v) by (bit_vector);
        },
        Match::All => {},
    }
}

/// Turning a raw value into a matcher and back gives the same raw value, for `-1` and every
/// non-negative value.
pub proof fn lemma_raw_match_roundtrip(raw: i16)
    requires
        raw >= -1,
    ensures
        Match::<u16>::spec_from_raw(raw).spec_to_raw() == raw,
{
    assert(raw >= 0 ==> ((raw as u16) as i16) == raw) by (bit_vector);
}

/// An opaque value that a plugin attaches to a parameter to find it again quickly: the address
/// of the plugin's own data, or zero.
#[derive(Copy, Clone, Debug, PartialEq, Eq, Hash)]
pub struct Cookie {
    address: usize,
}

impl Cookie {
    /// The address this cookie holds.
    pub closed spec fn spec_address(self) -> usize {
        self.address
    }

    /// The cookie that holds no address.
    pub fn empty() -> (c: Cookie)
        ensures
            c.spec_address() == 0,
    {
        Cookie { address: 0 }
    }

    /// Creates a cookie from the address it stands for.
    pub fn from_raw(address: usize) -> (c: Cookie)
        ensures
            c.spec_address() == address,
    {
        Cookie { address }
    }

    /// Returns the address this cookie holds.
    pub fn as_raw(&self) -> (address: usize)
        ensures
            address == self.spec_address(),
    {
        self.address
    }
}

/// The identifier of an event space: any 16-bit value except `u16::MAX`, which CLAP reserves to
/// mean "no space".
#[derive(Copy, Clone, Debug, PartialEq, Eq, Hash)]
pub struct EventSpaceId {
    id: u16,
}

impl EventSpaceId {
    /// The raw value this identifier stands for.
    pub closed spec fn spec_id(self) -> u16 {
        self.id
    }

    /// Every identifier holds a raw value other than the reserved one.
    pub open spec fn wf(self) -> bool {
        self.spec_id() != 0xffffu16
    }

    /// The identifier for a raw value, or `None` for the reserved value.
    pub open spec fn spec_new(id: u16) -> Option<EventSpaceId> {
        if id == 0xffffu16 {
            None
        } else {
            Some(EventSpaceId::from_id_spec(id))
        }
    }

    /// The identifier that holds the given raw value.
    pub closed spec fn from_id_spec(id: u16) -> EventSpaceId {
        EventSpaceId { id }
    }

    /// An identifier holds the raw value it was made from, and is the one made from its own
    /// raw value.
    pub proof fn lemma_from_id_spec(e: EventSpaceId)
        ensures
            EventSpaceId::from_id_spec(e.spec_id()) == e,
            forall|id: u16| #[trigger] EventSpaceId::from_id_spec(id).spec_id() == id,
    {
    }

    /// Creates an identifier from a raw value, or `None` for the reserved value.
    pub fn new(id: u16) -> (e: Option<EventSpaceId>)
        ensures
            e == Self::spec_new(id),
            e matches Some(x) ==> x.spec_id() == id && x.wf(),
    {
        if id == 0xffffu16 {
            None
        } else {
            Some(EventSpaceId { id })
        }
    }

    /// Returns the raw value of this identifier.
    pub fn id(self) -> (id: u16)
        ensures
            id == self.spec_id(),
    {
        self.id
    }

    /// The raw value of an optional identifier, using the reserved value for `None`.
    pub open spec fn spec_optional_id(value: Option<EventSpaceId>) -> u16 {
        match value {
            Some(e) => e.spec_id(),
            None => 0xffffu16,
        }
    }

    /// Turns an optional identifier into its raw value, using the reserved value for `None`.
    pub fn optional_id(value: &Option<EventSpaceId>) -> (id: u16)
        ensures
            id == Self::spec_optional_id(*value),
    {
        match value {
            Some(e) => e.id,
            None => 0xffffu16,
        }
    }
}

/// A color, as CLAP hands it over: alpha, red, green and blue components.
#[derive(Copy, Clone, Debug, PartialEq, Eq, Hash)]
pub struct Color {
    /// The opacity.
    pub alpha: u8,
    /// The red component.
    pub red: u8,
    /// The green component.
    pub green: u8,
    /// The blue component.
    pub blue: u8,
}

} // verus!
