//! The extended capability list of an xHCI controller, and the supported protocol capabilities
//! in it, which say which USB version each root hub port speaks and at what speeds.
use vstd::prelude::*;
use crate::bitfield::{bit_is_set, get_bits, read_bit, read_bits};
use core::str::Utf8Error;

verus! {

/// The unit of a protocol speed id's mantissa.
#[derive(Debug, Clone, Copy, PartialEq, Eq)]
pub enum ProtocolSpeedIdExponent {
    /// Bits per second
    Bits,
    /// Kilobits per second
    Kilobits,
    /// Megabits per second
    Megabits,
    /// Gigabits per second
    Gigabits,
}

/// The exponent that the 2-bit value `b` encodes.
pub open spec fn psi_exponent_of(b: u32) -> ProtocolSpeedIdExponent {
    if b == 0 {
        ProtocolSpeedIdExponent::Bits
    } else if b == 1 {
        ProtocolSpeedIdExponent::Kilobits
    } else if b == 2 {
        ProtocolSpeedIdExponent::Megabits
    } else {
        ProtocolSpeedIdExponent::Gigabits
    }
}

impl ProtocolSpeedIdExponent {
    /// Constructs the exponent from its 2-bit representation.
    pub fn from_bits(b: u32) -> (r: Self)
        requires
            b <= 3,
        ensures
            r == psi_exponent_of(b),
    {
        match b {
            0 => ProtocolSpeedIdExponent::Bits,
            1 => ProtocolSpeedIdExponent::Kilobits,
            2 => ProtocolSpeedIdExponent::Megabits,
            _ => ProtocolSpeedIdExponent::Gigabits,
        }
    }

    /// Converts the exponent into its 2-bit representation.
    pub fn into_bits(self) -> (r: u32)
        ensures
            psi_exponent_of(r) == self,
            r <= 3,
    {
        match self {
            ProtocolSpeedIdExponent::Bits => 0,
            ProtocolSpeedIdExponent::Kilobits => 1,
            ProtocolSpeedIdExponent::Megabits => 2,
            ProtocolSpeedIdExponent::Gigabits => 3,
        }
    }
}

/// Whether a speed is the receive speed, the transmit speed, or both.
#[derive(Debug, Clone, Copy, PartialEq, Eq)]
pub enum ProtocolSpeedIdType {
    /// The same speed in both directions
    Symmetric,
    /// Reserved
    Reserved,
    /// The receive speed of an asymmetric link
    AsymmetricReceive,
    /// The transmit speed of an asymmetric link
    AsymmetricTransmit,
}

/// The type that the 2-bit value `b` encodes.
pub open spec fn psi_type_of(b: u32) -> ProtocolSpeedIdType {
    if b == 0 {
        ProtocolSpeedIdType::Symmetric
    } else if b == 1 {
        ProtocolSpeedIdType::Reserved
    } else if b == 2 {
        ProtocolSpeedIdType::AsymmetricReceive
    } else {
        ProtocolSpeedIdType::AsymmetricTransmit
    }
}

impl ProtocolSpeedIdType {
    /// Constructs the type from its 2-bit representation.
    pub fn from_bits(b: u32) -> (r: Self)
        requires
            b <= 3,
        ensures
            r == psi_type_of(b),
    {
        match b {
            0 => ProtocolSpeedIdType::Symmetric,
            1 => ProtocolSpeedIdType::Reserved,
            2 => ProtocolSpeedIdType::AsymmetricReceive,
            _ => ProtocolSpeedIdType::AsymmetricTransmit,
        }
    }

    /// Converts the type into its 2-bit representation.
    pub fn into_bits(self) -> (r: u32)
        ensures
            psi_type_of(r) == self,
            r <= 3,
    {
        match self {
            ProtocolSpeedIdType::Symmetric => 0,
            ProtocolSpeedIdType::Reserved => 1,
            ProtocolSpeedIdType::AsymmetricReceive => 2,
            ProtocolSpeedIdType::AsymmetricTransmit => 3,
        }
    }
}

/// The link-level protocol of a USB3 port.
#[derive(Debug, Clone, Copy, PartialEq, Eq)]
pub enum LinkProtocol {
    /// SuperSpeed
    SuperSpeed,
    /// SuperSpeedPlus
    SuperSpeedPlus,
    /// Any other value
    Reserved(u8),
}

/// The link protocol that the value `b` encodes.
pub open spec fn link_protocol_of(b: u32) -> LinkProtocol {
    if b == 0 {
        LinkProtocol::SuperSpeed
    } else if b == 1 {
        LinkProtocol::SuperSpeedPlus
    } else {
        LinkProtocol::Reserved(b as u8)
    }
}

impl LinkProtocol {
    /// Constructs the link protocol from its bit representation.
    pub fn from_bits(b: u32) -> (r: Self)
        ensures
            r == link_protocol_of(b),
    {
        match b {
            0 => LinkProtocol::SuperSpeed,
            1 => LinkProtocol::SuperSpeedPlus,
            _ => LinkProtocol::Reserved(b as u8),
        }
    }

    /// Converts the link protocol into its bit representation.
    pub fn into_bits(self) -> (r: u32)
        ensures
            r == match self {
                LinkProtocol::SuperSpeed => 0u32,
                LinkProtocol::SuperSpeedPlus => 1u32,
                LinkProtocol::Reserved(b) => b as u32,
            },
    {
        match self {
            LinkProtocol::SuperSpeed => 0,
            LinkProtocol::SuperSpeedPlus => 1,
            LinkProtocol::Reserved(b) => b as u32,
        }
    }
}

/// A protocol speed id: a mapping between a port speed value and the bit rate it stands for.
#[derive(Debug, Clone, Copy, PartialEq, Eq)]
pub struct ProtocolSpeedId {
    bits: u32,
}

impl View for ProtocolSpeedId {
    type V = u32;

    closed spec fn view(&self) -> u32 {
        self.bits
    }
}

impl ProtocolSpeedId {
    /// Constructs the register from its bit representation.
    pub fn from_bits(bits: u32) -> (r: Self)
        ensures
            r@ == bits,
    {
        ProtocolSpeedId { bits }
    }

    /// The register's bit representation.
    pub fn into_bits(self) -> (r: u32)
        ensures
            r == self@,
    {
        self.bits
    }

    /// The port speed value that indicates this speed.
    pub fn speed_id_value(&self) -> (r: u8)
        ensures
            r == get_bits(self@, 0, 4),
    {
        read_bits(self.bits, 0, 4) as u8
    }

    /// The unit of the mantissa.
    pub fn speed_id_exponent(&self) -> (r: ProtocolSpeedIdExponent)
        ensures
            r == psi_exponent_of(get_bits(self@, 4, 2)),
    {
        ProtocolSpeedIdExponent::from_bits(read_bits(self.bits, 4, 2))
    }

    /// Whether this speed is the receive speed, transmit speed, or both.
    pub fn psi_type(&self) -> (r: ProtocolSpeedIdType)
        ensures
            r == psi_type_of(get_bits(self@, 6, 2)),
    {
        ProtocolSpeedIdType::from_bits(read_bits(self.bits, 6, 2))
    }

    /// Whether the link is full-duplex.
    pub fn psi_full_duplex(&self) -> (r: bool)
        ensures
            r == bit_is_set(self@, 8),
    {
        read_bit(self.bits, 8)
    }

    /// The link-level protocol of a USB3 port.
    pub fn link_protocol(&self) -> (r: LinkProtocol)
        ensures
            r == link_protocol_of(get_bits(self@, 14, 2)),
    {
        LinkProtocol::from_bits(read_bits(self.bits, 14, 2))
    }

    /// The maximum bit rate of this speed, in the unit of the exponent.
    pub fn speed_id_mantissa(&self) -> (r: u16)
        ensures
            r == get_bits(self@, 16, 16),
    {
        read_bits(self.bits, 16, 16) as u16
    }
}

/// The number of protocol speed ids of a supported protocol capability whose third dword is `d2`.
pub open spec fn speed_id_count(d2: u32) -> int {
    get_bits(d2, 28, 4) as int
}

/// The four bytes of a supported protocol capability's name, held in its second dword `d1`, in memory order.
pub open spec fn name_bytes_of(d1: u32) -> Seq<u8> {
    seq![get_bits(d1, 0, 8) as u8, get_bits(d1, 8, 8) as u8, get_bits(d1, 16, 8) as u8, get_bits(d1, 24, 8) as u8]
}

#[verifier::external_type_specification]
#[verifier::external_body]
pub struct ExUtf8Error(core::str::Utf8Error);

/// Reads `bytes` as a string.
///
/// Calls `core::str::from_utf8`, which by its documentation succeeds exactly when the bytes are
/// valid UTF-8 and then returns the string whose characters those bytes encode.
#[verifier::external_body]
fn str_from_utf8(bytes: &[u8]) -> (r: Result<&str, Utf8Error>)
    ensures
        r is Ok <==> vstd::utf8::valid_utf8(bytes@),
        r matches Ok(s) ==> s@ == vstd::utf8::decode_utf8(bytes@),
{
    core::str::from_utf8(bytes)
}

/// A supported protocol capability: the USB protocol version of a range of ports and the speeds
/// they can run at. It holds the capability's four dwords and its protocol speed ids.
#[derive(Debug)]
pub struct SupportedProtocolCapability {
    dwords: Vec<u32>,
    name: [u8; 4],
}

impl View for SupportedProtocolCapability {
    type V = Seq<u32>;

    /// The dwords of the capability: the four header dwords, then one per speed id.
    closed spec fn view(&self) -> Seq<u32> {
        self.dwords@
    }
}

impl SupportedProtocolCapability {
    #[verifier::type_invariant]
    spec fn wf(self) -> bool {
        &&& self.dwords.len() >= 4
        &&& self.dwords.len() == 4 + speed_id_count(self.dwords@[2])
        &&& self.name@ == name_bytes_of(self.dwords@[1])
    }

    /// The capability made of the dwords at `at` in `words`: four header dwords and the speed ids that
    /// follow them, as many as the third dword says.
    pub fn new(words: &[u32], at: usize) -> (r: Self)
        requires
            at + 4 <= words@.len(),
            at + 4 + speed_id_count(words@[at + 2]) <= words@.len(),
        ensures
            r@ == words@.subrange(at as int, at + 4 + speed_id_count(words@[at + 2])),
    {
        assert(words@.len() == words.len());
        let count = read_bits(words[at + 2], 28, 4) as usize;
        let end = at + 4 + count;
        let mut dwords: Vec<u32> = Vec::new();
        let mut i = at;
        while i < end
            invariant
                at <= i <= end,
                end <= words@.len(),
                end == at + 4 + speed_id_count(words@[at + 2]),
                dwords@ == words@.subrange(at as int, i as int),
            decreases end - i,
        {
            dwords.push(words[i]);
            i = i + 1;
            assert(dwords@ =~= words@.subrange(at as int, i as int));
        }
        let d = dwords[1];
        let name = [read_bits(d, 0, 8) as u8, read_bits(d, 8, 8) as u8, read_bits(d, 16, 8) as u8, read_bits(d, 24, 8) as u8];
        assert(name@ =~= name_bytes_of(dwords@[1]));
        SupportedProtocolCapability { dwords, name }
    }

    /// The major revision of the USB specification that the ports implement.
    pub fn revision_major(&self) -> (r: u8)
        ensures
            r == get_bits(self@[0], 24, 8),
    {
        proof {
            use_type_invariant(self);
        }
        read_bits(self.dwords[0], 24, 8) as u8
    }

    /// The minor revision of the USB specification that the ports implement.
    pub fn revision_minor(&self) -> (r: u8)
        ensures
            r == get_bits(self@[0], 16, 8),
    {
        proof {
            use_type_invariant(self);
        }
        read_bits(self.dwords[0], 16, 8) as u8
    }

    /// The first port covered by this capability.
    pub fn compatible_port_offset(&self) -> (r: u8)
        ensures
            r == get_bits(self@[2], 0, 8),
    {
        proof {
            use_type_invariant(self);
        }
        read_bits(self.dwords[2], 0, 8) as u8
    }

    /// The number of ports covered by this capability.
    pub fn compatible_port_count(&self) -> (r: u8)
        ensures
            r == get_bits(self@[2], 8, 8),
    {
        proof {
            use_type_invariant(self);
        }
        read_bits(self.dwords[2], 8, 8) as u8
    }

    /// Data specific to the protocol revision.
    pub fn protocol_defined(&self) -> (r: u16)
        ensures
            r == get_bits(self@[2], 16, 12),
    {
        proof {
            use_type_invariant(self);
        }
        read_bits(self.dwords[2], 16, 12) as u16
    }

    /// The value to place in the slot type field of an Enable Slot TRB for a port using this protocol.
    pub fn protocol_slot_type(&self) -> (r: u8)
        ensures
            r == get_bits(self@[3], 0, 8),
    {
        proof {
            use_type_invariant(self);
        }
        read_bits(self.dwords[3], 0, 8) as u8
    }

    /// The four bytes of the protocol's name (`"USB "`), in memory order.
    pub fn name_bytes(&self) -> (r: [u8; 4])
        ensures
            r@ == name_bytes_of(self@[1]),
    {
        proof {
            use_type_invariant(self);
        }
        self.name
    }

    /// The protocol's name (`"USB "`) as a string, or the error that its bytes are not UTF-8.
    pub fn name_string(&self) -> (r: Result<&str, Utf8Error>)
        ensures
            r is Ok <==> vstd::utf8::valid_utf8(name_bytes_of(self@[1])),
            r matches Ok(s) ==> s@ == vstd::utf8::decode_utf8(name_bytes_of(self@[1])),
    {
        proof {
            use_type_invariant(self);
        }
        str_from_utf8(self.name.as_slice())
    }

    /// Gets the protocol speed ids of this capability, in order.
    pub fn speed_ids(&self) -> (r: Vec<ProtocolSpeedId>)
        ensures
            r.len() == self@.len() - 4,
            forall|i: int| 0 <= i < r.len() ==> (#[trigger] r@[i])@ == self@[4 + i],
    {
        proof {
            use_type_invariant(self);
        }
        let mut r: Vec<ProtocolSpeedId> = Vec::new();
        let mut i: usize = 4;
        while i < self.dwords.len()
            invariant
                4 <= i <= self.dwords.len(),
                r.len() == i - 4,
                forall|j: int| 0 <= j < r.len() ==> (#[trigger] r@[j])@ == self@[4 + j],
            decreases self.dwords.len() - i,
        {
            r.push(ProtocolSpeedId::from_bits(self.dwords[i]));
            i = i + 1;
        }
        r
    }

    /// Whether the capability's port range, the port count's ports starting at the port offset,
    /// contains `port_id`.
    pub fn covers_port(&self, port_id: u8) -> (r: bool)
        ensures
            r == covers_port_of(self@, port_id),
    {
        let offset = self.compatible_port_offset() as u16;
        let count = self.compatible_port_count() as u16;
        offset <= port_id as u16 && (port_id as u16) < offset + count
    }
}

/// Whether a supported protocol capability with dwords `d` covers `port_id`: the range holds as many
/// ports as its port count, starting at its port offset (its first port).
pub open spec fn covers_port_of(d: Seq<u32>, port_id: u8) -> bool {
    get_bits(d[2], 0, 8) <= port_id < get_bits(d[2], 0, 8) + get_bits(d[2], 8, 8)
}

/// A capability in the controller's extended capability list.
#[derive(Debug)]
pub enum Capability {
    /// The pre-OS to OS handoff synchronisation capability.
    UsbLegacySupport,
    /// The USB versions the controller supports and which ports use which versions.
    SupportedProtocol(SupportedProtocolCapability),
    /// Power management for non-PCI implementations.
    ExtendedPowerManagement,
    /// Hardware virtualisation support.
    IoVirtualisation,
    /// Interrupt support for non-PCI implementations.
    MessageInterrupt,
    /// Memory for the debug capability before system memory is initialised.
    LocalMemory,
    /// Debugging other devices over USB.
    UsbDebug,
    /// Extended interrupt support for non-PCI implementations.
    ExtendedMessageInterrupt,
    /// Reserved for future use
    Reserved(u8),
    /// Vendor defined codes
    VendorDefined(u8),
}

/// Whether `c` is the capability that the list image `words` holds at dword `p`: its kind is given by
/// the capability id in the low byte of its first dword, and a supported protocol capability holds the
/// dwords of the capability.
pub open spec fn capability_matches(c: Capability, words: Seq<u32>, p: int) -> bool {
    let id = get_bits(words[p], 0, 8);
    match c {
        Capability::UsbLegacySupport => id == 1,
        Capability::SupportedProtocol(s) => id == 2 && s@ == words.subrange(p, p + 4 + speed_id_count(words[p + 2])),
        Capability::ExtendedPowerManagement => id == 3,
        Capability::IoVirtualisation => id == 4,
        Capability::MessageInterrupt => id == 5,
        Capability::LocalMemory => id == 6,
        Capability::UsbDebug => id == 10,
        Capability::ExtendedMessageInterrupt => id == 17,
        Capability::Reserved(v) => v == id && (id == 0 || (7 <= id <= 9) || (11 <= id <= 16) || (18 <= id <= 191)),
        Capability::VendorDefined(v) => v == id && id >= 192,
    }
}

/// Whether the capability at dword `p` lies within the list image `words`.
pub open spec fn capability_fits(words: Seq<u32>, p: int) -> bool {
    &&& 0 <= p < words.len()
    &&& get_bits(words[p], 0, 8) == 2 ==> p + 4 <= words.len() && p + 4 + speed_id_count(words[p + 2]) <= words.len()
}

/// The dword after the capability at `p`: its next pointer counts dwords, and 0 ends the list.
pub open spec fn next_capability(words: Seq<u32>, p: int) -> int {
    p + get_bits(words[p], 8, 8)
}

/// The dword positions of the capabilities of the list image `words` from the one at `p`: the list
/// follows next pointers until one is 0, and ends early at a capability that the image does not hold.
pub open spec fn capability_positions(words: Seq<u32>, p: int) -> Seq<int>
    decreases words.len() - p,
{
    if !capability_fits(words, p) || p < 0 {
        Seq::empty()
    } else if get_bits(words[p], 8, 8) == 0 || next_capability(words, p) >= words.len() {
        seq![p]
    } else {
        seq![p] + capability_positions(words, next_capability(words, p))
    }
}

/// The capabilities of the controller, one at a time, following the next pointers of the list.
pub struct Capabilities {
    words: Vec<u32>,
    next: Option<usize>,
}

impl Capabilities {
    /// The list image being walked.
    pub closed spec fn words_spec(&self) -> Seq<u32> {
        self.words@
    }

    /// The positions of the capabilities still to be produced.
    pub closed spec fn remaining(&self) -> Seq<int> {
        match self.next {
            None => Seq::empty(),
            Some(p) => capability_positions(self.words@, p as int),
        }
    }

    /// Produces the next capability, or `None` at the end of the list.
    pub fn next(&mut self) -> (r: Option<Capability>)
        ensures
            final(self).words_spec() == old(self).words_spec(),
            old(self).remaining().len() == 0 ==> r is None && final(self).remaining().len() == 0,
            old(self).remaining().len() > 0 ==> (r matches Some(c) && capability_matches(
                c,
                old(self).words_spec(),
                old(self).remaining()[0],
            ) && final(self).remaining() == old(self).remaining().drop_first()),
    {
        let p = match self.next {
            None => {
                return None;
            },
            Some(p) => p,
        };
        if p >= self.words.len() {
            self.next = None;
            return None;
        }
        let raw = self.words[p];
        let id = read_bits(raw, 0, 8) as u8;
        if id == 2 && !(self.words.len() - p >= 4 && self.words.len() - p - 4 >= (read_bits(
            self.words[p + 2],
            28,
            4,
        ) as usize)) {
            self.next = None;
            return None;
        }
        let capability = match id {
            1 => Capability::UsbLegacySupport,
            2 => Capability::SupportedProtocol(SupportedProtocolCapability::new(self.words.as_slice(), p)),
            3 => Capability::ExtendedPowerManagement,
            4 => Capability::IoVirtualisation,
            5 => Capability::MessageInterrupt,
            6 => Capability::LocalMemory,
            10 => Capability::UsbDebug,
            17 => Capability::ExtendedMessageInterrupt,
            192..=255 => Capability::VendorDefined(id),
            _ => Capability::Reserved(id),
        };
        let offset = read_bits(raw, 8, 8) as usize;
        if offset == 0 || offset >= self.words.len() - p {
            self.next = None;
        } else {
            self.next = Some(p + offset);
        }
        proof {
            assert(old(self).remaining().drop_first() =~= self.remaining());
        }
        Some(capability)
    }
}

/// Whether `s` is a supported protocol capability at position `p` of the list image that covers `port_id`.
pub open spec fn protocol_covers_at(words: Seq<u32>, p: int, port_id: u8) -> bool {
    get_bits(words[p], 0, 8) == 2 && covers_port_of(words.subrange(p, p + 4), port_id)
}

/// The controller's list of extended capabilities, as read from its MMIO space starting at the first
/// capability.
#[derive(Debug)]
pub struct ExtendedCapabilityRegisters {
    words: Vec<u32>,
}

impl View for ExtendedCapabilityRegisters {
    type V = Seq<u32>;

    closed spec fn view(&self) -> Seq<u32> {
        self.words@
    }
}

impl ExtendedCapabilityRegisters {
    /// The extended capability list held in `words`, the first capability first.
    pub fn new(words: Vec<u32>) -> (r: Self)
        ensures
            r@ == words@,
    {
        ExtendedCapabilityRegisters { words }
    }

    /// Gets the controller's capabilities, one at a time.
    pub fn capabilities(&self) -> (r: Capabilities)
        ensures
            r.words_spec() == self@,
            r.remaining() == capability_positions(self@, 0),
    {
        Capabilities { words: self.words.clone(), next: Some(0) }
    }

    /// Gets the first supported protocol capability of the list whose port range contains `port_id`.
    pub fn get_protocol_for_port(&self, port_id: u8) -> (r: Option<SupportedProtocolCapability>)
        ensures
            match protocol_position_for_port(self@, port_id) {
                None => r is None,
                Some(p) => r matches Some(s) && s@ == supported_protocol_dwords(self@, p),
            },
    {
        let mut caps = self.capabilities();
        let ghost ps = capability_positions(self@, 0);
        let ghost mut k: int = 0;
        loop
            invariant
                caps.words_spec() == self@,
                0 <= k <= ps.len(),
                caps.remaining() == ps.subrange(k, ps.len() as int),
                ps == capability_positions(self@, 0),
                first_covering_from(self@, ps, port_id, 0) == first_covering_from(self@, ps, port_id, k),
            decreases ps.len() - k,
        {
            let c = caps.next();
            match c {
                None => {
                    return None;
                },
                Some(cap) => {
                    proof {
                        assert(ps.subrange(k, ps.len() as int)[0] == ps[k]);
                        assert(ps.subrange(k, ps.len() as int).drop_first() =~= ps.subrange(k + 1, ps.len() as int));
                    }
                    match cap {
                        Capability::SupportedProtocol(s) => {
                            if s.covers_port(port_id) {
                                return Some(s);
                            }
                        },
                        _ => {},
                    }
                },
            }
            proof {
                k = k + 1;
            }
        }
    }

    /// Gets the value to write to the slot type field of Enable Slot TRBs for the given port:
    /// the protocol slot type of the port's supported protocol capability.
    pub fn slot_type(&self, port_id: u8) -> (r: Option<u8>)
        ensures
            match protocol_position_for_port(self@, port_id) {
                None => r is None,
                Some(p) => r == Some(get_bits(self@[p + 3], 0, 8) as u8),
            },
    {
        proof {
            lemma_protocol_position_fits(self@, port_id);
        }
        match self.get_protocol_for_port(port_id) {
            None => None,
            Some(s) => Some(s.protocol_slot_type()),
        }
    }

    /// Gets the protocol speed id of the given port whose speed id value is `speed_id`: the first
    /// such speed id of the port's supported protocol capability.
    pub fn get_protocol_speed(&self, port_id: u8, speed_id: u8) -> (r: Option<ProtocolSpeedId>)
        ensures
            match protocol_position_for_port(self@, port_id) {
                None => r is None,
                Some(p) => match first_speed_id(supported_protocol_dwords(self@, p), speed_id, 4) {
                    None => r is None,
                    Some(v) => r matches Some(id) && id@ == v,
                },
            },
    {
        proof {
            lemma_protocol_position_fits(self@, port_id);
        }
        let s = match self.get_protocol_for_port(port_id) {
            None => {
                return None;
            },
            Some(s) => s,
        };
        let ids = s.speed_ids();
        let mut i: usize = 0;
        while i < ids.len()
            invariant
                0 <= i <= ids.len(),
                ids.len() == s@.len() - 4,
                forall|j: int| 0 <= j < ids.len() ==> (#[trigger] ids@[j])@ == s@[4 + j],
                first_speed_id(s@, speed_id, 4) == first_speed_id(s@, speed_id, 4 + i),
                protocol_position_for_port(self@, port_id) matches Some(p) && s@ == supported_protocol_dwords(
                    self@,
                    p,
                ),
            decreases ids.len() - i,
        {
            if ids[i].speed_id_value() == speed_id {
                proof {
                    assert(ids@[i as int]@ == s@[4 + i]);
                    assert(first_speed_id(s@, speed_id, 4 + i) == Some(s@[4 + i]));
                }
                return Some(ids[i]);
            }
            i = i + 1;
        }
        None
    }
}

/// The dwords of the supported protocol capability at position `p` of the list image `words`.
pub open spec fn supported_protocol_dwords(words: Seq<u32>, p: int) -> Seq<u32> {
    words.subrange(p, p + 4 + speed_id_count(words[p + 2]))
}

/// The first of the positions `ps[k..]` that holds a supported protocol capability covering `port_id`.
pub open spec fn first_covering_from(words: Seq<u32>, ps: Seq<int>, port_id: u8, k: int) -> Option<int>
    decreases ps.len() - k,
{
    if k < 0 || k >= ps.len() {
        None
    } else if protocol_covers_at(words, ps[k], port_id) {
        Some(ps[k])
    } else {
        first_covering_from(words, ps, port_id, k + 1)
    }
}

/// The position of the first supported protocol capability of the list image `words` whose port
/// range contains `port_id`.
pub open spec fn protocol_position_for_port(words: Seq<u32>, port_id: u8) -> Option<int> {
    first_covering_from(words, capability_positions(words, 0), port_id, 0)
}

/// Every position of the capability list image lies within it, each capability held whole.
pub proof fn lemma_positions_fit(words: Seq<u32>, p: int)
    ensures
        forall|i: int| 0 <= i < capability_positions(words, p).len() ==> {
            let q = #[trigger] capability_positions(words, p)[i];
            q >= 0 && capability_fits(words, q)
        },
    decreases words.len() - p,
{
    if !capability_fits(words, p) || p < 0 {
    } else if get_bits(words[p], 8, 8) == 0 || next_capability(words, p) >= words.len() {
    } else {
        lemma_positions_fit(words, next_capability(words, p));
        let rest = capability_positions(words, next_capability(words, p));
        assert forall|i: int| 0 <= i < capability_positions(words, p).len() implies {
            let q = #[trigger] capability_positions(words, p)[i];
            q >= 0 && capability_fits(words, q)
        } by {
            if i > 0 {
                assert(capability_positions(words, p)[i] == rest[i - 1]);
            }
        }
    }
}

/// The position found by a search from `k` is one of the positions searched, and holds a supported
/// protocol capability covering the port.
pub proof fn lemma_first_covering_member(words: Seq<u32>, ps: Seq<int>, port_id: u8, k: int)
    ensures
        first_covering_from(words, ps, port_id, k) matches Some(p) ==> exists|i: int|
            k <= i < ps.len() && #[trigger] ps[i] == p && protocol_covers_at(words, p, port_id),
    decreases ps.len() - k,
{
    if k < 0 || k >= ps.len() {
    } else if protocol_covers_at(words, ps[k], port_id) {
    } else {
        lemma_first_covering_member(words, ps, port_id, k + 1);
    }
}

/// The capability found for a port is a supported protocol capability that the list image holds whole.
pub proof fn lemma_protocol_position_fits(words: Seq<u32>, port_id: u8)
    ensures
        protocol_position_for_port(words, port_id) matches Some(p) ==> {
            &&& 0 <= p
            &&& p + 4 <= words.len()
            &&& p + 4 + speed_id_count(words[p + 2]) <= words.len()
            &&& get_bits(words[p], 0, 8) == 2
        },
{
    let ps = capability_positions(words, 0);
    lemma_first_covering_member(words, ps, port_id, 0);
    lemma_positions_fit(words, 0);
}

/// The capability found for a port is a supported protocol capability in the list that covers the
/// port, and every capability before it in the list does not.
pub proof fn lemma_protocol_for_port_covers(words: Seq<u32>, port_id: u8)
    ensures
        protocol_position_for_port(words, port_id) matches Some(p) ==> protocol_covers_at(words, p, port_id)
            && exists|i: int|
            0 <= i < capability_positions(words, 0).len() && #[trigger] capability_positions(words, 0)[i] == p,
{
    lemma_first_covering_member(words, capability_positions(words, 0), port_id, 0);
}

/// The first of the dwords `d[k..]` that is a protocol speed id whose value (its low 4 bits) is `speed_id`.
pub open spec fn first_speed_id(d: Seq<u32>, speed_id: u8, k: int) -> Option<u32>
    decreases d.len() - k,
{
    if k < 0 || k >= d.len() {
        None
    } else if get_bits(d[k], 0, 4) == speed_id {
        Some(d[k])
    } else {
        first_speed_id(d, speed_id, k + 1)
    }
}

} // verus!
