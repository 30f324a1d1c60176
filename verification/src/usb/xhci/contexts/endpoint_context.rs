//! The [`EndpointContext`], which defines information that applies to a specific endpoint.
use vstd::prelude::*;
use crate::addr::{is_phys_addr, phys_addr_new};
use crate::bitfield::{bit_is_set, field_fits, get_bits, lemma_bits_bounds, lemma_get_set_same, read_bit, read_bits, set_bit, set_bits, write_bit, write_bits};

verus! {

/// The current operational state of an endpoint.
#[derive(Debug, Clone, Copy, PartialEq, Eq)]
pub enum EndpointState {
    /// The endpoint is not operational
    Disabled,
    /// The endpoint is operational
    Running,
    /// The endpoint is halted because of a Halt condition on the USB
    Halted,
    /// The endpoint is stopped by a Stop Endpoint command or while recovering from a halt
    Stopped,
    /// The endpoint is stopped because of a TRB error
    Error,
    /// Reserved
    Reserved(u8),
}

/// The state encoded by each 3-bit value.
pub open spec fn endpoint_state_of(bits: u32) -> EndpointState {
    if bits == 0 {
        EndpointState::Disabled
    } else if bits == 1 {
        EndpointState::Running
    } else if bits == 2 {
        EndpointState::Halted
    } else if bits == 3 {
        EndpointState::Stopped
    } else if bits == 4 {
        EndpointState::Error
    } else {
        EndpointState::Reserved(bits as u8)
    }
}

/// The encoding of each state.
pub open spec fn endpoint_state_bits(s: EndpointState) -> u32 {
    match s {
        EndpointState::Disabled => 0,
        EndpointState::Running => 1,
        EndpointState::Halted => 2,
        EndpointState::Stopped => 3,
        EndpointState::Error => 4,
        EndpointState::Reserved(b) => b as u32,
    }
}

impl EndpointState {
    /// Constructs an [`EndpointState`] from its 3-bit representation.
    pub fn from_bits(bits: u32) -> (r: Self)
        requires
            bits <= 7,
        ensures
            r == endpoint_state_of(bits),
    {
        match bits {
            0 => EndpointState::Disabled,
            1 => EndpointState::Running,
            2 => EndpointState::Halted,
            3 => EndpointState::Stopped,
            4 => EndpointState::Error,
            _ => EndpointState::Reserved(bits as u8),
        }
    }

    /// Converts an [`EndpointState`] into its bit representation.
    pub fn into_bits(self) -> (r: u32)
        ensures
            r == endpoint_state_bits(self),
    {
        match self {
            EndpointState::Disabled => 0,
            EndpointState::Running => 1,
            EndpointState::Halted => 2,
            EndpointState::Stopped => 3,
            EndpointState::Error => 4,
            EndpointState::Reserved(bits) => bits as u32,
        }
    }
}

/// A type of USB endpoint.
#[derive(Debug, Clone, Copy, PartialEq, Eq)]
pub enum EndpointType {
    NotValid,
    IsochOut,
    BulkOut,
    InterruptOut,
    Control,
    IsochIn,
    BulkIn,
    InterruptIn,
}

/// The endpoint type encoded by each 3-bit value.
pub open spec fn endpoint_type_of(bits: u32) -> EndpointType {
    if bits == 0 {
        EndpointType::NotValid
    } else if bits == 1 {
        EndpointType::IsochOut
    } else if bits == 2 {
        EndpointType::BulkOut
    } else if bits == 3 {
        EndpointType::InterruptOut
    } else if bits == 4 {
        EndpointType::Control
    } else if bits == 5 {
        EndpointType::IsochIn
    } else if bits == 6 {
        EndpointType::BulkIn
    } else {
        EndpointType::InterruptIn
    }
}

/// The encoding of each endpoint type.
pub open spec fn endpoint_type_bits(t: EndpointType) -> u32 {
    match t {
        EndpointType::NotValid => 0,
        EndpointType::IsochOut => 1,
        EndpointType::BulkOut => 2,
        EndpointType::InterruptOut => 3,
        EndpointType::Control => 4,
        EndpointType::IsochIn => 5,
        EndpointType::BulkIn => 6,
        EndpointType::InterruptIn => 7,
    }
}

impl EndpointType {
    /// Constructs an [`EndpointType`] from its 3-bit representation.
    pub fn from_bits(bits: u32) -> (r: Self)
        requires
            bits <= 7,
        ensures
            r == endpoint_type_of(bits),
    {
        match bits {
            0 => EndpointType::NotValid,
            1 => EndpointType::IsochOut,
            2 => EndpointType::BulkOut,
            3 => EndpointType::InterruptOut,
            4 => EndpointType::Control,
            5 => EndpointType::IsochIn,
            6 => EndpointType::BulkIn,
            _ => EndpointType::InterruptIn,
        }
    }

    /// Converts an [`EndpointType`] into its bit representation.
    pub fn into_bits(self) -> (r: u32)
        ensures
            r == endpoint_type_bits(self),
    {
        match self {
            EndpointType::NotValid => 0,
            EndpointType::IsochOut => 1,
            EndpointType::BulkOut => 2,
            EndpointType::InterruptOut => 3,
            EndpointType::Control => 4,
            EndpointType::IsochIn => 5,
            EndpointType::BulkIn => 6,
            EndpointType::InterruptIn => 7,
        }
    }
}

/// Encoding an endpoint type and decoding it again gives back the type; the same holds for every
/// endpoint state except a reserved state carrying a code of another state or one above 7.
pub proof fn lemma_endpoint_enums_roundtrip(t: EndpointType, s: EndpointState)
    ensures
        endpoint_type_of(endpoint_type_bits(t)) == t,
        (s matches EndpointState::Reserved(b) ==> 5 <= b <= 7) ==> endpoint_state_of(endpoint_state_bits(s)) == s,
{
}

/// `a` divided by `b`, rounded up.
pub open spec fn div_ceil(a: int, b: int) -> int {
    (a + b - 1) / b
}

/// Divides `a` by `b`, rounding up.
fn div_ceil_u32(a: u32, b: u32) -> (r: u32)
    requires
        b > 0,
    ensures
        r == div_ceil(a as int, b as int),
{
    let q = a / b;
    let rem = a % b;
    assert(div_ceil(a as int, b as int) == q + if rem != 0 { 1int } else { 0int }) by (nonlinear_arith)
        requires
            b > 0,
            q == a / b,
            rem == a % b,
    ;
    assert(rem != 0 ==> q < 0xffff_ffff) by (nonlinear_arith)
        requires
            b > 0,
            q == a / b,
            rem == a % b,
            a <= 0xffff_ffff,
    ;
    if rem != 0 {
        q + 1
    } else {
        q
    }
}

/// The _Endpoint Context_ data structure: information that applies to a specific endpoint, in five dwords.
///
/// Dword 0 holds the endpoint state (bits 0 to 2), mult (8, 9), max primary streams (10 to 14), the linear
/// stream array flag (15), the interval (16 to 23) and the high byte of the max ESIT payload (24 to 31).
/// Dword 1 holds the error count (1, 2), the endpoint type (3 to 5), the host-initiate-disable flag (7), the
/// max burst size (8 to 15) and the max packet size (16 to 31). Dword 2 holds the dequeue cycle state (0) and
/// bits 4 to 31 of the TR dequeue pointer, dword 3 the pointer's high half, and dword 4 the average TRB length
/// (0 to 15) and the low half of the max ESIT payload (16 to 31).
#[derive(Debug, Clone, Copy)]
pub struct EndpointContext {
    dword_0: u32,
    dword_1: u32,
    dword_2: u32,
    tr_dequeue_pointer_high: u32,
    dword_4: u32,
}

/// The max ESIT payload of an endpoint context with the given dwords.
pub open spec fn max_esit_payload_of(d: Seq<u32>) -> u32 {
    (get_bits(d[0], 24, 8) * 0x1_0000 + get_bits(d[4], 16, 16)) as u32
}

/// The TR dequeue pointer of an endpoint context with the given dwords.
pub open spec fn tr_dequeue_pointer_of(d: Seq<u32>) -> u64 {
    (d[3] as int * 0x1_0000_0000 + get_bits(d[2], 4, 28) * 16) as u64
}

impl EndpointContext {
    /// The five dwords of the context.
    pub closed spec fn dwords(&self) -> Seq<u32> {
        seq![self.dword_0, self.dword_1, self.dword_2, self.tr_dequeue_pointer_high, self.dword_4]
    }

    /// An endpoint context has five dwords, so a setter that replaces a field of one dword leaves the
    /// other four as they were.
    pub proof fn lemma_dwords_len(&self)
        ensures
            self.dwords().len() == 5,
    {
    }

    /// The dwords after replacing a field of width `w` at bit `lo` of dword `i` with `x`.
    pub open spec fn with_field(d: Seq<u32>, i: int, lo: u32, w: u32, x: u32) -> Seq<u32> {
        d.update(i, set_bits(d[i], lo, w, x))
    }

    /// Constructs an endpoint context with every field set to 0.
    pub fn new() -> (r: Self)
        ensures
            r.dwords().len() == 5,
            r.dwords() == seq![0u32, 0u32, 0u32, 0u32, 0u32],
    {
        EndpointContext { dword_0: 0, dword_1: 0, dword_2: 0, tr_dequeue_pointer_high: 0, dword_4: 0 }
    }

    /// Constructs an endpoint context from its five dwords as they are laid out in memory.
    pub fn from_dwords(d: [u32; 5]) -> (r: Self)
        ensures
            r.dwords().len() == 5,
            r.dwords() == d@,
    {
        let r = EndpointContext {
            dword_0: d[0],
            dword_1: d[1],
            dword_2: d[2],
            tr_dequeue_pointer_high: d[3],
            dword_4: d[4],
        };
        assert(r.dwords() =~= d@);
        r
    }

    /// The five dwords of the context as they are laid out in memory.
    pub fn to_dwords(&self) -> (r: [u32; 5])
        ensures
            r@ == self.dwords(),
    {
        let r = [self.dword_0, self.dword_1, self.dword_2, self.tr_dequeue_pointer_high, self.dword_4];
        assert(r@ =~= self.dwords());
        r
    }

    /// Reads the endpoint state.
    pub fn endpoint_state(&self) -> (r: EndpointState)
        ensures
            r == endpoint_state_of(get_bits(self.dwords()[0], 0, 3)),
    {
        EndpointState::from_bits(read_bits(self.dword_0, 0, 3))
    }

    /// Sets the endpoint state; a reserved state must carry a 3-bit code.
    pub fn set_endpoint_state(&mut self, value: EndpointState)
        requires
            endpoint_state_bits(value) <= 7,
        ensures
            old(self).dwords().len() == 5,
            final(self).dwords().len() == 5,
            final(self).dwords() == Self::with_field(old(self).dwords(), 0, 0, 3, endpoint_state_bits(value)),
            final(self).endpoint_state_spec() == endpoint_state_of(endpoint_state_bits(value)),
    {
        proof {
            lemma_field_roundtrip(self.dword_0, 0, 3, endpoint_state_bits(value));
        }
        self.dword_0 = write_bits(self.dword_0, 0, 3, value.into_bits());
        assert(self.dwords() =~= Self::with_field(old(self).dwords(), 0, 0, 3, endpoint_state_bits(value)));
    }

    /// Updates the endpoint state.
    pub fn with_endpoint_state(self, value: EndpointState) -> (r: Self)
        requires
            endpoint_state_bits(value) <= 7,
        ensures
            self.dwords().len() == 5,
            r.dwords().len() == 5,
            r.dwords() == Self::with_field(self.dwords(), 0, 0, 3, endpoint_state_bits(value)),
    {
        let mut r = self;
        r.set_endpoint_state(value);
        r
    }

    /// The endpoint state as the getter reads it.
    pub open spec fn endpoint_state_spec(&self) -> EndpointState {
        endpoint_state_of(get_bits(self.dwords()[0], 0, 3))
    }

    /// Reads the linear stream array flag.
    pub fn linear_stream_array(&self) -> (r: bool)
        ensures
            r == bit_is_set(self.dwords()[0], 15),
    {
        read_bit(self.dword_0, 15)
    }

    /// Sets the linear stream array flag.
    pub fn set_linear_stream_array(&mut self, value: bool)
        ensures
            old(self).dwords().len() == 5,
            final(self).dwords().len() == 5,
            final(self).dwords() == old(self).dwords().update(0, set_bit(old(self).dwords()[0], 15, value)),
    {
        self.dword_0 = write_bit(self.dword_0, 15, value);
        assert(self.dwords() =~= old(self).dwords().update(0, set_bit(old(self).dwords()[0], 15, value)));
    }

    /// Updates the linear stream array flag.
    pub fn with_linear_stream_array(self, value: bool) -> (r: Self)
        ensures
            self.dwords().len() == 5,
            r.dwords().len() == 5,
            r.dwords() == self.dwords().update(0, set_bit(self.dwords()[0], 15, value)),
    {
        let mut r = self;
        r.set_linear_stream_array(value);
        r
    }

    /// Reads the interval between requests to the endpoint, as a power of two of 125 microseconds.
    pub fn interval(&self) -> (r: u8)
        ensures
            r == get_bits(self.dwords()[0], 16, 8),
    {
        read_bits(self.dword_0, 16, 8) as u8
    }

    /// Sets the interval.
    pub fn set_interval(&mut self, value: u8)
        ensures
            old(self).dwords().len() == 5,
            final(self).dwords().len() == 5,
            final(self).dwords() == Self::with_field(old(self).dwords(), 0, 16, 8, value as u32),
            final(self).interval_spec() == value,
    {
        proof {
            lemma_field_roundtrip(self.dword_0, 16, 8, value as u32);
        }
        self.dword_0 = write_bits(self.dword_0, 16, 8, value as u32);
        assert(self.dwords() =~= Self::with_field(old(self).dwords(), 0, 16, 8, value as u32));
    }

    /// Updates the interval.
    pub fn with_interval(self, value: u8) -> (r: Self)
        ensures
            self.dwords().len() == 5,
            r.dwords().len() == 5,
            r.dwords() == Self::with_field(self.dwords(), 0, 16, 8, value as u32),
    {
        let mut r = self;
        r.set_interval(value);
        r
    }

    /// The interval as the getter reads it.
    pub open spec fn interval_spec(&self) -> u32 {
        get_bits(self.dwords()[0], 16, 8)
    }

    /// Reads the error count: how many errors the controller allows before giving up on a TD.
    pub fn error_count(&self) -> (r: u8)
        ensures
            r == self.error_count_spec(),
    {
        read_bits(self.dword_1, 1, 2) as u8
    }

    /// The error count as the getter reads it.
    pub open spec fn error_count_spec(&self) -> u32 {
        get_bits(self.dwords()[1], 1, 2)
    }

    /// Reads the endpoint type.
    pub fn endpoint_type(&self) -> (r: EndpointType)
        ensures
            r == endpoint_type_of(get_bits(self.dwords()[1], 3, 3)),
    {
        EndpointType::from_bits(read_bits(self.dword_1, 3, 3))
    }

    /// Sets the endpoint type.
    pub fn set_endpoint_type(&mut self, value: EndpointType)
        ensures
            old(self).dwords().len() == 5,
            final(self).dwords().len() == 5,
            final(self).dwords() == Self::with_field(old(self).dwords(), 1, 3, 3, endpoint_type_bits(value)),
            endpoint_type_of(get_bits(final(self).dwords()[1], 3, 3)) == value,
    {
        proof {
            lemma_field_roundtrip(self.dword_1, 3, 3, endpoint_type_bits(value));
        }
        self.dword_1 = write_bits(self.dword_1, 3, 3, value.into_bits());
        assert(self.dwords() =~= Self::with_field(old(self).dwords(), 1, 3, 3, endpoint_type_bits(value)));
    }

    /// Updates the endpoint type.
    pub fn with_endpoint_type(self, value: EndpointType) -> (r: Self)
        ensures
            self.dwords().len() == 5,
            r.dwords().len() == 5,
            r.dwords() == Self::with_field(self.dwords(), 1, 3, 3, endpoint_type_bits(value)),
    {
        let mut r = self;
        r.set_endpoint_type(value);
        r
    }

    /// Reads the host-initiate-disable flag.
    pub fn host_initiate_disable(&self) -> (r: bool)
        ensures
            r == bit_is_set(self.dwords()[1], 7),
    {
        read_bit(self.dword_1, 7)
    }

    /// Sets the host-initiate-disable flag.
    pub fn set_host_initiate_disable(&mut self, value: bool)
        ensures
            old(self).dwords().len() == 5,
            final(self).dwords().len() == 5,
            final(self).dwords() == old(self).dwords().update(1, set_bit(old(self).dwords()[1], 7, value)),
    {
        self.dword_1 = write_bit(self.dword_1, 7, value);
        assert(self.dwords() =~= old(self).dwords().update(1, set_bit(old(self).dwords()[1], 7, value)));
    }

    /// Updates the host-initiate-disable flag.
    pub fn with_host_initiate_disable(self, value: bool) -> (r: Self)
        ensures
            self.dwords().len() == 5,
            r.dwords().len() == 5,
            r.dwords() == self.dwords().update(1, set_bit(self.dwords()[1], 7, value)),
    {
        let mut r = self;
        r.set_host_initiate_disable(value);
        r
    }

    /// Reads the max burst size: consecutive transactions per scheduling opportunity.
    pub fn max_burst_size(&self) -> (r: u8)
        ensures
            r == get_bits(self.dwords()[1], 8, 8),
    {
        read_bits(self.dword_1, 8, 8) as u8
    }

    /// Sets the max burst size.
    pub fn set_max_burst_size(&mut self, value: u8)
        ensures
            old(self).dwords().len() == 5,
            final(self).dwords().len() == 5,
            final(self).dwords() == Self::with_field(old(self).dwords(), 1, 8, 8, value as u32),
    {
        self.dword_1 = write_bits(self.dword_1, 8, 8, value as u32);
        assert(self.dwords() =~= Self::with_field(old(self).dwords(), 1, 8, 8, value as u32));
    }

    /// Updates the max burst size.
    pub fn with_max_burst_size(self, value: u8) -> (r: Self)
        ensures
            self.dwords().len() == 5,
            r.dwords().len() == 5,
            r.dwords() == Self::with_field(self.dwords(), 1, 8, 8, value as u32),
    {
        let mut r = self;
        r.set_max_burst_size(value);
        r
    }

    /// Reads the max packet size in bytes.
    pub fn max_packet_size(&self) -> (r: u16)
        ensures
            r == get_bits(self.dwords()[1], 16, 16),
    {
        read_bits(self.dword_1, 16, 16) as u16
    }

    /// Sets the max packet size.
    pub fn set_max_packet_size(&mut self, value: u16)
        ensures
            old(self).dwords().len() == 5,
            final(self).dwords().len() == 5,
            final(self).dwords() == Self::with_field(old(self).dwords(), 1, 16, 16, value as u32),
    {
        self.dword_1 = write_bits(self.dword_1, 16, 16, value as u32);
        assert(self.dwords() =~= Self::with_field(old(self).dwords(), 1, 16, 16, value as u32));
    }

    /// Updates the max packet size.
    pub fn with_max_packet_size(self, value: u16) -> (r: Self)
        ensures
            self.dwords().len() == 5,
            r.dwords().len() == 5,
            r.dwords() == Self::with_field(self.dwords(), 1, 16, 16, value as u32),
    {
        let mut r = self;
        r.set_max_packet_size(value);
        r
    }

    /// Reads the dequeue cycle state.
    pub fn dequeue_cycle_state(&self) -> (r: bool)
        ensures
            r == bit_is_set(self.dwords()[2], 0),
    {
        read_bit(self.dword_2, 0)
    }

    /// Sets the dequeue cycle state.
    pub fn set_dequeue_cycle_state(&mut self, value: bool)
        ensures
            old(self).dwords().len() == 5,
            final(self).dwords().len() == 5,
            final(self).dwords() == old(self).dwords().update(2, set_bit(old(self).dwords()[2], 0, value)),
    {
        self.dword_2 = write_bit(self.dword_2, 0, value);
        assert(self.dwords() =~= old(self).dwords().update(2, set_bit(old(self).dwords()[2], 0, value)));
    }

    /// Updates the dequeue cycle state.
    pub fn with_dequeue_cycle_state(self, value: bool) -> (r: Self)
        ensures
            self.dwords().len() == 5,
            r.dwords().len() == 5,
            r.dwords() == self.dwords().update(2, set_bit(self.dwords()[2], 0, value)),
    {
        let mut r = self;
        r.set_dequeue_cycle_state(value);
        r
    }

    /// Reads the average length of the TRBs executed by this endpoint.
    pub fn average_trb_length(&self) -> (r: u16)
        ensures
            r == get_bits(self.dwords()[4], 0, 16),
    {
        read_bits(self.dword_4, 0, 16) as u16
    }

    /// Sets the average TRB length.
    pub fn set_average_trb_length(&mut self, value: u16)
        ensures
            old(self).dwords().len() == 5,
            final(self).dwords().len() == 5,
            final(self).dwords() == Self::with_field(old(self).dwords(), 4, 0, 16, value as u32),
    {
        self.dword_4 = write_bits(self.dword_4, 0, 16, value as u32);
        assert(self.dwords() =~= Self::with_field(old(self).dwords(), 4, 0, 16, value as u32));
    }

    /// Updates the average TRB length.
    pub fn with_average_trb_length(self, value: u16) -> (r: Self)
        ensures
            self.dwords().len() == 5,
            r.dwords().len() == 5,
            r.dwords() == Self::with_field(self.dwords(), 4, 0, 16, value as u32),
    {
        let mut r = self;
        r.set_average_trb_length(value);
        r
    }

    /// Gets the zero-based mult value: the number of bursts within an interval, less one. `large_esit_payload`
    /// is the controller's large-ESIT-payload capability; with it, mult is derived from the max ESIT payload,
    /// packet size and burst size, and otherwise it is the stored field.
    pub fn mult(&self, large_esit_payload: bool) -> (r: u32)
        requires
            large_esit_payload ==> get_bits(self.dwords()[1], 16, 16) != 0,
            large_esit_payload ==> max_esit_payload_of(self.dwords()) != 0,
        ensures
            r == if large_esit_payload {
                div_ceil(
                    div_ceil(max_esit_payload_of(self.dwords()) as int, get_bits(self.dwords()[1], 16, 16) as int),
                    get_bits(self.dwords()[1], 8, 8) + 1,
                ) - 1
            } else {
                get_bits(self.dwords()[0], 8, 2) as int
            },
    {
        if large_esit_payload {
            let payload = self.max_esit_payload();
            let packet = self.max_packet_size() as u32;
            let burst = self.max_burst_size() as u32;
            let packets = div_ceil_u32(payload, packet);
            assert(packets >= 1) by (nonlinear_arith)
                requires
                    payload >= 1,
                    packet >= 1,
                    packets == div_ceil(payload as int, packet as int),
            ;
            let bursts = div_ceil_u32(packets, burst + 1);
            assert(bursts >= 1) by (nonlinear_arith)
                requires
                    packets >= 1,
                    burst + 1 >= 1,
                    bursts == div_ceil(packets as int, burst + 1),
            ;
            bursts - 1
        } else {
            read_bits(self.dword_0, 8, 2)
        }
    }

    /// Gets the maximum number of primary stream IDs, or `None` when the field is 0
    /// (the TR dequeue pointer then points to a transfer ring).
    pub fn max_primary_streams(&self) -> (r: Option<u8>)
        ensures
            r == if get_bits(self.dwords()[0], 10, 5) == 0 {
                None
            } else {
                Some(get_bits(self.dwords()[0], 10, 5) as u8)
            },
    {
        let v = read_bits(self.dword_0, 10, 5) as u8;
        if v == 0 {
            None
        } else {
            Some(v)
        }
    }

    /// Gets the TR dequeue pointer: the high dword and bits 4 to 31 of the third dword. This must be a
    /// physical address.
    pub fn tr_dequeue_pointer(&self) -> (r: u64)
        requires
            is_phys_addr(tr_dequeue_pointer_of(self.dwords())),
        ensures
            r == tr_dequeue_pointer_of(self.dwords()),
    {
        let high = self.tr_dequeue_pointer_high;
        let low = read_bits(self.dword_2, 4, 28);
        assert(((high as u64) << 32u64) | ((low as u64) << 4u64) == high as u64 * 0x1_0000_0000 + low as u64 * 16)
            by (bit_vector)
            requires
                low <= 0xfff_ffff,
        ;
        phys_addr_new(((high as u64) << 32u64) | ((low as u64) << 4u64))
    }

    /// Gets the max ESIT payload: the total number of bytes the endpoint transfers per service interval.
    pub fn max_esit_payload(&self) -> (r: u32)
        ensures
            r == max_esit_payload_of(self.dwords()),
            r < 0x100_0000,
    {
        let high = read_bits(self.dword_0, 24, 8);
        let low = read_bits(self.dword_4, 16, 16);
        assert((high << 16u32) | low == high * 0x1_0000 + low) by (bit_vector)
            requires
                high <= 0xff,
                low <= 0xffff,
        ;
        (high << 16u32) | low
    }

    /// Sets the mult field, without the large-ESIT-payload capability: `mult` is the zero-based number of
    /// bursts, at most 2.
    pub fn set_mult(&mut self, large_esit_payload: bool, mult: u32)
        requires
            !large_esit_payload,
            mult <= 2,
        ensures
            old(self).dwords().len() == 5,
            final(self).dwords().len() == 5,
            final(self).dwords() == Self::with_field(old(self).dwords(), 0, 8, 2, mult),
            get_bits(final(self).dwords()[0], 8, 2) == mult,
    {
        proof {
            lemma_field_roundtrip(self.dword_0, 8, 2, mult);
        }
        self.dword_0 = write_bits(self.dword_0, 8, 2, mult);
        assert(self.dwords() =~= Self::with_field(old(self).dwords(), 0, 8, 2, mult));
    }

    /// Updates the mult field.
    pub fn with_mult(self, large_esit_payload: bool, mult: u32) -> (r: Self)
        requires
            !large_esit_payload,
            mult <= 2,
        ensures
            self.dwords().len() == 5,
            r.dwords().len() == 5,
            r.dwords() == Self::with_field(self.dwords(), 0, 8, 2, mult),
    {
        let mut r = self;
        r.set_mult(large_esit_payload, mult);
        r
    }

    /// Sets the max primary streams field: `None` is stored as 0, and a given value must be in `1..16`.
    pub fn set_max_primary_streams(&mut self, max_primary_streams: Option<u8>)
        requires
            max_primary_streams matches Some(v) ==> v != 0 && v < 16,
        ensures
            old(self).dwords().len() == 5,
            final(self).dwords().len() == 5,
            final(self).dwords() == Self::with_field(
                old(self).dwords(),
                0,
                10,
                5,
                match max_primary_streams {
                    Some(v) => v as u32,
                    None => 0u32,
                },
            ),
            get_bits(final(self).dwords()[0], 10, 5) == match max_primary_streams {
                Some(v) => v as u32,
                None => 0u32,
            },
    {
        let v: u32 = match max_primary_streams {
            Some(v) => v as u32,
            None => 0,
        };
        proof {
            lemma_field_roundtrip(self.dword_0, 10, 5, v);
        }
        self.dword_0 = write_bits(self.dword_0, 10, 5, v);
        assert(self.dwords() =~= Self::with_field(old(self).dwords(), 0, 10, 5, v));
    }

    /// Updates the max primary streams field.
    pub fn with_max_primary_streams(self, max_primary_streams: Option<u8>) -> (r: Self)
        requires
            max_primary_streams matches Some(v) ==> v != 0 && v < 16,
        ensures
            self.dwords().len() == 5,
            r.dwords().len() == 5,
            r.dwords() == Self::with_field(
                self.dwords(),
                0,
                10,
                5,
                match max_primary_streams {
                    Some(v) => v as u32,
                    None => 0u32,
                },
            ),
    {
        let mut r = self;
        r.set_max_primary_streams(max_primary_streams);
        r
    }

    /// Sets the error count, which must be below 4.
    pub fn set_error_count(&mut self, error_count: u8)
        requires
            error_count < 4,
        ensures
            old(self).dwords().len() == 5,
            final(self).dwords().len() == 5,
            final(self).dwords() == Self::with_field(old(self).dwords(), 1, 1, 2, error_count as u32),
            final(self).error_count_spec() == error_count,
    {
        proof {
            lemma_field_roundtrip(self.dword_1, 1, 2, error_count as u32);
        }
        self.dword_1 = write_bits(self.dword_1, 1, 2, error_count as u32);
        assert(self.dwords() =~= Self::with_field(old(self).dwords(), 1, 1, 2, error_count as u32));
    }

    /// Updates the error count.
    pub fn with_error_count(self, error_count: u8) -> (r: Self)
        requires
            error_count < 4,
        ensures
            self.dwords().len() == 5,
            r.dwords().len() == 5,
            r.dwords() == Self::with_field(self.dwords(), 1, 1, 2, error_count as u32),
    {
        let mut r = self;
        r.set_error_count(error_count);
        r
    }

    /// Sets the TR dequeue pointer from a physical address. The low four bits of the address are not stored.
    pub fn set_tr_dequeue_pointer(&mut self, tr_dequeue_pointer: u64)
        requires
            is_phys_addr(tr_dequeue_pointer),
        ensures
            old(self).dwords().len() == 5,
            final(self).dwords().len() == 5,
            final(self).dwords() == old(self).dwords().update(3, (tr_dequeue_pointer / 0x1_0000_0000) as u32).update(
                2,
                set_bits(old(self).dwords()[2], 4, 28, ((tr_dequeue_pointer % 0x1_0000_0000) / 16) as u32),
            ),
            tr_dequeue_pointer_of(final(self).dwords()) == tr_dequeue_pointer - tr_dequeue_pointer % 16,
    {
        let high = (tr_dequeue_pointer >> 32u64) as u32;
        let low = tr_dequeue_pointer as u32;
        assert(high == tr_dequeue_pointer / 0x1_0000_0000 && low >> 4u32 == (tr_dequeue_pointer % 0x1_0000_0000) / 16
            && (low >> 4u32) <= 0xfff_ffff) by (bit_vector)
            requires
                high == (tr_dequeue_pointer >> 32u64) as u32,
                low == tr_dequeue_pointer as u32,
        ;
        proof {
            lemma_field_roundtrip(self.dword_2, 4, 28, low >> 4u32);
        }
        self.tr_dequeue_pointer_high = high;
        self.dword_2 = write_bits(self.dword_2, 4, 28, low >> 4u32);
        assert(self.dwords() =~= old(self).dwords().update(3, (tr_dequeue_pointer / 0x1_0000_0000) as u32).update(
            2,
            set_bits(old(self).dwords()[2], 4, 28, ((tr_dequeue_pointer % 0x1_0000_0000) / 16) as u32),
        ));
        assert(high as int * 0x1_0000_0000 + (low >> 4u32) as int * 16 == tr_dequeue_pointer - tr_dequeue_pointer % 16)
            by (nonlinear_arith)
            requires
                high == tr_dequeue_pointer / 0x1_0000_0000,
                low >> 4u32 == (tr_dequeue_pointer % 0x1_0000_0000) / 16,
        ;
    }

    /// Updates the TR dequeue pointer.
    pub fn with_tr_dequeue_pointer(self, tr_dequeue_pointer: u64) -> (r: Self)
        requires
            is_phys_addr(tr_dequeue_pointer),
        ensures
            self.dwords().len() == 5,
            r.dwords().len() == 5,
            r.dwords() == self.dwords().update(3, (tr_dequeue_pointer / 0x1_0000_0000) as u32).update(
                2,
                set_bits(self.dwords()[2], 4, 28, ((tr_dequeue_pointer % 0x1_0000_0000) / 16) as u32),
            ),
            tr_dequeue_pointer_of(r.dwords()) == tr_dequeue_pointer - tr_dequeue_pointer % 16,
    {
        let mut r = self;
        r.set_tr_dequeue_pointer(tr_dequeue_pointer);
        r
    }

    /// Sets the max ESIT payload, which must fit in 24 bits: its high byte goes to the first dword and its
    /// low half to the fifth.
    pub fn set_max_esit_payload(&mut self, max_esit_payload: u32)
        requires
            max_esit_payload < 0x100_0000,
        ensures
            old(self).dwords().len() == 5,
            final(self).dwords().len() == 5,
            final(self).dwords() == Self::with_field(
                Self::with_field(old(self).dwords(), 0, 24, 8, max_esit_payload / 0x1_0000),
                4,
                16,
                16,
                max_esit_payload % 0x1_0000,
            ),
            max_esit_payload_of(final(self).dwords()) == max_esit_payload,
    {
        let high = max_esit_payload >> 16u32;
        let low = max_esit_payload & 0xffff;
        assert(high == max_esit_payload / 0x1_0000 && low == max_esit_payload % 0x1_0000) by (bit_vector)
            requires
                high == max_esit_payload >> 16u32,
                low == max_esit_payload & 0xffff,
        ;
        proof {
            lemma_field_roundtrip(self.dword_0, 24, 8, high);
            lemma_field_roundtrip(self.dword_4, 16, 16, low);
        }
        self.dword_0 = write_bits(self.dword_0, 24, 8, high);
        self.dword_4 = write_bits(self.dword_4, 16, 16, low);
        assert(self.dwords() =~= Self::with_field(
            Self::with_field(old(self).dwords(), 0, 24, 8, max_esit_payload / 0x1_0000),
            4,
            16,
            16,
            max_esit_payload % 0x1_0000,
        ));
    }

    /// Updates the max ESIT payload.
    pub fn with_max_esit_payload(self, max_esit_payload: u32) -> (r: Self)
        requires
            max_esit_payload < 0x100_0000,
        ensures
            self.dwords().len() == 5,
            r.dwords().len() == 5,
            r.dwords() == Self::with_field(
                Self::with_field(self.dwords(), 0, 24, 8, max_esit_payload / 0x1_0000),
                4,
                16,
                16,
                max_esit_payload % 0x1_0000,
            ),
            max_esit_payload_of(r.dwords()) == max_esit_payload,
    {
        let mut r = self;
        r.set_max_esit_payload(max_esit_payload);
        r
    }
}

/// Writing a value that fits in a field and reading the field back gives the value.
pub proof fn lemma_field_roundtrip(v: u32, lo: u32, w: u32, x: u32)
    requires
        field_fits(lo, w),
        w == 2 || w == 3 || w == 5 || w == 8 || w == 16 || w == 28,
        w == 2 ==> x <= 3,
        w == 3 ==> x <= 7,
        w == 5 ==> x <= 0x1f,
        w == 8 ==> x <= 0xff,
        w == 16 ==> x <= 0xffff,
        w == 28 ==> x <= 0xfff_ffff,
    ensures
        get_bits(set_bits(v, lo, w, x), lo, w) == x,
{
    lemma_get_set_same(v, lo, w, x);
    lemma_bits_bounds(v, lo, w, x);
}

} // verus!
