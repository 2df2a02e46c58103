//! Decoding of the exception syndrome register (ESR_ELx).
//!
//! The register packs an exception class into bits 31..26 and a class-specific
//! payload into the bits below. Only three causes are told apart: a supervisor
//! call, a trapped wait instruction, and everything else.

use vstd::prelude::*;

verus! {

/// Exception class of a trapped WFI or WFE instruction.
pub const CLASS_WFI_WFE: u8 = 0x01;

/// Exception class of an SVC instruction executed in AArch32 state.
pub const CLASS_SVC_AARCH32: u8 = 0x11;

/// Exception class of an SVC instruction executed in AArch64 state.
pub const CLASS_SVC_AARCH64: u8 = 0x15;

/// The cause of a synchronous exception, as far as the dispatcher cares.
#[derive(Debug, PartialEq, Eq, Structural, Copy, Clone)]
pub enum Syndrome {
    /// A supervisor call; the value is the instruction's 16-bit immediate.
    Svc(u16),
    /// A wait-for-interrupt or wait-for-event instruction that trapped.
    WfiWfe,
    /// Any other cause.
    Other,
}

/// The exception class of `raw`: its six most significant bits, as a number below 64.
pub open spec fn class_of(raw: u32) -> int {
    raw as int / 0x400_0000
}

/// The immediate of `raw`: its sixteen least significant bits.
pub open spec fn immediate_of(raw: u32) -> int {
    raw as int % 0x1_0000
}

/// Whether `class` is one of the two classes of a supervisor call.
pub open spec fn is_svc_class(class: int) -> bool {
    class == CLASS_SVC_AARCH32 || class == CLASS_SVC_AARCH64
}

/// The cause that `raw` stands for.
pub open spec fn decoded(raw: u32) -> Syndrome {
    if is_svc_class(class_of(raw)) {
        Syndrome::Svc(immediate_of(raw) as u16)
    } else if class_of(raw) == CLASS_WFI_WFE {
        Syndrome::WfiWfe
    } else {
        Syndrome::Other
    }
}

/// Extracts the exception class of `raw`.
pub fn exception_class(raw: u32) -> (class: u8)
    ensures
        class == class_of(raw),
        class < 64,
{
    proof {
        lemma_fields_are_bits(raw);
    }
    (raw >> 26) as u8
}

/// Extracts the immediate that an SVC instruction left in `raw`.
pub fn immediate(raw: u32) -> (number: u16)
    ensures
        number == immediate_of(raw),
{
    proof {
        lemma_fields_are_bits(raw);
    }
    (raw & 0xffff) as u16
}

impl Syndrome {
    /// Decodes a raw syndrome value. Every value has exactly one cause.
    pub fn decode(raw: u32) -> (syndrome: Syndrome)
        ensures
            syndrome == decoded(raw),
    {
        let class: u8 = exception_class(raw);
        if class == CLASS_SVC_AARCH32 || class == CLASS_SVC_AARCH64 {
            Syndrome::Svc(immediate(raw))
        } else if class == CLASS_WFI_WFE {
            Syndrome::WfiWfe
        } else {
            Syndrome::Other
        }
    }
}

impl From<u32> for Syndrome {
    /// Same as [`Syndrome::decode`].
    fn from(raw: u32) -> (syndrome: Syndrome) {
        Syndrome::decode(raw)
    }
}

impl vstd::std_specs::convert::FromSpecImpl<u32> for Syndrome {
    open spec fn obeys_from_spec() -> bool {
        true
    }

    open spec fn from_spec(raw: u32) -> Syndrome {
        decoded(raw)
    }
}

/// The two fields are bit fields: the class is what a shift by 26 leaves, the
/// immediate what a mask of sixteen ones lets through. The number of a supervisor
/// call is that immediate, bit for bit.
pub proof fn lemma_fields_are_bits(raw: u32)
    ensures
        class_of(raw) == raw >> 26,
        immediate_of(raw) == raw & 0xffff,
        0 <= class_of(raw) < 64,
        0 <= immediate_of(raw) <= u16::MAX,
        decoded(raw) matches Syndrome::Svc(number) ==> number == raw & 0xffff,
{
    assert(raw >> 26 == raw / 0x400_0000 && (raw >> 26) < 64) by (bit_vector);
    assert(raw & 0xffff == raw % 0x1_0000) by (bit_vector);
}

/// Decoding has no hidden state: whatever two calls on one value return, they
/// return the same.
pub proof fn lemma_decode_is_deterministic(raw: u32, first: Syndrome, second: Syndrome)
    requires
        call_ensures(Syndrome::decode, (raw,), first),
        call_ensures(Syndrome::decode, (raw,), second),
    ensures
        first == second,
        first == decoded(raw),
{
}

} // verus!
