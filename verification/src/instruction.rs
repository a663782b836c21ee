//! The instruction envelope: a fixed-width discriminator followed by the
//! handler's payload.

use vstd::prelude::*;

verus! {

/// Width in bytes of the discriminator that opens every instruction buffer.
pub const DISCRIMINATOR_WIDTH: usize = 8;

/// Why an instruction buffer could not be turned into typed arguments.
#[derive(Clone, Copy, Debug, PartialEq, Eq, Structural)]
pub enum DecodeError {
    /// The buffer is shorter than the discriminator.
    TruncatedInstruction,
    /// The payload is not what the handler expects; the offset into the
    /// payload at which reading stopped, where the handler can tell.
    MalformedPayload(Option<usize>),
}

/// A decoded instruction: which handler is meant, and the bytes for it.
#[derive(Clone, Debug, PartialEq, Eq)]
pub struct InstructionEnvelope {
    pub discriminator: [u8; 8],
    pub payload: Vec<u8>,
}

/// The buffer that carries `payload` to the handler tagged `discriminator`.
pub open spec fn encoded(discriminator: Seq<u8>, payload: Seq<u8>) -> Seq<u8> {
    discriminator + payload
}

/// Whether a buffer is long enough to hold a discriminator.
pub open spec fn holds_discriminator(buffer: Seq<u8>) -> bool {
    buffer.len() >= DISCRIMINATOR_WIDTH
}

/// The leading discriminator of a buffer.
pub open spec fn discriminator_of(buffer: Seq<u8>) -> Seq<u8> {
    buffer.subrange(0, DISCRIMINATOR_WIDTH as int)
}

/// What follows the discriminator in a buffer.
pub open spec fn payload_of(buffer: Seq<u8>) -> Seq<u8> {
    buffer.subrange(DISCRIMINATOR_WIDTH as int, buffer.len() as int)
}

/// Splits an instruction buffer into discriminator and payload.
///
/// Fails with `TruncatedInstruction` exactly when the buffer is shorter
/// than the discriminator; never fails otherwise.
pub fn decode(buffer: &[u8]) -> (r: Result<InstructionEnvelope, DecodeError>)
    ensures
        holds_discriminator(buffer@) ==> r is Ok,
        !holds_discriminator(buffer@) ==> r == Err::<InstructionEnvelope, DecodeError>(
            DecodeError::TruncatedInstruction,
        ),
        r matches Ok(envelope) ==> envelope.discriminator@ == discriminator_of(buffer@)
            && envelope.payload@ == payload_of(buffer@),
{
    if buffer.len() < DISCRIMINATOR_WIDTH {
        return Err(DecodeError::TruncatedInstruction);
    }
    let mut discriminator: [u8; 8] = [0u8; 8];
    let mut i: usize = 0;
    while i < DISCRIMINATOR_WIDTH
        invariant
            i <= DISCRIMINATOR_WIDTH,
            buffer@.len() >= DISCRIMINATOR_WIDTH,
            forall|j: int| 0 <= j < i ==> discriminator@[j] == buffer@[j],
        decreases DISCRIMINATOR_WIDTH - i,
    {
        discriminator[i] = buffer[i];
        i += 1;
    }
    let mut payload: Vec<u8> = Vec::new();
    let mut k: usize = DISCRIMINATOR_WIDTH;
    while k < buffer.len()
        invariant
            DISCRIMINATOR_WIDTH <= k <= buffer@.len(),
            payload@.len() == k - DISCRIMINATOR_WIDTH,
            forall|j: int| 0 <= j < payload@.len() ==> payload@[j] == buffer@[j + DISCRIMINATOR_WIDTH],
        decreases buffer@.len() - k,
    {
        payload.push(buffer[k]);
        k += 1;
    }
    assert(discriminator@ =~= discriminator_of(buffer@));
    assert(payload@ =~= payload_of(buffer@));
    Ok(InstructionEnvelope { discriminator, payload })
}

/// Builds the instruction buffer for a discriminator and a payload.
pub fn encode(discriminator: &[u8; 8], payload: &[u8]) -> (buffer: Vec<u8>)
    ensures
        buffer@ == encoded(discriminator@, payload@),
{
    let mut buffer: Vec<u8> = Vec::new();
    let mut i: usize = 0;
    while i < DISCRIMINATOR_WIDTH
        invariant
            i <= DISCRIMINATOR_WIDTH,
            buffer@ == discriminator@.subrange(0, i as int),
        decreases DISCRIMINATOR_WIDTH - i,
    {
        buffer.push(discriminator[i]);
        assert(buffer@ =~= discriminator@.subrange(0, i + 1));
        i += 1;
    }
    assert(discriminator@.subrange(0, DISCRIMINATOR_WIDTH as int) =~= discriminator@);
    let mut k: usize = 0;
    while k < payload.len()
        invariant
            k <= payload@.len(),
            buffer@ == discriminator@ + payload@.subrange(0, k as int),
        decreases payload@.len() - k,
    {
        buffer.push(payload[k]);
        assert(buffer@ =~= discriminator@ + payload@.subrange(0, k + 1));
        k += 1;
    }
    assert(payload@.subrange(0, payload@.len() as int) =~= payload@);
    buffer
}

/// Encoding a discriminator with a payload and splitting the buffer again
/// gives back both, byte for byte, and such a buffer is never truncated.
pub proof fn encode_then_decode(discriminator: Seq<u8>, payload: Seq<u8>)
    requires
        discriminator.len() == DISCRIMINATOR_WIDTH,
    ensures
        holds_discriminator(encoded(discriminator, payload)),
        discriminator_of(encoded(discriminator, payload)) == discriminator,
        payload_of(encoded(discriminator, payload)) == payload,
{
    let buffer = encoded(discriminator, payload);
    assert(discriminator_of(buffer) =~= discriminator);
    assert(payload_of(buffer) =~= payload);
}

/// Splitting a buffer that holds a discriminator loses nothing: the two
/// parts encode to the buffer they came from.
pub proof fn decode_then_encode(buffer: Seq<u8>)
    requires
        holds_discriminator(buffer),
    ensures
        encoded(discriminator_of(buffer), payload_of(buffer)) == buffer,
{
    assert(encoded(discriminator_of(buffer), payload_of(buffer)) =~= buffer);
}

} // verus!
