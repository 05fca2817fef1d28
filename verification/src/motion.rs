//! Descriptions of the controller's motion-related script calls.

use vstd::prelude::*;

verus! {

/// Arguments of the controller's `encoder_enable_pulse_decode` call, which
/// sets an encoder up to decode quadrature pulses on two inputs. A
/// placeholder: formatting it into script text is not implemented yet.
#[allow(dead_code)]
#[derive(Copy, Clone, PartialEq, Eq, PartialOrd, Ord, Debug)]
pub struct EncoderEnablePulseDecode {
    encoder_inded: u8,
    decoder_type: u8,
    a: u8,
    b: u8,
}

} // verus!
