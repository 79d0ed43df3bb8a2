//! Color state attached to a post-processed frame.
//!
//! A frame that carries coding-independent code points (CICP) gets them
//! parsed and attached; without them the pixels are treated as sRGB (an ICC
//! transformation, performed outside the library, normalizes to sRGB or is
//! abandoned without touching the pixels).

use vstd::prelude::*;

use crate::frame::FrameDetails;

verus! {

#[verifier::external_type_specification]
#[verifier::external_body]
pub struct ExCicp(gufo_common::cicp::Cicp);

#[verifier::external_type_specification]
#[verifier::external_body]
pub struct ExCicpError(gufo_common::cicp::CicpError);

/// Relies on gufo_common::cicp::Cicp::from_bytes: the first three bytes
/// (color primaries, transfer characteristics, matrix coefficients) convert
/// totally, and the call fails exactly when the fourth byte is not a valid
/// video full range flag, that is, neither 0 nor 1.
#[verifier::external_body]
fn cicp_from_bytes(b0: u8, b1: u8, b2: u8, b3: u8) -> (r: Result<
    gufo_common::cicp::Cicp,
    gufo_common::cicp::CicpError,
>)
    ensures
        r is Ok <==> (b3 == 0 || b3 == 1),
{
    gufo_common::cicp::Cicp::from_bytes(&[b0, b1, b2, b3])
}

/// How the pixels of a frame are to be interpreted.
#[derive(Debug, Clone, Copy)]
pub enum ColorState {
    /// Standard RGB; also the degraded state when a color profile could not
    /// be applied.
    Srgb,
    /// The coding-independent code points the frame arrived with.
    Cicp(gufo_common::cicp::Cicp),
}

impl ColorState {
    pub fn is_srgb(&self) -> (r: bool)
        ensures
            r <==> self matches ColorState::Srgb,
    {
        match self {
            ColorState::Srgb => true,
            ColorState::Cicp(_) => false,
        }
    }
}

/// Parse the code points a frame arrived with, if any.
///
/// Returns a color state exactly when four code-point bytes are present and
/// the fourth is a valid video full range flag; anything else leaves color
/// management to the ICC path.
pub fn parse_frame_cicp(details: &FrameDetails) -> (r: Option<ColorState>)
    ensures
        r is Some <==> (details.cicp matches Some(b) && b@.len() == 4 && (b@[3] == 0 || b@[3]
            == 1)),
        r matches Some(cs) ==> cs matches ColorState::Cicp(_),
{
    match &details.cicp {
        Some(bytes) => {
            if bytes.len() == 4 {
                match cicp_from_bytes(bytes[0], bytes[1], bytes[2], bytes[3]) {
                    Ok(cicp) => Some(ColorState::Cicp(cicp)),
                    Err(_) => None,
                }
            } else {
                None
            }
        },
        None => None,
    }
}

} // verus!
