use vstd::prelude::*;

verus! {

/// Why a plains landform configuration is invalid: the field at fault and
/// what it must satisfy.
#[derive(Clone, Copy, Debug, Eq, PartialEq)]
pub enum PlainsLandformConfigValidationError {
    InvalidParameter { field: &'static str, requirement: &'static str },
}

/// The largest octave count of a Perlin fBm field.
pub open spec fn fbm_octave_limit() -> int {
    32
}

/// `noise::Fbm::<Perlin>::MAX_OCTAVES`, the most octaves the fBm generator
/// takes; the crate's source defines it as 32.
#[verifier::external_body]
fn fbm_max_octaves() -> (n: usize)
    ensures
        n == fbm_octave_limit(),
{
    noise::Fbm::<noise::Perlin>::MAX_OCTAVES
}

/// Checks the octave count of a plains landform: it lies between 1 and the
/// largest count that the fBm generator takes.
pub fn validate_plains_octaves(octaves: u8) -> (r: Result<(), PlainsLandformConfigValidationError>)
    ensures
        r is Ok <==> 1 <= octaves <= fbm_octave_limit(),
        r matches Err(PlainsLandformConfigValidationError::InvalidParameter { field, requirement })
            ==> field@ == "octaves"@ && requirement@ == "must be between 1 and 32"@,
{
    let max_octaves = fbm_max_octaves();
    if octaves >= 1 && (octaves as usize) <= max_octaves {
        Ok(())
    } else {
        Err(
            PlainsLandformConfigValidationError::InvalidParameter {
                field: "octaves",
                requirement: "must be between 1 and 32",
            },
        )
    }
}

} // verus!
