use vstd::prelude::*;

verus! {

/// Why a terrain chunk gave no mesh.
#[derive(Debug)]
pub enum TerrainMeshError {
    /// The mesher refused the chunk's sample dimensions.
    InvalidSamples(std::io::Error),
    /// A vertex index does not fit the mesh's 32-bit index buffer.
    TooManyVertices,
}

/// Narrows the mesher's vertex indices to the 32-bit indices of a mesh, in
/// order; fails when any of them does not fit.
pub fn indices_to_u32(indices: Vec<usize>) -> (r: Result<Vec<u32>, TerrainMeshError>)
    ensures
        (forall|i: int| 0 <= i < indices@.len() ==> indices@[i] <= u32::MAX) ==> (r matches Ok(
            narrowed,
        ) && narrowed@.len() == indices@.len() && forall|i: int|
            0 <= i < indices@.len() ==> narrowed@[i] == indices@[i]),
        (exists|i: int| 0 <= i < indices@.len() && indices@[i] > u32::MAX) ==> (r matches Err(
            TerrainMeshError::TooManyVertices,
        )),
{
    let mut narrowed: Vec<u32> = Vec::with_capacity(indices.len());
    let mut i: usize = 0;
    while i < indices.len()
        invariant
            i <= indices@.len(),
            narrowed@.len() == i,
            forall|j: int| 0 <= j < i ==> indices@[j] <= u32::MAX && narrowed@[j] == indices@[j],
        decreases indices@.len() - i,
    {
        let index = indices[i];
        if index > 0xffff_ffff {
            return Err(TerrainMeshError::TooManyVertices);
        }
        narrowed.push(index as u32);
        i = i + 1;
    }
    Ok(narrowed)
}

} // verus!
