use vstd::prelude::*;

use crate::error::GenerationError;

verus! {

/// What came back from posting one request to the backend.
#[derive(Debug)]
pub enum BackendReply {
    /// The connection failed or the request could not be sent.
    Unreachable,
    /// A reply arrived whose body is not the expected JSON object.
    Unparseable,
    /// The `images` list of a well-formed reply, base64 strings in order.
    Images(Vec<String>),
}

/// The image payload to use from `reply`, or the failure it stands for.
pub open spec fn first_image_of(reply: BackendReply) -> Result<Seq<char>, GenerationError> {
    match reply {
        BackendReply::Unreachable => Err(GenerationError::Unreachable),
        BackendReply::Unparseable => Err(GenerationError::InvalidResponse),
        BackendReply::Images(v) => if v@.len() == 0 {
            Err(GenerationError::NoImageProduced)
        } else {
            Ok(v@[0]@)
        },
    }
}

/// Takes the first image of the backend's reply; an empty list is a failure.
pub fn first_image(reply: BackendReply) -> (r: Result<String, GenerationError>)
    ensures
        match first_image_of(reply) {
            Ok(s) => r is Ok && r->Ok_0@ == s,
            Err(e) => r == Err::<String, GenerationError>(e),
        },
{
    match reply {
        BackendReply::Unreachable => Err(GenerationError::Unreachable),
        BackendReply::Unparseable => Err(GenerationError::InvalidResponse),
        BackendReply::Images(v) => if v.len() == 0 {
            Err(GenerationError::NoImageProduced)
        } else {
            Ok(v[0].clone())
        },
    }
}

} // verus!
