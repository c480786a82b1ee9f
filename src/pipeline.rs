use vstd::prelude::*;

use crate::codec::{decode_image, decode_outcome, CodecConfig, PictureFormat};
use crate::error::{GenerationError, PipelineError};
use crate::generation::{first_image, first_image_of, BackendReply};
use crate::options::{
    first_named, negative_prompt_of, parse_options, prompt_of, seed_of,
    CommandOption, OptionValue,
};
use crate::reply::{followup_for, Followup, ReplyOutcome};
use crate::request::{build_request, fixed_parameters, BackendConfig, GenerationRequest};

verus! {

/// Whether `r` is what preparing a backend request from `opts` at time `now`
/// must give: the parse failure, or the request built from the parsed options.
pub open spec fn prepare_outcome(
    opts: Seq<CommandOption>,
    now: i64,
    config: BackendConfig,
    r: Result<GenerationRequest, PipelineError>,
) -> bool {
    if prompt_of(opts) is None {
        r == Err::<GenerationRequest, PipelineError>(PipelineError::MissingOrInvalidPrompt)
    } else if negative_prompt_of(opts) is None || seed_of(opts, now) is None {
        r == Err::<GenerationRequest, PipelineError>(PipelineError::InvalidOptionType)
    } else {
        &&& r is Ok
        &&& r->Ok_0.prompt@ == prompt_of(opts)->Some_0
        &&& r->Ok_0.negative_prompt@ == negative_prompt_of(opts)->Some_0
        &&& r->Ok_0.seed == seed_of(opts, now)->Some_0
        &&& fixed_parameters(config, r->Ok_0)
    }
}

/// Validates the invocation's options and builds the request to send to the
/// backend. `now` is the current time in whole seconds since the Unix epoch.
pub fn prepare_generation(opts: &Vec<CommandOption>, now: i64, config: &BackendConfig) -> (r: Result<GenerationRequest, PipelineError>)
    ensures
        prepare_outcome(opts@, now, *config, r),
{
    match parse_options(opts, now) {
        Ok(inv) => Ok(build_request(inv, config)),
        Err(e) => Err(e),
    }
}

/// Whether `r` may be the outcome of a generation whose backend answered
/// `reply`, for an invocation with seed `seed`.
pub open spec fn completion_outcome(reply: BackendReply, codec: CodecConfig, seed: i64, r: ReplyOutcome) -> bool {
    match first_image_of(reply) {
        Err(e) => r == ReplyOutcome::Failure(PipelineError::Generation(e)),
        Ok(payload) => match r {
            ReplyOutcome::Success { image, seed: s } => s == seed && decode_outcome(payload, codec, Ok(image)),
            ReplyOutcome::Failure(PipelineError::Codec(e)) => decode_outcome(payload, codec, Err(e)),
            ReplyOutcome::Failure(_) => false,
        },
    }
}

/// Turns the backend's reply into the invocation's outcome: the first image,
/// decoded (and transcoded where configured), with the seed used.
pub fn complete_generation(reply: BackendReply, codec: &CodecConfig, seed: i64) -> (r: ReplyOutcome)
    ensures
        completion_outcome(reply, *codec, seed, r),
{
    let payload = match first_image(reply) {
        Ok(p) => p,
        Err(e) => return ReplyOutcome::Failure(PipelineError::Generation(e)),
    };
    match decode_image(payload.as_str(), codec) {
        Ok(image) => ReplyOutcome::Success { image, seed },
        Err(e) => ReplyOutcome::Failure(PipelineError::Codec(e)),
    }
}

/// An invocation without a `prompt` option is rejected with
/// `MissingOrInvalidPrompt`, so no request for the backend exists.
pub proof fn missing_prompt_is_rejected(
    opts: Seq<CommandOption>,
    now: i64,
    config: BackendConfig,
    r: Result<GenerationRequest, PipelineError>,
)
    requires
        first_named(opts, "prompt"@) is None,
        prepare_outcome(opts, now, config, r),
    ensures
        r == Err::<GenerationRequest, PipelineError>(PipelineError::MissingOrInvalidPrompt),
{
}

/// Without a `seed` option the request carries `now`; with an integer
/// `seed` option it carries that integer unchanged.
pub proof fn seed_defaults_to_now_or_passes_through(
    opts: Seq<CommandOption>,
    now: i64,
    config: BackendConfig,
    r: Result<GenerationRequest, PipelineError>,
)
    requires
        prepare_outcome(opts, now, config, r),
        r is Ok,
    ensures
        first_named(opts, "seed"@) is None ==> r->Ok_0.seed == now,
        forall|o: CommandOption, k: i64|
            first_named(opts, "seed"@) == Some(o) && o.value == Some(OptionValue::Integer(k))
                ==> r->Ok_0.seed == k,
{
}

/// A backend reply with an empty image list yields `NoImageProduced`, and
/// the followup carries that error and no attachment.
pub proof fn empty_image_list_yields_no_image(
    images: Vec<String>,
    codec: CodecConfig,
    seed: i64,
    r: ReplyOutcome,
    format: PictureFormat,
    f: Followup,
)
    requires
        images@.len() == 0,
        completion_outcome(BackendReply::Images(images), codec, seed, r),
        followup_for(r, format, f),
    ensures
        r == ReplyOutcome::Failure(PipelineError::Generation(GenerationError::NoImageProduced)),
        f.attachment is None,
{
}

} // verus!
