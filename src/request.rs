use vstd::prelude::*;

use crate::options::CommandInvocation;

verus! {

/// Classifier-free guidance scale used for every request.
pub const CFG_SCALE: i64 = 12;

/// Number of sampling steps used for every request.
pub const STEPS: i64 = 50;

/// Name of the deterministic sampler used for every request.
pub open spec fn sampler_name_text() -> Seq<char> {
    "DDIM"@
}

/// Path of the backend's text-to-image endpoint, relative to its base URI.
pub open spec fn endpoint_path() -> Seq<char> {
    "/sdapi/v1/txt2img"@
}

/// Where the backend lives and which model checkpoint it should use; both
/// come from the process configuration.
#[derive(Debug)]
pub struct BackendConfig {
    pub base_uri: String,
    pub model_checkpoint: String,
}

/// Model selection that holds for one request only.
#[derive(Debug)]
pub struct OverrideSettings {
    pub sd_model_checkpoint: String,
}

/// The body of one text-to-image request.
#[derive(Debug)]
pub struct GenerationRequest {
    pub prompt: String,
    pub seed: i64,
    pub tiling: bool,
    pub cfg_scale: i64,
    pub steps: i64,
    pub sampler_name: String,
    pub negative_prompt: String,
    pub override_settings: OverrideSettings,
    pub override_settings_restore_after: bool,
}

/// Whether `req` is the request built from `inv` under `config`.
pub open spec fn request_for(inv: CommandInvocation, config: BackendConfig, req: GenerationRequest) -> bool {
    &&& req.prompt@ == inv.prompt@
    &&& req.negative_prompt@ == inv.negative_prompt@
    &&& req.seed == inv.seed
    &&& fixed_parameters(config, req)
}

/// Whether `req` carries the parameters that every request has: no tiling,
/// the fixed guidance scale, step count and sampler, and the configured
/// checkpoint as an override that is not restored afterwards.
pub open spec fn fixed_parameters(config: BackendConfig, req: GenerationRequest) -> bool {
    &&& !req.tiling
    &&& req.cfg_scale == CFG_SCALE
    &&& req.steps == STEPS
    &&& req.sampler_name@ == sampler_name_text()
    &&& req.override_settings.sd_model_checkpoint@ == config.model_checkpoint@
    &&& !req.override_settings_restore_after
}

/// Combines the invocation's options with the fixed generation parameters
/// and the configured model checkpoint.
pub fn build_request(inv: CommandInvocation, config: &BackendConfig) -> (r: GenerationRequest)
    ensures
        request_for(inv, *config, r),
{
    GenerationRequest {
        prompt: inv.prompt,
        seed: inv.seed,
        tiling: false,
        cfg_scale: CFG_SCALE,
        steps: STEPS,
        sampler_name: String::from_str("DDIM"),
        negative_prompt: inv.negative_prompt,
        override_settings: OverrideSettings { sd_model_checkpoint: config.model_checkpoint.clone() },
        override_settings_restore_after: false,
    }
}

/// The URL that a request is posted to.
pub fn txt2img_url(config: &BackendConfig) -> (r: String)
    ensures
        r@ == config.base_uri@ + endpoint_path(),
{
    config.base_uri.clone().concat("/sdapi/v1/txt2img")
}

} // verus!
