use waifu_bot::codec::{decode_image, format_named, output_format, transcode, CodecConfig, PictureFormat};
use waifu_bot::error::{CodecError, GenerationError, PipelineError};
use waifu_bot::generation::{first_image, BackendReply};
use waifu_bot::options::{find_option, parse_options, CommandOption, OptionValue};
use waifu_bot::pipeline::{complete_generation, prepare_generation};
use waifu_bot::reaction::{on_reaction, should_delete, step, MessageState, ReactedMessage};
use waifu_bot::reply::{attachment_name, decimal, followup, is_generation_command, not_implemented, ReplyOutcome};
use waifu_bot::request::{build_request, txt2img_url, BackendConfig, CFG_SCALE, STEPS};

fn text(name: &str, value: &str) -> CommandOption {
    CommandOption { name: name.to_string(), value: Some(OptionValue::Text(value.to_string())) }
}

fn integer(name: &str, value: i64) -> CommandOption {
    CommandOption { name: name.to_string(), value: Some(OptionValue::Integer(value)) }
}

fn config() -> BackendConfig {
    BackendConfig { base_uri: "http://localhost:7860".to_string(), model_checkpoint: "anything-v3.0".to_string() }
}

fn png_bytes(width: u32, height: u32) -> Vec<u8> {
    let img = image::DynamicImage::ImageRgb8(image::RgbImage::new(width, height));
    let mut out = Vec::new();
    img.write_to(&mut std::io::Cursor::new(&mut out), image::ImageFormat::Png).unwrap();
    out
}

const TO_JPEG: CodecConfig = CodecConfig { native: PictureFormat::Png, transcode_to: Some(PictureFormat::Jpeg) };
const NATIVE: CodecConfig = CodecConfig { native: PictureFormat::Png, transcode_to: None };

#[test]
fn missing_prompt_is_rejected() {
    let opts = vec![text("negative_prompt", "blurry"), integer("seed", 3)];
    assert_eq!(parse_options(&opts, 100).unwrap_err(), PipelineError::MissingOrInvalidPrompt);
    assert_eq!(prepare_generation(&opts, 100, &config()).unwrap_err(), PipelineError::MissingOrInvalidPrompt);
    assert_eq!(prepare_generation(&vec![], 100, &config()).unwrap_err(), PipelineError::MissingOrInvalidPrompt);
}

#[test]
fn prompt_of_wrong_kind_is_rejected() {
    let opts = vec![integer("prompt", 5)];
    assert_eq!(parse_options(&opts, 100).unwrap_err(), PipelineError::MissingOrInvalidPrompt);
    let unresolved = vec![CommandOption { name: "prompt".to_string(), value: None }];
    assert_eq!(parse_options(&unresolved, 100).unwrap_err(), PipelineError::MissingOrInvalidPrompt);
}

#[test]
fn optional_options_of_wrong_kind_are_rejected() {
    let opts = vec![text("prompt", "a cat"), integer("negative_prompt", 1)];
    assert_eq!(parse_options(&opts, 100).unwrap_err(), PipelineError::InvalidOptionType);
    let opts = vec![text("prompt", "a cat"), text("seed", "42")];
    assert_eq!(parse_options(&opts, 100).unwrap_err(), PipelineError::InvalidOptionType);
    let opts = vec![text("prompt", "a cat"), CommandOption { name: "seed".to_string(), value: Some(OptionValue::Other) }];
    assert_eq!(parse_options(&opts, 100).unwrap_err(), PipelineError::InvalidOptionType);
}

#[test]
fn seed_defaults_to_now() {
    let inv = parse_options(&vec![text("prompt", "a cat")], 1_700_000_000).unwrap();
    assert_eq!(inv.seed, 1_700_000_000);
    assert_eq!(inv.negative_prompt, "");
    assert_eq!(inv.prompt, "a cat");
}

#[test]
fn given_seed_passes_through() {
    let opts = vec![integer("seed", 42), text("prompt", "a dog"), text("negative_prompt", "rain")];
    let inv = parse_options(&opts, 1_700_000_000).unwrap();
    assert_eq!(inv.seed, 42);
    assert_eq!(inv.negative_prompt, "rain");
    assert_eq!(inv.prompt, "a dog");
}

#[test]
fn first_option_of_a_name_wins() {
    let opts = vec![text("prompt", "first"), text("prompt", "second")];
    assert_eq!(find_option(&opts, &"prompt".to_string()), Some(0));
    assert_eq!(find_option(&opts, &"seed".to_string()), None);
    assert_eq!(parse_options(&opts, 0).unwrap().prompt, "first");
}

#[test]
fn request_carries_fixed_parameters() {
    let inv = parse_options(&vec![text("prompt", "a cat"), integer("seed", -9)], 5).unwrap();
    let req = build_request(inv, &config());
    assert_eq!(req.prompt, "a cat");
    assert_eq!(req.seed, -9);
    assert_eq!(req.negative_prompt, "");
    assert!(!req.tiling);
    assert_eq!(req.cfg_scale, 12);
    assert_eq!(CFG_SCALE, 12);
    assert_eq!(req.steps, 50);
    assert_eq!(STEPS, 50);
    assert_eq!(req.sampler_name, "DDIM");
    assert_eq!(req.override_settings.sd_model_checkpoint, "anything-v3.0");
    assert!(!req.override_settings_restore_after);
}

#[test]
fn url_appends_endpoint() {
    assert_eq!(txt2img_url(&config()), "http://localhost:7860/sdapi/v1/txt2img");
}

#[test]
fn backend_failures_map_to_errors() {
    assert_eq!(first_image(BackendReply::Unreachable).unwrap_err(), GenerationError::Unreachable);
    assert_eq!(first_image(BackendReply::Unparseable).unwrap_err(), GenerationError::InvalidResponse);
    assert_eq!(first_image(BackendReply::Images(vec![])).unwrap_err(), GenerationError::NoImageProduced);
    let two = vec!["Zmlyc3Q=".to_string(), "c2Vjb25k".to_string()];
    assert_eq!(first_image(BackendReply::Images(two)).unwrap(), "Zmlyc3Q=");
}

#[test]
fn empty_image_list_gives_no_attachment() {
    let outcome = complete_generation(BackendReply::Images(vec![]), &TO_JPEG, 7);
    assert!(matches!(outcome, ReplyOutcome::Failure(PipelineError::Generation(GenerationError::NoImageProduced))));
    let f = followup(outcome, PictureFormat::Jpeg);
    assert!(f.attachment.is_none());
    assert_eq!(f.content, "Error: txt2img did not produce an image");
}

#[test]
fn known_base64_decodes_to_its_bytes() {
    assert_eq!(decode_image("aGVsbG8=", &NATIVE).unwrap(), b"hello".to_vec());
    assert_eq!(decode_image("AAEC/w==", &NATIVE).unwrap(), vec![0u8, 1, 2, 255]);
    assert_eq!(decode_image("", &NATIVE).unwrap(), Vec::<u8>::new());
}

#[test]
fn invalid_base64_is_bad_encoding() {
    assert_eq!(decode_image("not base64!", &NATIVE).unwrap_err(), CodecError::BadEncoding);
    assert_eq!(decode_image("not base64!", &TO_JPEG).unwrap_err(), CodecError::BadEncoding);
}

#[test]
fn transcoding_keeps_dimensions() {
    let png = png_bytes(5, 3);
    let jpeg = transcode(&png, PictureFormat::Png, PictureFormat::Jpeg).unwrap();
    assert_ne!(jpeg, png);
    let back = image::load_from_memory_with_format(&jpeg, image::ImageFormat::Jpeg).unwrap();
    assert_eq!((back.width(), back.height()), (5, 3));
    let payload = base64::encode(&png);
    let via_pipeline = decode_image(&payload, &TO_JPEG).unwrap();
    let back = image::load_from_memory_with_format(&via_pipeline, image::ImageFormat::Jpeg).unwrap();
    assert_eq!((back.width(), back.height()), (5, 3));
}

#[test]
fn unreadable_image_fails_transcoding() {
    assert_eq!(transcode(&b"hello".to_vec(), PictureFormat::Png, PictureFormat::Jpeg).unwrap_err(), CodecError::TranscodeFailed);
    assert_eq!(decode_image("aGVsbG8=", &TO_JPEG).unwrap_err(), CodecError::TranscodeFailed);
}

#[test]
fn success_reply_carries_image_and_seed() {
    let f = followup(ReplyOutcome::Success { image: vec![1, 2, 3], seed: 42 }, PictureFormat::Jpeg);
    assert_eq!(f.content, "`seed:42`");
    let a = f.attachment.unwrap();
    assert_eq!(a.file_name, "out.jpeg");
    assert_eq!(a.data, vec![1, 2, 3]);
    let f = followup(ReplyOutcome::Success { image: vec![], seed: -1234 }, PictureFormat::Png);
    assert_eq!(f.content, "`seed:-1234`");
    assert_eq!(f.attachment.unwrap().file_name, "out.png");
    assert_eq!(attachment_name(PictureFormat::Png), "out.png");
}

#[test]
fn unreachable_backend_reply_text() {
    let outcome = complete_generation(BackendReply::Unreachable, &TO_JPEG, 7);
    let f = followup(outcome, PictureFormat::Jpeg);
    assert_eq!(f.content, "Error: Could not connect to txt2img API");
    assert!(f.attachment.is_none());
}

#[test]
fn every_error_has_its_message() {
    assert_eq!(PipelineError::MissingOrInvalidPrompt.message(), "Prompt was missing or not a string");
    assert_eq!(PipelineError::InvalidOptionType.message(), "An option had the wrong type");
    assert_eq!(PipelineError::Generation(GenerationError::InvalidResponse).message(), "Could not parse txt2img JSON");
    assert_eq!(PipelineError::Codec(CodecError::BadEncoding).message(), "Unable to decode txt2img base64 response");
    assert_eq!(PipelineError::Codec(CodecError::TranscodeFailed).message(), "Unable to transcode txt2img image");
    let f = followup(ReplyOutcome::Failure(PipelineError::Generation(GenerationError::Unreachable)), PictureFormat::Png);
    assert_eq!(f.content, "Error: Could not connect to txt2img API");
}

#[test]
fn a_cat_without_seed() {
    let now: i64 = 1_712_345_678;
    let req = prepare_generation(&vec![text("prompt", "a cat")], now, &config()).unwrap();
    assert_eq!(req.negative_prompt, "");
    assert_eq!(req.seed, now);
    let reply = BackendReply::Images(vec![base64::encode(png_bytes(8, 8))]);
    let outcome = complete_generation(reply, &TO_JPEG, req.seed);
    let f = followup(outcome, PictureFormat::Jpeg);
    assert_eq!(f.content, "`seed:1712345678`");
    let a = f.attachment.unwrap();
    assert_eq!(a.file_name, "out.jpeg");
    let back = image::load_from_memory_with_format(&a.data, image::ImageFormat::Jpeg).unwrap();
    assert_eq!((back.width(), back.height()), (8, 8));
}

#[test]
fn only_the_invoker_deletes() {
    let msg = ReactedMessage { authored_by_bot: true, invoker: Some(10) };
    assert!(should_delete(&msg, 10));
    assert!(!should_delete(&msg, 11));
    assert!(!should_delete(&ReactedMessage { authored_by_bot: false, invoker: Some(10) }, 10));
    assert!(!should_delete(&ReactedMessage { authored_by_bot: true, invoker: None }, 10));
    assert!(!on_reaction(None, Some(msg)));
    assert!(!on_reaction(Some(10), None));
    assert!(on_reaction(Some(10), Some(msg)));
    assert_eq!(step(MessageState::Active, Some(11), Some(msg)), MessageState::Active);
    assert_eq!(step(MessageState::Active, Some(10), Some(msg)), MessageState::Deleted);
    assert_eq!(step(MessageState::Deleted, Some(11), Some(msg)), MessageState::Deleted);
}

#[test]
fn command_dispatch() {
    assert!(is_generation_command(&"waifu".to_string()));
    assert!(!is_generation_command(&"other".to_string()));
    let f = not_implemented();
    assert_eq!(f.content, "Not implemented :(");
    assert!(f.attachment.is_none());
}

#[test]
fn attachment_format_follows_configuration() {
    assert_eq!(output_format(&TO_JPEG), PictureFormat::Jpeg);
    assert_eq!(output_format(&NATIVE), PictureFormat::Png);
    assert_eq!(format_named(&"png".to_string()), Some(PictureFormat::Png));
    assert_eq!(format_named(&"jpeg".to_string()), Some(PictureFormat::Jpeg));
    assert_eq!(format_named(&"none".to_string()), None);
}

#[test]
fn png_to_png_transcoding_keeps_dimensions() {
    let png = png_bytes(2, 7);
    let out = transcode(&png, PictureFormat::Png, PictureFormat::Png).unwrap();
    let back = image::load_from_memory_with_format(&out, image::ImageFormat::Png).unwrap();
    assert_eq!((back.width(), back.height()), (2, 7));
    let jpeg = transcode(&png, PictureFormat::Png, PictureFormat::Jpeg).unwrap();
    assert_eq!(transcode(&jpeg, PictureFormat::Png, PictureFormat::Png).unwrap_err(), CodecError::TranscodeFailed);
}

#[test]
fn decimal_text_of_extremes() {
    assert_eq!(decimal(0), "0");
    assert_eq!(decimal(9), "9");
    assert_eq!(decimal(10), "10");
    assert_eq!(decimal(-5), "-5");
    assert_eq!(decimal(i64::MAX), "9223372036854775807");
    assert_eq!(decimal(i64::MIN), "-9223372036854775808");
}

#[test]
fn jpeg_source_failures_are_transcode_failed() {
    let jpeg_config = CodecConfig { native: PictureFormat::Jpeg, transcode_to: Some(PictureFormat::Png) };
    assert_eq!(decode_image("aGVsbG8=", &jpeg_config).unwrap_err(), CodecError::TranscodeFailed);
    let jpeg = transcode(&png_bytes(4, 4), PictureFormat::Png, PictureFormat::Jpeg).unwrap();
    let png = transcode(&jpeg, PictureFormat::Jpeg, PictureFormat::Png).unwrap();
    let back = image::load_from_memory_with_format(&png, image::ImageFormat::Png).unwrap();
    assert_eq!((back.width(), back.height()), (4, 4));
}
