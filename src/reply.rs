use vstd::prelude::*;

use crate::codec::PictureFormat;
use crate::error::{error_text, PipelineError};

verus! {

/// The result of one invocation, as handed to the responder.
#[derive(Debug)]
pub enum ReplyOutcome {
    Success { image: Vec<u8>, seed: i64 },
    Failure(PipelineError),
}

/// A file attached to a followup message.
#[derive(Debug)]
pub struct Attachment {
    pub file_name: String,
    pub data: Vec<u8>,
}

/// The one followup message sent after the deferred acknowledgment.
#[derive(Debug)]
pub struct Followup {
    pub content: String,
    pub attachment: Option<Attachment>,
}

/// The decimal digit for `d < 10`.
pub open spec fn digit_char(d: nat) -> char {
    seq!['0', '1', '2', '3', '4', '5', '6', '7', '8', '9'][d as int]
}

/// Decimal digits of `n`, most significant first, without leading zeros.
pub open spec fn nat_decimal(n: nat) -> Seq<char>
    decreases n,
{
    if n < 10 {
        seq![digit_char(n)]
    } else {
        nat_decimal(n / 10).push(digit_char(n % 10))
    }
}

/// Decimal text of `n`, with a leading `-` where it is negative.
pub open spec fn int_decimal(n: int) -> Seq<char> {
    if n < 0 {
        seq!['-'] + nat_decimal((-n) as nat)
    } else {
        nat_decimal(n as nat)
    }
}

/// The one-character text of the digit `d < 10`.
fn digit_text(d: u64) -> (r: &'static str)
    requires
        d < 10,
    ensures
        r@ == seq![digit_char(d as nat)],
{
    proof {
        reveal_strlit("0");
        reveal_strlit("1");
        reveal_strlit("2");
        reveal_strlit("3");
        reveal_strlit("4");
        reveal_strlit("5");
        reveal_strlit("6");
        reveal_strlit("7");
        reveal_strlit("8");
        reveal_strlit("9");
    }
    let r = match d {
        0 => "0",
        1 => "1",
        2 => "2",
        3 => "3",
        4 => "4",
        5 => "5",
        6 => "6",
        7 => "7",
        8 => "8",
        _ => "9",
    };
    assert(r@ =~= seq![digit_char(d as nat)]);
    r
}

/// Decimal text of a natural number.
fn nat_text(m: u64) -> (r: String)
    ensures
        r@ == nat_decimal(m as nat),
    decreases m,
{
    if m < 10 {
        String::from_str(digit_text(m))
    } else {
        let mut r = nat_text(m / 10);
        r.append(digit_text(m % 10));
        assert(r@ =~= nat_decimal((m / 10) as nat).push(digit_char((m % 10) as nat)));
        r
    }
}

/// Decimal text of `n`, with a leading `-` where it is negative.
pub fn decimal(n: i64) -> (r: String)
    ensures
        r@ == int_decimal(n as int),
{
    if n < 0 {
        let magnitude: u64 = (-(n + 1)) as u64 + 1;
        let digits = nat_text(magnitude);
        let r = String::from_str("-").concat(digits.as_str());
        proof {
            reveal_strlit("-");
        }
        assert(r@ =~= seq!['-'] + nat_decimal((-n) as nat));
        r
    } else {
        nat_text(n as u64)
    }
}

/// File extension used for an attachment in the given format.
pub open spec fn extension_text(format: PictureFormat) -> Seq<char> {
    match format {
        PictureFormat::Png => "png"@,
        PictureFormat::Jpeg => "jpeg"@,
    }
}

/// Text of a successful reply.
pub open spec fn seed_note(seed: i64) -> Seq<char> {
    "`seed:"@ + int_decimal(seed as int) + "`"@
}

/// Whether `f` is the followup for `outcome` when images are attached in `format`.
pub open spec fn followup_for(outcome: ReplyOutcome, format: PictureFormat, f: Followup) -> bool {
    match outcome {
        ReplyOutcome::Success { image, seed } => {
            &&& f.content@ == seed_note(seed)
            &&& f.attachment is Some
            &&& f.attachment->Some_0.file_name@ == "out."@ + extension_text(format)
            &&& f.attachment->Some_0.data@ == image@
        },
        ReplyOutcome::Failure(e) => {
            &&& f.content@ == "Error: "@ + error_text(e)
            &&& f.attachment is None
        },
    }
}

/// Name of the attached file for the given format.
pub fn attachment_name(format: PictureFormat) -> (r: String)
    ensures
        r@ == "out."@ + extension_text(format),
{
    let base = String::from_str("out.");
    match format {
        PictureFormat::Png => base.concat("png"),
        PictureFormat::Jpeg => base.concat("jpeg"),
    }
}

/// Builds the followup message: the image and its seed, or the error text.
pub fn followup(outcome: ReplyOutcome, format: PictureFormat) -> (r: Followup)
    ensures
        followup_for(outcome, format, r),
{
    match outcome {
        ReplyOutcome::Success { image, seed } => {
            let mut content = String::from_str("`seed:");
            let digits = decimal(seed);
            content.append(digits.as_str());
            content.append("`");
            Followup { content, attachment: Some(Attachment { file_name: attachment_name(format), data: image }) }
        },
        ReplyOutcome::Failure(e) => {
            let mut content = String::from_str("Error: ");
            let msg = e.message();
            content.append(msg.as_str());
            Followup { content, attachment: None }
        },
    }
}

/// The followup for a command that this bot does not implement.
pub fn not_implemented() -> (r: Followup)
    ensures
        r.content@ == "Not implemented :("@,
        r.attachment is None,
{
    Followup { content: String::from_str("Not implemented :("), attachment: None }
}

/// Whether `name` is the image-generation command.
pub fn is_generation_command(name: &String) -> (r: bool)
    ensures
        r == (name@ == "waifu"@),
{
    name.eq(&String::from_str("waifu"))
}

} // verus!
