use vstd::prelude::*;

use crate::error::PipelineError;

verus! {

/// The value of one command option, as delivered by the chat platform.
#[derive(Debug)]
pub enum OptionValue {
    Text(String),
    Integer(i64),
    /// Any other kind of value (a flag, a user, a channel, a number, ...).
    Other,
}

/// One named option of a command invocation. `value` is `None` when the
/// platform delivered the option without a resolved value.
#[derive(Debug)]
pub struct CommandOption {
    pub name: String,
    pub value: Option<OptionValue>,
}

/// The validated options of one invocation.
#[derive(Debug)]
pub struct CommandInvocation {
    pub prompt: String,
    pub negative_prompt: String,
    pub seed: i64,
}

/// The first option at or after `i` whose name is `name`.
pub open spec fn first_named_from(opts: Seq<CommandOption>, name: Seq<char>, i: int) -> Option<CommandOption>
    decreases opts.len() - i,
{
    if i < 0 || i >= opts.len() {
        None
    } else if opts[i].name@ == name {
        Some(opts[i])
    } else {
        first_named_from(opts, name, i + 1)
    }
}

/// The first option named `name`, as the platform lists them.
pub open spec fn first_named(opts: Seq<CommandOption>, name: Seq<char>) -> Option<CommandOption> {
    first_named_from(opts, name, 0)
}

/// The prompt text, or `None` where it is absent or not text.
pub open spec fn prompt_of(opts: Seq<CommandOption>) -> Option<Seq<char>> {
    match first_named(opts, "prompt"@) {
        Some(o) => match o.value {
            Some(OptionValue::Text(s)) => Some(s@),
            _ => None,
        },
        None => None,
    }
}

/// The negative prompt: empty text when absent, `None` when present but not text.
pub open spec fn negative_prompt_of(opts: Seq<CommandOption>) -> Option<Seq<char>> {
    match first_named(opts, "negative_prompt"@) {
        Some(o) => match o.value {
            Some(OptionValue::Text(s)) => Some(s@),
            _ => None,
        },
        None => Some(Seq::empty()),
    }
}

/// The seed: `now` when absent, `None` when present but not an integer.
pub open spec fn seed_of(opts: Seq<CommandOption>, now: i64) -> Option<i64> {
    match first_named(opts, "seed"@) {
        Some(o) => match o.value {
            Some(OptionValue::Integer(k)) => Some(k),
            _ => None,
        },
        None => Some(now),
    }
}

/// Whether `r` is the outcome that parsing `opts` at time `now` must give.
pub open spec fn parse_outcome(opts: Seq<CommandOption>, now: i64, r: Result<CommandInvocation, PipelineError>) -> bool {
    if prompt_of(opts) is None {
        r == Err::<CommandInvocation, PipelineError>(PipelineError::MissingOrInvalidPrompt)
    } else if negative_prompt_of(opts) is None || seed_of(opts, now) is None {
        r == Err::<CommandInvocation, PipelineError>(PipelineError::InvalidOptionType)
    } else {
        &&& r is Ok
        &&& r->Ok_0.prompt@ == prompt_of(opts)->Some_0
        &&& r->Ok_0.negative_prompt@ == negative_prompt_of(opts)->Some_0
        &&& r->Ok_0.seed == seed_of(opts, now)->Some_0
    }
}

/// Index of the first option named `name`, if any.
pub fn find_option(opts: &Vec<CommandOption>, name: &String) -> (r: Option<usize>)
    ensures
        match r {
            Some(i) => i < opts@.len() && first_named(opts@, name@) == Some(opts@[i as int]),
            None => first_named(opts@, name@) is None,
        },
{
    let mut i: usize = 0;
    while i < opts.len()
        invariant
            i <= opts@.len(),
            first_named_from(opts@, name@, 0) == first_named_from(opts@, name@, i as int),
        decreases opts@.len() - i,
    {
        if opts[i].name.eq(name) {
            return Some(i);
        }
        i = i + 1;
    }
    None
}

/// The text held by the first option named `name`: `Ok(None)` when there is
/// no such option, `Err(())` when it holds anything but text.
fn text_option(opts: &Vec<CommandOption>, name: &String) -> (r: Result<Option<String>, ()>)
    ensures
        match first_named(opts@, name@) {
            None => r == Ok::<Option<String>, ()>(None),
            Some(o) => match o.value {
                Some(OptionValue::Text(s)) => r is Ok && r->Ok_0 is Some && r->Ok_0->Some_0@ == s@,
                _ => r is Err,
            },
        },
{
    match find_option(opts, name) {
        None => Ok(None),
        Some(i) => match &opts[i].value {
            Some(OptionValue::Text(s)) => Ok(Some(s.clone())),
            _ => Err(()),
        },
    }
}

/// Extracts and validates the options of one invocation. A missing `seed`
/// takes the value `now`, the current time in whole seconds since the Unix
/// epoch; a missing `negative_prompt` is empty.
pub fn parse_options(opts: &Vec<CommandOption>, now: i64) -> (r: Result<CommandInvocation, PipelineError>)
    ensures
        parse_outcome(opts@, now, r),
{
    let prompt = match text_option(opts, &String::from_str("prompt")) {
        Ok(Some(p)) => p,
        _ => return Err(PipelineError::MissingOrInvalidPrompt),
    };
    let negative_prompt = match text_option(opts, &String::from_str("negative_prompt")) {
        Ok(Some(n)) => n,
        Ok(None) => String::new(),
        Err(()) => return Err(PipelineError::InvalidOptionType),
    };
    let seed = match find_option(opts, &String::from_str("seed")) {
        None => now,
        Some(i) => match &opts[i].value {
            Some(OptionValue::Integer(k)) => *k,
            _ => return Err(PipelineError::InvalidOptionType),
        },
    };
    Ok(CommandInvocation { prompt, negative_prompt, seed })
}

} // verus!
