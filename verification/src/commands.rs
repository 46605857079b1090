//! What a user may ask for.
use crate::projector::Emotion;
use vstd::prelude::*;

verus! {

/// Which detector looks for the mouth.
#[derive(Debug, Clone, Copy, PartialEq, Eq, Structural)]
pub enum Mode {
    Weeb,
    Standard,
}

/// Which face the user asks for.
#[derive(Debug, Clone, Copy, PartialEq, Eq, Structural)]
pub enum CliEmotion {
    Auto,
    Smile,
    Cry,
}

/// The options of one request.
#[derive(Debug, Clone, Copy, PartialEq, Eq, Structural)]
pub struct Opt {
    pub emotion: CliEmotion,
    pub mode: Mode,
    pub antialias_scale: u32,
}

/// What a message asks of the bot.
#[derive(Debug)]
pub enum Commands {
    /// Draw, with the options given, or with the words of why they could
    /// not be read.
    Ciyaify(Result<Opt, String>),
    Help,
    Start,
}

impl Clone for Commands {
    fn clone(&self) -> (r: Commands)
        ensures
            r == *self,
    {
        match self {
            Commands::Ciyaify(Ok(opt)) => Commands::Ciyaify(Ok(*opt)),
            Commands::Ciyaify(Err(words)) => Commands::Ciyaify(Err(words.clone())),
            Commands::Help => Commands::Help,
            Commands::Start => Commands::Start,
        }
    }
}

impl From<CliEmotion> for Emotion {
    fn from(v: CliEmotion) -> (r: Emotion) {
        match v {
            CliEmotion::Auto => Emotion::Auto,
            CliEmotion::Smile => Emotion::Smile,
            CliEmotion::Cry => Emotion::Cry,
        }
    }
}

impl vstd::std_specs::convert::FromSpecImpl<CliEmotion> for Emotion {
    open spec fn obeys_from_spec() -> bool {
        true
    }

    open spec fn from_spec(v: CliEmotion) -> Emotion {
        match v {
            CliEmotion::Auto => Emotion::Auto,
            CliEmotion::Smile => Emotion::Smile,
            CliEmotion::Cry => Emotion::Cry,
        }
    }
}

impl Default for Opt {
    /// What is asked for where nothing is said: the face as found, the
    /// first detector, and eightfold antialiasing.
    fn default() -> (r: Opt)
        ensures
            r == (Opt { emotion: CliEmotion::Auto, mode: Mode::Weeb, antialias_scale: 8 }),
    {
        Opt { emotion: CliEmotion::Auto, mode: Mode::Weeb, antialias_scale: 8 }
    }
}

} // verus!
