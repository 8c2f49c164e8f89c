//! Acoustic echo cancellation settings.
//!
//! `mode` carries what somebody asked for and `enabled` what the pipeline
//! runs: "automatic" is not a state the chain can be in but a rule about
//! which state to be in, and whoever evaluates the rule writes `enabled`.
use vstd::prelude::*;

use crate::text::{eq_v, to_chars};

verus! {

/// What somebody asked for.
#[derive(Debug, Clone, Copy, PartialEq, Eq, Structural)]
pub enum EchoMode {
    /// Cancel when the microphone can hear the speakers, and not otherwise.
    Automatic,
    Always,
    Never,
}

/// The words a command line or a settings file may carry for a mode.
pub open spec fn echo_mode_of(word: Seq<char>) -> Option<EchoMode> {
    if word == "auto"@ || word == "automatic"@ {
        Some(EchoMode::Automatic)
    } else if word == "on"@ || word == "true"@ || word == "yes"@ {
        Some(EchoMode::Always)
    } else if word == "off"@ || word == "false"@ || word == "no"@ {
        Some(EchoMode::Never)
    } else {
        None
    }
}

impl EchoMode {
    /// Parse the word a command line or a settings file carries.
    pub fn parse(word: &str) -> (r: Option<Self>)
        ensures
            r == echo_mode_of(word@),
    {
        let w = to_chars(word);
        if eq_v(&w, &to_chars("auto")) || eq_v(&w, &to_chars("automatic")) {
            Some(EchoMode::Automatic)
        } else if eq_v(&w, &to_chars("on")) || eq_v(&w, &to_chars("true")) || eq_v(
            &w,
            &to_chars("yes"),
        ) {
            Some(EchoMode::Always)
        } else if eq_v(&w, &to_chars("off")) || eq_v(&w, &to_chars("false")) || eq_v(
            &w,
            &to_chars("no"),
        ) {
            Some(EchoMode::Never)
        } else {
            None
        }
    }

    /// The word `settings.json` stores for this mode.
    pub fn word(self) -> (r: &'static str)
        ensures
            r@ == match self {
                EchoMode::Automatic => "auto"@,
                EchoMode::Always => "on"@,
                EchoMode::Never => "off"@,
            },
            echo_mode_of(r@) == Some(self),
    {
        proof {
            reveal_strlit("auto");
            reveal_strlit("automatic");
            reveal_strlit("on");
            reveal_strlit("true");
            reveal_strlit("yes");
            reveal_strlit("off");
            reveal_strlit("false");
            reveal_strlit("no");
            assert("on"@.len() != "auto"@.len());
            assert("on"@.len() != "automatic"@.len());
            assert("off"@.len() != "auto"@.len());
            assert("off"@.len() != "automatic"@.len());
            assert("off"@.len() != "true"@.len());
            assert("off"@[1] != "on"@[1]);
            assert("off"@ != "on"@);
            assert("off"@[0] != "yes"@[0]);
            assert("off"@ != "yes"@);
        }
        match self {
            EchoMode::Automatic => "auto",
            EchoMode::Always => "on",
            EchoMode::Never => "off",
        }
    }
}

impl Default for EchoMode {
    fn default() -> (r: Self)
        ensures
            r == EchoMode::Automatic,
    {
        EchoMode::Automatic
    }
}

/// The echo-cancellation section of the settings.
#[derive(Debug, Clone, Copy, PartialEq, Eq, Structural)]
pub struct EchoCancelConfig {
    /// What the chain is doing; the pipeline reads this and nothing else.
    pub enabled: bool,
    /// What was asked for.
    pub mode: EchoMode,
}

impl Default for EchoCancelConfig {
    /// On, in automatic mode: the common case is a laptop on a call without
    /// headphones.
    fn default() -> (r: Self)
        ensures
            r.enabled,
            r.mode == EchoMode::Automatic,
    {
        EchoCancelConfig { enabled: true, mode: EchoMode::Automatic }
    }
}

} // verus!
