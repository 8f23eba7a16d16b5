//! The rollout stages.

use crate::text::same_text;
use vstd::prelude::*;

verus! {

/// How far the controller may act.
#[derive(Clone, Copy, Debug, PartialEq, Eq, Structural)]
pub enum Stage {
    /// Watch and compute; never write.
    Shadow,
    /// Steer the stock loop through its setpoint override.
    Trim,
    /// Own the whole loop.
    Takeover,
}

impl Stage {
    /// The stage that a name stands for.
    pub open spec fn named(s: Seq<char>) -> Option<Stage> {
        if s == "shadow"@ || s == "0"@ {
            Some(Stage::Shadow)
        } else if s == "trim"@ || s == "1"@ {
            Some(Stage::Trim)
        } else if s == "takeover"@ || s == "2"@ || s == "live"@ {
            Some(Stage::Takeover)
        } else {
            None
        }
    }

    /// Read a stage from its name or number; `live` is another word for takeover.
    pub fn parse(s: &str) -> (r: Option<Stage>)
        ensures
            r == Stage::named(s@),
    {
        if same_text(s, "shadow") || same_text(s, "0") {
            Some(Stage::Shadow)
        } else if same_text(s, "trim") || same_text(s, "1") {
            Some(Stage::Trim)
        } else if same_text(s, "takeover") || same_text(s, "2") || same_text(s, "live") {
            Some(Stage::Takeover)
        } else {
            None
        }
    }

    pub open spec fn spec_writes(self) -> bool {
        self != Stage::Shadow
    }

    /// Does this stage write to the live system?
    #[verifier::when_used_as_spec(spec_writes)]
    pub fn writes(self) -> (r: bool)
        ensures
            r == self.writes(),
    {
        match self {
            Stage::Shadow => false,
            _ => true,
        }
    }

    /// The name shown in logs.
    pub fn name(self) -> (s: &'static str)
        ensures
            s@ == (match self {
                Stage::Shadow => "shadow(0)"@,
                Stage::Trim => "trim(1)"@,
                Stage::Takeover => "takeover(2)"@,
            }),
    {
        match self {
            Stage::Shadow => "shadow(0)",
            Stage::Trim => "trim(1)",
            Stage::Takeover => "takeover(2)",
        }
    }
}

/// The three stages have a name and a number each, takeover another name; nothing else is
/// a stage, and only shadow does not write.
pub proof fn stages_have_names_and_numbers()
    ensures
        Stage::named("shadow"@) == Some(Stage::Shadow),
        Stage::named("0"@) == Some(Stage::Shadow),
        Stage::named("trim"@) == Some(Stage::Trim),
        Stage::named("1"@) == Some(Stage::Trim),
        Stage::named("takeover"@) == Some(Stage::Takeover),
        Stage::named("2"@) == Some(Stage::Takeover),
        Stage::named("live"@) == Some(Stage::Takeover),
        Stage::named(""@) is None,
        !Stage::Shadow.writes() && Stage::Trim.writes() && Stage::Takeover.writes(),
{
    reveal_strlit("shadow");
    reveal_strlit("0");
    reveal_strlit("trim");
    reveal_strlit("1");
    reveal_strlit("takeover");
    reveal_strlit("2");
    reveal_strlit("live");
    reveal_strlit("");
    assert("0"@[0] != "1"@[0] && "0"@[0] != "2"@[0] && "1"@[0] != "2"@[0]);
    assert("trim"@[0] != "live"@[0]);
    assert("shadow"@.len() == 6 && "trim"@.len() == 4 && "live"@.len() == 4);
    assert("takeover"@.len() == 8 && ""@.len() == 0);
    assert("0"@.len() == 1 && "1"@.len() == 1 && "2"@.len() == 1);
}

} // verus!
