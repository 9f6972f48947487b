//! The phases of the moon, their names and their glyphs.

use vstd::prelude::*;
use vstd::string::StringExecFns;

verus! {

/// A phase of the moon. `Unknown` stands for an age or a name that belongs to
/// none of the eight phases.
#[derive(Clone, Copy, Debug, PartialEq, Eq, Structural)]
pub enum MoonPhase {
    NewMoon,
    WaxingCrescent,
    FirstQuarter,
    WaxingGibbous,
    FullMoon,
    WaningGibbous,
    LastQuarter,
    WaningCrescent,
    Unknown,
}

impl MoonPhase {
    /// The name of a phase; `Unknown` has none.
    pub open spec fn name_text(self) -> Option<Seq<char>> {
        match self {
            MoonPhase::NewMoon => Some("New Moon"@),
            MoonPhase::WaxingCrescent => Some("Waxing Crescent"@),
            MoonPhase::FirstQuarter => Some("First Quarter"@),
            MoonPhase::WaxingGibbous => Some("Waxing Gibbous"@),
            MoonPhase::FullMoon => Some("Full Moon"@),
            MoonPhase::WaningGibbous => Some("Waning Gibbous"@),
            MoonPhase::LastQuarter => Some("Last Quarter"@),
            MoonPhase::WaningCrescent => Some("Waning Crescent"@),
            MoonPhase::Unknown => None,
        }
    }

    /// The name of the phase, or `None` for `Unknown`.
    pub fn name(&self) -> (name: Option<&'static str>)
        ensures
            name is Some <==> self.name_text() is Some,
            name matches Some(text) ==> Some(text@) == self.name_text(),
    {
        match self {
            MoonPhase::NewMoon => Some("New Moon"),
            MoonPhase::WaxingCrescent => Some("Waxing Crescent"),
            MoonPhase::FirstQuarter => Some("First Quarter"),
            MoonPhase::WaxingGibbous => Some("Waxing Gibbous"),
            MoonPhase::FullMoon => Some("Full Moon"),
            MoonPhase::WaningGibbous => Some("Waning Gibbous"),
            MoonPhase::LastQuarter => Some("Last Quarter"),
            MoonPhase::WaningCrescent => Some("Waning Crescent"),
            MoonPhase::Unknown => None,
        }
    }

    /// The glyph of a phase; `Unknown` has none.
    pub open spec fn glyph_text(self) -> Option<Seq<char>> {
        match self {
            MoonPhase::NewMoon => Some("🌑"@),
            MoonPhase::WaxingCrescent => Some("🌒"@),
            MoonPhase::FirstQuarter => Some("🌓"@),
            MoonPhase::WaxingGibbous => Some("🌔"@),
            MoonPhase::FullMoon => Some("🌕"@),
            MoonPhase::WaningGibbous => Some("🌖"@),
            MoonPhase::LastQuarter => Some("🌗"@),
            MoonPhase::WaningCrescent => Some("🌘"@),
            MoonPhase::Unknown => None,
        }
    }

    /// The glyph that shows the phase, or `None` for `Unknown`.
    pub fn glyph(&self) -> (glyph: Option<&'static str>)
        ensures
            glyph is Some <==> self.glyph_text() is Some,
            glyph matches Some(text) ==> Some(text@) == self.glyph_text(),
    {
        match self {
            MoonPhase::NewMoon => Some("🌑"),
            MoonPhase::WaxingCrescent => Some("🌒"),
            MoonPhase::FirstQuarter => Some("🌓"),
            MoonPhase::WaxingGibbous => Some("🌔"),
            MoonPhase::FullMoon => Some("🌕"),
            MoonPhase::WaningGibbous => Some("🌖"),
            MoonPhase::LastQuarter => Some("🌗"),
            MoonPhase::WaningCrescent => Some("🌘"),
            MoonPhase::Unknown => None,
        }
    }

    /// What is shown for a phase: its glyph, a comma and a space, and its
    /// name; for `Unknown`, a fixed text.
    pub open spec fn display_text(self) -> Seq<char> {
        match (self.glyph_text(), self.name_text()) {
            (Some(glyph), Some(name)) => glyph + ", "@ + name,
            _ => "MoonPhase::Unknown"@,
        }
    }

    /// The text shown for the phase.
    pub fn to_string(&self) -> (text: String)
        ensures
            text@ == self.display_text(),
    {
        match (self.glyph(), self.name()) {
            (Some(glyph), Some(name)) => {
                let mut text = glyph.to_owned();
                text.append(", ");
                text.append(name);
                text
            },
            _ => "MoonPhase::Unknown".to_owned(),
        }
    }
}

/// The phase that a name stands for: one of the eight names gives its phase,
/// any other text gives `Unknown`.
pub open spec fn phase_named(text: Seq<char>) -> MoonPhase {
    if text == "Waxing Crescent"@ {
        MoonPhase::WaxingCrescent
    } else if text == "First Quarter"@ {
        MoonPhase::FirstQuarter
    } else if text == "Waxing Gibbous"@ {
        MoonPhase::WaxingGibbous
    } else if text == "Full Moon"@ {
        MoonPhase::FullMoon
    } else if text == "Waning Gibbous"@ {
        MoonPhase::WaningGibbous
    } else if text == "Last Quarter"@ {
        MoonPhase::LastQuarter
    } else if text == "Waning Crescent"@ {
        MoonPhase::WaningCrescent
    } else if text == "New Moon"@ {
        MoonPhase::NewMoon
    } else {
        MoonPhase::Unknown
    }
}

/// `str`'s `==` from std: two string slices are equal exactly when they hold
/// the same characters. Verus is told so here; it has no proof of it.
#[verifier::external_body]
fn same_text(left: &str, right: &str) -> (same: bool)
    ensures
        same == (left@ == right@),
{
    left == right
}

impl<'a> From<&'a str> for MoonPhase {
    /// Reads a phase from its name. A text that is no phase's name, the empty
    /// text among them, gives `Unknown`.
    fn from(value: &'a str) -> (phase: MoonPhase)
        ensures
            phase == phase_named(value@),
    {
        if same_text(value, "Waxing Crescent") {
            MoonPhase::WaxingCrescent
        } else if same_text(value, "First Quarter") {
            MoonPhase::FirstQuarter
        } else if same_text(value, "Waxing Gibbous") {
            MoonPhase::WaxingGibbous
        } else if same_text(value, "Full Moon") {
            MoonPhase::FullMoon
        } else if same_text(value, "Waning Gibbous") {
            MoonPhase::WaningGibbous
        } else if same_text(value, "Last Quarter") {
            MoonPhase::LastQuarter
        } else if same_text(value, "Waning Crescent") {
            MoonPhase::WaningCrescent
        } else if same_text(value, "New Moon") {
            MoonPhase::NewMoon
        } else {
            MoonPhase::Unknown
        }
    }
}

impl<'a> vstd::std_specs::convert::FromSpecImpl<&'a str> for MoonPhase {
    open spec fn obeys_from_spec() -> bool {
        true
    }

    open spec fn from_spec(value: &'a str) -> MoonPhase {
        phase_named(value@)
    }
}

/// A name read back gives the phase it names, and a text that reads as one of
/// the eight phases is that phase's name.
pub proof fn name_round_trip(phase: MoonPhase, text: Seq<char>)
    ensures
        phase.name_text() matches Some(name) ==> phase_named(name) == phase,
        phase_named(text) != MoonPhase::Unknown ==> phase_named(text).name_text() == Some(text),
        phase.name_text() is None <==> phase == MoonPhase::Unknown,
{
    reveal_strlit("New Moon");
    reveal_strlit("Waxing Crescent");
    reveal_strlit("First Quarter");
    reveal_strlit("Waxing Gibbous");
    reveal_strlit("Full Moon");
    reveal_strlit("Waning Gibbous");
    reveal_strlit("Last Quarter");
    reveal_strlit("Waning Crescent");
    assert("New Moon"@.len() == 8 && "Full Moon"@.len() == 9);
    assert("First Quarter"@.len() == 13 && "Last Quarter"@.len() == 12);
    assert("Waxing Gibbous"@.len() == 14 && "Waning Gibbous"@.len() == 14);
    assert("Waxing Crescent"@.len() == 15 && "Waning Crescent"@.len() == 15);
    // Names of one length differ in their third letter.
    assert("Waxing Crescent"@[2] == 'x' && "Waning Crescent"@[2] == 'n');
    assert("Waxing Gibbous"@[2] == 'x' && "Waning Gibbous"@[2] == 'n');
}

/// The text shown for each phase, written out.
pub proof fn shown_texts()
    ensures
        MoonPhase::NewMoon.display_text() == "🌑, New Moon"@,
        MoonPhase::WaxingCrescent.display_text() == "🌒, Waxing Crescent"@,
        MoonPhase::FirstQuarter.display_text() == "🌓, First Quarter"@,
        MoonPhase::WaxingGibbous.display_text() == "🌔, Waxing Gibbous"@,
        MoonPhase::FullMoon.display_text() == "🌕, Full Moon"@,
        MoonPhase::WaningGibbous.display_text() == "🌖, Waning Gibbous"@,
        MoonPhase::LastQuarter.display_text() == "🌗, Last Quarter"@,
        MoonPhase::WaningCrescent.display_text() == "🌘, Waning Crescent"@,
        MoonPhase::Unknown.display_text() == "MoonPhase::Unknown"@,
{
    reveal_strlit(", ");
    reveal_strlit("🌑");
    reveal_strlit("New Moon");
    reveal_strlit("🌑, New Moon");
    assert(MoonPhase::NewMoon.display_text() =~= "🌑, New Moon"@);
    reveal_strlit("🌒");
    reveal_strlit("Waxing Crescent");
    reveal_strlit("🌒, Waxing Crescent");
    assert(MoonPhase::WaxingCrescent.display_text() =~= "🌒, Waxing Crescent"@);
    reveal_strlit("🌓");
    reveal_strlit("First Quarter");
    reveal_strlit("🌓, First Quarter");
    assert(MoonPhase::FirstQuarter.display_text() =~= "🌓, First Quarter"@);
    reveal_strlit("🌔");
    reveal_strlit("Waxing Gibbous");
    reveal_strlit("🌔, Waxing Gibbous");
    assert(MoonPhase::WaxingGibbous.display_text() =~= "🌔, Waxing Gibbous"@);
    reveal_strlit("🌕");
    reveal_strlit("Full Moon");
    reveal_strlit("🌕, Full Moon");
    assert(MoonPhase::FullMoon.display_text() =~= "🌕, Full Moon"@);
    reveal_strlit("🌖");
    reveal_strlit("Waning Gibbous");
    reveal_strlit("🌖, Waning Gibbous");
    assert(MoonPhase::WaningGibbous.display_text() =~= "🌖, Waning Gibbous"@);
    reveal_strlit("🌗");
    reveal_strlit("Last Quarter");
    reveal_strlit("🌗, Last Quarter");
    assert(MoonPhase::LastQuarter.display_text() =~= "🌗, Last Quarter"@);
    reveal_strlit("🌘");
    reveal_strlit("Waning Crescent");
    reveal_strlit("🌘, Waning Crescent");
    assert(MoonPhase::WaningCrescent.display_text() =~= "🌘, Waning Crescent"@);
}

} // verus!
