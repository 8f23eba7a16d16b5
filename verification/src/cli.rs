//! The command line: its flags, their checks, and the help text.
//!
//! The caller splits the command line into words and reads each as a decimal fraction
//! where it is one; which flags there are, what they mean together, the whole numbers
//! among their values and which values are refused is decided here. A bad value is an error at the start, and never silently switches a
//! control or safety mechanism off.

use crate::control::AdaptiveCfg;
use crate::control::FfMode;
use crate::control::Kind;
use crate::num::Num;
use crate::stage::Stage;
use crate::text::count_named;
use crate::text::join2;
use crate::text::join3;
use crate::text::parse_count;
use crate::text::same_text;
use vstd::prelude::*;

verus! {

/// One word of the command line, with the decimal number that it reads as.
pub struct Arg {
    pub text: String,
    /// The word as a decimal number, to the nearest millionth.
    pub number: Option<Num>,
}

/// The settings of a run.
pub struct Args {
    pub stage: Stage,
    pub kind: Kind,
    pub interval: Num,
    pub min_soc: Num,
    pub soc_hyst: Num,
    pub max_discharge: Num,
    pub max_charge: Num,
    pub seconds: u64,
    pub confirm: bool,
    pub quiet: bool,
    pub telemetry: Option<String>,
    pub telemetry_max_mb: u64,
    /// Meter-lag compensation was not switched off; no law here compensates for the lag.
    pub smith: bool,
    pub trim_ki: Num,
    /// Pacing of exports; no law here paces them.
    pub export_fast_gain: Num,
    pub export_fast_dead_w: Num,
    pub slew_w_per_s: Option<Num>,
    pub sanity_band_w: Option<Num>,
}

/// A flag, other than the request for help.
#[derive(Clone, Copy, Debug, PartialEq, Eq, Structural)]
pub enum Flag {
    Stage,
    Mode,
    TrimKi,
    SlewWPerS,
    SanityBandW,
    Controller,
    Ki,
    IMax,
    FfA,
    FfB,
    FfMode,
    FfLearnOnly,
    FfLambda,
    FfConfScaleW,
    Interval,
    MinSoc,
    MaxDischarge,
    MaxCharge,
    Seconds,
    Confirm,
    Quiet,
    NoSmith,
    ExportFastGain,
    ExportFastDeadW,
    NoExportFast,
    Telemetry,
    TelemetryMaxMb,
}

/// A word that a flag took as its value.
#[derive(Clone, Copy, Debug, PartialEq, Eq, Structural)]
pub enum Word {
    /// The flag was not given.
    Default,
    /// The learn-only shorthand.
    Observe,
    /// The word at this place of the command line.
    At(usize),
}

/// What the flags have set so far.
#[derive(Clone, Copy, Debug, PartialEq, Eq, Structural)]
pub struct Flags {
    pub stage: Stage,
    pub interval: Num,
    pub min_soc: Num,
    pub max_discharge: Num,
    pub max_charge: Num,
    pub seconds: u64,
    pub confirm: bool,
    pub quiet: bool,
    pub telemetry: Word,
    pub telemetry_max_mb: u64,
    pub smith: bool,
    pub trim_ki: Num,
    pub export_fast_gain: Num,
    pub export_fast_dead_w: Num,
    pub slew_w_per_s: Option<Num>,
    pub sanity_band_w: Option<Num>,
    pub controller: Word,
    pub ki: Option<Num>,
    pub i_max: Num,
    pub ff_a: Option<Num>,
    pub ff_b: Option<Num>,
    pub ff_mode: Word,
    pub ff_lambda: Option<Num>,
    pub ff_conf_scale_w: Option<Num>,
}

/// The settings before any flag.
pub open spec fn defaults() -> Flags {
    Flags {
        stage: Stage::Shadow,
        interval: Num::Fin(1_000_000),
        min_soc: Num::Fin(15_000_000),
        max_discharge: Num::Fin(0),
        max_charge: Num::Fin(0),
        seconds: 0,
        confirm: false,
        quiet: false,
        telemetry: Word::Default,
        telemetry_max_mb: 4,
        smith: true,
        trim_ki: Num::Fin(20_000),
        export_fast_gain: Num::Fin(900_000),
        export_fast_dead_w: Num::Fin(100_000_000),
        slew_w_per_s: None,
        sanity_band_w: None,
        controller: Word::Default,
        ki: None,
        i_max: Num::Fin(300_000_000),
        ff_a: None,
        ff_b: None,
        ff_mode: Word::Default,
        ff_lambda: None,
        ff_conf_scale_w: None,
    }
}

fn default_flags() -> (f: Flags)
    ensures
        f == defaults(),
{
    Flags {
        stage: Stage::Shadow,
        interval: Num::Fin(1_000_000),
        min_soc: Num::Fin(15_000_000),
        max_discharge: Num::Fin(0),
        max_charge: Num::Fin(0),
        seconds: 0,
        confirm: false,
        quiet: false,
        telemetry: Word::Default,
        telemetry_max_mb: 4,
        smith: true,
        trim_ki: Num::Fin(20_000),
        export_fast_gain: Num::Fin(900_000),
        export_fast_dead_w: Num::Fin(100_000_000),
        slew_w_per_s: None,
        sanity_band_w: None,
        controller: Word::Default,
        ki: None,
        i_max: Num::Fin(300_000_000),
        ff_a: None,
        ff_b: None,
        ff_mode: Word::Default,
        ff_lambda: None,
        ff_conf_scale_w: None,
    }
}

/// The flag of a name.
pub open spec fn flag_named(s: Seq<char>) -> Option<Flag> {
    if s == "--stage"@ {
        Some(Flag::Stage)
    } else if s == "--mode"@ {
        Some(Flag::Mode)
    } else if s == "--trim-ki"@ {
        Some(Flag::TrimKi)
    } else if s == "--slew-w-per-s"@ {
        Some(Flag::SlewWPerS)
    } else if s == "--sanity-band-w"@ {
        Some(Flag::SanityBandW)
    } else if s == "--controller"@ {
        Some(Flag::Controller)
    } else if s == "--ki"@ {
        Some(Flag::Ki)
    } else if s == "--i-max"@ {
        Some(Flag::IMax)
    } else if s == "--ff-a"@ {
        Some(Flag::FfA)
    } else if s == "--ff-b"@ {
        Some(Flag::FfB)
    } else if s == "--ff-mode"@ {
        Some(Flag::FfMode)
    } else if s == "--ff-learn-only"@ {
        Some(Flag::FfLearnOnly)
    } else if s == "--ff-lambda"@ {
        Some(Flag::FfLambda)
    } else if s == "--ff-conf-scale-w"@ {
        Some(Flag::FfConfScaleW)
    } else if s == "--interval"@ {
        Some(Flag::Interval)
    } else if s == "--min-soc"@ {
        Some(Flag::MinSoc)
    } else if s == "--max-discharge"@ {
        Some(Flag::MaxDischarge)
    } else if s == "--max-charge"@ {
        Some(Flag::MaxCharge)
    } else if s == "--seconds"@ {
        Some(Flag::Seconds)
    } else if s == "--confirm"@ {
        Some(Flag::Confirm)
    } else if s == "--quiet"@ {
        Some(Flag::Quiet)
    } else if s == "--no-smith"@ {
        Some(Flag::NoSmith)
    } else if s == "--export-fast-gain"@ {
        Some(Flag::ExportFastGain)
    } else if s == "--export-fast-dead-w"@ {
        Some(Flag::ExportFastDeadW)
    } else if s == "--no-export-fast"@ {
        Some(Flag::NoExportFast)
    } else if s == "--telemetry"@ {
        Some(Flag::Telemetry)
    } else if s == "--telemetry-max-mb"@ {
        Some(Flag::TelemetryMaxMb)
    } else {
        None
    }
}

fn parse_flag(s: &str) -> (r: Option<Flag>)
    ensures
        r == flag_named(s@),
{
    if same_text(s, "--stage") {
        Some(Flag::Stage)
    } else if same_text(s, "--mode") {
        Some(Flag::Mode)
    } else if same_text(s, "--trim-ki") {
        Some(Flag::TrimKi)
    } else if same_text(s, "--slew-w-per-s") {
        Some(Flag::SlewWPerS)
    } else if same_text(s, "--sanity-band-w") {
        Some(Flag::SanityBandW)
    } else if same_text(s, "--controller") {
        Some(Flag::Controller)
    } else if same_text(s, "--ki") {
        Some(Flag::Ki)
    } else if same_text(s, "--i-max") {
        Some(Flag::IMax)
    } else if same_text(s, "--ff-a") {
        Some(Flag::FfA)
    } else if same_text(s, "--ff-b") {
        Some(Flag::FfB)
    } else if same_text(s, "--ff-mode") {
        Some(Flag::FfMode)
    } else if same_text(s, "--ff-learn-only") {
        Some(Flag::FfLearnOnly)
    } else if same_text(s, "--ff-lambda") {
        Some(Flag::FfLambda)
    } else if same_text(s, "--ff-conf-scale-w") {
        Some(Flag::FfConfScaleW)
    } else if same_text(s, "--interval") {
        Some(Flag::Interval)
    } else if same_text(s, "--min-soc") {
        Some(Flag::MinSoc)
    } else if same_text(s, "--max-discharge") {
        Some(Flag::MaxDischarge)
    } else if same_text(s, "--max-charge") {
        Some(Flag::MaxCharge)
    } else if same_text(s, "--seconds") {
        Some(Flag::Seconds)
    } else if same_text(s, "--confirm") {
        Some(Flag::Confirm)
    } else if same_text(s, "--quiet") {
        Some(Flag::Quiet)
    } else if same_text(s, "--no-smith") {
        Some(Flag::NoSmith)
    } else if same_text(s, "--export-fast-gain") {
        Some(Flag::ExportFastGain)
    } else if same_text(s, "--export-fast-dead-w") {
        Some(Flag::ExportFastDeadW)
    } else if same_text(s, "--no-export-fast") {
        Some(Flag::NoExportFast)
    } else if same_text(s, "--telemetry") {
        Some(Flag::Telemetry)
    } else if same_text(s, "--telemetry-max-mb") {
        Some(Flag::TelemetryMaxMb)
    } else {
        None
    }
}

/// Does the flag stand alone?
pub open spec fn stands_alone(flag: Flag) -> bool {
    flag == Flag::FfLearnOnly || flag == Flag::Confirm || flag == Flag::Quiet || flag
        == Flag::NoSmith || flag == Flag::NoExportFast
}

fn is_alone(flag: Flag) -> (r: bool)
    ensures
        r == stands_alone(flag),
{
    match flag {
        Flag::FfLearnOnly | Flag::Confirm | Flag::Quiet | Flag::NoSmith | Flag::NoExportFast => {
            true
        },
        _ => false,
    }
}

/// The settings after a flag that stands alone.
pub open spec fn switched(f: Flags, flag: Flag) -> Flags {
    match flag {
        Flag::FfLearnOnly => Flags { ff_mode: Word::Observe, ..f },
        Flag::Confirm => Flags { confirm: true, ..f },
        Flag::Quiet => Flags { quiet: true, ..f },
        Flag::NoSmith => Flags { smith: false, ..f },
        _ => Flags { export_fast_dead_w: Num::PosInf, ..f },
    }
}

fn switch(f: Flags, flag: Flag) -> (r: Flags)
    ensures
        r == switched(f, flag),
{
    match flag {
        Flag::FfLearnOnly => Flags { ff_mode: Word::Observe, ..f },
        Flag::Confirm => Flags { confirm: true, ..f },
        Flag::Quiet => Flags { quiet: true, ..f },
        Flag::NoSmith => Flags { smith: false, ..f },
        _ => Flags { export_fast_dead_w: Num::PosInf, ..f },
    }
}

/// Does the flag take a decimal number?
pub open spec fn takes_number(flag: Flag) -> bool {
    match flag {
        Flag::TrimKi | Flag::SlewWPerS | Flag::SanityBandW | Flag::Ki | Flag::IMax | Flag::FfA | Flag::FfB | Flag::FfLambda | Flag::FfConfScaleW | Flag::Interval | Flag::MinSoc | Flag::MaxDischarge | Flag::MaxCharge | Flag::ExportFastGain | Flag::ExportFastDeadW => true,
        _ => false,
    }
}

fn is_numeric(flag: Flag) -> (r: bool)
    ensures
        r == takes_number(flag),
{
    match flag {
        Flag::TrimKi | Flag::SlewWPerS | Flag::SanityBandW | Flag::Ki | Flag::IMax | Flag::FfA | Flag::FfB | Flag::FfLambda | Flag::FfConfScaleW | Flag::Interval | Flag::MinSoc | Flag::MaxDischarge | Flag::MaxCharge | Flag::ExportFastGain | Flag::ExportFastDeadW => true,
        _ => false,
    }
}

/// The message for a value that is no number.
pub open spec fn complaint(flag: Flag) -> Seq<char> {
    match flag {
        Flag::TrimKi => "bad --trim-ki"@,
        Flag::SlewWPerS => "bad --slew-w-per-s"@,
        Flag::SanityBandW => "bad --sanity-band-w"@,
        Flag::Ki => "bad --ki"@,
        Flag::IMax => "bad --i-max"@,
        Flag::FfA => "bad --ff-a"@,
        Flag::FfB => "bad --ff-b"@,
        Flag::FfLambda => "bad --ff-lambda"@,
        Flag::FfConfScaleW => "bad --ff-conf-scale-w"@,
        Flag::Interval => "bad --interval"@,
        Flag::MinSoc => "bad --min-soc"@,
        Flag::MaxDischarge => "bad"@,
        Flag::MaxCharge => "bad"@,
        Flag::ExportFastGain => "bad --export-fast-gain"@,
        Flag::ExportFastDeadW => "bad --export-fast-dead-w"@,
        Flag::Seconds => "bad --seconds"@,
        _ => "bad --telemetry-max-mb"@,
    }
}

fn complain(flag: Flag) -> (r: String)
    ensures
        r@ == complaint(flag),
{
    let s: &'static str = match flag {
        Flag::TrimKi => "bad --trim-ki",
        Flag::SlewWPerS => "bad --slew-w-per-s",
        Flag::SanityBandW => "bad --sanity-band-w",
        Flag::Ki => "bad --ki",
        Flag::IMax => "bad --i-max",
        Flag::FfA => "bad --ff-a",
        Flag::FfB => "bad --ff-b",
        Flag::FfLambda => "bad --ff-lambda",
        Flag::FfConfScaleW => "bad --ff-conf-scale-w",
        Flag::Interval => "bad --interval",
        Flag::MinSoc => "bad --min-soc",
        Flag::MaxDischarge => "bad",
        Flag::MaxCharge => "bad",
        Flag::ExportFastGain => "bad --export-fast-gain",
        Flag::ExportFastDeadW => "bad --export-fast-dead-w",
        Flag::Seconds => "bad --seconds",
        _ => "bad --telemetry-max-mb",
    };
    s.to_owned()
}

/// The settings after a flag with a decimal number.
pub open spec fn with_number(f: Flags, flag: Flag, v: Num) -> Flags {
    match flag {
        Flag::TrimKi => Flags { trim_ki: v, ..f },
        Flag::SlewWPerS => Flags { slew_w_per_s: Some(v), ..f },
        Flag::SanityBandW => Flags { sanity_band_w: Some(v), ..f },
        Flag::Ki => Flags { ki: Some(v), ..f },
        Flag::IMax => Flags { i_max: v, ..f },
        Flag::FfA => Flags { ff_a: Some(v), ..f },
        Flag::FfB => Flags { ff_b: Some(v), ..f },
        Flag::FfLambda => Flags { ff_lambda: Some(v), ..f },
        Flag::FfConfScaleW => Flags { ff_conf_scale_w: Some(v), ..f },
        Flag::Interval => Flags { interval: v, ..f },
        Flag::MinSoc => Flags { min_soc: v, ..f },
        Flag::MaxDischarge => Flags { max_discharge: v, ..f },
        Flag::MaxCharge => Flags { max_charge: v, ..f },
        Flag::ExportFastGain => Flags { export_fast_gain: v, ..f },
        Flag::ExportFastDeadW => Flags { export_fast_dead_w: v, ..f },
        _ => f,
    }
}

fn set_number(f: Flags, flag: Flag, v: Num) -> (r: Flags)
    ensures
        r == with_number(f, flag, v),
{
    match flag {
        Flag::TrimKi => Flags { trim_ki: v, ..f },
        Flag::SlewWPerS => Flags { slew_w_per_s: Some(v), ..f },
        Flag::SanityBandW => Flags { sanity_band_w: Some(v), ..f },
        Flag::Ki => Flags { ki: Some(v), ..f },
        Flag::IMax => Flags { i_max: v, ..f },
        Flag::FfA => Flags { ff_a: Some(v), ..f },
        Flag::FfB => Flags { ff_b: Some(v), ..f },
        Flag::FfLambda => Flags { ff_lambda: Some(v), ..f },
        Flag::FfConfScaleW => Flags { ff_conf_scale_w: Some(v), ..f },
        Flag::Interval => Flags { interval: v, ..f },
        Flag::MinSoc => Flags { min_soc: v, ..f },
        Flag::MaxDischarge => Flags { max_discharge: v, ..f },
        Flag::MaxCharge => Flags { max_charge: v, ..f },
        Flag::ExportFastGain => Flags { export_fast_gain: v, ..f },
        Flag::ExportFastDeadW => Flags { export_fast_dead_w: v, ..f },
        _ => f,
    }
}

/// The settings after a flag with the value at place `k`, or the message on a value
/// that is refused.
pub open spec fn with_value(f: Flags, flag: Flag, v: Arg, k: usize) -> Result<Flags, Seq<char>> {
    if takes_number(flag) {
        match v.number {
            Some(x) => Ok(with_number(f, flag, x)),
            None => Err(complaint(flag)),
        }
    } else {
        match flag {
            Flag::Stage => match Stage::named(v.text@) {
                Some(s) => Ok(Flags { stage: s, ..f }),
                None => Err("bad --stage "@ + v.text@ + " (want shadow|trim|takeover)"@),
            },
            Flag::Mode => match Stage::named(v.text@) {
                Some(s) => Ok(Flags { stage: s, ..f }),
                None => Err("bad --mode "@ + v.text@ + " (use --stage shadow|trim|takeover)"@),
            },
            Flag::Controller => Ok(Flags { controller: Word::At(k), ..f }),
            Flag::FfMode => Ok(Flags { ff_mode: Word::At(k), ..f }),
            Flag::Telemetry => Ok(Flags { telemetry: Word::At(k), ..f }),
            Flag::Seconds => match count_named(v.text@) {
                Some(n) => Ok(Flags { seconds: n, ..f }),
                None => Err(complaint(flag)),
            },
            _ => match count_named(v.text@) {
                Some(n) => Ok(Flags { telemetry_max_mb: n, ..f }),
                None => Err(complaint(flag)),
            },
        }
    }
}

/// Is an outcome the stated one, message for message?
pub open spec fn agrees<T>(r: Result<T, String>, s: Result<T, Seq<char>>) -> bool {
    match (r, s) {
        (Ok(a), Ok(b)) => a == b,
        (Err(a), Err(b)) => a@ == b,
        _ => false,
    }
}

fn set_value(f: Flags, flag: Flag, v: &Arg, k: usize) -> (r: Result<Flags, String>)
    ensures
        agrees(r, with_value(f, flag, *v, k)),
{
    if is_numeric(flag) {
        return match v.number {
            Some(x) => Ok(set_number(f, flag, x)),
            None => Err(complain(flag)),
        };
    }
    match flag {
        Flag::Stage => match Stage::parse(v.text.as_str()) {
            Some(s) => Ok(Flags { stage: s, ..f }),
            None => Err(
                join3("bad --stage ", v.text.as_str(), " (want shadow|trim|takeover)"),
            ),
        },
        Flag::Mode => match Stage::parse(v.text.as_str()) {
            Some(s) => Ok(Flags { stage: s, ..f }),
            None => Err(
                join3("bad --mode ", v.text.as_str(), " (use --stage shadow|trim|takeover)"),
            ),
        },
        Flag::Controller => Ok(Flags { controller: Word::At(k), ..f }),
        Flag::FfMode => Ok(Flags { ff_mode: Word::At(k), ..f }),
        Flag::Telemetry => Ok(Flags { telemetry: Word::At(k), ..f }),
        Flag::Seconds => match parse_count(v.text.as_str()) {
            Some(n) => Ok(Flags { seconds: n, ..f }),
            None => Err(complain(flag)),
        },
        _ => match parse_count(v.text.as_str()) {
            Some(n) => Ok(Flags { telemetry_max_mb: n, ..f }),
            None => Err(complain(flag)),
        },
    }
}

/// What the words from place `k` on make of the settings `f`: the first word that is
/// wrong decides the message, and a request for help is answered with the help text.
pub open spec fn flags_from(f: Flags, args: Seq<Arg>, k: int) -> Result<Flags, Seq<char>>
    decreases args.len() - k,
{
    if k < 0 || k >= args.len() {
        Ok(f)
    } else {
        let word = args[k].text@;
        match flag_named(word) {
            Some(flag) => if stands_alone(flag) {
                flags_from(switched(f, flag), args, k + 1)
            } else if k + 1 >= args.len() {
                Err(word + " needs a value"@)
            } else {
                match with_value(f, flag, args[k + 1], (k + 1) as usize) {
                    Ok(g) => flags_from(g, args, k + 2),
                    Err(m) => Err(m),
                }
            },
            None => if word == "-h"@ || word == "--help"@ {
                Err(HELP@)
            } else {
                Err("unknown arg "@ + word + "\n"@ + HELP@)
            },
        }
    }
}

/// A finite number above zero.
pub open spec fn positive(x: Num) -> bool {
    x.is_finite() && Num::Fin(0).lt(x)
}

fn is_positive(x: Num) -> (r: bool)
    ensures
        r == positive(x),
{
    x.is_finite() && Num::Fin(0).lt(x)
}

/// The message on the first value that is out of its range, if any is.
pub open spec fn out_of_range(f: Flags) -> Option<Seq<char>> {
    if f.ki is Some && !positive(f.ki->0) {
        Some("--ki must be finite and > 0"@)
    } else if !positive(f.i_max) {
        Some("--i-max must be finite and > 0"@)
    } else if !(Num::Fin(100_000).le(f.interval) && f.interval.le(Num::Fin(3_600_000_000))) {
        Some("--interval must be within [0.1, 3600] seconds"@)
    } else if !positive(f.trim_ki) {
        Some("--trim-ki must be finite and > 0"@)
    } else if !(Num::Fin(0).le(f.min_soc) && f.min_soc.le(Num::Fin(100_000_000))) {
        Some("--min-soc must be within [0, 100]"@)
    } else if f.slew_w_per_s is Some && !positive(f.slew_w_per_s->0) {
        Some("--slew-w-per-s must be finite and > 0"@)
    } else if f.sanity_band_w is Some && !positive(f.sanity_band_w->0) {
        Some("--sanity-band-w must be finite and > 0"@)
    } else {
        None
    }
}

fn range_error(f: &Flags) -> (r: Option<String>)
    ensures
        crate::text::text(r) == out_of_range(*f),
{
    if let Some(k) = f.ki {
        if !is_positive(k) {
            return Some("--ki must be finite and > 0".to_owned());
        }
    }
    if !is_positive(f.i_max) {
        return Some("--i-max must be finite and > 0".to_owned());
    }
    if !(Num::Fin(100_000).le(f.interval) && f.interval.le(Num::Fin(3_600_000_000))) {
        return Some("--interval must be within [0.1, 3600] seconds".to_owned());
    }
    if !is_positive(f.trim_ki) {
        return Some("--trim-ki must be finite and > 0".to_owned());
    }
    if !(Num::Fin(0).le(f.min_soc) && f.min_soc.le(Num::Fin(100_000_000))) {
        return Some("--min-soc must be within [0, 100]".to_owned());
    }
    if let Some(s) = f.slew_w_per_s {
        if !is_positive(s) {
            return Some("--slew-w-per-s must be finite and > 0".to_owned());
        }
    }
    if let Some(b) = f.sanity_band_w {
        if !is_positive(b) {
            return Some("--sanity-band-w must be finite and > 0".to_owned());
        }
    }
    None
}

/// The characters of a word, `default` where its flag was not given.
pub open spec fn word_text(w: Word, args: Seq<Arg>, default: Seq<char>) -> Seq<char> {
    match w {
        Word::Default => default,
        Word::Observe => "observe"@,
        Word::At(k) => args[k as int].text@,
    }
}

/// Are the words that the settings refer to on the command line?
pub open spec fn words_exist(f: Flags, args: Seq<Arg>) -> bool {
    &&& (f.controller matches Word::At(k) ==> k < args.len())
    &&& (f.ff_mode matches Word::At(k) ==> k < args.len())
    &&& (f.telemetry matches Word::At(k) ==> k < args.len())
}

fn word<'a>(w: Word, args: &'a Vec<Arg>, default: &'a str) -> (r: &'a str)
    requires
        w matches Word::At(k) ==> k < args@.len(),
    ensures
        r@ == word_text(w, args@, default@),
{
    match w {
        Word::Default => default,
        Word::Observe => "observe",
        Word::At(k) => args[k].text.as_str(),
    }
}

/// How the learned model is used, or the message on a word that says nothing of it.
pub open spec fn ff_mode_named(s: Seq<char>) -> Result<FfMode, Seq<char>> {
    if s == "apply"@ {
        Ok(FfMode::Apply)
    } else if s == "observe"@ || s == "learn-only"@ {
        Ok(FfMode::Observe)
    } else if s == "frozen"@ {
        Ok(FfMode::Frozen)
    } else {
        Err("bad --ff-mode "@ + s + " (want apply|observe|frozen)"@)
    }
}

fn parse_ff_mode(s: &str) -> (r: Result<FfMode, String>)
    ensures
        agrees(r, ff_mode_named(s@)),
{
    if same_text(s, "apply") {
        Ok(FfMode::Apply)
    } else if same_text(s, "observe") || same_text(s, "learn-only") {
        Ok(FfMode::Observe)
    } else if same_text(s, "frozen") {
        Ok(FfMode::Frozen)
    } else {
        Err(join3("bad --ff-mode ", s, " (want apply|observe|frozen)"))
    }
}

/// The adaptive controller that the settings describe, or the message on a value that
/// it cannot have. A seed counts as supplied where either coefficient is.
pub open spec fn adaptive(f: Flags, mode: FfMode) -> Result<AdaptiveCfg, Seq<char>> {
    let a0 = crate::num::or(f.ff_a, Num::Fin(0));
    let b0 = crate::num::or(f.ff_b, Num::Fin(0));
    if !a0.is_finite() || !b0.is_finite() {
        Err("--ff-a / --ff-b must be finite"@)
    } else if f.ff_lambda is Some && !(positive(f.ff_lambda->0) && f.ff_lambda->0.le(
        Num::Fin(1_000_000),
    )) {
        Err("--ff-lambda must be in (0, 1]"@)
    } else if f.ff_conf_scale_w is Some && !positive(f.ff_conf_scale_w->0) {
        Err("--ff-conf-scale-w must be > 0"@)
    } else {
        Ok(
            AdaptiveCfg {
                ki: crate::num::or(f.ki, Num::Fin(50_000)),
                i_max: f.i_max,
                a0,
                b0,
                seeded: f.ff_a is Some || f.ff_b is Some,
                lambda: crate::num::or(f.ff_lambda, Num::Fin(999_000)),
                conf_scale_w: crate::num::or(f.ff_conf_scale_w, Num::Fin(20_000_000)),
                steady_band_w: Num::Fin(25_000_000),
                mode,
            },
        )
    }
}

fn build_adaptive(f: &Flags, mode: FfMode) -> (r: Result<AdaptiveCfg, String>)
    ensures
        agrees(r, adaptive(*f, mode)),
{
    let mut c = AdaptiveCfg::tuned();
    c.ki = crate::num::or(f.ki, c.ki);
    c.i_max = f.i_max;
    c.mode = mode;
    c.seeded = f.ff_a.is_some() || f.ff_b.is_some();
    c.a0 = crate::num::or(f.ff_a, Num::Fin(0));
    c.b0 = crate::num::or(f.ff_b, Num::Fin(0));
    if !c.a0.is_finite() || !c.b0.is_finite() {
        return Err("--ff-a / --ff-b must be finite".to_owned());
    }
    if let Some(l) = f.ff_lambda {
        if !(is_positive(l) && l.le(Num::Fin(1_000_000))) {
            return Err("--ff-lambda must be in (0, 1]".to_owned());
        }
        c.lambda = l;
    }
    if let Some(s) = f.ff_conf_scale_w {
        if !is_positive(s) {
            return Err("--ff-conf-scale-w must be > 0".to_owned());
        }
        c.conf_scale_w = s;
    }
    Ok(c)
}

/// The control law that the settings describe, or the message.
pub open spec fn kind_of(f: Flags, args: Seq<Arg>) -> Result<Kind, Seq<char>> {
    let name = word_text(f.controller, args, "pi"@);
    if name == "stock"@ {
        Ok(Kind::Stock)
    } else if name == "true-integral"@ {
        Ok(Kind::TrueIntegral { ki: crate::num::or(f.ki, Num::Fin(1_000_000)) })
    } else if name == "pi"@ {
        Ok(Kind::Pi { ki: crate::num::or(f.ki, Num::Fin(50_000)), i_max: f.i_max })
    } else if name == "adaptive"@ {
        match ff_mode_named(word_text(f.ff_mode, args, "apply"@)) {
            Err(m) => Err(m),
            Ok(mode) => match adaptive(f, mode) {
                Err(m) => Err(m),
                Ok(c) => Ok(Kind::Adaptive(c)),
            },
        }
    } else {
        Err("unknown controller "@ + name)
    }
}

fn build_kind(f: &Flags, args: &Vec<Arg>) -> (r: Result<Kind, String>)
    requires
        words_exist(*f, args@),
    ensures
        agrees(r, kind_of(*f, args@)),
{
    let name = word(f.controller, args, "pi");
    if same_text(name, "stock") {
        Ok(Kind::Stock)
    } else if same_text(name, "true-integral") {
        Ok(Kind::TrueIntegral { ki: crate::num::or(f.ki, Num::Fin(1_000_000)) })
    } else if same_text(name, "pi") {
        Ok(Kind::Pi { ki: crate::num::or(f.ki, Num::Fin(50_000)), i_max: f.i_max })
    } else if same_text(name, "adaptive") {
        match parse_ff_mode(word(f.ff_mode, args, "apply")) {
            Err(m) => Err(m),
            Ok(mode) => match build_adaptive(f, mode) {
                Err(m) => Err(m),
                Ok(c) => Ok(Kind::Adaptive(c)),
            },
        }
    } else {
        Err(join2("unknown controller ", name))
    }
}

/// The settings and control law that a command line stands for, or the message: the
/// first wrong word, else the first value out of range, else what is wrong with the
/// control law.
pub open spec fn parsed(args: Seq<Arg>) -> Result<(Flags, Kind), Seq<char>> {
    match flags_from(defaults(), args, 0) {
        Err(m) => Err(m),
        Ok(f) => match out_of_range(f) {
            Some(m) => Err(m),
            None => match kind_of(f, args) {
                Err(m) => Err(m),
                Ok(kind) => Ok((f, kind)),
            },
        },
    }
}

/// Are these the settings?
pub open spec fn describes(a: Args, f: Flags, kind: Kind, args: Seq<Arg>) -> bool {
    &&& a.stage == f.stage
    &&& a.kind == kind
    &&& a.interval == f.interval
    &&& a.min_soc == f.min_soc
    &&& a.soc_hyst == Num::Fin(3_000_000)
    &&& a.max_discharge == f.max_discharge
    &&& a.max_charge == f.max_charge
    &&& a.seconds == f.seconds
    &&& a.confirm == f.confirm
    &&& a.quiet == f.quiet
    &&& crate::text::text(a.telemetry) == (match f.telemetry {
        Word::At(k) => Some(args[k as int].text@),
        _ => None,
    })
    &&& a.telemetry_max_mb == f.telemetry_max_mb
    &&& a.smith == f.smith
    &&& a.trim_ki == f.trim_ki
    &&& a.export_fast_gain == f.export_fast_gain
    &&& a.export_fast_dead_w == f.export_fast_dead_w
    &&& a.slew_w_per_s == f.slew_w_per_s
    &&& a.sanity_band_w == f.sanity_band_w
}

fn scan(args: &Vec<Arg>) -> (r: Result<Flags, String>)
    ensures
        agrees(r, flags_from(defaults(), args@, 0)),
        r matches Ok(f) ==> words_exist(f, args@),
{
    let mut f = default_flags();
    let mut k: usize = 0;
    while k < args.len()
        invariant
            k <= args.len(),
            words_exist(f, args@),
            flags_from(f, args@, k as int) == flags_from(defaults(), args@, 0),
        decreases args.len() - k,
    {
        let w = args[k].text.as_str();
        match parse_flag(w) {
            Some(flag) => {
                if is_alone(flag) {
                    f = switch(f, flag);
                    k += 1;
                } else if k + 1 >= args.len() {
                    return Err(join2(w, " needs a value"));
                } else {
                    match set_value(f, flag, &args[k + 1], k + 1) {
                        Ok(g) => {
                            f = g;
                        },
                        Err(m) => {
                            return Err(m);
                        },
                    }
                    k += 2;
                }
            },
            None => {
                if same_text(w, "-h") || same_text(w, "--help") {
                    return Err(help());
                }
                let head = join3("unknown arg ", w, "\n");
                return Err(join2(head.as_str(), HELP));
            },
        }
    }
    Ok(f)
}

/// Read the command line (without the program's name).
pub fn parse_args(args: &Vec<Arg>) -> (r: Result<Args, String>)
    ensures
        match (r, parsed(args@)) {
            (Ok(a), Ok((f, kind))) => describes(a, f, kind, args@),
            (Err(e), Err(m)) => e@ == m,
            _ => false,
        },
{
    let f = match scan(args) {
        Ok(f) => f,
        Err(m) => return Err(m),
    };
    if let Some(m) = range_error(&f) {
        return Err(m);
    }
    let kind = match build_kind(&f, args) {
        Ok(k) => k,
        Err(m) => return Err(m),
    };
    let telemetry = match f.telemetry {
        Word::At(k) => Some(args[k].text.clone()),
        _ => None,
    };
    Ok(
        Args {
            stage: f.stage,
            kind,
            interval: f.interval,
            min_soc: f.min_soc,
            soc_hyst: Num::Fin(3_000_000),
            max_discharge: f.max_discharge,
            max_charge: f.max_charge,
            seconds: f.seconds,
            confirm: f.confirm,
            quiet: f.quiet,
            telemetry,
            telemetry_max_mb: f.telemetry_max_mb,
            smith: f.smith,
            trim_ki: f.trim_ki,
            export_fast_gain: f.export_fast_gain,
            export_fast_dead_w: f.export_fast_dead_w,
            slew_w_per_s: f.slew_w_per_s,
            sanity_band_w: f.sanity_band_w,
        },
    )
}

/// The help text.
pub const HELP: &'static str = "\
venus-ess-controller [--stage shadow|trim|takeover] [--controller stock|pi|true-integral|adaptive]
  [--ki F] [--i-max F] [--trim-ki F] [--slew-w-per-s F] [--sanity-band-w F] [--interval S]
  [--min-soc %] [--max-discharge W] [--max-charge W] [--seconds N] [--confirm] [--quiet]
  [--telemetry PATH]

adaptive: PI + a continuously-learned feed-forward leak(throughput) ~= a + b*|reported|
  (RLS, in-memory, no persistence). The model is taught by the integral and earns actuation
  authority only as its confidence grows, so a cold start behaves like pi and a low-data run
  never over-trusts. Options:
  [--ff-a W] [--ff-b FRAC] seed initial coefficients (tightens the prior so they are used
    from tick one); [--ff-mode apply|observe|frozen] (observe == --ff-learn-only: keep
    learning but actuate integral-only; frozen: apply the seed, never learn). NOTE:
    learning requires ACTUATION (takeover + owning + usable meter) — in shadow/trim the
    model deliberately stays null (MODEL: a=0 b=0), because a non-actuated loop would
    train it on a phantom regime. So observe/learn-only is a TAKEOVER mode: it drives
    with the plain integral while the model learns on the side;
  [--ff-lambda 0<L<=1] RLS forgetting (memory ~= 1/(1-L)); [--ff-conf-scale-w W] prediction-
    sigma at which the model gets 50% authority. The learned model is logged periodically as
    `MODEL: a=.. b=.. conf=..`; hard safety (write phase) is independent of anything learned.

Live ESS settings (read every tick, UI/VRM/API-controlled — never hardcoded): the ownership
floor is BatteryLife/MinimumSocLimit (--min-soc is only a fallback if that read fails); the
charge/discharge power limits are MaxChargePower/MaxDischargePower, enforced per-tick by the
battery broker alongside the live BMS DCL/CCL. --max-* set the fixed inverter design envelope.

Safety (write stages) is DERIVED from the design power (the --max-* envelope, else the inverter
design capacity) — no separate tuning: slew glitch-guard = full range / 2 s, sanity band = 15 %
of design power (hand back if grid stays beyond it for 30 s), dt-clamp = 5x --interval. Override
with --slew-w-per-s / --sanity-band-w. Every trip logs a stable `SAFETY:` prefix + a telemetry
`reason` column; the hand-back itself is visible via Hub4Mode / Overrides (Tier-B also publishes
/Alarms/EssSafety, the same /Alarms/* surface the HA/VRM Victron integration already reads).

Rollout stages (--stage, see):
  shadow (0)   READ-ONLY. Compute what we would command, compare to stock, never write.
  trim   (1)   Mode 1 + /Overrides/Setpoint outer-integral trim. Stock keeps ALL safety;
               we only bias the grid target. Reverts via the 300 s override watchdog.
  takeover (2) Mode 1->3. WE own the whole loop. Reverts to passthru via the 60 s watchdog.
  (--mode shadow|live is a deprecated alias: live == takeover.)

Logging (flash-safe):
  Per-tick output goes to STDOUT (terminal) and, if --telemetry is set, to a
  bounded RAM file. --quiet suppresses per-tick stdout for a persistent service.
  --telemetry PATH must be tmpfs (e.g. /run/venus-ess.csv or /tmp/…); it is
  size-capped with rotation (<=8 MB total) and REFUSES flash paths (/data,
  /var/log). Rare events (takeover/handback/errors) always go to stderr.

Default is shadow (read-only). trim and takeover also require --confirm AND env
VENUS_ESS_LIVE=I_UNDERSTAND (they write to the live battery system).";

/// The help text.
pub fn help() -> (r: String)
    ensures
        r@ == HELP@,
{
    HELP.to_owned()
}

/// Accepted settings are sound: the gains and limits are positive, and the interval and
/// the floor are within their ranges. Nothing that would freeze or invert the loop gets
/// through.
pub proof fn accepted_settings_are_sound(args: Seq<Arg>)
    ensures
        parsed(args) matches Ok((f, kind)) ==> {
            &&& positive(f.i_max)
            &&& positive(f.trim_ki)
            &&& Num::Fin(100_000).le(f.interval) && f.interval.le(Num::Fin(3_600_000_000))
            &&& Num::Fin(0).le(f.min_soc) && f.min_soc.le(Num::Fin(100_000_000))
            &&& (f.slew_w_per_s is Some ==> positive(f.slew_w_per_s->0))
            &&& (f.sanity_band_w is Some ==> positive(f.sanity_band_w->0))
            &&& match kind {
                Kind::Stock => true,
                Kind::TrueIntegral { ki } => positive(ki),
                Kind::Pi { ki, i_max } => positive(ki) && positive(i_max),
                Kind::Adaptive(c) => positive(c.ki) && positive(c.i_max) && positive(c.lambda)
                    && c.lambda.le(Num::Fin(1_000_000)) && positive(c.conf_scale_w)
                    && c.a0.is_finite() && c.b0.is_finite(),
            }
        },
{
}

/// An empty command line is a shadow run of the default law.
pub proof fn defaults_are_read_only(args: Seq<Arg>)
    requires
        args.len() == 0,
    ensures
        parsed(args) == Ok::<(Flags, Kind), Seq<char>>(
            (
                defaults(),
                Kind::Pi { ki: Num::Fin(50_000), i_max: Num::Fin(300_000_000) },
            ),
        ),
        !defaults().stage.writes(),
{
    reveal_strlit("pi");
    reveal_strlit("stock");
    reveal_strlit("true-integral");
    assert("pi"@.len() != "stock"@.len());
    assert("pi"@.len() != "true-integral"@.len());
}

/// Each flag with a number sets its own setting to that number and leaves the others.
pub proof fn number_flags_set_their_own_setting(f: Flags, v: Num)
    ensures
        with_number(f, Flag::TrimKi, v) == (Flags { trim_ki: v, ..f }),
        with_number(f, Flag::SlewWPerS, v) == (Flags { slew_w_per_s: Some(v), ..f }),
        with_number(f, Flag::SanityBandW, v) == (Flags { sanity_band_w: Some(v), ..f }),
        with_number(f, Flag::Ki, v) == (Flags { ki: Some(v), ..f }),
        with_number(f, Flag::IMax, v) == (Flags { i_max: v, ..f }),
        with_number(f, Flag::FfA, v) == (Flags { ff_a: Some(v), ..f }),
        with_number(f, Flag::FfB, v) == (Flags { ff_b: Some(v), ..f }),
        with_number(f, Flag::FfLambda, v) == (Flags { ff_lambda: Some(v), ..f }),
        with_number(f, Flag::FfConfScaleW, v) == (Flags { ff_conf_scale_w: Some(v), ..f }),
        with_number(f, Flag::Interval, v) == (Flags { interval: v, ..f }),
        with_number(f, Flag::MinSoc, v) == (Flags { min_soc: v, ..f }),
        with_number(f, Flag::MaxDischarge, v) == (Flags { max_discharge: v, ..f }),
        with_number(f, Flag::MaxCharge, v) == (Flags { max_charge: v, ..f }),
        with_number(f, Flag::ExportFastGain, v) == (Flags { export_fast_gain: v, ..f }),
        with_number(f, Flag::ExportFastDeadW, v) == (Flags { export_fast_dead_w: v, ..f }),
        switched(f, Flag::Confirm) == (Flags { confirm: true, ..f }),
        switched(f, Flag::Quiet) == (Flags { quiet: true, ..f }),
        switched(f, Flag::NoSmith) == (Flags { smith: false, ..f }),
        switched(f, Flag::NoExportFast) == (Flags { export_fast_dead_w: Num::PosInf, ..f }),
        switched(f, Flag::FfLearnOnly) == (Flags { ff_mode: Word::Observe, ..f }),
{
}

/// A positive number, in plain terms.
pub open spec fn above_zero(x: Num) -> bool {
    x is Fin && x->Fin_0 > 0
}

/// Settings are in range exactly where the gains and limits are positive numbers, the
/// interval lies between a tenth of a second and an hour, and the minimum charge between
/// nothing and all.
pub proof fn ranges_are_exact(f: Flags)
    ensures
        out_of_range(f) is None <==> (f.ki is Some ==> above_zero(f.ki->0)) && above_zero(f.i_max)
            && f.interval is Fin && 100_000 <= f.interval->Fin_0 <= 3_600_000_000 && above_zero(
            f.trim_ki,
        ) && f.min_soc is Fin && 0 <= f.min_soc->Fin_0 <= 100_000_000 && (f.slew_w_per_s is Some
            ==> above_zero(f.slew_w_per_s->0)) && (f.sanity_band_w is Some ==> above_zero(
            f.sanity_band_w->0,
        )),
{
}

/// The adaptive law takes its settings: gain, rail, seed, memory and confidence scale as
/// given, else 0.05, nothing, 0.999 and 20 W; it is seeded where either coefficient is
/// given. It is refused exactly where the seed is no number, the memory not above nothing
/// and at most one, or the scale not positive.
pub proof fn adaptive_law_takes_its_settings(f: Flags, mode: FfMode)
    ensures
        ({
            let r = adaptive(f, mode);
            &&& r is Ok <==> (f.ff_a is Some ==> f.ff_a->0 is Fin) && (f.ff_b is Some
                ==> f.ff_b->0 is Fin) && (f.ff_lambda is Some ==> f.ff_lambda->0 is Fin && 0
                < f.ff_lambda->0->Fin_0 <= 1_000_000) && (f.ff_conf_scale_w is Some ==> above_zero(
                f.ff_conf_scale_w->0,
            ))
            &&& r matches Ok(c) ==> {
                &&& c.mode == mode
                &&& c.i_max == f.i_max
                &&& c.ki == (match f.ki {
                    Some(k) => k,
                    None => Num::Fin(50_000),
                })
                &&& c.a0 == (match f.ff_a {
                    Some(a) => a,
                    None => Num::Fin(0),
                })
                &&& c.b0 == (match f.ff_b {
                    Some(b) => b,
                    None => Num::Fin(0),
                })
                &&& c.seeded <==> f.ff_a is Some || f.ff_b is Some
                &&& c.lambda == (match f.ff_lambda {
                    Some(l) => l,
                    None => Num::Fin(999_000),
                })
                &&& c.conf_scale_w == (match f.ff_conf_scale_w {
                    Some(s) => s,
                    None => Num::Fin(20_000_000),
                })
                &&& c.steady_band_w == Num::Fin(25_000_000)
            }
        }),
{
}

/// The control law is the one that was named, with its gain and rail: stock, the true
/// integral (gain 1 unless given), the one with a residual integral (0.05), or the
/// adaptive one; without a name it is the third.
pub proof fn named_law_is_taken(f: Flags, args: Seq<Arg>)
    ensures
        ({
            let name = word_text(f.controller, args, "pi"@);
            let k = kind_of(f, args);
            &&& name == "stock"@ ==> k == Ok::<Kind, Seq<char>>(Kind::Stock)
            &&& name == "true-integral"@ ==> k == Ok::<Kind, Seq<char>>(
                Kind::TrueIntegral {
                    ki: match f.ki {
                        Some(g) => g,
                        None => Num::Fin(1_000_000),
                    },
                },
            )
            &&& name == "pi"@ ==> k == Ok::<Kind, Seq<char>>(
                Kind::Pi {
                    ki: match f.ki {
                        Some(g) => g,
                        None => Num::Fin(50_000),
                    },
                    i_max: f.i_max,
                },
            )
            &&& k matches Ok(Kind::Adaptive(c)) ==> name == "adaptive"@ && adaptive(f, c.mode)
                == Ok::<AdaptiveCfg, Seq<char>>(c)
            &&& f.controller is Default ==> name == "pi"@
        }),
{
    reveal_strlit("stock");
    reveal_strlit("true-integral");
    reveal_strlit("pi");
    reveal_strlit("adaptive");
    assert("stock"@.len() == 5 && "true-integral"@.len() == 13 && "pi"@.len() == 2);
    assert("adaptive"@.len() == 8);
}

} // verus!
