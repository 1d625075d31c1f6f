//! Reading a shape from its token in a waveform list.
use crate::waveform::Wave;
use vstd::prelude::*;
use vstd::string::StrSliceExecFns;

verus! {

/// The shape named by a one-letter code, in either case.
pub open spec fn code_wave(token: Seq<char>) -> Option<Wave> {
    if token.len() != 1 {
        None
    } else if token[0] == 's' || token[0] == 'S' {
        Some(Wave::Sine)
    } else if token[0] == 'c' || token[0] == 'C' {
        Some(Wave::Cosine)
    } else if token[0] == 'p' || token[0] == 'P' {
        Some(Wave::Pulse)
    } else if token[0] == 't' || token[0] == 'T' {
        Some(Wave::Triangle)
    } else if token[0] == 'u' || token[0] == 'U' {
        Some(Wave::SawUp)
    } else if token[0] == 'd' || token[0] == 'D' {
        Some(Wave::SawDown)
    } else {
        None
    }
}

/// The shape named by a one-letter code, in either case; `None` for any
/// other token.
pub fn wave_from_code(token: &str) -> (r: Option<Wave>)
    ensures
        r == code_wave(token@),
{
    if token.unicode_len() != 1 {
        return None;
    }
    let ch = token.get_char(0);
    if ch == 's' || ch == 'S' {
        Some(Wave::Sine)
    } else if ch == 'c' || ch == 'C' {
        Some(Wave::Cosine)
    } else if ch == 'p' || ch == 'P' {
        Some(Wave::Pulse)
    } else if ch == 't' || ch == 'T' {
        Some(Wave::Triangle)
    } else if ch == 'u' || ch == 'U' {
        Some(Wave::SawUp)
    } else if ch == 'd' || ch == 'D' {
        Some(Wave::SawDown)
    } else {
        None
    }
}

/// A token of a waveform list: a one-letter code names a shape; any other
/// token stands for a constant level, which `level` holds where the token
/// reads as a number (in millionths of full scale). `None` is a token that
/// is neither.
pub fn parse_wave(token: &str, level: Option<i64>) -> (r: Option<Wave>)
    ensures
        code_wave(token@) is Some ==> r == code_wave(token@),
        code_wave(token@) is None ==> r == match level {
            Some(v) => Some(Wave::DC(v)),
            None => None::<Wave>,
        },
{
    match wave_from_code(token) {
        Some(w) => Some(w),
        None => match level {
            Some(v) => Some(Wave::DC(v)),
            None => None,
        },
    }
}

} // verus!
