//! G-code command types and categories, told apart by the command word.

use vstd::prelude::*;
use vstd::string::*;
use crate::common::text::{spec_parse_u32, is_digit, digit_val, digits_value, all_digits};
use super::lexer::parse_u32_chars;

verus! {

/// The commands the file tools tell apart.
#[derive(Debug, Clone, Copy, PartialEq, Eq, Structural)]
pub enum GCodeCommandType {
    G0,
    G1,
    G28,
    G29,
    M104,
    M109,
    M140,
    M190,
    M106,
    M107,
    M84,
    Unknown,
}

/// What a command does, broadly.
#[derive(Debug, Clone, Copy, PartialEq, Eq, Structural)]
pub enum GCodeCategory {
    RapidPositioning,
    LinearMove,
    HomeAxes,
    AutoBedLeveling,
    TemperatureControl,
    FanControl,
    MotorDisable,
    Unknown,
}

/// The type of the command with the given letter and number.
pub open spec fn command_type_spec(letter: char, number: u32) -> GCodeCommandType {
    if letter == 'G' && number == 0 {
        GCodeCommandType::G0
    } else if letter == 'G' && number == 1 {
        GCodeCommandType::G1
    } else if letter == 'G' && number == 28 {
        GCodeCommandType::G28
    } else if letter == 'G' && number == 29 {
        GCodeCommandType::G29
    } else if letter == 'M' && number == 104 {
        GCodeCommandType::M104
    } else if letter == 'M' && number == 109 {
        GCodeCommandType::M109
    } else if letter == 'M' && number == 140 {
        GCodeCommandType::M140
    } else if letter == 'M' && number == 190 {
        GCodeCommandType::M190
    } else if letter == 'M' && number == 106 {
        GCodeCommandType::M106
    } else if letter == 'M' && number == 107 {
        GCodeCommandType::M107
    } else if letter == 'M' && number == 84 {
        GCodeCommandType::M84
    } else {
        GCodeCommandType::Unknown
    }
}

/// The category of a command type.
pub open spec fn category_spec(t: GCodeCommandType) -> GCodeCategory {
    match t {
        GCodeCommandType::G0 => GCodeCategory::RapidPositioning,
        GCodeCommandType::G1 => GCodeCategory::LinearMove,
        GCodeCommandType::G28 => GCodeCategory::HomeAxes,
        GCodeCommandType::G29 => GCodeCategory::AutoBedLeveling,
        GCodeCommandType::M104 | GCodeCommandType::M109 | GCodeCommandType::M140
        | GCodeCommandType::M190 => GCodeCategory::TemperatureControl,
        GCodeCommandType::M106 | GCodeCommandType::M107 => GCodeCategory::FanControl,
        GCodeCommandType::M84 => GCodeCategory::MotorDisable,
        GCodeCommandType::Unknown => GCodeCategory::Unknown,
    }
}

/// The type of a command word (its letter, then its number): unknown when the number does
/// not read.
pub open spec fn word_type(word: Seq<char>) -> GCodeCommandType {
    if word.len() == 0 {
        GCodeCommandType::Unknown
    } else {
        match spec_parse_u32(word.drop_first()) {
            Some(n) => command_type_spec(word[0], n),
            None => GCodeCommandType::Unknown,
        }
    }
}

/// The type of the command with the given letter and number.
pub fn command_type(letter: char, number: u32) -> (r: GCodeCommandType)
    ensures
        r == command_type_spec(letter, number),
{
    if letter == 'G' {
        if number == 0 {
            GCodeCommandType::G0
        } else if number == 1 {
            GCodeCommandType::G1
        } else if number == 28 {
            GCodeCommandType::G28
        } else if number == 29 {
            GCodeCommandType::G29
        } else {
            GCodeCommandType::Unknown
        }
    } else if letter == 'M' {
        if number == 104 {
            GCodeCommandType::M104
        } else if number == 109 {
            GCodeCommandType::M109
        } else if number == 140 {
            GCodeCommandType::M140
        } else if number == 190 {
            GCodeCommandType::M190
        } else if number == 106 {
            GCodeCommandType::M106
        } else if number == 107 {
            GCodeCommandType::M107
        } else if number == 84 {
            GCodeCommandType::M84
        } else {
            GCodeCommandType::Unknown
        }
    } else {
        GCodeCommandType::Unknown
    }
}

/// The category of a command type.
pub fn category_from_type(t: GCodeCommandType) -> (r: GCodeCategory)
    ensures
        r == category_spec(t),
{
    match t {
        GCodeCommandType::G0 => GCodeCategory::RapidPositioning,
        GCodeCommandType::G1 => GCodeCategory::LinearMove,
        GCodeCommandType::G28 => GCodeCategory::HomeAxes,
        GCodeCommandType::G29 => GCodeCategory::AutoBedLeveling,
        GCodeCommandType::M104 | GCodeCommandType::M109 | GCodeCommandType::M140
        | GCodeCommandType::M190 => GCodeCategory::TemperatureControl,
        GCodeCommandType::M106 | GCodeCommandType::M107 => GCodeCategory::FanControl,
        GCodeCommandType::M84 => GCodeCategory::MotorDisable,
        GCodeCommandType::Unknown => GCodeCategory::Unknown,
    }
}

/// The type of a command word.
pub fn word_command_type(word: &[char]) -> (r: GCodeCommandType)
    ensures
        r == word_type(word@),
{
    if word.len() == 0 {
        return GCodeCommandType::Unknown;
    }
    let rest = &word[1..word.len()];
    proof {
        assert(rest@ =~= word@.drop_first());
    }
    match parse_u32_chars(rest) {
        Some(n) => command_type(word[0], n),
        None => GCodeCommandType::Unknown,
    }
}

/// The temperature commands are told apart by their words: `M104`, `M109`, `M140` and
/// `M190` are the set and wait commands for hot end and bed, and all four are temperature
/// control; a fan word (`M106`, `M107`) is fan control.
pub proof fn lemma_temperature_words()
    ensures
        word_type("M104"@) == GCodeCommandType::M104,
        word_type("M109"@) == GCodeCommandType::M109,
        word_type("M140"@) == GCodeCommandType::M140,
        word_type("M190"@) == GCodeCommandType::M190,
        category_spec(word_type("M104"@)) == GCodeCategory::TemperatureControl,
        category_spec(word_type("M109"@)) == GCodeCategory::TemperatureControl,
        category_spec(word_type("M140"@)) == GCodeCategory::TemperatureControl,
        category_spec(word_type("M190"@)) == GCodeCategory::TemperatureControl,
        category_spec(word_type("M106"@)) == GCodeCategory::FanControl,
        category_spec(word_type("M107"@)) == GCodeCategory::FanControl,
{
    reveal_strlit("M104");
    reveal_strlit("M109");
    reveal_strlit("M140");
    reveal_strlit("M190");
    reveal_strlit("M106");
    reveal_strlit("M107");
    lemma_three_digits("M104"@, 104);
    lemma_three_digits("M109"@, 109);
    lemma_three_digits("M140"@, 140);
    lemma_three_digits("M190"@, 190);
    lemma_three_digits("M106"@, 106);
    lemma_three_digits("M107"@, 107);
}

/// A word of a letter and three decimal digits reads as the number they spell.
pub(crate) proof fn lemma_three_digits(w: Seq<char>, n: u32)
    requires
        w.len() == 4,
        w[1] != '+',
        is_digit(w[1]) && is_digit(w[2]) && is_digit(w[3]),
        n == digit_val(w[1]) * 100 + digit_val(w[2]) * 10 + digit_val(w[3]),
    ensures
        spec_parse_u32(w.drop_first()) == Some(n),
{
    let d = w.drop_first();
    assert(all_digits(d));
    let d2 = d.drop_last();
    let d1 = d2.drop_last();
    assert(d1.len() == 1 && d1.last() == w[1]);
    assert(d1.drop_last().len() == 0);
    assert(digits_value(d1.drop_last()) == 0);
    assert(digits_value(d1) == digit_val(w[1]));
    assert(d2.last() == w[2] && d.last() == w[3]);
    assert(digits_value(d2) == digit_val(w[1]) * 10 + digit_val(w[2]));
    assert(digits_value(d) == digits_value(d2) * 10 + digit_val(w[3]));
}

} // verus!
