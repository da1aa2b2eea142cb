//! The G-code line parser: comments and blank lines, the command word, its parameters and
//! the motion (G) and machine (M) commands they make. Parameter values are kept as the
//! number text they were written with.

use vstd::prelude::*;
use vstd::string::*;
use crate::api::types::{MCommand, clone_opt_text};
use crate::common::text::{
    trim, ascii_upper, spec_parse_u32, chars_of, string_from_chars, trim_bounds, ascii_upper_char,
    all_ascii, upper_seq,
};
use super::lexer::{
    words, split_words, before_char, find_char, parse_u32_chars, float_syntax, float_syntax_check,
};

verus! {

/// The upper-cased text, as `str::to_uppercase` produces it (full Unicode case mapping).
pub uninterp spec fn unicode_upper(s: Seq<char>) -> Seq<char>;

/// `str::to_uppercase`. Unicode upper-cases an ASCII character to its ASCII upper case, so
/// an all-ASCII text is upper-cased letter by letter.
#[verifier::external_body]
pub(crate) fn str_to_uppercase(s: &str) -> (r: String)
    ensures
        r@ == unicode_upper(s@),
        all_ascii(s@) ==> r@ == upper_seq(s@),
{
    s.to_uppercase()
}

/// Whether a character has the Unicode `Alphabetic` property (`char::is_alphabetic`).
pub uninterp spec fn alphabetic(c: char) -> bool;

/// `char::is_alphabetic`. Among ASCII characters exactly the letters are alphabetic.
#[verifier::external_body]
fn char_is_alphabetic(c: char) -> (r: bool)
    ensures
        r == alphabetic(c),
        (c as u32) < 128 ==> (r <==> ('a' <= c <= 'z' || 'A' <= c <= 'Z')),
{
    c.is_alphabetic()
}

/// A motion (G) command.
#[derive(Debug, PartialEq)]
pub enum MotionCommand {
    /// G0 (rapid) and G1.
    LinearMove {
        x: Option<String>,
        y: Option<String>,
        z: Option<String>,
        e: Option<String>,
        f: Option<String>,
        is_rapid: bool,
    },
    /// G2 (clockwise) and G3.
    ArcMove {
        x: Option<String>,
        y: Option<String>,
        z: Option<String>,
        e: Option<String>,
        f: Option<String>,
        i: String,
        j: String,
        is_cw: bool,
    },
    /// G28: home the named axes.
    Home { x: bool, y: bool, z: bool },
    /// G92.
    SetPosition { x: Option<String>, y: Option<String>, z: Option<String>, e: Option<String> },
    /// G90.
    AbsolutePositioning,
    /// G91.
    RelativePositioning,
    /// G20.
    Inches,
    /// G21.
    Millimeters,
}

/// What a line holds.
#[derive(Debug, PartialEq)]
pub enum CommandKind {
    Motion(MotionCommand),
    Machine(MCommand),
    /// A blank or comment line.
    Empty,
    Unsupported { raw: String },
}

/// A parsed line.
#[derive(Debug, PartialEq)]
pub struct ParsedCommand {
    pub line_number: u32,
    /// The line as it was read.
    pub raw: String,
    pub kind: CommandKind,
}

impl Clone for MotionCommand {
    fn clone(&self) -> (r: Self)
        ensures
            r == *self,
    {
        match self {
            MotionCommand::LinearMove { x, y, z, e, f, is_rapid } => MotionCommand::LinearMove {
                x: clone_opt_text(x),
                y: clone_opt_text(y),
                z: clone_opt_text(z),
                e: clone_opt_text(e),
                f: clone_opt_text(f),
                is_rapid: *is_rapid,
            },
            MotionCommand::ArcMove { x, y, z, e, f, i, j, is_cw } => MotionCommand::ArcMove {
                x: clone_opt_text(x),
                y: clone_opt_text(y),
                z: clone_opt_text(z),
                e: clone_opt_text(e),
                f: clone_opt_text(f),
                i: i.clone(),
                j: j.clone(),
                is_cw: *is_cw,
            },
            MotionCommand::Home { x, y, z } => MotionCommand::Home { x: *x, y: *y, z: *z },
            MotionCommand::SetPosition { x, y, z, e } => MotionCommand::SetPosition {
                x: clone_opt_text(x),
                y: clone_opt_text(y),
                z: clone_opt_text(z),
                e: clone_opt_text(e),
            },
            MotionCommand::AbsolutePositioning => MotionCommand::AbsolutePositioning,
            MotionCommand::RelativePositioning => MotionCommand::RelativePositioning,
            MotionCommand::Inches => MotionCommand::Inches,
            MotionCommand::Millimeters => MotionCommand::Millimeters,
        }
    }
}

impl Clone for CommandKind {
    fn clone(&self) -> (r: Self)
        ensures
            r == *self,
    {
        match self {
            CommandKind::Motion(m) => CommandKind::Motion(m.clone()),
            CommandKind::Machine(m) => CommandKind::Machine(m.clone()),
            CommandKind::Empty => CommandKind::Empty,
            CommandKind::Unsupported { raw } => CommandKind::Unsupported { raw: raw.clone() },
        }
    }
}

impl Clone for ParsedCommand {
    fn clone(&self) -> (r: Self)
        ensures
            r == *self,
    {
        ParsedCommand { line_number: self.line_number, raw: self.raw.clone(), kind: self.kind.clone() }
    }
}

/// A parameter word that is read: an alphabetic letter followed by a number.
pub open spec fn param_word_ok(w: Seq<char>) -> bool {
    w.len() > 0 && alphabetic(w[0]) && float_syntax(w.drop_first())
}

/// A parameter word whose letter can be cut off: not led by an alphabetic character outside
/// ASCII (cutting one off a byte boundary would fail).
pub open spec fn param_word_cuttable(w: Seq<char>) -> bool {
    w.len() == 0 || !alphabetic(w[0]) || (w[0] as u32) < 128
}

/// The value of parameter `k` among the parameter words: the last word for that letter
/// (compared upper-cased) wins.
pub open spec fn param_value(ws: Seq<Seq<char>>, k: char) -> Option<Seq<char>>
    decreases ws.len(),
{
    if ws.len() == 0 {
        None
    } else if param_word_ok(ws.last()) && ascii_upper(ws.last()[0]) == k {
        Some(ws.last().drop_first())
    } else {
        param_value(ws.drop_last(), k)
    }
}

/// The text of an optional string.
pub open spec fn opt_view(o: Option<String>) -> Option<Seq<char>> {
    match o {
        Some(s) => Some(s@),
        None => None,
    }
}

/// A value, or a default text when absent.
pub open spec fn text_or(o: Option<Seq<char>>, d: Seq<char>) -> Seq<char> {
    match o {
        Some(v) => v,
        None => d,
    }
}

/// Whether `r` is what the motion command word `cmd` (upper-cased, led by `G`) with
/// parameter words `ps` means.
pub open spec fn g_kind(cmd: Seq<char>, ps: Seq<Seq<char>>, r: CommandKind) -> bool {
    match spec_parse_u32(cmd.drop_first()) {
        None => r matches CommandKind::Unsupported { raw } && raw@ == cmd,
        Some(n) => if n == 0 || n == 1 {
            r matches CommandKind::Motion(MotionCommand::LinearMove { x, y, z, e, f, is_rapid })
                && opt_view(x) == param_value(ps, 'X') && opt_view(y) == param_value(ps, 'Y')
                && opt_view(z) == param_value(ps, 'Z') && opt_view(e) == param_value(ps, 'E')
                && opt_view(f) == param_value(ps, 'F') && is_rapid == (n == 0)
        } else if n == 2 || n == 3 {
            r matches CommandKind::Motion(MotionCommand::ArcMove { x, y, z, e, f, i, j, is_cw })
                && opt_view(x) == param_value(ps, 'X') && opt_view(y) == param_value(ps, 'Y')
                && opt_view(z) == param_value(ps, 'Z') && opt_view(e) == param_value(ps, 'E')
                && opt_view(f) == param_value(ps, 'F') && i@ == text_or(param_value(ps, 'I'), "0"@)
                && j@ == text_or(param_value(ps, 'J'), "0"@) && is_cw == (n == 2)
        } else if n == 28 {
            r == CommandKind::Motion(MotionCommand::Home {
                x: param_value(ps, 'X') is Some,
                y: param_value(ps, 'Y') is Some,
                z: param_value(ps, 'Z') is Some,
            })
        } else if n == 90 {
            r == CommandKind::Motion(MotionCommand::AbsolutePositioning)
        } else if n == 91 {
            r == CommandKind::Motion(MotionCommand::RelativePositioning)
        } else if n == 92 {
            r matches CommandKind::Motion(MotionCommand::SetPosition { x, y, z, e })
                && opt_view(x) == param_value(ps, 'X') && opt_view(y) == param_value(ps, 'Y')
                && opt_view(z) == param_value(ps, 'Z') && opt_view(e) == param_value(ps, 'E')
        } else if n == 20 {
            r == CommandKind::Motion(MotionCommand::Inches)
        } else if n == 21 {
            r == CommandKind::Motion(MotionCommand::Millimeters)
        } else {
            r matches CommandKind::Unsupported { raw } && raw@ == cmd
        },
    }
}

/// Whether the four optional axis values are those of the parameters.
pub open spec fn axes_are(ps: Seq<Seq<char>>, x: Option<String>, y: Option<String>, z: Option<String>, e: Option<String>) -> bool {
    opt_view(x) == param_value(ps, 'X') && opt_view(y) == param_value(ps, 'Y')
        && opt_view(z) == param_value(ps, 'Z') && opt_view(e) == param_value(ps, 'E')
}

/// Whether `r` is what the machine command word `cmd` (upper-cased, led by `M`) with
/// parameter words `ps` means. Absent tool and fan indices default to 0, temperatures to 0
/// and the fan speed to 255.
pub open spec fn m_kind(cmd: Seq<char>, ps: Seq<Seq<char>>, r: CommandKind) -> bool {
    match spec_parse_u32(cmd.drop_first()) {
        None => r matches CommandKind::Unsupported { raw } && raw@ == cmd,
        Some(n) => if n == 82 {
            r == CommandKind::Machine(MCommand::ExtruderAbsoluteMode)
        } else if n == 83 {
            r == CommandKind::Machine(MCommand::ExtruderRelativeMode)
        } else if n == 92 {
            r matches CommandKind::Machine(MCommand::SetStepsPerMm { x, y, z, e }) && axes_are(ps, x, y, z, e)
        } else if n == 104 {
            r matches CommandKind::Machine(MCommand::SetHotendTemp { tool, temp })
                && tool@ == text_or(param_value(ps, 'T'), "0"@) && temp@ == text_or(param_value(ps, 'S'), "0"@)
        } else if n == 106 {
            r matches CommandKind::Machine(MCommand::SetFanSpeed { index, speed })
                && index@ == text_or(param_value(ps, 'P'), "0"@) && speed@ == text_or(param_value(ps, 'S'), "255"@)
        } else if n == 107 {
            r matches CommandKind::Machine(MCommand::FanOff { index })
                && index@ == text_or(param_value(ps, 'P'), "0"@)
        } else if n == 109 {
            r matches CommandKind::Machine(MCommand::WaitHotendTemp { tool, temp })
                && tool@ == text_or(param_value(ps, 'T'), "0"@) && temp@ == text_or(param_value(ps, 'S'), "0"@)
        } else if n == 140 {
            r matches CommandKind::Machine(MCommand::SetBedTemp { temp })
                && temp@ == text_or(param_value(ps, 'S'), "0"@)
        } else if n == 190 {
            r matches CommandKind::Machine(MCommand::WaitBedTemp { temp })
                && temp@ == text_or(param_value(ps, 'S'), "0"@)
        } else if n == 201 {
            r matches CommandKind::Machine(MCommand::SetAcceleration { x, y, z, e }) && axes_are(ps, x, y, z, e)
        } else if n == 203 {
            r matches CommandKind::Machine(MCommand::SetMaxVelocity { x, y, z, e }) && axes_are(ps, x, y, z, e)
        } else if n == 204 {
            r matches CommandKind::Machine(MCommand::SetAccelParams { travel, print, retract })
                && opt_view(travel) == param_value(ps, 'T') && opt_view(print) == param_value(ps, 'P')
                && opt_view(retract) == param_value(ps, 'R')
        } else {
            r matches CommandKind::Unsupported { raw } && raw@ == cmd
        },
    }
}

/// Whether `r` is what a non-empty command text `code` means: its first word, upper-cased,
/// names a G or M command with the other words as parameters; anything else is
/// unsupported as a whole.
pub open spec fn command_kind(code: Seq<char>, r: CommandKind) -> bool {
    let ws = words(code);
    if ws.len() == 0 {
        r == CommandKind::Empty
    } else {
        let cmd = unicode_upper(ws[0]);
        let ps = ws.drop_first();
        if cmd.len() > 0 && cmd[0] == 'G' {
            g_kind(cmd, ps, r)
        } else if cmd.len() > 0 && cmd[0] == 'M' {
            m_kind(cmd, ps, r)
        } else {
            r matches CommandKind::Unsupported { raw } && raw@ == code
        }
    }
}

/// The command text of a line: the trimmed line up to its first `;`, trimmed again.
pub open spec fn code_of(line: Seq<char>) -> Seq<char> {
    trim(before_char(trim(line), ';'))
}

/// Whether `r` is what a line means: blank lines, comment lines and lines whose command
/// text is empty are empty; any other line is its command text's meaning.
pub open spec fn line_kind(line: Seq<char>, r: CommandKind) -> bool {
    let t = trim(line);
    if t.len() == 0 || t[0] == ';' || code_of(line).len() == 0 {
        r == CommandKind::Empty
    } else {
        command_kind(code_of(line), r)
    }
}

/// Whether every parameter word of the line's command text can be cut from its letter.
pub open spec fn line_params_cuttable(line: Seq<char>) -> bool {
    let ws = words(code_of(line));
    forall|i: int| 1 <= i < ws.len() ==> param_word_cuttable(#[trigger] ws[i])
}

/// The parameters of a command, by ASCII code of their upper-cased letter.
struct ParamTable {
    slots: Vec<Option<String>>,
}

impl ParamTable {
    spec fn holds(&self, ps: Seq<Seq<char>>) -> bool {
        &&& self.slots@.len() == 128
        &&& forall|c: int| 0 <= c < 128 ==> opt_view(#[trigger] self.slots@[c]) == param_value(ps, c as char)
    }

    /// Reads the parameter words: each word led by an alphabetic letter and followed by a
    /// number sets that letter's value.
    fn read(ws: &Vec<Vec<char>>) -> (r: Self)
        requires
            ws@.len() >= 1,
            forall|i: int| 1 <= i < ws@.len() ==> param_word_cuttable(#[trigger] ws@[i]@),
        ensures
            r.holds(ws@.map_values(|w: Vec<char>| w@).drop_first()),
    {
        let ghost all = ws@.map_values(|w: Vec<char>| w@);
        let mut slots: Vec<Option<String>> = Vec::new();
        let mut c: usize = 0;
        while c < 128
            invariant
                c <= 128,
                slots@.len() == c,
                forall|k: int| 0 <= k < c ==> #[trigger] slots@[k] is None,
            decreases 128 - c,
        {
            slots.push(None);
            c = c + 1;
        }
        let mut i: usize = 1;
        while i < ws.len()
            invariant
                1 <= i <= ws@.len(),
                all == ws@.map_values(|w: Vec<char>| w@),
                forall|j: int| 1 <= j < ws@.len() ==> param_word_cuttable(#[trigger] ws@[j]@),
                slots@.len() == 128,
                forall|k: int| 0 <= k < 128 ==> opt_view(#[trigger] slots@[k]) == param_value(
                    all.subrange(1, i as int),
                    k as char,
                ),
            decreases ws@.len() - i,
        {
            let w = &ws[i];
            let ghost pre = all.subrange(1, i as int);
            let ghost next = all.subrange(1, i + 1);
            proof {
                assert(next.drop_last() =~= pre);
                assert(next.last() == w@);
                assert(param_word_cuttable(ws@[i as int]@));
            }
            if w.len() > 0 && char_is_alphabetic(w[0]) {
                let rest = &w.as_slice()[1..w.len()];
                proof {
                    assert(rest@ =~= w@.drop_first());
                }
                if float_syntax_check(rest) {
                    let key = ascii_upper_char(w[0]);
                    let idx = key as u32 as usize;
                    let value = string_from_chars(rest);
                    slots.set(idx, Some(value));
                    proof {
                        assert forall|k: int| 0 <= k < 128 implies opt_view(#[trigger] slots@[k])
                            == param_value(next, k as char) by {
                            if k == idx as int {
                                assert(key == k as char);
                            } else {
                                assert(ascii_upper(w@[0]) != k as char);
                            }
                        }
                    }
                }
            }
            i = i + 1;
        }
        proof {
            assert(all.subrange(1, ws@.len() as int) =~= all.drop_first());
        }
        ParamTable { slots }
    }

    /// The value of parameter `k`.
    fn get(&self, k: char, Ghost(ps): Ghost<Seq<Seq<char>>>) -> (r: Option<String>)
        requires
            self.holds(ps),
            (k as u32) < 128,
        ensures
            opt_view(r) == param_value(ps, k),
    {
        let idx = k as u32 as usize;
        let r = match &self.slots[idx] {
            Some(s) => Some(s.clone()),
            None => None,
        };
        proof {
            assert(opt_view(self.slots@[idx as int]) == param_value(ps, idx as int as char));
        }
        r
    }

    /// The value of parameter `k`, or the text `d`.
    fn get_or(&self, k: char, d: &str, Ghost(ps): Ghost<Seq<Seq<char>>>) -> (r: String)
        requires
            self.holds(ps),
            (k as u32) < 128,
        ensures
            r@ == text_or(param_value(ps, k), d@),
    {
        match self.get(k, Ghost(ps)) {
            Some(s) => s,
            None => String::from_str(d),
        }
    }
}

/// The G-code line parser.
pub struct GCodeParser;

impl GCodeParser {
    /// Parses one line: blank and comment lines are empty, a `;` starts a comment, the first
    /// word names the command and the other words are its parameters.
    pub fn parse_line(line: &str, line_number: u32) -> (r: Option<ParsedCommand>)
        requires
            line_params_cuttable(line@),
        ensures
            r matches Some(p) && p.line_number == line_number && p.raw@ == line@ && line_kind(line@, p.kind),
    {
        let v = chars_of(line);
        let (a, b) = trim_bounds(v.as_slice());
        let t = &v.as_slice()[a..b];
        proof {
            assert(t@ =~= trim(line@));
        }
        if t.len() == 0 || t[0] == ';' {
            return Some(ParsedCommand { line_number, raw: String::from_str(line), kind: CommandKind::Empty });
        }
        let cut = find_char(t, ';');
        let before = &t[0..cut];
        proof {
            assert(before@ =~= before_char(trim(line@), ';'));
        }
        let (c0, c1) = trim_bounds(before);
        let code = &before[c0..c1];
        proof {
            assert(code@ =~= code_of(line@));
        }
        if code.len() == 0 {
            return Some(ParsedCommand { line_number, raw: String::from_str(line), kind: CommandKind::Empty });
        }
        let kind = Self::parse_command(code);
        Some(ParsedCommand { line_number, raw: String::from_str(line), kind })
    }

    /// Parses one line like `parse_line`, or gives `None` for a line with a parameter word
    /// led by an alphabetic character outside ASCII, which cannot be cut from its letter.
    pub fn parse_line_checked(line: &str, line_number: u32) -> (r: Option<ParsedCommand>)
        ensures
            line_params_cuttable(line@) ==> (r matches Some(p) && p.line_number == line_number
                && p.raw@ == line@ && line_kind(line@, p.kind)),
            !line_params_cuttable(line@) ==> r is None,
    {
        let v = chars_of(line);
        let (a, b) = trim_bounds(v.as_slice());
        let t = &v.as_slice()[a..b];
        let cut = find_char(t, ';');
        let before = &t[0..cut];
        let (c0, c1) = trim_bounds(before);
        let code = &before[c0..c1];
        proof {
            assert(t@ =~= trim(line@));
            assert(before@ =~= before_char(trim(line@), ';'));
            assert(code@ =~= code_of(line@));
        }
        let ws = split_words(code);
        let ghost all = ws@.map_values(|w: Vec<char>| w@);
        let mut i: usize = 1;
        while i < ws.len()
            invariant
                1 <= i,
                all == ws@.map_values(|w: Vec<char>| w@),
                all == words(code_of(line@)),
                forall|j: int| 1 <= j < i && j < all.len() ==> param_word_cuttable(#[trigger] all[j]),
            decreases ws@.len() - i,
        {
            let w = &ws[i];
            proof {
                assert(all[i as int] == w@);
            }
            if w.len() > 0 && char_is_alphabetic(w[0]) && (w[0] as u32) >= 128 {
                return None;
            }
            i = i + 1;
        }
        Self::parse_line(line, line_number)
    }

    /// The meaning of a non-empty command text.
    fn parse_command(code: &[char]) -> (r: CommandKind)
        requires
            forall|i: int| 1 <= i < words(code@).len() ==> param_word_cuttable(#[trigger] words(code@)[i]),
        ensures
            command_kind(code@, r),
    {
        let ws = split_words(code);
        let ghost all = ws@.map_values(|w: Vec<char>| w@);
        if ws.len() == 0 {
            return CommandKind::Empty;
        }
        let first = string_from_chars(ws[0].as_slice());
        let upper = str_to_uppercase(first.as_str());
        let cmd = chars_of(upper.as_str());
        proof {
            assert(all[0] == ws@[0]@);
            assert forall|i: int| 1 <= i < ws@.len() implies param_word_cuttable(#[trigger] ws@[i]@) by {
                assert(all[i] == ws@[i]@);
            }
        }
        let params = ParamTable::read(&ws);
        let ghost ps = all.drop_first();
        if cmd.len() > 0 && cmd[0] == 'G' {
            Self::parse_g_command(cmd.as_slice(), &params, Ghost(ps))
        } else if cmd.len() > 0 && cmd[0] == 'M' {
            Self::parse_m_command(cmd.as_slice(), &params, Ghost(ps))
        } else {
            CommandKind::Unsupported { raw: string_from_chars(code) }
        }
    }

    /// The meaning of a motion command word.
    fn parse_g_command(cmd: &[char], params: &ParamTable, Ghost(ps): Ghost<Seq<Seq<char>>>) -> (r: CommandKind)
        requires
            cmd@.len() > 0,
            params.holds(ps),
        ensures
            g_kind(cmd@, ps, r),
    {
        let num_str = &cmd[1..cmd.len()];
        proof {
            assert(num_str@ =~= cmd@.drop_first());
            reveal_strlit("0");
        }
        let num = match parse_u32_chars(num_str) {
            Some(n) => n,
            None => {
                return CommandKind::Unsupported { raw: string_from_chars(cmd) };
            },
        };
        let motion = if num == 0 || num == 1 {
            MotionCommand::LinearMove {
                x: params.get('X', Ghost(ps)),
                y: params.get('Y', Ghost(ps)),
                z: params.get('Z', Ghost(ps)),
                e: params.get('E', Ghost(ps)),
                f: params.get('F', Ghost(ps)),
                is_rapid: num == 0,
            }
        } else if num == 2 || num == 3 {
            MotionCommand::ArcMove {
                x: params.get('X', Ghost(ps)),
                y: params.get('Y', Ghost(ps)),
                z: params.get('Z', Ghost(ps)),
                e: params.get('E', Ghost(ps)),
                f: params.get('F', Ghost(ps)),
                i: params.get_or('I', "0", Ghost(ps)),
                j: params.get_or('J', "0", Ghost(ps)),
                is_cw: num == 2,
            }
        } else if num == 28 {
            MotionCommand::Home {
                x: params.get('X', Ghost(ps)).is_some(),
                y: params.get('Y', Ghost(ps)).is_some(),
                z: params.get('Z', Ghost(ps)).is_some(),
            }
        } else if num == 90 {
            MotionCommand::AbsolutePositioning
        } else if num == 91 {
            MotionCommand::RelativePositioning
        } else if num == 92 {
            MotionCommand::SetPosition {
                x: params.get('X', Ghost(ps)),
                y: params.get('Y', Ghost(ps)),
                z: params.get('Z', Ghost(ps)),
                e: params.get('E', Ghost(ps)),
            }
        } else if num == 20 {
            MotionCommand::Inches
        } else if num == 21 {
            MotionCommand::Millimeters
        } else {
            return CommandKind::Unsupported { raw: string_from_chars(cmd) };
        };
        CommandKind::Motion(motion)
    }

    /// The meaning of a machine command word.
    fn parse_m_command(cmd: &[char], params: &ParamTable, Ghost(ps): Ghost<Seq<Seq<char>>>) -> (r: CommandKind)
        requires
            cmd@.len() > 0,
            params.holds(ps),
        ensures
            m_kind(cmd@, ps, r),
    {
        let num_str = &cmd[1..cmd.len()];
        proof {
            assert(num_str@ =~= cmd@.drop_first());
        }
        let num = match parse_u32_chars(num_str) {
            Some(n) => n,
            None => {
                return CommandKind::Unsupported { raw: string_from_chars(cmd) };
            },
        };
        let m_command = if num == 82 {
            MCommand::ExtruderAbsoluteMode
        } else if num == 83 {
            MCommand::ExtruderRelativeMode
        } else if num == 92 {
            MCommand::SetStepsPerMm {
                x: params.get('X', Ghost(ps)),
                y: params.get('Y', Ghost(ps)),
                z: params.get('Z', Ghost(ps)),
                e: params.get('E', Ghost(ps)),
            }
        } else if num == 104 {
            MCommand::SetHotendTemp {
                tool: params.get_or('T', "0", Ghost(ps)),
                temp: params.get_or('S', "0", Ghost(ps)),
            }
        } else if num == 106 {
            MCommand::SetFanSpeed {
                index: params.get_or('P', "0", Ghost(ps)),
                speed: params.get_or('S', "255", Ghost(ps)),
            }
        } else if num == 107 {
            MCommand::FanOff { index: params.get_or('P', "0", Ghost(ps)) }
        } else if num == 109 {
            MCommand::WaitHotendTemp {
                tool: params.get_or('T', "0", Ghost(ps)),
                temp: params.get_or('S', "0", Ghost(ps)),
            }
        } else if num == 140 {
            MCommand::SetBedTemp { temp: params.get_or('S', "0", Ghost(ps)) }
        } else if num == 190 {
            MCommand::WaitBedTemp { temp: params.get_or('S', "0", Ghost(ps)) }
        } else if num == 201 {
            MCommand::SetAcceleration {
                x: params.get('X', Ghost(ps)),
                y: params.get('Y', Ghost(ps)),
                z: params.get('Z', Ghost(ps)),
                e: params.get('E', Ghost(ps)),
            }
        } else if num == 203 {
            MCommand::SetMaxVelocity {
                x: params.get('X', Ghost(ps)),
                y: params.get('Y', Ghost(ps)),
                z: params.get('Z', Ghost(ps)),
                e: params.get('E', Ghost(ps)),
            }
        } else if num == 204 {
            MCommand::SetAccelParams {
                travel: params.get('T', Ghost(ps)),
                print: params.get('P', Ghost(ps)),
                retract: params.get('R', Ghost(ps)),
            }
        } else {
            return CommandKind::Unsupported { raw: string_from_chars(cmd) };
        };
        CommandKind::Machine(m_command)
    }
}

/// The temperature commands take their target from the `S` parameter: on any command line
/// whose first word is `M104`, `M109`, `M140` or `M190` (in any case), the parsed command sets
/// or waits for the hot end or the bed with the value of `S` (0 where it is absent), and a
/// hot-end command addresses the tool given by `T` (0 where absent).
pub proof fn lemma_temperature_target_is_s(line: Seq<char>, r: CommandKind)
    requires
        line_kind(line, r),
        trim(line).len() > 0,
        trim(line)[0] != ';',
        code_of(line).len() > 0,
    ensures
        ({
            let ws = words(code_of(line));
            let ps = ws.drop_first();
            let s = text_or(param_value(ps, 'S'), "0"@);
            let t = text_or(param_value(ps, 'T'), "0"@);
            &&& ws.len() > 0 && unicode_upper(ws[0]) == "M104"@ ==> (r matches CommandKind::Machine(
                MCommand::SetHotendTemp { tool, temp },
            ) && temp@ == s && tool@ == t)
            &&& ws.len() > 0 && unicode_upper(ws[0]) == "M109"@ ==> (r matches CommandKind::Machine(
                MCommand::WaitHotendTemp { tool, temp },
            ) && temp@ == s && tool@ == t)
            &&& ws.len() > 0 && unicode_upper(ws[0]) == "M140"@ ==> (r matches CommandKind::Machine(
                MCommand::SetBedTemp { temp },
            ) && temp@ == s)
            &&& ws.len() > 0 && unicode_upper(ws[0]) == "M190"@ ==> (r matches CommandKind::Machine(
                MCommand::WaitBedTemp { temp },
            ) && temp@ == s)
        }),
{
    reveal_strlit("M104");
    reveal_strlit("M109");
    reveal_strlit("M140");
    reveal_strlit("M190");
    super::command::lemma_three_digits("M104"@, 104);
    super::command::lemma_three_digits("M109"@, 109);
    super::command::lemma_three_digits("M140"@, 140);
    super::command::lemma_three_digits("M190"@, 190);
}

} // verus!
