//! G-code file processing: line preprocessing (comments, spacing), category filters and the
//! analysis of a file's lines into line, command and time counts. Reading the file is the
//! host's part; it hands the lines over one by one.

use vstd::prelude::*;
use vstd::string::*;
use crate::common::text::{trim, chars_of, trim_bounds, push_char, append_chars};
use super::lexer::{words, split_words, before_char, find_char};
use super::command::{GCodeCategory, GCodeCommandType, word_type, category_spec, word_command_type, category_from_type};
use super::parser::{GCodeParser, ParsedCommand, CommandKind, line_kind, line_params_cuttable, unicode_upper, str_to_uppercase};

verus! {

/// Options of the line preprocessing.
#[derive(Debug)]
pub struct PreprocessOptions {
    /// Drop `;` comments and the first parenthesised comment.
    pub remove_comments: bool,
    /// Drop moves shorter than the minimum distance.
    pub optimize_moves: bool,
    /// Keep only commands of these categories.
    pub filter_categories: Option<Vec<GCodeCategory>>,
    /// The minimum distance, as the bits of an `f32` in millimetres.
    pub min_movement_distance_bits: u32,
}

impl Default for PreprocessOptions {
    /// Comments removed, moves optimized, no category filter, a minimum distance of 0.01 mm.
    fn default() -> (r: Self)
        ensures
            r.remove_comments,
            r.optimize_moves,
            r.filter_categories is None,
            r.min_movement_distance_bits == 0x3C23D70A,
    {
        PreprocessOptions {
            remove_comments: true,
            optimize_moves: true,
            filter_categories: None,
            min_movement_distance_bits: 0x3C23D70A,
        }
    }
}

/// Words joined by single spaces.
pub open spec fn join_words(ws: Seq<Seq<char>>) -> Seq<char>
    decreases ws.len(),
{
    if ws.len() == 0 {
        Seq::empty()
    } else if ws.len() == 1 {
        ws[0]
    } else {
        join_words(ws.drop_last()) + seq![' '] + ws.last()
    }
}

/// The line without its `;` comment and, when both parentheses remain, without the text
/// from the first `(` to the first `)`.
pub open spec fn strip_comments(s: Seq<char>) -> Seq<char> {
    let p = before_char(s, ';');
    let a = before_char(p, '(').len();
    let b = before_char(p, ')').len();
    if a < p.len() && b < p.len() {
        p.subrange(0, a as int) + p.subrange(b as int + 1, p.len() as int)
    } else {
        p
    }
}

/// Whether removing a parenthesised comment works on the line: when both parentheses remain
/// after the `;` comment is cut, the first `(` comes before the first `)`.
pub open spec fn parens_in_order(s: Seq<char>) -> bool {
    let p = before_char(s, ';');
    let a = before_char(p, '(').len();
    let b = before_char(p, ')').len();
    a < p.len() && b < p.len() ==> a <= b
}

/// The preprocessed line: comments removed when asked, then its words joined by single
/// spaces.
pub open spec fn preprocessed(s: Seq<char>, remove_comments: bool) -> Seq<char> {
    join_words(
        words(
            if remove_comments {
                strip_comments(s)
            } else {
                s
            },
        ),
    )
}

/// Whether a command of category `c` passes the filter.
pub open spec fn category_included(filter: Option<Vec<GCodeCategory>>, c: GCodeCategory) -> bool {
    match filter {
        Some(v) => v@.contains(c),
        None => true,
    }
}

/// Preprocesses one line: removes comments when asked and normalizes the spacing.
pub fn preprocess_line(line: &str, options: &PreprocessOptions) -> (r: String)
    requires
        options.remove_comments ==> parens_in_order(line@),
    ensures
        r@ == preprocessed(line@, options.remove_comments),
{
    let v = chars_of(line);
    let mut kept: Vec<char> = Vec::new();
    if options.remove_comments {
        let cut = find_char(v.as_slice(), ';');
        let p = &v.as_slice()[0..cut];
        let a = find_char(p, '(');
        let b = find_char(p, ')');
        proof {
            assert(p@ =~= before_char(line@, ';'));
        }
        if a < p.len() && b < p.len() {
            let mut i: usize = 0;
            while i < a
                invariant
                    i <= a <= p@.len(),
                    kept@ == p@.subrange(0, i as int),
                decreases a - i,
            {
                kept.push(p[i]);
                i = i + 1;
                proof {
                    assert(kept@ =~= p@.subrange(0, i as int));
                }
            }
            let mut j: usize = b + 1;
            while j < p.len()
                invariant
                    b + 1 <= j <= p@.len(),
                    kept@ == p@.subrange(0, a as int) + p@.subrange(b + 1, j as int),
                decreases p@.len() - j,
            {
                kept.push(p[j]);
                j = j + 1;
                proof {
                    assert(kept@ =~= p@.subrange(0, a as int) + p@.subrange(b + 1, j as int));
                }
            }
        } else {
            let mut i: usize = 0;
            while i < p.len()
                invariant
                    i <= p@.len(),
                    kept@ == p@.subrange(0, i as int),
                decreases p@.len() - i,
            {
                kept.push(p[i]);
                i = i + 1;
                proof {
                    assert(kept@ =~= p@.subrange(0, i as int));
                }
            }
            proof {
                assert(p@.subrange(0, p@.len() as int) =~= p@);
            }
        }
    } else {
        kept = v;
    }
    let ws = split_words(kept.as_slice());
    let ghost all = ws@.map_values(|w: Vec<char>| w@);
    let mut out = String::new();
    let mut i: usize = 0;
    while i < ws.len()
        invariant
            i <= ws@.len(),
            all == ws@.map_values(|w: Vec<char>| w@),
            out@ == join_words(all.subrange(0, i as int)),
        decreases ws@.len() - i,
    {
        proof {
            assert(all.subrange(0, i + 1).drop_last() =~= all.subrange(0, i as int));
            assert(all[i as int] == ws@[i as int]@);
        }
        if i > 0 {
            push_char(&mut out, ' ');
        }
        append_chars(&mut out, ws[i].as_slice());
        i = i + 1;
    }
    proof {
        assert(all.subrange(0, all.len() as int) =~= all);
    }
    out
}

/// Whether a command of category `category` passes the options' filter.
pub fn should_include_command(category: GCodeCategory, options: &PreprocessOptions) -> (r: bool)
    ensures
        r == category_included(options.filter_categories, category),
{
    match &options.filter_categories {
        Some(categories) => {
            let mut i: usize = 0;
            while i < categories.len()
                invariant
                    i <= categories@.len(),
                    options.filter_categories == Some(*categories),
                    forall|j: int| 0 <= j < i ==> categories@[j] != category,
                decreases categories@.len() - i,
            {
                if categories[i] == category {
                    proof {
                        assert(categories@[i as int] == category);
                        assert(categories@.contains(category));
                    }
                    return true;
                }
                i = i + 1;
            }
            false
        },
        None => true,
    }
}

/// The category of a command line: that of its first word, upper-cased.
pub open spec fn line_category(line: Seq<char>) -> GCodeCategory {
    let ws = words(trim(line));
    if ws.len() == 0 {
        GCodeCategory::Unknown
    } else {
        category_spec(word_type(unicode_upper(ws[0])))
    }
}

/// The time a command of the given category adds to the estimate; moves are timed by the
/// host from their distance and feed rate.
pub open spec fn category_time_ms(c: GCodeCategory) -> u64 {
    match c {
        GCodeCategory::LinearMove => 0,
        GCodeCategory::TemperatureControl => 5000,
        GCodeCategory::HomeAxes => 10000,
        _ => 100,
    }
}

/// Whether a line holds a command: it is not blank and not a comment.
pub open spec fn is_command_line(line: Seq<char>) -> bool {
    trim(line).len() > 0 && trim(line)[0] != ';'
}

/// The category of the first word of `t`, upper-cased.
fn first_word_category(t: &[char]) -> (r: GCodeCategory)
    requires
        trim(t@) == t@,
    ensures
        r == line_category(t@),
{
    let ws = split_words(t);
    if ws.len() == 0 {
        GCodeCategory::Unknown
    } else {
        let first = crate::common::text::string_from_chars(ws[0].as_slice());
        let upper = str_to_uppercase(first.as_str());
        let up = chars_of(upper.as_str());
        proof {
            assert(ws@.map_values(|w: Vec<char>| w@)[0] == ws@[0]@);
        }
        category_from_type(word_command_type(up.as_slice()))
    }
}

/// One line of a streamed file: trimmed and preprocessed as the options say. A line that
/// comes out blank, does not parse, or whose command category the options filter out gives
/// nothing; any other gives its category and command (its text the preprocessed line).
/// Moves closer than the options' minimum distance are dropped by the host, which holds the
/// coordinates.
pub fn stream_line(line: &str, options: &PreprocessOptions) -> (r: Option<(GCodeCategory, ParsedCommand)>)
    requires
        options.remove_comments ==> parens_in_order(trim(line@)),
    ensures
        ({
            let p = preprocessed(trim(line@), options.remove_comments);
            &&& (p.len() == 0 || !line_params_cuttable(p) || !category_included(
                options.filter_categories,
                line_category(p),
            )) ==> r is None
            &&& (p.len() > 0 && line_params_cuttable(p) && category_included(
                options.filter_categories,
                line_category(p),
            )) ==> (r matches Some((c, cmd)) && c == line_category(p) && cmd.raw@ == p
                && line_kind(p, cmd.kind))
        }),
{
    let v = chars_of(line);
    let (a, b) = trim_bounds(v.as_slice());
    let t = &v.as_slice()[a..b];
    proof {
        assert(t@ =~= trim(line@));
    }
    let trimmed = crate::common::text::string_from_chars(t);
    let processed = preprocess_line(trimmed.as_str(), options);
    if processed.as_str().unicode_len() == 0 {
        return None;
    }
    let parsed = match GCodeParser::parse_line_checked(processed.as_str(), 0) {
        Some(c) => c,
        None => {
            return None;
        },
    };
    let pv = chars_of(processed.as_str());
    let (c0, c1) = trim_bounds(pv.as_slice());
    let pt = &pv.as_slice()[c0..c1];
    proof {
        assert(pt@ =~= trim(processed@));
        crate::common::text::lemma_trim_idempotent(processed@);
    }
    let category = first_word_category(pt);
    if !should_include_command(category, options) {
        return None;
    }
    Some((category, parsed))
}

/// The analysis of a G-code file: its lines, commands and estimated time.
#[derive(Debug)]
pub struct GCodeFileParser {
    file_path: String,
    total_lines: usize,
    processed_lines: usize,
    total_commands: usize,
    estimated_time_ms: u64,
}

impl GCodeFileParser {
    pub closed spec fn path(&self) -> Seq<char> {
        self.file_path@
    }

    pub closed spec fn lines(&self) -> usize {
        self.total_lines
    }

    pub closed spec fn processed(&self) -> usize {
        self.processed_lines
    }

    pub closed spec fn commands(&self) -> usize {
        self.total_commands
    }

    pub closed spec fn time_ms(&self) -> u64 {
        self.estimated_time_ms
    }

    /// The analysis of the file at `file_path` before any line is read.
    pub fn new(file_path: &str) -> (r: Self)
        ensures
            r.path() == file_path@,
            r.lines() == 0 && r.processed() == 0 && r.commands() == 0 && r.time_ms() == 0,
    {
        GCodeFileParser {
            file_path: String::from_str(file_path),
            total_lines: 0,
            processed_lines: 0,
            total_commands: 0,
            estimated_time_ms: 0,
        }
    }

    /// Takes the next line of the file into the analysis: every line is counted; a command
    /// line that parses is counted as a command, adds its category's time, and is handed
    /// back with its category for the host to time moves.
    pub fn analyze_line(&mut self, line: &str) -> (r: Option<(GCodeCategory, ParsedCommand)>)
        requires
            old(self).lines() < usize::MAX,
            old(self).commands() < usize::MAX,
            old(self).time_ms() + 10000 <= u64::MAX,
        ensures
            final(self).path() == old(self).path(),
            final(self).processed() == old(self).processed(),
            final(self).lines() == old(self).lines() + 1,
            !is_command_line(line@) || !line_params_cuttable(trim(line@)) ==> {
                &&& r is None
                &&& final(self).commands() == old(self).commands()
                &&& final(self).time_ms() == old(self).time_ms()
            },
            is_command_line(line@) && line_params_cuttable(trim(line@)) ==> {
                &&& r matches Some((c, p)) && c == line_category(line@) && p.raw@ == trim(line@)
                    && line_kind(trim(line@), p.kind)
                &&& final(self).commands() == old(self).commands() + 1
                &&& final(self).time_ms() == old(self).time_ms() + category_time_ms(line_category(line@))
            },
    {
        self.total_lines = self.total_lines + 1;
        let v = chars_of(line);
        let (a, b) = trim_bounds(v.as_slice());
        let t = &v.as_slice()[a..b];
        proof {
            assert(t@ =~= trim(line@));
        }
        if t.len() == 0 || t[0] == ';' {
            return None;
        }
        let trimmed = crate::common::text::string_from_chars(t);
        let parsed = match GCodeParser::parse_line_checked(trimmed.as_str(), 0) {
            Some(p) => p,
            None => {
                return None;
            },
        };
        let ws = split_words(t);
        let category = if ws.len() == 0 {
            GCodeCategory::Unknown
        } else {
            let first = crate::common::text::string_from_chars(ws[0].as_slice());
            let upper = str_to_uppercase(first.as_str());
            let up = chars_of(upper.as_str());
            proof {
                assert(ws@.map_values(|w: Vec<char>| w@)[0] == ws@[0]@);
            }
            category_from_type(word_command_type(up.as_slice()))
        };
        proof {
            assert(trim(trim(line@)) == trim(line@)) by {
                crate::common::text::lemma_trim_idempotent(line@);
            }
        }
        self.total_commands = self.total_commands + 1;
        let added: u64 = match category {
            GCodeCategory::LinearMove => 0,
            GCodeCategory::TemperatureControl => 5000,
            GCodeCategory::HomeAxes => 10000,
            _ => 100,
        };
        self.estimated_time_ms = self.estimated_time_ms + added;
        Some((category, ParsedCommand { line_number: parsed.line_number, raw: trimmed, kind: parsed.kind }))
    }

    /// Adds the time the host estimated for a move.
    pub fn add_move_time(&mut self, ms: u64)
        requires
            old(self).time_ms() + ms <= u64::MAX,
        ensures
            final(self).time_ms() == old(self).time_ms() + ms,
            final(self).lines() == old(self).lines(),
            final(self).commands() == old(self).commands(),
            final(self).processed() == old(self).processed(),
            final(self).path() == old(self).path(),
    {
        self.estimated_time_ms = self.estimated_time_ms + ms;
    }

    /// Records how many lines a stream has processed.
    pub fn set_processed_lines(&mut self, n: usize)
        ensures
            final(self).processed() == n,
            final(self).time_ms() == old(self).time_ms(),
            final(self).lines() == old(self).lines(),
            final(self).commands() == old(self).commands(),
            final(self).path() == old(self).path(),
    {
        self.processed_lines = n;
    }

    /// Lines, commands and estimated milliseconds.
    pub fn get_stats(&self) -> (r: (usize, usize, u64))
        ensures
            r == (self.lines(), self.commands(), self.time_ms()),
    {
        (self.total_lines, self.total_commands, self.estimated_time_ms)
    }

    /// Lines processed so far.
    pub fn processed_lines(&self) -> (r: usize)
        ensures
            r == self.processed(),
    {
        self.processed_lines
    }

    /// The file's path.
    pub fn file_path(&self) -> (r: &str)
        ensures
            r@ == self.path(),
    {
        self.file_path.as_str()
    }
}

/// A line whose first word is a temperature command (`M104`, `M109`, `M140` or `M190`, in
/// any case) is temperature control, and the analysis adds five seconds for it.
pub proof fn lemma_temperature_lines(line: Seq<char>)
    requires
        words(trim(line)).len() > 0,
        unicode_upper(words(trim(line))[0]) == "M104"@ || unicode_upper(words(trim(line))[0]) == "M109"@
            || unicode_upper(words(trim(line))[0]) == "M140"@ || unicode_upper(words(trim(line))[0]) == "M190"@,
    ensures
        line_category(line) == GCodeCategory::TemperatureControl,
        category_time_ms(line_category(line)) == 5000,
{
    super::command::lemma_temperature_words();
}

} // verus!
