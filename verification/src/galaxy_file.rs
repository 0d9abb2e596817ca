//! The galaxy topology format: one planet per line, written as
//! `planet_id, type_id, neighbour_id, neighbour_id, ...` with unsigned 32-bit
//! numbers. Blank lines are skipped but still count as lines.
use vstd::prelude::*;
use crate::text::{parse_u32_chars, spec_parse_u32, split, split_chars, trim, trim_chars, views};

verus! {

/// The kinds of planet that a topology file can ask for.
#[derive(Clone, Copy, Debug, PartialEq, Eq, Structural)]
pub enum PlanetType {
    BlackAdidasShoe,
    Ciuc,
    HoustonWeHaveABorrow,
    ImmutableCosmicBorrow,
    OneMillionCrabs,
    Rustrelli,
    RustyCrab,
    TheCompilerStrikesBack,
}

/// The planet type that a `type_id` names; any other id asks for a random type.
pub open spec fn planet_type_of_code(code: u32) -> Option<PlanetType> {
    if code == 0 {
        Some(PlanetType::BlackAdidasShoe)
    } else if code == 1 {
        Some(PlanetType::Ciuc)
    } else if code == 2 {
        Some(PlanetType::HoustonWeHaveABorrow)
    } else if code == 3 {
        Some(PlanetType::ImmutableCosmicBorrow)
    } else if code == 4 {
        Some(PlanetType::OneMillionCrabs)
    } else if code == 5 {
        Some(PlanetType::Rustrelli)
    } else if code == 6 {
        Some(PlanetType::RustyCrab)
    } else if code == 7 {
        Some(PlanetType::TheCompilerStrikesBack)
    } else {
        None
    }
}

impl PlanetType {
    /// The planet type with the given `type_id`, if there is one.
    pub fn from_code(code: u32) -> (r: Option<PlanetType>)
        ensures
            r == planet_type_of_code(code),
    {
        match code {
            0 => Some(PlanetType::BlackAdidasShoe),
            1 => Some(PlanetType::Ciuc),
            2 => Some(PlanetType::HoustonWeHaveABorrow),
            3 => Some(PlanetType::ImmutableCosmicBorrow),
            4 => Some(PlanetType::OneMillionCrabs),
            5 => Some(PlanetType::Rustrelli),
            6 => Some(PlanetType::RustyCrab),
            7 => Some(PlanetType::TheCompilerStrikesBack),
            _ => None,
        }
    }

    /// The `type_id` of this planet type.
    pub fn code(&self) -> (c: u32)
        ensures
            c < 8,
            planet_type_of_code(c) == Some(*self),
    {
        match self {
            PlanetType::BlackAdidasShoe => 0,
            PlanetType::Ciuc => 1,
            PlanetType::HoustonWeHaveABorrow => 2,
            PlanetType::ImmutableCosmicBorrow => 3,
            PlanetType::OneMillionCrabs => 4,
            PlanetType::Rustrelli => 5,
            PlanetType::RustyCrab => 6,
            PlanetType::TheCompilerStrikesBack => 7,
        }
    }

    /// One of the planet types, drawn at random.
    pub fn random() -> (t: PlanetType) {
        let k = crate::dice::random_below(8);
        match PlanetType::from_code(k) {
            Some(t) => t,
            None => PlanetType::BlackAdidasShoe,
        }
    }

    /// The planet type with the given `type_id`, or a random one for any
    /// other id.
    pub fn from_code_or_random(code: u32) -> (t: PlanetType)
        ensures
            planet_type_of_code(code) matches Some(p) ==> t == p,
    {
        match PlanetType::from_code(code) {
            Some(t) => t,
            None => PlanetType::random(),
        }
    }
}

/// Why a topology file could not be read, in terms of the file's text.
pub enum ParseFailure {
    /// The field `value` of row `row` (counted from 1) is not an unsigned
    /// 32-bit number.
    NotAU32 { row: nat, value: Seq<char> },
    /// Row `row` (counted from 1) has fewer than two fields.
    MissingIdOrType { row: nat },
}

/// Why a topology file could not be read.
#[derive(Debug, Clone)]
pub enum ParseError {
    NotAU32 { row: usize, value: Vec<char> },
    MissingIdOrType { row: usize },
}

impl View for ParseError {
    type V = ParseFailure;

    open spec fn view(&self) -> ParseFailure {
        match self {
            ParseError::NotAU32 { row, value } => ParseFailure::NotAU32 {
                row: *row as nat,
                value: value@,
            },
            ParseError::MissingIdOrType { row } => ParseFailure::MissingIdOrType { row: *row as nat },
        }
    }
}

/// One planet line of a topology file: its index among all lines (blank ones
/// included) and its numbers.
#[derive(Debug, Clone)]
pub struct GalaxyRow {
    pub line: usize,
    pub values: Vec<u32>,
}

impl View for GalaxyRow {
    type V = (nat, Seq<u32>);

    open spec fn view(&self) -> (nat, Seq<u32>) {
        (self.line as nat, self.values@)
    }
}

pub open spec fn rows_view(rows: Seq<GalaxyRow>) -> Seq<(nat, Seq<u32>)> {
    rows.map_values(|r: GalaxyRow| r@)
}

/// The numbers of a line's fields, or the first field (untrimmed) that is not
/// a number.
pub open spec fn parse_fields(fields: Seq<Seq<char>>) -> Result<Seq<u32>, Seq<char>>
    decreases fields.len(),
{
    if fields.len() == 0 {
        Ok(Seq::<u32>::empty())
    } else {
        match parse_fields(fields.drop_last()) {
            Err(e) => Err(e),
            Ok(vs) => match spec_parse_u32(trim(fields.last())) {
                Some(v) => Ok(vs.push(v)),
                None => Err(fields.last()),
            },
        }
    }
}

/// What one line of the file amounts to.
pub enum LineOutcome {
    Blank,
    Values(Seq<u32>),
    Failed(ParseFailure),
}

/// Line `idx` (counted from 0): blank after trimming, or its comma-separated
/// numbers, of which there must be at least two.
pub open spec fn parse_line(line: Seq<char>, idx: nat) -> LineOutcome {
    let t = trim(line);
    if t.len() == 0 {
        LineOutcome::Blank
    } else {
        match parse_fields(split(t, ',')) {
            Err(v) => LineOutcome::Failed(ParseFailure::NotAU32 { row: idx + 1, value: v }),
            Ok(vals) => if vals.len() < 2 {
                LineOutcome::Failed(ParseFailure::MissingIdOrType { row: idx + 1 })
            } else {
                LineOutcome::Values(vals)
            },
        }
    }
}

/// The planet rows of the given lines, or the failure of the first line that
/// fails.
pub open spec fn parse_lines(lines: Seq<Seq<char>>) -> Result<Seq<(nat, Seq<u32>)>, ParseFailure>
    decreases lines.len(),
{
    if lines.len() == 0 {
        Ok(Seq::empty())
    } else {
        match parse_lines(lines.drop_last()) {
            Err(e) => Err(e),
            Ok(rows) => match parse_line(lines.last(), (lines.len() - 1) as nat) {
                LineOutcome::Blank => Ok(rows),
                LineOutcome::Values(vals) => Ok(rows.push(((lines.len() - 1) as nat, vals))),
                LineOutcome::Failed(f) => Err(f),
            },
        }
    }
}

/// The planet rows of a topology file's text.
pub open spec fn parse_galaxy(s: Seq<char>) -> Result<Seq<(nat, Seq<u32>)>, ParseFailure> {
    parse_lines(split(s, '\n'))
}

proof fn lemma_fields_err_persists(f: Seq<Seq<char>>, k: int)
    requires
        0 <= k <= f.len(),
        parse_fields(f.take(k)) is Err,
    ensures
        parse_fields(f) == parse_fields(f.take(k)),
    decreases f.len() - k,
{
    if k == f.len() {
        assert(f.take(k) =~= f);
    } else {
        assert(f.drop_last().take(k) =~= f.take(k));
        lemma_fields_err_persists(f.drop_last(), k);
    }
}

proof fn lemma_lines_err_persists(l: Seq<Seq<char>>, k: int)
    requires
        0 <= k <= l.len(),
        parse_lines(l.take(k)) is Err,
    ensures
        parse_lines(l) == parse_lines(l.take(k)),
    decreases l.len() - k,
{
    if k == l.len() {
        assert(l.take(k) =~= l);
    } else {
        assert(l.drop_last().take(k) =~= l.take(k));
        lemma_lines_err_persists(l.drop_last(), k);
    }
}

/// The numbers of the comma-separated fields of a line, or the first field
/// that is not a number.
fn parse_line_fields(fields: &Vec<Vec<char>>) -> (r: Result<Vec<u32>, Vec<char>>)
    ensures
        match r {
            Ok(vs) => parse_fields(views(fields@)) == Ok::<Seq<u32>, Seq<char>>(vs@),
            Err(v) => parse_fields(views(fields@)) == Err::<Seq<u32>, Seq<char>>(v@),
        },
{
    let ghost f = views(fields@);
    let mut vals: Vec<u32> = Vec::new();
    let mut i: usize = 0;
    proof {
        assert(f.take(0) =~= Seq::<Seq<char>>::empty());
    }
    while i < fields.len()
        invariant
            0 <= i <= fields@.len(),
            f == views(fields@),
            parse_fields(f.take(i as int)) == Ok::<Seq<u32>, Seq<char>>(vals@),
        decreases fields@.len() - i,
    {
        let piece = trim_chars(fields[i].as_slice());
        let parsed = parse_u32_chars(piece.as_slice());
        proof {
            assert(f.take(i + 1).drop_last() =~= f.take(i as int));
            assert(f.take(i + 1).last() == fields@[i as int]@);
        }
        match parsed {
            Some(v) => {
                vals.push(v);
            },
            None => {
                proof {
                    lemma_fields_err_persists(f, i + 1);
                }
                let bad = fields[i].clone();
                return Err(bad);
            },
        }
        i = i + 1;
    }
    proof {
        assert(f.take(fields@.len() as int) =~= f);
    }
    Ok(vals)
}

/// Reads the planet rows of a topology file's text: every line that is not
/// blank gives its index among all lines and its numbers; the first line with
/// a field that is not a number, or with fewer than two fields, is the error.
pub fn parse_galaxy_content(content: &str) -> (r: Result<Vec<GalaxyRow>, ParseError>)
    ensures
        match r {
            Ok(rows) => parse_galaxy(content@) == Ok::<Seq<(nat, Seq<u32>)>, ParseFailure>(
                rows_view(rows@),
            ),
            Err(e) => parse_galaxy(content@) == Err::<Seq<(nat, Seq<u32>)>, ParseFailure>(e@),
        },
{
    let mut chars: Vec<char> = Vec::new();
    for c in it: content.chars()
        invariant
            chars@ == it.seq().take(it.index() as int),
    {
        chars.push(c);
    }
    assert(chars@ =~= content@);
    let lines = split_chars(chars.as_slice(), '\n');
    let ghost l = views(lines@);
    let mut rows: Vec<GalaxyRow> = Vec::new();
    let mut i: usize = 0;
    proof {
        assert(l.take(0) =~= Seq::<Seq<char>>::empty());
        assert(rows_view(rows@) =~= Seq::<(nat, Seq<u32>)>::empty());
    }
    while i < lines.len()
        invariant
            0 <= i <= lines@.len(),
            l == views(lines@),
            l == split(content@, '\n'),
            parse_lines(l.take(i as int)) == Ok::<Seq<(nat, Seq<u32>)>, ParseFailure>(
                rows_view(rows@),
            ),
        decreases lines@.len() - i,
    {
        let ghost pre = l.take(i as int);
        let ghost cur = l.take(i + 1);
        proof {
            assert(cur.drop_last() =~= pre);
            assert(cur.last() == lines@[i as int]@);
        }
        let t = trim_chars(lines[i].as_slice());
        if t.len() > 0 {
            let fields = split_chars(t.as_slice(), ',');
            match parse_line_fields(&fields) {
                Err(v) => {
                    proof {
                        lemma_lines_err_persists(l, i + 1);
                    }
                    return Err(ParseError::NotAU32 { row: i + 1, value: v });
                },
                Ok(vals) => {
                    if vals.len() < 2 {
                        proof {
                            lemma_lines_err_persists(l, i + 1);
                        }
                        return Err(ParseError::MissingIdOrType { row: i + 1 });
                    }
                    let ghost before = rows@;
                    let ghost vs = vals@;
                    let row = GalaxyRow { line: i, values: vals };
                    rows.push(row);
                    proof {
                        assert(rows@.drop_last() =~= before);
                        assert(rows_view(rows@) =~= rows_view(before).push((i as nat, vs)));
                    }
                },
            }
        }
        i = i + 1;
    }
    proof {
        assert(l.take(lines@.len() as int) =~= l);
    }
    Ok(rows)
}

/// Every row that a successful read gives has an id and a type.
pub proof fn lemma_parsed_rows_have_id_and_type(lines: Seq<Seq<char>>)
    ensures
        parse_lines(lines) matches Ok(rows) ==> forall|k: int|
            0 <= k < rows.len() ==> #[trigger] rows[k].1.len() >= 2,
    decreases lines.len(),
{
    if lines.len() > 0 {
        lemma_parsed_rows_have_id_and_type(lines.drop_last());
        if let Ok(rows) = parse_lines(lines) {
            if let Ok(prev) = parse_lines(lines.drop_last()) {
                assert forall|k: int| 0 <= k < rows.len() implies #[trigger] rows[k].1.len() >= 2 by {
                    if k < prev.len() {
                        assert(rows[k] == prev[k]);
                    }
                }
            }
        }
    }
}

} // verus!
