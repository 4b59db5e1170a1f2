use vstd::prelude::*;

use crate::lexer::{
    expect_char, float_scan, is_number_literal, lemma_scan_before_comma, scan_number, NumberScan,
    Scan,
};
use crate::sentence::{Error, ErrorView, NmeaSentence, SentenceType};

verus! {

/// DBS - Depth Below Surface.
///
/// ```text
///         1   2 3   4 5   6 7
///         |   | |   | |   | |
///  $--DBS,x.x,f,x.x,M,x.x,F*hh<CR><LF>
/// ```
/// Fields 1, 3 and 5 hold the depth in feet, meters and fathoms; 2, 4 and 6
/// the unit letters `f`, `M` and `F`. Sensors often leave some of the depths
/// empty, as in `$SDDBS,,f,22.5,M,,F*cs`.
///
/// Each depth is kept as the number literal that the sentence carried, so no
/// precision is lost to a conversion.
#[derive(Clone, Debug, PartialEq)]
pub struct DbsData {
    pub water_depth_feet: Option<String>,
    pub water_depth_meters: Option<String>,
    pub water_depth_fathoms: Option<String>,
}

/// The mathematical value of a [`DbsData`].
pub struct DbsView {
    pub feet: Option<Seq<char>>,
    pub meters: Option<Seq<char>>,
    pub fathoms: Option<Seq<char>>,
}

pub open spec fn opt_text(v: Option<String>) -> Option<Seq<char>> {
    match v {
        Some(t) => Some(t@),
        None => None,
    }
}

impl View for DbsData {
    type V = DbsView;

    open spec fn view(&self) -> DbsView {
        DbsView {
            feet: opt_text(self.water_depth_feet),
            meters: opt_text(self.water_depth_meters),
            fathoms: opt_text(self.water_depth_fathoms),
        }
    }
}

/// One field with its unit at the front of `s`: an optional number literal,
/// a comma, and the letter `unit`. On success, the literal (if any) and the
/// text after the unit; on failure, the text left where the failing step
/// began.
pub open spec fn field_spec(s: Seq<char>, unit: char) -> Result<
    (Option<Seq<char>>, Seq<char>),
    Seq<char>,
> {
    match float_scan(s) {
        Scan::Malformed => Err(s),
        Scan::Absent => separator_and_unit(None, s, unit),
        Scan::Literal(n) => separator_and_unit(Some(s.take(n as int)), s.skip(n as int), unit),
    }
}

pub open spec fn separator_and_unit(value: Option<Seq<char>>, s: Seq<char>, unit: char) -> Result<
    (Option<Seq<char>>, Seq<char>),
    Seq<char>,
> {
    if s.len() > 0 && s[0] == ',' {
        let t = s.skip(1);
        if t.len() > 0 && t[0] == unit {
            Ok((value, t.skip(1)))
        } else {
            Err(t)
        }
    } else {
        Err(s)
    }
}

/// A comma, then a field with its unit: how the second and third fields
/// follow the unit letter before them.
pub open spec fn separated_field_spec(s: Seq<char>, unit: char) -> Result<
    (Option<Seq<char>>, Seq<char>),
    Seq<char>,
> {
    if s.len() > 0 && s[0] == ',' {
        field_spec(s.skip(1), unit)
    } else {
        Err(s)
    }
}

/// The DBS payload grammar: feet with `f`, meters with `M`, fathoms with
/// `F`, all separated by commas. Whatever follows the third unit is not read.
pub open spec fn dbs_payload(s: Seq<char>) -> Result<DbsView, Seq<char>> {
    match field_spec(s, 'f') {
        Err(e) => Err(e),
        Ok((feet, s1)) => match separated_field_spec(s1, 'M') {
            Err(e) => Err(e),
            Ok((meters, s2)) => match separated_field_spec(s2, 'F') {
                Err(e) => Err(e),
                Ok((fathoms, _)) => Ok(DbsView { feet, meters, fathoms }),
            },
        },
    }
}

/// What decoding a payload yields, errors included.
pub open spec fn decode_payload(s: Seq<char>) -> Result<DbsView, ErrorView> {
    match dbs_payload(s) {
        Ok(v) => Ok(v),
        Err(rest) => Err(ErrorView::ParsingError { remaining: rest }),
    }
}

/// What decoding a sentence of type `id` with payload `s` yields.
pub open spec fn decode_sentence(id: SentenceType, s: Seq<char>) -> Result<DbsView, ErrorView> {
    if id != SentenceType::DBS {
        Err(ErrorView::WrongSentenceHeader { expected: SentenceType::DBS, found: id })
    } else {
        decode_payload(s)
    }
}

pub open spec fn result_view(r: Result<DbsData, Error>) -> Result<DbsView, ErrorView> {
    match r {
        Ok(d) => Ok(d@),
        Err(e) => Err(e@),
    }
}

/// A value token as a well-formed payload holds it: empty, or one number
/// literal.
pub open spec fn is_value_token(t: Seq<char>) -> bool {
    t.len() == 0 || is_number_literal(t)
}

/// The value that a well-formed token stands for.
pub open spec fn token_value(t: Seq<char>) -> Option<Seq<char>> {
    if t.len() == 0 {
        None
    } else {
        Some(t)
    }
}

/// A payload laid out as value token, comma, unit letter, three times over
/// with a comma between, followed by `tail`.
pub open spec fn payload_text(
    t1: Seq<char>,
    u1: char,
    t2: Seq<char>,
    u2: char,
    t3: Seq<char>,
    u3: char,
    tail: Seq<char>,
) -> Seq<char> {
    t1 + (seq![',', u1] + (seq![','] + (t2 + (seq![',', u2] + (seq![','] + (t3 + (seq![
        ',',
        u3,
    ] + tail)))))))
}

/// A payload with the unit letters in their places.
pub open spec fn dbs_text(t1: Seq<char>, t2: Seq<char>, t3: Seq<char>, tail: Seq<char>) -> Seq<
    char,
> {
    payload_text(t1, 'f', t2, 'M', t3, 'F', tail)
}

proof fn lemma_field(t: Seq<char>, u: char, rest: Seq<char>, unit: char)
    requires
        is_value_token(t),
    ensures
        field_spec(t + (seq![',', u] + rest), unit) == if u == unit {
            Ok::<(Option<Seq<char>>, Seq<char>), Seq<char>>((token_value(t), rest))
        } else {
            Err::<(Option<Seq<char>>, Seq<char>), Seq<char>>(seq![u] + rest)
        },
{
    let b = seq![',', u] + rest;
    let s = t + b;
    lemma_scan_before_comma(t, b);
    if t.len() == 0 {
        assert(s =~= b);
        reveal_with_fuel(crate::lexer::digit_run, 2);
        assert(float_scan(t) == Scan::Absent);
    } else {
        assert(s.take(t.len() as int) =~= t);
        assert(s.skip(t.len() as int) =~= b);
    }
    assert(b.skip(1) =~= seq![u] + rest);
    assert(b.skip(1).skip(1) =~= rest);
}

/// Decoding reads the three fields one after another: it succeeds exactly
/// when the unit letters are `f`, `M` and `F` in that order, and then each
/// depth is the literal that stood in its place, `None` where the token was
/// empty, whatever follows the third unit.
pub proof fn lemma_decode_well_formed_tokens(
    t1: Seq<char>,
    u1: char,
    t2: Seq<char>,
    u2: char,
    t3: Seq<char>,
    u3: char,
    tail: Seq<char>,
)
    requires
        is_value_token(t1),
        is_value_token(t2),
        is_value_token(t3),
    ensures
        dbs_payload(payload_text(t1, u1, t2, u2, t3, u3, tail)) is Ok <==> (u1 == 'f' && u2 == 'M'
            && u3 == 'F'),
        u1 == 'f' && u2 == 'M' && u3 == 'F' ==> dbs_payload(
            payload_text(t1, u1, t2, u2, t3, u3, tail),
        ) == Ok::<DbsView, Seq<char>>(
            DbsView { feet: token_value(t1), meters: token_value(t2), fathoms: token_value(t3) },
        ),
{
    let r3 = t3 + (seq![',', u3] + tail);
    let r2 = t2 + (seq![',', u2] + (seq![','] + r3));
    let r1 = seq![','] + r2;
    let s = payload_text(t1, u1, t2, u2, t3, u3, tail);
    assert(s == t1 + (seq![',', u1] + r1));
    lemma_field(t1, u1, r1, 'f');
    if u1 == 'f' {
        assert(r1.skip(1) =~= r2);
        assert(separated_field_spec(r1, 'M') == field_spec(r2, 'M'));
        lemma_field(t2, u2, seq![','] + r3, 'M');
        if u2 == 'M' {
            assert((seq![','] + r3).skip(1) =~= r3);
            assert(separated_field_spec(seq![','] + r3, 'F') == field_spec(r3, 'F'));
            lemma_field(t3, u3, tail, 'F');
        }
    }
}

/// A wrong or missing unit letter in any of the three places makes the
/// payload fail as a whole: no partly filled record comes back.
pub proof fn lemma_wrong_unit_rejected(
    t1: Seq<char>,
    u1: char,
    t2: Seq<char>,
    u2: char,
    t3: Seq<char>,
    u3: char,
    tail: Seq<char>,
)
    requires
        is_value_token(t1),
        is_value_token(t2),
        is_value_token(t3),
        !(u1 == 'f' && u2 == 'M' && u3 == 'F'),
    ensures
        decode_payload(payload_text(t1, u1, t2, u2, t3, u3, tail)) is Err,
{
    lemma_decode_well_formed_tokens(t1, u1, t2, u2, t3, u3, tail);
}

/// Emptying the value token of one field gives `None` for that field and
/// leaves the other two as they were.
pub proof fn lemma_empty_value_is_none(
    t1: Seq<char>,
    t2: Seq<char>,
    t3: Seq<char>,
    tail: Seq<char>,
)
    requires
        is_value_token(t1),
        is_value_token(t2),
        is_value_token(t3),
    ensures
        dbs_payload(dbs_text(t1, t2, t3, tail)) is Ok,
        ({
            let v = dbs_payload(dbs_text(t1, t2, t3, tail))->Ok_0;
            &&& dbs_payload(dbs_text(seq![], t2, t3, tail)) == Ok::<DbsView, Seq<char>>(
                DbsView { feet: None, meters: v.meters, fathoms: v.fathoms },
            )
            &&& dbs_payload(dbs_text(t1, seq![], t3, tail)) == Ok::<DbsView, Seq<char>>(
                DbsView { feet: v.feet, meters: None, fathoms: v.fathoms },
            )
            &&& dbs_payload(dbs_text(t1, t2, seq![], tail)) == Ok::<DbsView, Seq<char>>(
                DbsView { feet: v.feet, meters: v.meters, fathoms: None },
            )
        }),
{
    let e = Seq::<char>::empty();
    lemma_decode_well_formed_tokens(t1, 'f', t2, 'M', t3, 'F', tail);
    lemma_decode_well_formed_tokens(e, 'f', t2, 'M', t3, 'F', tail);
    lemma_decode_well_formed_tokens(t1, 'f', e, 'M', t3, 'F', tail);
    lemma_decode_well_formed_tokens(t1, 'f', t2, 'M', e, 'F', tail);
}

/// Content after the third unit letter, such as a status field, does not
/// change what a payload decodes to.
pub proof fn lemma_trailing_content_ignored(
    t1: Seq<char>,
    t2: Seq<char>,
    t3: Seq<char>,
    tail: Seq<char>,
)
    requires
        is_value_token(t1),
        is_value_token(t2),
        is_value_token(t3),
    ensures
        decode_payload(dbs_text(t1, t2, t3, tail)) == decode_payload(dbs_text(t1, t2, t3, seq![])),
{
    lemma_decode_well_formed_tokens(t1, 'f', t2, 'M', t3, 'F', tail);
    lemma_decode_well_formed_tokens(t1, 'f', t2, 'M', t3, 'F', seq![]);
}

/// Decoding is a function of the sentence type and the payload: two results
/// that meet the contract of [`parse_dbs`] on the same input are the same,
/// record or error.
pub proof fn lemma_decode_deterministic(
    a: NmeaSentence,
    b: NmeaSentence,
    ra: Result<DbsData, Error>,
    rb: Result<DbsData, Error>,
)
    requires
        result_view(ra) == decode_sentence(a.message_id, a.data@),
        result_view(rb) == decode_sentence(b.message_id, b.data@),
        a.message_id == b.message_id,
        a.data@ == b.data@,
    ensures
        result_view(ra) == result_view(rb),
{
}

/// Decodes a DBS sentence, refusing a sentence of any other type.
pub fn parse_dbs(sentence: NmeaSentence) -> (r: Result<DbsData, Error>)
    ensures
        result_view(r) == decode_sentence(sentence.message_id, sentence.data@),
        sentence.message_id != SentenceType::DBS ==> r == Err::<DbsData, Error>(
            Error::WrongSentenceHeader { expected: SentenceType::DBS, found: sentence.message_id },
        ),
{
    if sentence.message_id != SentenceType::DBS {
        Err(Error::WrongSentenceHeader { expected: SentenceType::DBS, found: sentence.message_id })
    } else {
        do_parse_dbs(sentence.data)
    }
}

fn syntax_error(remaining: &str) -> (e: Error)
    ensures
        e@ == (ErrorView::ParsingError { remaining: remaining@ }),
{
    Error::ParsingError { remaining: remaining.to_owned() }
}

/// Reads one field and its unit letter from the front of `i`.
fn parse_field(i: &str, unit: char) -> (r: Result<(Option<String>, &str), Error>)
    ensures
        match field_spec(i@, unit) {
            Ok((value, rest)) => r matches Ok((v, i2)) && opt_text(v) == value && i2@ == rest,
            Err(rest) => r matches Err(e) && e@ == (ErrorView::ParsingError { remaining: rest }),
        },
{
    let (value, i) = match scan_number(i) {
        NumberScan::Absent => (None, i),
        NumberScan::Found { literal, rest } => (Some(literal.to_owned()), rest),
        NumberScan::Malformed => {
            return Err(syntax_error(i));
        },
    };
    let i = match expect_char(i, ',') {
        Some(rest) => rest,
        None => {
            return Err(syntax_error(i));
        },
    };
    let i = match expect_char(i, unit) {
        Some(rest) => rest,
        None => {
            return Err(syntax_error(i));
        },
    };
    Ok((value, i))
}

/// Reads the comma that separates two fields, then a field and its unit.
fn parse_separated_field(i: &str, unit: char) -> (r: Result<(Option<String>, &str), Error>)
    ensures
        match separated_field_spec(i@, unit) {
            Ok((value, rest)) => r matches Ok((v, i2)) && opt_text(v) == value && i2@ == rest,
            Err(rest) => r matches Err(e) && e@ == (ErrorView::ParsingError { remaining: rest }),
        },
{
    let i = match expect_char(i, ',') {
        Some(rest) => rest,
        None => {
            return Err(syntax_error(i));
        },
    };
    parse_field(i, unit)
}

/// Decodes a DBS payload: three fields separated by commas, each an optional
/// number literal followed by a comma and its unit letter.
fn do_parse_dbs(i: &str) -> (r: Result<DbsData, Error>)
    ensures
        result_view(r) == decode_payload(i@),
{
    let (water_depth_feet, i) = match parse_field(i, 'f') {
        Ok(x) => x,
        Err(e) => {
            return Err(e);
        },
    };
    let (water_depth_meters, i) = match parse_separated_field(i, 'M') {
        Ok(x) => x,
        Err(e) => {
            return Err(e);
        },
    };
    let (water_depth_fathoms, _) = match parse_separated_field(i, 'F') {
        Ok(x) => x,
        Err(e) => {
            return Err(e);
        },
    };
    Ok(DbsData { water_depth_feet, water_depth_meters, water_depth_fathoms })
}

} // verus!
