//! Patent identifiers and their canonical wire rendering: a country code and
//! number, an optional kind code, and an optional date rendered as zero-padded
//! `YYYYMMDD` after a dot. Also the constituent selectors that pick which
//! sub-resources a retrieval asks for, and their comma-joined path segment.

use vstd::prelude::*;
use crate::text::{dec_digit, digit_char, push_char};

verus! {

/// A calendar date held as plain numbers, as the identifier rendering needs
/// it: a four-digit year, and one-based month and day.
#[derive(Clone, Copy, PartialEq, Eq, Structural, Debug)]
pub struct Date {
    pub year: u32,
    pub month: u32,
    pub day: u32,
}

impl Date {
    /// The date fits its zero-padded rendering: four year digits, two month
    /// digits, two day digits.
    pub open spec fn wf(self) -> bool {
        self.year <= 9999 && 1 <= self.month <= 12 && 1 <= self.day <= 31
    }
}

/// Two-digit zero-padded decimal rendering (low two decimal digits of `n`).
pub open spec fn dec2(n: int) -> Seq<char> {
    seq![dec_digit(n / 10 % 10), dec_digit(n % 10)]
}

/// Four-digit zero-padded decimal rendering (low four decimal digits of `n`).
pub open spec fn dec4(n: int) -> Seq<char> {
    seq![
        dec_digit(n / 1000 % 10),
        dec_digit(n / 100 % 10),
        dec_digit(n / 10 % 10),
        dec_digit(n % 10),
    ]
}

/// `YYYYMMDD`, zero padded, no separators.
pub open spec fn yyyymmdd(d: Date) -> Seq<char> {
    dec4(d.year as int) + dec2(d.month as int) + dec2(d.day as int)
}

/// `DD/MM/YYYY`, zero padded.
pub open spec fn ddmmyyyy(d: Date) -> Seq<char> {
    dec2(d.day as int) + seq!['/'] + dec2(d.month as int) + seq!['/'] + dec4(d.year as int)
}

/// Appends the two-digit rendering of `n`.
pub(crate) fn push_dec2(s: &mut String, n: u32)
    ensures
        final(s)@ == old(s)@ + dec2(n as int),
{
    push_char(s, digit_char(((n / 10) % 10) as u8));
    push_char(s, digit_char((n % 10) as u8));
    assert(final(s)@ =~= old(s)@ + dec2(n as int));
}

/// Appends the four-digit rendering of `n`.
pub(crate) fn push_dec4(s: &mut String, n: u32)
    ensures
        final(s)@ == old(s)@ + dec4(n as int),
{
    push_char(s, digit_char(((n / 1000) % 10) as u8));
    push_char(s, digit_char(((n / 100) % 10) as u8));
    push_char(s, digit_char(((n / 10) % 10) as u8));
    push_char(s, digit_char((n % 10) as u8));
    assert(final(s)@ =~= old(s)@ + dec4(n as int));
}

/// How a patent identifier refers to its subject. Retrieval endpoints accept
/// only publication and application references; the other two are modelled so
/// a caller gets a validation error instead of an unreachable branch.
#[derive(Clone, Copy, PartialEq, Eq, Structural, Debug)]
pub enum PatentReferenceType {
    Publication,
    Application,
    Priority,
    Unknown,
}

/// A patent identifier in the epodoc scheme.
#[derive(Clone, Debug)]
pub struct PatentDetails {
    pub country_code: String,
    pub number: String,
    pub kind_code: Option<String>,
    pub date: Option<Date>,
    pub reference_type: PatentReferenceType,
}

/// The canonical wire rendering of an identifier: country code, number, the
/// kind code if any, then `.` and the date as `YYYYMMDD` if any.
pub open spec fn epodoc_of(d: PatentDetails) -> Seq<char> {
    d.country_code@ + d.number@ + (match d.kind_code {
        Some(k) => k@,
        None => Seq::<char>::empty(),
    }) + (match d.date {
        Some(dt) => seq!['.'] + yyyymmdd(dt),
        None => Seq::<char>::empty(),
    })
}

impl PatentDetails {
    /// Renders the identifier to its canonical wire form. Total: every
    /// identifier has exactly the rendering [`epodoc_of`] gives it.
    pub fn to_epodoc(&self) -> (r: String)
        ensures
            r@ == epodoc_of(*self),
    {
        let mut s = String::new();
        s.append(self.country_code.as_str());
        s.append(self.number.as_str());
        match &self.kind_code {
            Some(k) => s.append(k.as_str()),
            None => (),
        }
        match self.date {
            Some(d) => {
                push_char(&mut s, '.');
                push_dec4(&mut s, d.year);
                push_dec2(&mut s, d.month);
                push_dec2(&mut s, d.day);
            },
            None => (),
        }
        assert(s@ =~= epodoc_of(*self));
        s
    }
}

/// Sub-resources of a register record.
#[derive(Clone, Copy, PartialEq, Eq, Structural, Debug)]
pub enum RegisterConstituents {
    Biblio,
    ProceduralSteps,
    Events,
    Upp,
}

/// The path-segment name of one register constituent.
pub open spec fn register_constituent_name(c: RegisterConstituents) -> Seq<char> {
    match c {
        RegisterConstituents::Biblio => "biblio"@,
        RegisterConstituents::ProceduralSteps => "procedural-steps"@,
        RegisterConstituents::Events => "events"@,
        RegisterConstituents::Upp => "upp"@,
    }
}

impl RegisterConstituents {
    /// The constituent's name as it appears in a request path.
    pub fn name(&self) -> (r: String)
        ensures
            r@ == register_constituent_name(*self),
    {
        match self {
            RegisterConstituents::Biblio => String::from_str("biblio"),
            RegisterConstituents::ProceduralSteps => String::from_str("procedural-steps"),
            RegisterConstituents::Events => String::from_str("events"),
            RegisterConstituents::Upp => String::from_str("upp"),
        }
    }
}

/// Sub-resources of a published-data record.
#[derive(Clone, Copy, PartialEq, Eq, Structural, Debug)]
pub enum PublicationConstituents {
    Biblio,
    Abstract,
    FullCycle,
}

/// The path-segment name of one publication constituent.
pub open spec fn publication_constituent_name(c: PublicationConstituents) -> Seq<char> {
    match c {
        PublicationConstituents::Biblio => "biblio"@,
        PublicationConstituents::Abstract => "abstract"@,
        PublicationConstituents::FullCycle => "full-cycle"@,
    }
}

impl PublicationConstituents {
    /// The constituent's name as it appears in a request path.
    pub fn name(&self) -> (r: String)
        ensures
            r@ == publication_constituent_name(*self),
    {
        match self {
            PublicationConstituents::Biblio => String::from_str("biblio"),
            PublicationConstituents::Abstract => String::from_str("abstract"),
            PublicationConstituents::FullCycle => String::from_str("full-cycle"),
        }
    }
}

/// The comma-joined names of a non-empty constituent list, in order.
pub open spec fn register_join(cs: Seq<RegisterConstituents>) -> Seq<char>
    decreases cs.len(),
{
    if cs.len() == 0 {
        Seq::empty()
    } else if cs.len() == 1 {
        register_constituent_name(cs[0])
    } else {
        register_join(cs.drop_last()) + seq![','] + register_constituent_name(cs.last())
    }
}

/// The constituent path segment: the comma-joined names, or `biblio` alone
/// when the list is empty.
pub open spec fn register_segment(cs: Seq<RegisterConstituents>) -> Seq<char> {
    if cs.len() == 0 {
        "biblio"@
    } else {
        register_join(cs)
    }
}

/// Builds the register constituent path segment.
pub fn register_segment_string(cs: &Vec<RegisterConstituents>) -> (r: String)
    ensures
        r@ == register_segment(cs@),
{
    if cs.len() == 0 {
        return String::from_str("biblio");
    }
    let mut out = String::new();
    let mut i: usize = 0;
    while i < cs.len()
        invariant
            0 < cs@.len(),
            0 <= i <= cs@.len(),
            out@ == register_join(cs@.subrange(0, i as int)),
        decreases cs@.len() - i,
    {
        if i > 0 {
            push_char(&mut out, ',');
        }
        let name = cs[i].name();
        out.append(name.as_str());
        proof {
            let p = cs@.subrange(0, i as int);
            let q = cs@.subrange(0, i as int + 1);
            assert(q.drop_last() =~= p);
            assert(q.last() == cs@[i as int]);
            if i == 0 {
                assert(out@ =~= register_join(q));
            } else {
                assert(out@ =~= register_join(p) + seq![','] + register_constituent_name(
                    cs@[i as int],
                ));
            }
        }
        i += 1;
    }
    assert(cs@.subrange(0, i as int) =~= cs@);
    out
}

/// The comma-joined names of a non-empty publication constituent list.
pub open spec fn publication_join(cs: Seq<PublicationConstituents>) -> Seq<char>
    decreases cs.len(),
{
    if cs.len() == 0 {
        Seq::empty()
    } else if cs.len() == 1 {
        publication_constituent_name(cs[0])
    } else {
        publication_join(cs.drop_last()) + seq![','] + publication_constituent_name(cs.last())
    }
}

/// The publication constituent path segment, defaulting to `biblio`.
pub open spec fn publication_segment(cs: Seq<PublicationConstituents>) -> Seq<char> {
    if cs.len() == 0 {
        "biblio"@
    } else {
        publication_join(cs)
    }
}

/// Builds the publication constituent path segment.
pub fn publication_segment_string(cs: &Vec<PublicationConstituents>) -> (r: String)
    ensures
        r@ == publication_segment(cs@),
{
    if cs.len() == 0 {
        return String::from_str("biblio");
    }
    let mut out = String::new();
    let mut i: usize = 0;
    while i < cs.len()
        invariant
            0 < cs@.len(),
            0 <= i <= cs@.len(),
            out@ == publication_join(cs@.subrange(0, i as int)),
        decreases cs@.len() - i,
    {
        if i > 0 {
            push_char(&mut out, ',');
        }
        let name = cs[i].name();
        out.append(name.as_str());
        proof {
            let p = cs@.subrange(0, i as int);
            let q = cs@.subrange(0, i as int + 1);
            assert(q.drop_last() =~= p);
            assert(q.last() == cs@[i as int]);
            if i == 0 {
                assert(out@ =~= publication_join(q));
            } else {
                assert(out@ =~= publication_join(p) + seq![','] + publication_constituent_name(
                    cs@[i as int],
                ));
            }
        }
        i += 1;
    }
    assert(cs@.subrange(0, i as int) =~= cs@);
    out
}

} // verus!
