//! The provider-agnostic report: a title and titled sections of label/value fields, and the
//! text in which it is shown.

use crate::text::{pad_right, padded, pairs_view};
use vstd::prelude::*;

verus! {

/// The fields of a section, in the order in which they are shown: (label, value).
pub type SectionRepr = Vec<(String, String)>;

/// A section as its title and its fields.
pub type SectionView = (Seq<char>, Seq<(Seq<char>, Seq<char>)>);

/// Part of a report, with its own title.
pub struct ReportSection {
    title: String,
    contents: SectionRepr,
}

/// A whole report: its title and its sections, in order.
pub struct Report {
    title: String,
    sections: Vec<ReportSection>,
}

impl View for ReportSection {
    type V = SectionView;

    closed spec fn view(&self) -> SectionView {
        (self.title@, pairs_view(self.contents@))
    }
}

impl View for Report {
    type V = (Seq<char>, Seq<SectionView>);

    closed spec fn view(&self) -> (Seq<char>, Seq<SectionView>) {
        (self.title@, self.sections@.map_values(|s: ReportSection| s@))
    }
}

pub const LABEL_WIDTH: usize = 35;

pub const VALUE_WIDTH: usize = 20;

/// One field as a line: the label padded to 35 characters, ` | `, the value padded to 20.
pub open spec fn field_line(field: (Seq<char>, Seq<char>)) -> Seq<char> {
    padded(field.0, LABEL_WIDTH as nat) + seq![' ', '|', ' '] + padded(field.1, VALUE_WIDTH as nat)
        + seq!['\n']
}

/// The lines of the fields, one after another in their order.
pub open spec fn field_lines(fields: Seq<(Seq<char>, Seq<char>)>) -> Seq<char>
    decreases fields.len(),
{
    if fields.len() == 0 {
        Seq::empty()
    } else {
        field_lines(fields.drop_last()) + field_line(fields.last())
    }
}

/// A section as text: its title line, then its field lines.
pub open spec fn section_text(section: SectionView) -> Seq<char> {
    section.0 + seq!['\n'] + field_lines(section.1)
}

/// The sections as text, each followed by an empty line.
pub open spec fn sections_text(sections: Seq<SectionView>) -> Seq<char>
    decreases sections.len(),
{
    if sections.len() == 0 {
        Seq::empty()
    } else {
        sections_text(sections.drop_last()) + section_text(sections.last()) + seq!['\n']
    }
}

/// A report as text: its title line, then its sections.
pub open spec fn report_text(report: (Seq<char>, Seq<SectionView>)) -> Seq<char> {
    report.0 + seq!['\n'] + sections_text(report.1)
}

proof fn lemma_field_lines_concat(a: Seq<(Seq<char>, Seq<char>)>, b: Seq<(Seq<char>, Seq<char>)>)
    ensures
        field_lines(a + b) == field_lines(a) + field_lines(b),
    decreases b.len(),
{
    if b.len() == 0 {
        assert(a + b =~= a);
        assert(field_lines(a) + field_lines(b) =~= field_lines(a));
    } else {
        lemma_field_lines_concat(a, b.drop_last());
        assert((a + b).drop_last() =~= a + b.drop_last());
        assert((a + b).last() == b.last());
        assert(field_lines(a + b) =~= field_lines(a) + field_lines(b));
    }
}

/// The text of fields keeps their order: the line of field `i` stands between the lines of
/// the fields before it and those of the fields after it.
pub proof fn lemma_field_lines_in_order(fields: Seq<(Seq<char>, Seq<char>)>, i: int)
    requires
        0 <= i < fields.len(),
    ensures
        field_lines(fields) == field_lines(fields.subrange(0, i)) + field_line(fields[i])
            + field_lines(fields.subrange(i + 1, fields.len() as int)),
{
    let before = fields.subrange(0, i);
    let at = fields.subrange(i, i + 1);
    let after = fields.subrange(i + 1, fields.len() as int);
    assert(fields =~= before + at + after);
    lemma_field_lines_concat(before + at, after);
    lemma_field_lines_concat(before, at);
    assert(at.drop_last() =~= Seq::<(Seq<char>, Seq<char>)>::empty());
    assert(field_lines(at.drop_last()) == Seq::<char>::empty());
    assert(at.last() == fields[i]);
    assert(field_lines(at) =~= field_line(fields[i]));
}

/// The text of a report keeps the order of its sections: the text of section `i` stands
/// between the text of the sections before it and that of the sections after it.
pub proof fn lemma_sections_text_in_order(sections: Seq<SectionView>, i: int)
    requires
        0 <= i < sections.len(),
    ensures
        sections_text(sections) == sections_text(sections.subrange(0, i)) + section_text(
            sections[i],
        ) + seq!['\n'] + sections_text(sections.subrange(i + 1, sections.len() as int)),
{
    let before = sections.subrange(0, i);
    let at = sections.subrange(i, i + 1);
    let after = sections.subrange(i + 1, sections.len() as int);
    assert(sections =~= before + at + after);
    lemma_sections_text_concat(before + at, after);
    lemma_sections_text_concat(before, at);
    assert(at.drop_last() =~= Seq::<SectionView>::empty());
    assert(sections_text(at.drop_last()) == Seq::<char>::empty());
    assert(at.last() == sections[i]);
    assert(sections_text(at) =~= section_text(sections[i]) + seq!['\n']);
}

proof fn lemma_sections_text_concat(a: Seq<SectionView>, b: Seq<SectionView>)
    ensures
        sections_text(a + b) == sections_text(a) + sections_text(b),
    decreases b.len(),
{
    if b.len() == 0 {
        assert(a + b =~= a);
        assert(sections_text(a) + sections_text(b) =~= sections_text(a));
    } else {
        lemma_sections_text_concat(a, b.drop_last());
        assert((a + b).drop_last() =~= a + b.drop_last());
        assert((a + b).last() == b.last());
        assert(sections_text(a + b) =~= sections_text(a) + sections_text(b));
    }
}

fn newline() -> (r: &'static str)
    ensures
        r@ == seq!['\n'],
{
    proof {
        reveal_strlit("\n");
    }
    "\n"
}

impl ReportSection {
    pub fn new(title: String, contents: SectionRepr) -> (r: Self)
        ensures
            r.title() == title@,
            r.fields() == pairs_view(contents@),
    {
        ReportSection { title, contents }
    }

    pub open spec fn title(&self) -> Seq<char> {
        self@.0
    }

    pub open spec fn fields(&self) -> Seq<(Seq<char>, Seq<char>)> {
        self@.1
    }

    /// The section as text: its title line, then one line per field.
    pub fn render(&self) -> (r: String)
        ensures
            r@ == section_text(self@),
    {
        let mut out = self.title.clone();
        out.append(newline());
        let n = self.contents.len();
        let mut i: usize = 0;
        while i < n
            invariant
                n == self.contents@.len(),
                i <= n,
                out@ == self.title@ + seq!['\n'] + field_lines(
                    pairs_view(self.contents@).subrange(0, i as int),
                ),
            decreases n - i,
        {
            let label = pad_right(self.contents[i].0.as_str(), LABEL_WIDTH);
            let value = pad_right(self.contents[i].1.as_str(), VALUE_WIDTH);
            proof {
                reveal_strlit(" | ");
            }
            out.append(label.as_str());
            out.append(" | ");
            out.append(value.as_str());
            out.append(newline());
            proof {
                let fs = pairs_view(self.contents@);
                assert(fs.subrange(0, i + 1).drop_last() =~= fs.subrange(0, i as int));
                assert(fs.subrange(0, i + 1).last() == fs[i as int]);
            }
            i = i + 1;
        }
        assert(pairs_view(self.contents@).subrange(0, n as int) =~= pairs_view(self.contents@));
        out
    }

    pub fn get_title(&self) -> (r: &String)
        ensures
            r@ == self.title(),
    {
        &self.title
    }

    pub fn contents(&self) -> (r: &SectionRepr)
        ensures
            pairs_view(r@) == self.fields(),
    {
        &self.contents
    }
}

impl Report {
    /// An empty report with the given title; sections are added with `add_section`.
    pub fn new(title: String) -> (r: Self)
        ensures
            r@ == (title@, Seq::<SectionView>::empty()),
    {
        Report { title, sections: Vec::new() }
    }

    /// Adds a section after the ones already there.
    pub fn add_section(&mut self, section: ReportSection)
        ensures
            final(self)@ == (old(self)@.0, old(self)@.1.push(section@)),
    {
        self.sections.push(section);
        assert(self@.1 =~= old(self)@.1.push(section@));
    }

    /// The report as it is shown to a user: its title line, then each section's text
    /// followed by an empty line.
    pub fn render(&self) -> (r: String)
        ensures
            r@ == report_text(self@),
    {
        let mut out = self.title.clone();
        out.append(newline());
        let n = self.sections.len();
        let mut i: usize = 0;
        while i < n
            invariant
                n == self.sections@.len(),
                i <= n,
                out@ == self.title@ + seq!['\n'] + sections_text(self@.1.subrange(0, i as int)),
            decreases n - i,
        {
            let text = self.sections[i].render();
            out.append(text.as_str());
            out.append(newline());
            proof {
                let ss = self@.1;
                assert(ss.subrange(0, i + 1).drop_last() =~= ss.subrange(0, i as int));
                assert(ss.subrange(0, i + 1).last() == ss[i as int]);
            }
            i = i + 1;
        }
        assert(self@.1.subrange(0, n as int) =~= self@.1);
        out
    }

    pub fn title(&self) -> (r: &String)
        ensures
            r@ == self@.0,
    {
        &self.title
    }

    pub fn sections(&self) -> (r: &Vec<ReportSection>)
        ensures
            r@.map_values(|s: ReportSection| s@) == self@.1,
    {
        &self.sections
    }
}

} // verus!
