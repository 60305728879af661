//! Render composition: turns the content tables into lines of styled
//! spans, one list of lines per panel — a bold leading field, then the
//! remaining fields joined with plain separators.  The host program
//! only maps each span to its styled text; which text appears where is
//! pinned here.

use vstd::prelude::*;

use crate::content::ContributionEntry;
use crate::content::EducationEntry;
use crate::content::ExperienceEntry;
use crate::content::ProjectEntry;
use crate::content::PublicationEntry;
use crate::layout::Rect;

verus! {

/// One run of text in a line, either plain or bold.
pub struct Span {
    pub text: String,
    pub bold: bool,
}

/// A plain span holding `text`.
pub fn raw_span(text: &str) -> (s: Span)
    ensures
        s.text@ == text@,
        !s.bold,
{
    Span { text: text.to_owned(), bold: false }
}

/// A bold span holding `text`.
pub fn bold_span(text: &str) -> (s: Span)
    ensures
        s.text@ == text@,
        s.bold,
{
    Span { text: text.to_owned(), bold: true }
}

/// The line shows `e` as: bold institution, then program and score,
/// comma-joined.
pub open spec fn is_education_line(line: Seq<Span>, e: EducationEntry) -> bool {
    &&& line.len() == 5
    &&& line[0].bold && line[0].text@ == e.institution@
    &&& !line[1].bold && line[1].text@ == ", "@
    &&& !line[2].bold && line[2].text@ == e.program@
    &&& !line[3].bold && line[3].text@ == ", "@
    &&& !line[4].bold && line[4].text@ == e.score@
}

/// Composes the education panel: one line per record.
pub fn education_lines(entries: &Vec<EducationEntry>) -> (lines: Vec<Vec<Span>>)
    ensures
        lines@.len() == entries@.len(),
        forall|i: int|
            0 <= i < lines@.len() ==> is_education_line((#[trigger] lines@[i])@, entries@[i]),
{
    let mut lines: Vec<Vec<Span>> = Vec::new();
    let mut i: usize = 0;
    while i < entries.len()
        invariant
            i <= entries@.len(),
            lines@.len() == i,
            forall|k: int|
                0 <= k < i ==> is_education_line((#[trigger] lines@[k])@, entries@[k]),
        decreases entries@.len() - i,
    {
        let e = &entries[i];
        let mut line: Vec<Span> = Vec::new();
        line.push(bold_span(e.institution.as_str()));
        line.push(raw_span(", "));
        line.push(raw_span(e.program.as_str()));
        line.push(raw_span(", "));
        line.push(raw_span(e.score.as_str()));
        lines.push(line);
        i = i + 1;
    }
    lines
}

/// The line shows `e` as: bold project name, a colon, its summary.
pub open spec fn is_project_line(line: Seq<Span>, e: ProjectEntry) -> bool {
    &&& line.len() == 3
    &&& line[0].bold && line[0].text@ == e.name@
    &&& !line[1].bold && line[1].text@ == ": "@
    &&& !line[2].bold && line[2].text@ == e.summary@
}

/// Composes the projects panel: one line per record.
pub fn project_lines(entries: &Vec<ProjectEntry>) -> (lines: Vec<Vec<Span>>)
    ensures
        lines@.len() == entries@.len(),
        forall|i: int|
            0 <= i < lines@.len() ==> is_project_line((#[trigger] lines@[i])@, entries@[i]),
{
    let mut lines: Vec<Vec<Span>> = Vec::new();
    let mut i: usize = 0;
    while i < entries.len()
        invariant
            i <= entries@.len(),
            lines@.len() == i,
            forall|k: int| 0 <= k < i ==> is_project_line((#[trigger] lines@[k])@, entries@[k]),
        decreases entries@.len() - i,
    {
        let e = &entries[i];
        let mut line: Vec<Span> = Vec::new();
        line.push(bold_span(e.name.as_str()));
        line.push(raw_span(": "));
        line.push(raw_span(e.summary.as_str()));
        lines.push(line);
        i = i + 1;
    }
    lines
}

/// The line shows `e` as: bold project name, then summary and commit
/// count, comma-joined.
pub open spec fn is_contribution_line(line: Seq<Span>, e: ContributionEntry) -> bool {
    &&& line.len() == 5
    &&& line[0].bold && line[0].text@ == e.project@
    &&& !line[1].bold && line[1].text@ == ", "@
    &&& !line[2].bold && line[2].text@ == e.summary@
    &&& !line[3].bold && line[3].text@ == ", "@
    &&& !line[4].bold && line[4].text@ == e.commits@
}

/// Composes the contributions panel: one line per record.
pub fn contribution_lines(entries: &Vec<ContributionEntry>) -> (lines: Vec<Vec<Span>>)
    ensures
        lines@.len() == entries@.len(),
        forall|i: int|
            0 <= i < lines@.len() ==> is_contribution_line((#[trigger] lines@[i])@, entries@[i]),
{
    let mut lines: Vec<Vec<Span>> = Vec::new();
    let mut i: usize = 0;
    while i < entries.len()
        invariant
            i <= entries@.len(),
            lines@.len() == i,
            forall|k: int|
                0 <= k < i ==> is_contribution_line((#[trigger] lines@[k])@, entries@[k]),
        decreases entries@.len() - i,
    {
        let e = &entries[i];
        let mut line: Vec<Span> = Vec::new();
        line.push(bold_span(e.project.as_str()));
        line.push(raw_span(", "));
        line.push(raw_span(e.summary.as_str()));
        line.push(raw_span(", "));
        line.push(raw_span(e.commits.as_str()));
        lines.push(line);
        i = i + 1;
    }
    lines
}

/// The header line of an experience record: bold company, then role
/// and period, comma-joined.
pub open spec fn is_experience_header(line: Seq<Span>, e: ExperienceEntry) -> bool {
    &&& line.len() == 5
    &&& line[0].bold && line[0].text@ == e.company@
    &&& !line[1].bold && line[1].text@ == ", "@
    &&& !line[2].bold && line[2].text@ == e.role@
    &&& !line[3].bold && line[3].text@ == ", "@
    &&& !line[4].bold && line[4].text@ == e.period@
}

/// A bulleted detail line: a bullet mark, then the plain text.
pub open spec fn is_bullet_line(line: Seq<Span>, text: Seq<char>) -> bool {
    &&& line.len() == 2
    &&& !line[0].bold && line[0].text@ == "• "@
    &&& !line[1].bold && line[1].text@ == text
}

/// Composes the experiences panel: four lines per record — a header,
/// two bulleted highlights, and a blank spacer line.
pub fn experience_lines(entries: &Vec<ExperienceEntry>) -> (lines: Vec<Vec<Span>>)
    ensures
        lines@.len() == 4 * entries@.len(),
        forall|i: int|
            0 <= i < entries@.len() ==> {
                &&& is_experience_header((#[trigger] lines@[4 * i])@, entries@[i])
                &&& is_bullet_line(lines@[4 * i + 1]@, entries@[i].first_highlight@)
                &&& is_bullet_line(lines@[4 * i + 2]@, entries@[i].second_highlight@)
                &&& lines@[4 * i + 3]@.len() == 0
            },
{
    let mut lines: Vec<Vec<Span>> = Vec::new();
    let mut i: usize = 0;
    while i < entries.len()
        invariant
            i <= entries@.len(),
            lines@.len() == 4 * i,
            forall|k: int|
                0 <= k < i ==> {
                    &&& is_experience_header((#[trigger] lines@[4 * k])@, entries@[k])
                    &&& is_bullet_line(lines@[4 * k + 1]@, entries@[k].first_highlight@)
                    &&& is_bullet_line(lines@[4 * k + 2]@, entries@[k].second_highlight@)
                    &&& lines@[4 * k + 3]@.len() == 0
                },
        decreases entries@.len() - i,
    {
        let e = &entries[i];
        let mut header: Vec<Span> = Vec::new();
        header.push(bold_span(e.company.as_str()));
        header.push(raw_span(", "));
        header.push(raw_span(e.role.as_str()));
        header.push(raw_span(", "));
        header.push(raw_span(e.period.as_str()));
        lines.push(header);
        let mut first: Vec<Span> = Vec::new();
        first.push(raw_span("• "));
        first.push(raw_span(e.first_highlight.as_str()));
        lines.push(first);
        let mut second: Vec<Span> = Vec::new();
        second.push(raw_span("• "));
        second.push(raw_span(e.second_highlight.as_str()));
        lines.push(second);
        lines.push(Vec::new());
        i = i + 1;
    }
    lines
}

/// Composes the publications panel: two lines per record — the bold
/// title, then the venue.
pub fn publication_lines(entries: &Vec<PublicationEntry>) -> (lines: Vec<Vec<Span>>)
    ensures
        lines@.len() == 2 * entries@.len(),
        forall|i: int|
            0 <= i < entries@.len() ==> {
                &&& (#[trigger] lines@[2 * i])@.len() == 1
                &&& lines@[2 * i]@[0].bold
                &&& lines@[2 * i]@[0].text@ == entries@[i].title@
                &&& lines@[2 * i + 1]@.len() == 1
                &&& !lines@[2 * i + 1]@[0].bold
                &&& lines@[2 * i + 1]@[0].text@ == entries@[i].venue@
            },
{
    let mut lines: Vec<Vec<Span>> = Vec::new();
    let mut i: usize = 0;
    while i < entries.len()
        invariant
            i <= entries@.len(),
            lines@.len() == 2 * i,
            forall|k: int|
                0 <= k < i ==> {
                    &&& (#[trigger] lines@[2 * k])@.len() == 1
                    &&& lines@[2 * k]@[0].bold
                    &&& lines@[2 * k]@[0].text@ == entries@[k].title@
                    &&& lines@[2 * k + 1]@.len() == 1
                    &&& !lines@[2 * k + 1]@[0].bold
                    &&& lines@[2 * k + 1]@[0].text@ == entries@[k].venue@
                },
        decreases entries@.len() - i,
    {
        let e = &entries[i];
        let mut title_line: Vec<Span> = Vec::new();
        title_line.push(bold_span(e.title.as_str()));
        lines.push(title_line);
        let mut venue_line: Vec<Span> = Vec::new();
        venue_line.push(raw_span(e.venue.as_str()));
        lines.push(venue_line);
        i = i + 1;
    }
    lines
}

/// Cell where the hyperlink widget of link `i` starts inside the links
/// panel: one column in from the border, one row down per earlier link.
pub fn link_origin(panel: Rect, i: usize) -> (origin: (u16, u16))
    requires
        panel.x + 1 <= u16::MAX,
        panel.y + 1 + i <= u16::MAX,
    ensures
        origin.0 == panel.x + 1,
        origin.1 == panel.y + 1 + i,
{
    (panel.x + 1, panel.y + 1 + i as u16)
}

} // verus!
