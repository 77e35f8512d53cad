//! Parsing of the sectioned output of the remote discovery probe.
//!
//! The probe script prints each section behind a marker line of the form
//! `===OMNYSSH:<NAME>===`; the lines up to the next marker are the section's
//! content. Lines before the first marker are ignored.

use vstd::prelude::*;

use crate::text::{chars_of, join, join_chars, split_chars, split_on, string_of, trim, trim_chars, seq_eq};

verus! {

/// The text that starts a marker line.
pub open spec fn marker_prefix() -> Seq<char> {
    seq!['=', '=', '=', 'O', 'M', 'N', 'Y', 'S', 'S', 'H', ':']
}

/// The name a marker line announces, if `line` is one.
pub open spec fn marker_name(line: Seq<char>) -> Option<Seq<char>> {
    if line.len() > 14 && line.take(11) == marker_prefix() && line.skip(line.len() - 3) == seq![
        '=',
        '=',
        '=',
    ] {
        Some(line.subrange(11, line.len() - 3))
    } else {
        None
    }
}

/// A line `===OMNYSSH:<NAME>===` with a non-empty name announces that
/// name; a line that does not start with `===OMNYSSH:` or does not end with
/// `===` announces nothing.
pub proof fn law_marker_lines(name: Seq<char>, line: Seq<char>)
    ensures
        name.len() > 0 ==> marker_name(seq!['=', '=', '=', 'O', 'M', 'N', 'Y', 'S', 'S', 'H', ':'] + name + seq![
            '=',
            '=',
            '=',
        ]) == Some(name),
        (line.len() < 11 || line.take(11) != seq!['=', '=', '=', 'O', 'M', 'N', 'Y', 'S', 'S', 'H', ':']) ==> marker_name(
            line,
        ) is None,
        (line.len() < 3 || line.skip(line.len() - 3) != seq!['=', '=', '=']) ==> marker_name(line) is None,
{
    let m = seq!['=', '=', '=', 'O', 'M', 'N', 'Y', 'S', 'S', 'H', ':'] + name + seq!['=', '=', '='];
    if name.len() > 0 {
        assert(m.take(11) =~= marker_prefix());
        assert(m.skip(m.len() - 3) =~= seq!['=', '=', '=']);
        assert(m.subrange(11, m.len() - 3) =~= name);
    }
}

/// The sections of a list of lines: each marker opens a section, every other
/// line is appended to the open section (or dropped before the first marker).
pub open spec fn group_sections(lines: Seq<Seq<char>>) -> Seq<(Seq<char>, Seq<Seq<char>>)>
    decreases lines.len(),
{
    if lines.len() == 0 {
        Seq::empty()
    } else {
        let prev = group_sections(lines.drop_last());
        match marker_name(lines.last()) {
            Some(n) => prev.push((n, Seq::empty())),
            None => if prev.len() == 0 {
                prev
            } else {
                prev.update(prev.len() - 1, (prev.last().0, prev.last().1.push(lines.last())))
            },
        }
    }
}

/// The (name, content) pairs of a probe output, in order; a section's content
/// is its lines joined with newlines.
pub open spec fn probe_sections(text: Seq<char>) -> Seq<(Seq<char>, Seq<char>)> {
    group_sections(split_on(text, '\n')).map_values(
        |p: (Seq<char>, Seq<Seq<char>>)| (p.0, join(p.1, seq!['\n'])),
    )
}

/// The content of the first section called `name`.
pub open spec fn section_content(secs: Seq<(Seq<char>, Seq<char>)>, name: Seq<char>) -> Option<
    Seq<char>,
>
    decreases secs.len(),
{
    if secs.len() == 0 {
        None
    } else if secs[0].0 == name {
        Some(secs[0].1)
    } else {
        section_content(secs.drop_first(), name)
    }
}

/// One section of probe output.
#[derive(Debug, Clone)]
pub struct ProbeSection {
    pub name: String,
    pub content: String,
}

/// Parsed probe output: its sections in order.
#[derive(Debug, Clone)]
pub struct ProbeOutput {
    sections: Vec<ProbeSection>,
}

/// Why a probe output could not be parsed.
#[derive(Debug, Clone, Copy, PartialEq, Eq, Structural)]
pub enum ProbeError {
    /// The text holds no section marker at all.
    NoSections,
}

impl View for ProbeOutput {
    type V = Seq<(Seq<char>, Seq<char>)>;

    closed spec fn view(&self) -> Seq<(Seq<char>, Seq<char>)> {
        self.sections@.map_values(|s: ProbeSection| (s.name@, s.content@))
    }
}

fn marker_name_of(line: &[char]) -> (res: Option<Vec<char>>)
    ensures
        match res {
            Some(n) => marker_name(line@) == Some(n@),
            None => marker_name(line@) is None,
        },
{
    if line.len() <= 14 {
        return None;
    }
    let prefix = vec!['=', '=', '=', 'O', 'M', 'N', 'Y', 'S', 'S', 'H', ':'];
    let mut head: Vec<char> = Vec::new();
    let mut i: usize = 0;
    while i < 11
        invariant
            i <= 11 < line.len(),
            head@ == line@.take(i as int),
        decreases 11 - i,
    {
        head.push(line[i]);
        assert(line@.take(i as int).push(line@[i as int]) =~= line@.take(i + 1));
        i = i + 1;
    }
    assert(prefix@ =~= marker_prefix());
    let n = line.len();
    let tail = vec![line[n - 3], line[n - 2], line[n - 1]];
    assert(tail@ =~= line@.skip(n - 3));
    let eqs = vec!['=', '=', '='];
    assert(eqs@ =~= seq!['=', '=', '=']);
    if !seq_eq(&head, &prefix) || !seq_eq(&tail, &eqs) {
        return None;
    }
    let mut name: Vec<char> = Vec::new();
    let mut j: usize = 11;
    while j < n - 3
        invariant
            n == line.len(),
            n > 14,
            11 <= j <= n - 3,
            name@ == line@.subrange(11, j as int),
        decreases n - 3 - j,
    {
        name.push(line[j]);
        assert(line@.subrange(11, j as int).push(line@[j as int]) =~= line@.subrange(11, j + 1));
        j = j + 1;
    }
    Some(name)
}

/// One step of `group_sections`, unfolded.
proof fn lemma_group_step(lines: Seq<Seq<char>>)
    requires
        lines.len() > 0,
    ensures
        group_sections(lines) == ({
            let prev = group_sections(lines.drop_last());
            match marker_name(lines.last()) {
                Some(n) => prev.push((n, Seq::empty())),
                None => if prev.len() == 0 {
                    prev
                } else {
                    prev.update(prev.len() - 1, (prev.last().0, prev.last().1.push(lines.last())))
                },
            }
        }),
{
}

impl ProbeOutput {
    /// Splits probe text into its sections.
    ///
    /// # Errors
    /// [`ProbeError::NoSections`] when the text holds no marker line.
    pub fn parse(text: &str) -> (res: Result<ProbeOutput, ProbeError>)
        ensures
            match res {
                Ok(p) => probe_sections(text@).len() > 0 && p@ == probe_sections(text@),
                Err(e) => probe_sections(text@).len() == 0 && e == ProbeError::NoSections,
            },
    {
        let cs = chars_of(text);
        let lines = split_chars(&cs, '\n');
        let ghost lv = lines@.map_values(|p: Vec<char>| p@);
        let mut groups: Vec<(Vec<char>, Vec<Vec<char>>)> = Vec::new();
        let mut i: usize = 0;
        assert(lv.take(0) =~= Seq::<Seq<char>>::empty());
        while i < lines.len()
            invariant
                i <= lines.len(),
                lv == lines@.map_values(|p: Vec<char>| p@),
                groups@.map_values(
                    |g: (Vec<char>, Vec<Vec<char>>)| (g.0@, g.1@.map_values(|p: Vec<char>| p@)),
                ) == group_sections(lv.take(i as int)),
            decreases lines.len() - i,
        {
            let ghost gv = |g: (Vec<char>, Vec<Vec<char>>)| (g.0@, g.1@.map_values(|p: Vec<char>| p@));
            let ghost before = groups@.map_values(gv);
            proof {
                assert(lv.take(i + 1).drop_last() =~= lv.take(i as int));
                assert(lv.take(i + 1).last() == lines@[i as int]@);
                lemma_group_step(lv.take(i + 1));
            }
            let line = &lines[i];
            match marker_name_of(line) {
                Some(n) => {
                    let fresh: Vec<Vec<char>> = Vec::new();
                    assert(fresh@.map_values(|p: Vec<char>| p@) =~= Seq::<Seq<char>>::empty());
                    groups.push((n, fresh));
                    assert(groups@.map_values(gv) =~= before.push((n@, Seq::empty())));
                },
                None => {
                    if groups.len() > 0 {
                        let (gname, mut glines) = groups.pop().unwrap();
                        let ghost popped = groups@.map_values(gv);
                        assert(popped =~= before.drop_last());
                        let copy = line.clone();
                        assert(copy@ == line@);
                        glines.push(copy);
                        groups.push((gname, glines));
                        assert(glines@.map_values(|p: Vec<char>| p@) =~= before.last().1.push(line@));
                        assert(groups@.map_values(gv) =~= before.update(
                            before.len() - 1,
                            (before.last().0, before.last().1.push(line@)),
                        ));
                    }
                },
            }
            i = i + 1;
        }
        assert(lv.take(lines.len() as int) =~= lv);
        if groups.len() == 0 {
            return Err(ProbeError::NoSections);
        }
        let ghost gspec = group_sections(lv);
        let mut sections: Vec<ProbeSection> = Vec::new();
        let nl = vec!['\n'];
        assert(nl@ =~= seq!['\n']);
        let mut k: usize = 0;
        while k < groups.len()
            invariant
                k <= groups.len(),
                nl@ == seq!['\n'],
                gspec == group_sections(split_on(text@, '\n')),
                groups@.map_values(
                    |g: (Vec<char>, Vec<Vec<char>>)| (g.0@, g.1@.map_values(|p: Vec<char>| p@)),
                ) == gspec,
                sections@.map_values(|s: ProbeSection| (s.name@, s.content@)) == probe_sections(
                    text@,
                ).take(k as int),
            decreases groups.len() - k,
        {
            let name = string_of(&groups[k].0);
            let content_chars = join_chars(&groups[k].1, &nl);
            let content = string_of(&content_chars);
            assert(gspec[k as int] == (groups@[k as int].0@, groups@[k as int].1@.map_values(
                |p: Vec<char>| p@,
            )));
            assert(probe_sections(text@)[k as int] == (gspec[k as int].0, join(
                gspec[k as int].1,
                seq!['\n'],
            )));
            let ghost before = sections@.map_values(|s: ProbeSection| (s.name@, s.content@));
            let ghost item = (name@, content@);
            assert(item == probe_sections(text@)[k as int]);
            sections.push(ProbeSection { name, content });
            assert(sections@.map_values(|s: ProbeSection| (s.name@, s.content@)) =~= before.push(item));
            assert(probe_sections(text@).take(k + 1) =~= probe_sections(text@).take(k as int).push(item));
            assert(sections@.map_values(|s: ProbeSection| (s.name@, s.content@)) =~= probe_sections(
                text@,
            ).take(k + 1));
            k = k + 1;
        }
        assert(probe_sections(text@).take(groups.len() as int) =~= probe_sections(text@));
        Ok(ProbeOutput { sections })
    }

    /// The content of the first section called `name`, if any.
    pub fn get_section(&self, name: &str) -> (res: Option<&str>)
        ensures
            match res {
                Some(c) => section_content(self@, name@) == Some(c@),
                None => section_content(self@, name@) is None,
            },
    {
        let mut i: usize = 0;
        assert(self@.skip(0) =~= self@);
        while i < self.sections.len()
            invariant
                i <= self.sections.len(),
                section_content(self@, name@) == section_content(self@.skip(i as int), name@),
            decreases self.sections.len() - i,
        {
            let ghost rest = self@.skip(i as int);
            assert(rest[0] == (self.sections@[i as int].name@, self.sections@[i as int].content@));
            if crate::text::str_eq(self.sections[i].name.as_str(), name) {
                return Some(self.sections[i].content.as_str());
            }
            assert(rest.drop_first() =~= self@.skip(i + 1));
            i = i + 1;
        }
        None
    }

    /// Whether a section called `name` exists and holds more than whitespace.
    pub fn has_section(&self, name: &str) -> (res: bool)
        ensures
            res == match section_content(self@, name@) {
                Some(c) => trim(c).len() > 0,
                None => false,
            },
    {
        match self.get_section(name) {
            Some(c) => {
                let cs = chars_of(c);
                let t = trim_chars(&cs);
                t.len() > 0
            },
            None => false,
        }
    }
}

} // verus!
