//! Exporting a chosen range of the message stream: section validation and
//! the cursor that decides, message by message, whether a message is
//! written or skipped, and when no further message can match.

use vstd::prelude::*;

verus! {

/// A contiguous range of message indices, both ends inclusive.
#[derive(Debug, Clone, Copy, PartialEq, Eq, Structural)]
pub struct IndexSection {
    pub first_line: usize,
    pub last_line: usize,
}

/// Why an export cannot proceed.
#[derive(Debug, PartialEq)]
pub enum ExportError {
    Config(String),
    Io(String),
}

/// Sections are acceptable when each is non-empty as a range and they are
/// strictly ordered without overlap.
pub open spec fn spec_sections_valid(s: Seq<IndexSection>) -> bool {
    &&& forall|i: int| 0 <= i < s.len() ==> (#[trigger] s[i]).first_line <= s[i].last_line
    &&& forall|i: int| 0 <= i && i + 1 < s.len() ==> (#[trigger] s[i]).last_line < s[i
        + 1].first_line
}

/// Whether some section contains the message index.
pub open spec fn spec_in_sections(s: Seq<IndexSection>, idx: nat) -> bool {
    exists|k: int| 0 <= k < s.len() && (#[trigger] s[k]).first_line <= idx <= s[k].last_line
}

/// Checks the section list exactly as [`spec_sections_valid`] reads.
pub fn sections_valid(sections: &Vec<IndexSection>) -> (r: bool)
    ensures
        r == spec_sections_valid(sections@),
{
    let n = sections.len();
    let mut i: usize = 0;
    while i < n
        invariant
            n == sections@.len(),
            i <= n,
            forall|k: int| 0 <= k < i ==> (#[trigger] sections@[k]).first_line
                <= sections@[k].last_line,
        decreases n - i,
    {
        if sections[i].first_line > sections[i].last_line {
            return false;
        }
        i = i + 1;
    }
    let mut j: usize = 1;
    while j < n
        invariant
            n == sections@.len(),
            1 <= j,
            forall|k: int| 0 <= k < sections@.len() ==> (#[trigger] sections@[k]).first_line
                <= sections@[k].last_line,
            forall|k: int| 0 <= k && k + 1 < j ==> (#[trigger] sections@[k]).last_line
                < sections@[k + 1].first_line,
        decreases n - j,
    {
        if sections[j - 1].last_line >= sections[j].first_line {
            return false;
        }
        j = j + 1;
    }
    true
}

/// What to do with the next stream item.
#[derive(Debug, Clone, Copy, PartialEq, Eq, Structural)]
pub enum ExportAction {
    Write,
    Skip,
    Stop,
}

/// Walks the message stream against a valid section list and decides, one
/// message at a time, whether the message falls inside a section. `Stop`
/// means every section lies strictly before the current index, so no later
/// message can match.
pub struct ExportCursor {
    sections: Vec<IndexSection>,
    section_index: usize,
    current_index: usize,
    inside: bool,
    exported: usize,
}

impl ExportCursor {
    /// The section list the cursor walks.
    pub closed spec fn sections_spec(&self) -> Seq<IndexSection> {
        self.sections@
    }

    /// The index of the next message.
    pub closed spec fn current_spec(&self) -> nat {
        self.current_index as nat
    }

    /// How many messages have been written.
    pub closed spec fn exported_spec(&self) -> nat {
        self.exported as nat
    }

    /// The cursor's internal consistency.
    pub closed spec fn wf(&self) -> bool {
        &&& spec_sections_valid(self.sections@)
        &&& self.section_index <= self.sections@.len()
        &&& forall|k: int| 0 <= k < self.section_index ==> (#[trigger] self.sections@[k]).last_line
            < self.current_index
        &&& (!self.inside && self.section_index < self.sections@.len())
            ==> self.current_index <= self.sections@[self.section_index as int].first_line
        &&& self.inside ==> self.section_index < self.sections@.len()
            && self.sections@[self.section_index as int].first_line < self.current_index
            && self.current_index <= self.sections@[self.section_index as int].last_line + 1
    }

    /// A cursor at the stream's start. An invalid section list is a
    /// configuration error.
    pub fn new(sections: Vec<IndexSection>) -> (r: Result<Self, ExportError>)
        ensures
            r matches Ok(c) ==> c.wf() && c.sections_spec() == sections@ && c.current_spec() == 0
                && c.exported_spec() == 0,
            r is Ok <==> spec_sections_valid(sections@),
            r matches Err(e) ==> e is Config,
    {
        if !sections_valid(&sections) {
            return Err(ExportError::Config(String::new()));
        }
        Ok(
            ExportCursor {
                sections,
                section_index: 0,
                current_index: 0,
                inside: false,
                exported: 0,
            },
        )
    }

    /// Decides the fate of the message at the current index: written when a
    /// section contains it, skipped otherwise, and `Stop` — consuming
    /// nothing — once every section lies strictly before it.
    pub fn on_item(&mut self) -> (r: ExportAction)
        requires
            old(self).wf(),
            old(self).current_spec() < usize::MAX,
        ensures
            final(self).wf(),
            final(self).sections_spec() == old(self).sections_spec(),
            r == ExportAction::Stop <==> !(exists|k: int|
                0 <= k < old(self).sections_spec().len() && old(self).current_spec() <= (
                #[trigger] old(self).sections_spec()[k]).last_line),
            r == ExportAction::Stop ==> final(self).current_spec() == old(self).current_spec()
                && final(self).exported_spec() == old(self).exported_spec(),
            r != ExportAction::Stop ==> final(self).current_spec() == old(self).current_spec() + 1,
            r == ExportAction::Write <==> spec_in_sections(
                old(self).sections_spec(),
                old(self).current_spec(),
            ),
            r == ExportAction::Write && old(self).exported_spec() < usize::MAX ==> final(self).exported_spec() == old(self).exported_spec() + 1,
            r != ExportAction::Write ==> final(self).exported_spec() == old(self).exported_spec(),
    {
        let n = self.sections.len();
        if !self.inside {
            if self.section_index < n && self.sections[self.section_index].first_line
                == self.current_index {
                self.inside = true;
            }
        } else if self.sections[self.section_index].last_line < self.current_index {
            self.inside = false;
            self.section_index = self.section_index + 1;
            if self.section_index < n && self.sections[self.section_index].first_line
                == self.current_index {
                self.inside = true;
            }
        }
        if self.section_index >= n {
            proof {
                assert forall|k: int|
                    0 <= k < old(self).sections_spec().len() implies (#[trigger] old(self).sections_spec()[k]).last_line < old(self).current_spec() by {
                    assert(self.sections@[k].last_line < self.current_index);
                }
            }
            return ExportAction::Stop;
        }
        let r = if self.inside {
            self.exported = if self.exported < usize::MAX {
                self.exported + 1
            } else {
                self.exported
            };
            ExportAction::Write
        } else {
            ExportAction::Skip
        };
        proof {
            let si = self.section_index as int;
            assert(self.sections@[si].first_line <= self.sections@[si].last_line);
            assert(old(self).sections_spec() == self.sections@);
            if self.inside {
                assert(self.sections@[si].first_line <= self.current_index <= self.sections@[
                    si
                ].last_line);
            } else {
                assert(self.current_index <= self.sections@[si].first_line);
                assert(old(self).current_spec() <= old(self).sections_spec()[si].last_line);
                assert forall|k: int|
                    0 <= k < self.sections@.len() implies !((#[trigger] self.sections@[k]).first_line
                    <= self.current_index <= self.sections@[k].last_line) by {
                    if k < self.section_index {
                    } else {
                        lemma_sections_sorted(self.sections@, self.section_index as int, k);
                    }
                }
            }
        }
        self.current_index = self.current_index + 1;
        r
    }

    /// How many messages have been written so far.
    pub fn exported(&self) -> (r: usize)
        ensures
            r == self.exported_spec(),
    {
        self.exported
    }
}

proof fn lemma_sections_sorted(s: Seq<IndexSection>, i: int, j: int)
    requires
        spec_sections_valid(s),
        0 <= i <= j < s.len(),
    ensures
        s[i].first_line <= s[j].first_line,
        s[i].last_line <= s[j].last_line,
    decreases j - i,
{
    if j > i {
        lemma_sections_sorted(s, i, j - 1);
        assert(s[j - 1].last_line < s[j].first_line);
    }
}

} // verus!
