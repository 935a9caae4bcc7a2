//! Jump labels: one key that leads to a pane or to a row.

use vstd::prelude::*;

use crate::pane::Pane;

verus! {

/// Where a label leads.
#[derive(Debug, Clone, Copy, PartialEq, Eq, Structural)]
pub enum JumpTarget {
    /// A pane.
    Pane(Pane),
    /// A row of the tree.
    Row(usize),
}

/// The labels while they are shown.
#[derive(Debug, Clone, Copy, PartialEq, Eq, Structural)]
pub struct Jump {
    /// The first row that has a label.
    pub first_row: usize,
    /// How many rows the tree has.
    pub row_count: usize,
}

/// The letters of the rows in order. The letters of the panes are not among them.
pub open spec fn row_letters() -> Seq<char> {
    seq![
        'a', 'd', 'f', 'g', 'h', 'j', 'k', 'l', 'q', 'w', 't', 'y', 'i', 'o', 'p', 'z', 'x', 'c',
        'v', 'b', 'n', 'm',
    ]
}

/// The letter of a pane.
pub open spec fn pane_letter(pane: Pane) -> char {
    match pane {
        Pane::Explorer => 'e',
        Pane::UrlBar => 'u',
        Pane::Request => 'r',
        Pane::Response => 's',
    }
}

/// The place of a letter in a list, or how many there are.
pub open spec fn letter_at(letters: Seq<char>, c: char) -> int
    decreases letters.len(),
{
    if letters.len() == 0 || letters[0] == c {
        0
    } else {
        1 + letter_at(letters.skip(1), c)
    }
}

impl Jump {
    /// Where a letter leads: to a pane by its own letter, to a row by the letter
    /// that its place on the screen gives it.
    pub open spec fn spec_target(self, c: char) -> Option<JumpTarget> {
        if c == 'e' {
            Some(JumpTarget::Pane(Pane::Explorer))
        } else if c == 'u' {
            Some(JumpTarget::Pane(Pane::UrlBar))
        } else if c == 'r' {
            Some(JumpTarget::Pane(Pane::Request))
        } else if c == 's' {
            Some(JumpTarget::Pane(Pane::Response))
        } else {
            let i = letter_at(row_letters(), c);
            if i < row_letters().len() && self.first_row + i < self.row_count {
                Some(JumpTarget::Row((self.first_row + i) as usize))
            } else {
                None
            }
        }
    }

    /// Where a letter leads.
    pub fn target_for(&self, c: char) -> (r: Option<JumpTarget>)
        ensures
            r == self.spec_target(c),
    {
        if c == 'e' {
            return Some(JumpTarget::Pane(Pane::Explorer));
        }
        if c == 'u' {
            return Some(JumpTarget::Pane(Pane::UrlBar));
        }
        if c == 'r' {
            return Some(JumpTarget::Pane(Pane::Request));
        }
        if c == 's' {
            return Some(JumpTarget::Pane(Pane::Response));
        }
        let letters: Vec<char> = vec![
            'a', 'd', 'f', 'g', 'h', 'j', 'k', 'l', 'q', 'w', 't', 'y', 'i', 'o', 'p', 'z', 'x', 'c',
            'v', 'b', 'n', 'm',
        ];
        assert(letters@ =~= row_letters());
        let mut i: usize = 0;
        assert(letters@.skip(0) =~= letters@);
        while i < letters.len() && letters[i] != c
            invariant
                i <= letters.len(),
                letter_at(letters@, c) == i + letter_at(letters@.skip(i as int), c),
            decreases letters.len() - i,
        {
            assert(letters@.skip(i as int).skip(1) =~= letters@.skip(i + 1));
            i = i + 1;
        }
        if i < letters.len() && self.first_row < self.row_count && i < self.row_count
            - self.first_row {
            Some(JumpTarget::Row(self.first_row + i))
        } else {
            None
        }
    }

    /// The letter of a pane.
    pub fn label_for_pane(pane: Pane) -> (r: char)
        ensures
            r == pane_letter(pane),
    {
        match pane {
            Pane::Explorer => 'e',
            Pane::UrlBar => 'u',
            Pane::Request => 'r',
            Pane::Response => 's',
        }
    }
}

proof fn lemma_letter_at(letters: Seq<char>, c: char)
    ensures
        0 <= letter_at(letters, c) <= letters.len(),
        letter_at(letters, c) < letters.len() ==> letters[letter_at(letters, c)] == c,
    decreases letters.len(),
{
    if letters.len() > 0 && letters[0] != c {
        lemma_letter_at(letters.skip(1), c);
    }
}

/// No two letters lead to the same place, and the letter of a pane leads to it.
pub proof fn law_labels_are_distinct(j: Jump, a: char, b: char)
    requires
        j.spec_target(a) is Some,
        j.spec_target(a) == j.spec_target(b),
    ensures
        a == b,
{
    lemma_letter_at(row_letters(), a);
    lemma_letter_at(row_letters(), b);
}

/// The letter of a pane leads to the pane, whatever the tree shows.
pub proof fn law_pane_letter_leads_to_pane(j: Jump, pane: Pane)
    ensures
        j.spec_target(pane_letter(pane)) == Some(JumpTarget::Pane(pane)),
{
}

/// The first rows on the screen each have a letter, as far as the letters go.
pub proof fn law_first_rows_are_labelled(j: Jump, i: int)
    requires
        0 <= i < row_letters().len(),
        j.first_row + i < j.row_count,
    ensures
        j.spec_target(row_letters()[i]) == Some(JumpTarget::Row((j.first_row + i) as usize)),
{
    reveal_with_fuel(letter_at, 23);
    let s = row_letters();
    lemma_at_own_place(s, i);
}

proof fn lemma_at_own_place(s: Seq<char>, i: int)
    requires
        0 <= i < s.len(),
        forall|a: int, b: int| 0 <= a < b < s.len() ==> s[a] != s[b],
    ensures
        letter_at(s, s[i]) == i,
    decreases s.len(),
{
    if i > 0 {
        assert(s[0] != s[i]);
        let t = s.skip(1);
        assert forall|a: int, b: int| 0 <= a < b < t.len() implies t[a] != t[b] by {
            assert(s[a + 1] != s[b + 1]);
        }
        lemma_at_own_place(t, i - 1);
        assert(t[i - 1] == s[i]);
    }
}

} // verus!
