//! The forbidden-content matcher. Rules come from a line-oriented source:
//! a line whose first character (after trimming) is '*' contributes a
//! substring rule, any other non-blank line a prefix rule; rules are
//! lowercased when loaded. A text is flagged when its trimmed, lowercased
//! form starts with a prefix rule or contains a substring rule.

use vstd::prelude::*;
use crate::text::{
    ascii_lower_char, ascii_seq, chars_of, contains_exec, contains_seq, is_prefix_exec, is_ws,
    lower_of, lowercase, trim_spec, trim_str,
};

verus! {

/// The normal form a text is matched in: trimmed, then lowercased.
pub open spec fn norm_spec(t: Seq<char>) -> Seq<char> {
    lower_of(trim_spec(t))
}

/// What one source line contributes: nothing for a blank line, a
/// substring rule for a '*' line, a prefix rule otherwise.
pub open spec fn line_pattern(line: Seq<char>) -> Option<(bool, Seq<char>)> {
    let t = trim_spec(line);
    if t.len() == 0 {
        None
    } else if t[0] == '*' {
        Some((true, lower_of(trim_spec(t.drop_first()))))
    } else {
        Some((false, lower_of(t)))
    }
}

/// The rule lists that a sequence of source lines loads to: prefix rules
/// first, substring rules second, each in source order.
pub open spec fn load_spec(lines: Seq<Seq<char>>) -> (Seq<Seq<char>>, Seq<Seq<char>>)
    decreases lines.len(),
{
    if lines.len() == 0 {
        (Seq::empty(), Seq::empty())
    } else {
        let (pre, sub) = load_spec(lines.drop_last());
        match line_pattern(lines.last()) {
            Option::None => (pre, sub),
            Option::Some((true, p)) => (pre, sub.push(p)),
            Option::Some((false, p)) => (pre.push(p), sub),
        }
    }
}

/// Whether a normalized text `n` violates the rules.
pub open spec fn matches_norm(pre: Seq<Seq<char>>, sub: Seq<Seq<char>>, n: Seq<char>) -> bool {
    (exists|i: int| 0 <= i < pre.len() && pre[i].is_prefix_of(n)) || (exists|i: int|
        0 <= i < sub.len() && contains_seq(n, sub[i]))
}

/// Whether a text violates the rules: its normal form starts with a
/// prefix rule or contains a substring rule. Empty rule lists match
/// nothing.
pub open spec fn matches_spec(pre: Seq<Seq<char>>, sub: Seq<Seq<char>>, t: Seq<char>) -> bool {
    matches_norm(pre, sub, norm_spec(t))
}

/// Holds the forbidden-content rules and answers containment queries.
/// Immutable after load.
pub struct PatternMatcher {
    starts_with: Vec<Vec<char>>,
    contains: Vec<Vec<char>>,
}

impl PatternMatcher {
    /// The prefix rules, in the order they were loaded.
    pub closed spec fn prefixes(&self) -> Seq<Seq<char>> {
        self.starts_with@.map_values(|v: Vec<char>| v@)
    }

    /// The substring rules, in the order they were loaded.
    pub closed spec fn substrings(&self) -> Seq<Seq<char>> {
        self.contains@.map_values(|v: Vec<char>| v@)
    }

    /// A matcher with no rules; it flags nothing.
    pub fn new() -> (r: Self)
        ensures
            r.prefixes() =~= Seq::<Seq<char>>::empty(),
            r.substrings() =~= Seq::<Seq<char>>::empty(),
    {
        let r = PatternMatcher { starts_with: Vec::new(), contains: Vec::new() };
        proof {
            assert(r.prefixes() =~= Seq::<Seq<char>>::empty());
            assert(r.substrings() =~= Seq::<Seq<char>>::empty());
        }
        r
    }

    /// Adds the rule of one source line, as `line_pattern` describes;
    /// a blank line adds nothing.
    pub fn add_line(&mut self, line: &str)
        ensures
            match line_pattern(line@) {
                Option::None => final(self).prefixes() == old(self).prefixes()
                    && final(self).substrings() == old(self).substrings(),
                Option::Some((true, p)) => final(self).prefixes() == old(self).prefixes()
                    && final(self).substrings() == old(self).substrings().push(p),
                Option::Some((false, p)) => final(self).prefixes() == old(self).prefixes().push(p)
                    && final(self).substrings() == old(self).substrings(),
            },
    {
        let t = trim_str(line);
        let n = t.unicode_len();
        if n == 0 {
            return ;
        }
        if t.get_char(0) == '*' {
            let rest = t.substring_char(1, n);
            proof {
                assert(rest@ =~= trim_spec(line@).drop_first());
            }
            let rest_trimmed = trim_str(rest);
            let low = lowercase(rest_trimmed);
            let p = chars_of(low.as_str());
            proof {
                let f = |v: Vec<char>| v@;
                assert(self.contains@.push(p).map_values(f) =~= self.contains@.map_values(f).push(
                    p@,
                ));
            }
            self.contains.push(p);
        } else {
            let low = lowercase(t);
            let p = chars_of(low.as_str());
            proof {
                let f = |v: Vec<char>| v@;
                assert(self.starts_with@.push(p).map_values(f)
                    =~= self.starts_with@.map_values(f).push(p@));
            }
            self.starts_with.push(p);
        }
    }

    /// Loads a matcher from source lines, as `load_spec` describes.
    pub fn from_lines(lines: &Vec<String>) -> (r: Self)
        ensures
            (r.prefixes(), r.substrings()) == load_spec(lines.deep_view()),
    {
        let mut r = PatternMatcher::new();
        let n = lines.len();
        let mut i: usize = 0;
        while i < n
            invariant
                0 <= i <= n,
                n == lines@.len(),
                (r.prefixes(), r.substrings()) == load_spec(lines.deep_view().take(i as int)),
            decreases n - i,
        {
            proof {
                assert(lines.deep_view().take(i + 1).drop_last() =~= lines.deep_view().take(
                    i as int,
                ));
                assert(lines.deep_view().take(i + 1).last() == lines@[i as int]@);
            }
            r.add_line(lines[i].as_str());
            i = i + 1;
        }
        proof {
            assert(lines.deep_view().take(n as int) =~= lines.deep_view());
        }
        r
    }

    /// Whether `text` violates the rules, as `matches_spec` describes.
    pub fn matches(&self, text: &str) -> (r: bool)
        ensures
            r == matches_spec(self.prefixes(), self.substrings(), text@),
    {
        let lowered = lowercase(trim_str(text));
        let t = chars_of(lowered.as_str());
        let np = self.starts_with.len();
        let mut i: usize = 0;
        while i < np
            invariant
                0 <= i <= np,
                np == self.starts_with@.len(),
                t@ == norm_spec(text@),
                forall|k: int| 0 <= k < i ==> !self.prefixes()[k].is_prefix_of(t@),
            decreases np - i,
        {
            let hit = is_prefix_exec(&self.starts_with[i], &t);
            assert(self.prefixes()[i as int] == self.starts_with@[i as int]@);
            if hit {
                return true;
            }
            i = i + 1;
        }
        let ns = self.contains.len();
        let mut j: usize = 0;
        while j < ns
            invariant
                0 <= j <= ns,
                ns == self.contains@.len(),
                t@ == norm_spec(text@),
                forall|k: int| 0 <= k < j ==> !contains_seq(t@, self.substrings()[k]),
            decreases ns - j,
        {
            let hit = contains_exec(&t, &self.contains[j]);
            assert(self.substrings()[j as int] == self.contains@[j as int]@);
            if hit {
                return true;
            }
            j = j + 1;
        }
        assert(forall|k: int| 0 <= k < np ==> !self.prefixes()[k].is_prefix_of(norm_spec(text@)));
        false
    }

    /// Law: the match result depends only on the normal form of the text.
    /// Two texts whose trimmed, lowercased forms agree match identically.
    pub proof fn lemma_matches_depends_on_norm(&self, t1: Seq<char>, t2: Seq<char>)
        requires
            norm_spec(t1) == norm_spec(t2),
        ensures
            matches_spec(self.prefixes(), self.substrings(), t1) == matches_spec(
                self.prefixes(),
                self.substrings(),
                t2,
            ),
    {
    }

    /// Law: matching ignores leading and trailing whitespace. Padding a
    /// text with whitespace on either side never changes the result.
    pub proof fn lemma_matches_ignores_padding(&self, lead: Seq<char>, t: Seq<char>, trail: Seq<char>)
        requires
            forall|k: int| 0 <= k < lead.len() ==> is_ws(lead[k]),
            forall|k: int| 0 <= k < trail.len() ==> is_ws(trail[k]),
        ensures
            matches_spec(self.prefixes(), self.substrings(), lead + t + trail) == matches_spec(
                self.prefixes(),
                self.substrings(),
                t,
            ),
    {
        crate::text::lemma_trim_pad(lead, t, trail);
    }

    /// Law: matching is case-insensitive. Two ASCII texts that differ only
    /// in letter case — their ASCII lowercase forms agree — match
    /// identically. Returns both match results, which are equal.
    pub fn matches_case_agreement(&self, a: &str, b: &str) -> (r: (bool, bool))
        requires
            ascii_seq(a@),
            ascii_seq(b@),
            a@.map_values(|c: char| ascii_lower_char(c)) == b@.map_values(
                |c: char| ascii_lower_char(c),
            ),
        ensures
            r.0 == matches_spec(self.prefixes(), self.substrings(), a@),
            r.1 == matches_spec(self.prefixes(), self.substrings(), b@),
            r.0 == r.1,
    {
        let ra = self.matches(a);
        let rb = self.matches(b);
        let ta = trim_str(a);
        let tb = trim_str(b);
        let la = lowercase(ta);
        let lb = lowercase(tb);
        proof {
            let f = |c: char| ascii_lower_char(c);
            crate::text::lemma_trim_ascii(a@);
            crate::text::lemma_trim_ascii(b@);
            crate::text::lemma_trim_spec_map_lower(a@);
            crate::text::lemma_trim_spec_map_lower(b@);
            assert(la@ == trim_spec(a@).map_values(f));
            assert(lb@ == trim_spec(b@).map_values(f));
            assert(la@ == trim_spec(a@.map_values(f)));
            assert(lb@ == trim_spec(b@.map_values(f)));
            assert(norm_spec(a@) == norm_spec(b@));
        }
        (ra, rb)
    }
}

} // verus!
