//! The whitelist store: the set of verified users, mirrored by an
//! append-only persisted log. The store keeps the in-memory set and
//! decides what the log must receive; the caller appends the prepared
//! line durably and commits only on success, so the log never lacks an
//! entry the set has. The caller serializes the whole
//! prepare-append-commit sequence (one critical section per add), which
//! keeps concurrent confirmations by the same user from appending twice.

use vstd::prelude::*;
use crate::UserId;
use crate::text::{
    chars_of, dec_of, first_token, format_u64, is_digit, is_ws, lemma_dec_of_val,
    lemma_first_ws_index_exact, parse_u64, parse_u64_spec,
};
use vstd::string::StringExecFns;

verus! {

/// The user a whitelist log line records: its first
/// whitespace-delimited token read as a decimal number. A line that
/// carries no such token records nobody.
pub open spec fn entry_user(line: Seq<char>) -> Option<u64> {
    parse_u64_spec(first_token(line))
}

/// The log line that records `user` with a display name: the decimal
/// user id, one space, the name. Anything after the first token is
/// informational only and never read back.
pub open spec fn entry_line(user: u64, name: Seq<char>) -> Seq<char> {
    dec_of(user as nat) + seq![' '] + name
}

/// The set of users a sequence of log lines records.
pub open spec fn load_users_spec(lines: Seq<Seq<char>>) -> Set<u64>
    decreases lines.len(),
{
    if lines.len() == 0 {
        Set::empty()
    } else {
        let rest = load_users_spec(lines.drop_last());
        match entry_user(lines.last()) {
            Option::None => rest,
            Option::Some(u) => rest.insert(u),
        }
    }
}

/// Holds the set of verified user identifiers. Entries are only ever
/// added, never removed.
pub struct WhitelistStore {
    users: Vec<u64>,
}

impl WhitelistStore {
    /// The set of verified users.
    pub closed spec fn view(&self) -> Set<u64> {
        self.users@.to_set()
    }

    /// An empty store: nobody is verified.
    pub fn new() -> (r: Self)
        ensures
            r@ =~= Set::<u64>::empty(),
    {
        let r = WhitelistStore { users: Vec::new() };
        proof {
            assert(r.users@.to_set() =~= Set::<u64>::empty());
        }
        r
    }

    /// Absorbs one log line while loading: the user it records joins the
    /// set; a line that records nobody is skipped without aborting the
    /// load.
    pub fn absorb_line(&mut self, line: &str)
        ensures
            final(self)@ == match entry_user(line@) {
                Option::None => old(self)@,
                Option::Some(u) => old(self)@.insert(u),
            },
    {
        let token = first_token_exec(line);
        let parsed = parse_u64(&token);
        match parsed {
            Option::Some(u) => {
                proof {
                    self.users@.lemma_push_to_set_commute(u);
                }
                self.users.push(u);
            },
            Option::None => {},
        }
    }

    /// Loads a store from the lines of the persisted log, as
    /// `load_users_spec` describes. A missing file is an empty sequence
    /// of lines and gives an empty store.
    pub fn from_lines(lines: &Vec<String>) -> (r: Self)
        ensures
            r@ == load_users_spec(lines@.map_values(|s: String| s@)),
    {
        let mut r = WhitelistStore::new();
        let n = lines.len();
        let mut i: usize = 0;
        while i < n
            invariant
                0 <= i <= n,
                n == lines@.len(),
                r@ == load_users_spec(lines@.map_values(|s: String| s@).take(i as int)),
            decreases n - i,
        {
            proof {
                let all = lines@.map_values(|s: String| s@);
                assert(all.take(i + 1).drop_last() =~= all.take(i as int));
                assert(all.take(i + 1).last() == lines@[i as int]@);
            }
            r.absorb_line(lines[i].as_str());
            i = i + 1;
        }
        proof {
            assert(lines@.map_values(|s: String| s@).take(n as int) =~= lines@.map_values(
                |s: String| s@,
            ));
        }
        r
    }

    /// Point-in-time membership check.
    pub fn is_whitelisted(&self, user: UserId) -> (r: bool)
        ensures
            r == self@.contains(user.0),
    {
        let n = self.users.len();
        let mut i: usize = 0;
        while i < n
            invariant
                0 <= i <= n,
                n == self.users@.len(),
                forall|k: int| 0 <= k < i ==> self.users@[k] != user.0,
            decreases n - i,
        {
            if self.users[i] == user.0 {
                assert(self@.contains(user.0));
                return true;
            }
            i = i + 1;
        }
        assert(!self.users@.to_set().contains(user.0));
        false
    }

    /// First half of an atomic add: if `user` is absent, the exact log
    /// line that must be appended durably before the add may be
    /// committed; if already present, nothing — the add is a no-op, not
    /// an error. The set itself is untouched, so a failed append commits
    /// nothing.
    pub fn prepare_add(&self, user: UserId, name: &str) -> (r: Option<String>)
        ensures
            match r {
                Option::None => self@.contains(user.0),
                Option::Some(line) => !self@.contains(user.0) && line@ == entry_line(
                    user.0,
                    name@,
                ),
            },
    {
        if self.is_whitelisted(user) {
            return None;
        }
        let mut line = format_u64(user.0);
        line.append(" ");
        line.append(name);
        proof {
            reveal_strlit(" ");
            assert(" "@ =~= seq![' ']);
            assert(line@ =~= entry_line(user.0, name@));
        }
        Some(line)
    }

    /// Second half of an atomic add, called once the prepared line was
    /// appended durably: the user joins the in-memory set.
    pub fn commit_add(&mut self, user: UserId)
        requires
            !old(self)@.contains(user.0),
        ensures
            final(self)@ == old(self)@.insert(user.0),
    {
        proof {
            self.users@.lemma_push_to_set_commute(user.0);
        }
        self.users.push(user.0);
    }

    /// Law: adding an absent user twice persists exactly one log entry.
    /// The first add prepares the entry's line and, once committed,
    /// leaves the user whitelisted; the second prepares nothing more.
    /// Returns what the two prepares gave and the final membership check.
    pub fn add_if_absent_twice(&mut self, user: UserId, name: &str) -> (r: (
        Option<String>,
        Option<String>,
        bool,
    ))
        requires
            !old(self)@.contains(user.0),
        ensures
            r.0 matches Option::Some(line) && line@ == entry_line(user.0, name@),
            r.1 is None,
            r.2 == true,
            final(self)@ == old(self)@.insert(user.0),
    {
        let first = self.prepare_add(user, name);
        self.commit_add(user);
        let second = self.prepare_add(user, name);
        let verified = self.is_whitelisted(user);
        (first, second, verified)
    }
}

/// The first whitespace-delimited token of `s`.
pub fn first_token_exec(s: &str) -> (r: Vec<char>)
    ensures
        r@ == first_token(s@),
{
    let cs = chars_of(s);
    let n = cs.len();
    let mut i: usize = 0;
    while i < n && crate::text::is_ws_char(cs[i])
        invariant
            0 <= i <= n,
            n == cs@.len(),
            forall|k: int| 0 <= k < i ==> is_ws(cs@[k]),
        decreases n - i,
    {
        i = i + 1;
    }
    let mut j: usize = i;
    while j < n && !crate::text::is_ws_char(cs[j])
        invariant
            i <= j <= n,
            n == cs@.len(),
            forall|k: int| i <= k < j ==> !is_ws(cs@[k]),
        decreases n - j,
    {
        j = j + 1;
    }
    proof {
        crate::text::lemma_trim_start_exact(cs@, i as int);
        let su = cs@.subrange(i as int, n as int);
        lemma_first_ws_index_exact(su, j - i);
        assert(first_token(cs@) =~= cs@.subrange(i as int, j as int));
    }
    let mut token: Vec<char> = Vec::new();
    let mut k: usize = i;
    while k < j
        invariant
            i <= k <= j <= n,
            n == cs@.len(),
            token@ == cs@.subrange(i as int, k as int),
        decreases j - k,
    {
        token.push(cs[k]);
        proof {
            assert(cs@.subrange(i as int, k + 1) =~= cs@.subrange(i as int, k as int).push(
                cs@[k as int],
            ));
        }
        k = k + 1;
    }
    token
}

/// Law: appending a prepared entry to the persisted log and reloading
/// yields the old set plus exactly that user — the log is a faithful
/// write-ahead of the set.
pub proof fn lemma_reload_after_append(lines: Seq<Seq<char>>, user: u64, name: Seq<char>)
    ensures
        load_users_spec(lines.push(entry_line(user, name))) == load_users_spec(lines).insert(
            user,
        ),
{
    lemma_entry_round_trip(user, name);
    assert(lines.push(entry_line(user, name)).drop_last() =~= lines);
}

/// Law: a log line written for a user reads back as that user, whatever
/// the display name: appending and reloading agree.
pub proof fn lemma_entry_round_trip(user: u64, name: Seq<char>)
    ensures
        entry_user(entry_line(user, name)) == Option::Some(user),
{
    let digits = dec_of(user as nat);
    let line = entry_line(user, name);
    lemma_dec_of_val(user as nat);
    assert(forall|k: int| 0 <= k < digits.len() ==> !is_ws(#[trigger] line[k])) by {
        assert(forall|k: int| 0 <= k < digits.len() ==> line[k] == digits[k]);
        assert(forall|k: int|
            0 <= k < digits.len() ==> is_digit(digits[k]) && !is_ws(digits[k]));
    }
    assert(line[digits.len() as int] == ' ');
    crate::text::lemma_trim_start_exact(line, 0);
    assert(crate::text::trim_start_spec(line) =~= line);
    lemma_first_ws_index_exact(line, digits.len() as int);
    assert(first_token(line) =~= digits);
    assert(parse_u64_spec(digits) == Option::Some(user));
}

} // verus!
