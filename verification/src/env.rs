//! The environment-variable overlay: an ordered list of bindings with
//! unique keys, viewed as a map. It is purely local to the session; nothing
//! is inherited from or written back to the real process environment.

use vstd::prelude::*;

verus! {

use vstd::string::StrSliceExecFns;
use crate::text::key_len;
use crate::text::lemma_key_len_at;
use crate::text::lemma_line_len_at;
use crate::text::line_len;
use crate::text::trim;
use crate::text::trimmed;

/// The views of a sequence of string pairs.
pub open spec fn pairs_view(s: Seq<(String, String)>) -> Seq<(Seq<char>, Seq<char>)> {
    s.map_values(|p: (String, String)| (p.0@, p.1@))
}

/// Whether no key occurs twice.
pub open spec fn keys_unique(s: Seq<(Seq<char>, Seq<char>)>) -> bool {
    forall|a: int, b: int| 0 <= a < b < s.len() ==> s[a].0 != s[b].0
}

/// The mapping an ordered list of bindings denotes: a later binding for the
/// same key wins.
pub open spec fn map_of(s: Seq<(Seq<char>, Seq<char>)>) -> Map<Seq<char>, Seq<char>>
    decreases s.len(),
{
    if s.len() == 0 {
        Map::empty()
    } else {
        map_of(s.drop_last()).insert(s.last().0, s.last().1)
    }
}

proof fn lemma_map_of_update(s: Seq<(Seq<char>, Seq<char>)>, i: int, k: Seq<char>, v: Seq<char>)
    requires
        0 <= i < s.len(),
        s[i].0 == k,
        keys_unique(s),
    ensures
        map_of(s.update(i, (k, v))) == map_of(s).insert(k, v),
    decreases s.len(),
{
    let t = s.update(i, (k, v));
    if i == s.len() - 1 {
        assert(t.drop_last() =~= s.drop_last());
        assert(map_of(s.drop_last()).insert(k, s.last().1).insert(k, v) =~= map_of(
            s.drop_last(),
        ).insert(k, v));
    } else {
        assert(t.drop_last() =~= s.drop_last().update(i, (k, v)));
        assert(keys_unique(s.drop_last()));
        lemma_map_of_update(s.drop_last(), i, k, v);
        assert(s[i].0 != s[s.len() - 1].0);
        assert(t.last() == s.last());
        assert(map_of(s.drop_last()).insert(k, v).insert(s.last().0, s.last().1) =~= map_of(
            s.drop_last(),
        ).insert(s.last().0, s.last().1).insert(k, v));
    }
}

proof fn lemma_map_of_entry(s: Seq<(Seq<char>, Seq<char>)>, i: int)
    requires
        0 <= i < s.len(),
        keys_unique(s),
    ensures
        map_of(s).contains_key(s[i].0),
        map_of(s)[s[i].0] == s[i].1,
    decreases s.len(),
{
    if i == s.len() - 1 {
    } else {
        assert(keys_unique(s.drop_last()));
        lemma_map_of_entry(s.drop_last(), i);
        assert(s[i].0 != s[s.len() - 1].0);
    }
}

proof fn lemma_map_of_key_absent(s: Seq<(Seq<char>, Seq<char>)>, k: Seq<char>)
    requires
        forall|i: int| 0 <= i < s.len() ==> (#[trigger] s[i]).0 != k,
    ensures
        !map_of(s).contains_key(k),
    decreases s.len(),
{
    if s.len() > 0 {
        lemma_map_of_key_absent(s.drop_last(), k);
    }
}

/// The overlay of environment-variable bindings.
pub struct EnvOverlay {
    entries: Vec<(String, String)>,
}

impl View for EnvOverlay {
    type V = Map<Seq<char>, Seq<char>>;

    closed spec fn view(&self) -> Map<Seq<char>, Seq<char>> {
        map_of(pairs_view(self.entries@))
    }
}

/// One line applied to an environment: the line is split at its first `'='`,
/// both sides are trimmed, and the binding is inserted; a line without `'='`
/// changes nothing.
pub open spec fn line_applied(env: Map<Seq<char>, Seq<char>>, l: Seq<char>) -> Map<
    Seq<char>,
    Seq<char>,
> {
    if key_len(l) < l.len() {
        env.insert(trimmed(l.take(key_len(l) as int)), trimmed(l.skip(key_len(l) as int + 1)))
    } else {
        env
    }
}

/// A terminated line with its carriage return removed.
pub open spec fn strip_cr(l: Seq<char>) -> Seq<char> {
    if l.len() > 0 && l.last() == '\r' {
        l.drop_last()
    } else {
        l
    }
}

/// The environment after sourcing a file's contents: each line up to a line
/// feed (with a terminating carriage return dropped) is applied in order;
/// an unterminated final line is applied as it stands.
pub open spec fn sourced(env: Map<Seq<char>, Seq<char>>, s: Seq<char>) -> Map<Seq<char>, Seq<char>>
    decreases s.len(),
{
    if s.len() == 0 {
        env
    } else {
        let k = line_len(s);
        if k < s.len() {
            sourced(line_applied(env, strip_cr(s.take(k as int))), s.skip(k as int + 1))
        } else {
            line_applied(env, s)
        }
    }
}

impl EnvOverlay {
    /// Whether the stored keys are pairwise distinct.
    pub closed spec fn wf(self) -> bool {
        keys_unique(pairs_view(self.entries@))
    }

    /// An empty overlay.
    pub fn new() -> (r: EnvOverlay)
        ensures
            r.wf(),
            r@ == Map::<Seq<char>, Seq<char>>::empty(),
    {
        let r = EnvOverlay { entries: Vec::new() };
        proof {
            assert(pairs_view(r.entries@) =~= Seq::<(Seq<char>, Seq<char>)>::empty());
        }
        r
    }

    /// Inserts a binding, overwriting any earlier binding of the same key.
    pub fn insert(&mut self, key: String, value: String)
        requires
            old(self).wf(),
        ensures
            final(self).wf(),
            final(self)@ == old(self)@.insert(key@, value@),
    {
        let n = self.entries.len();
        let mut i: usize = 0;
        while i < n
            invariant
                i <= n,
                n == self.entries@.len(),
                *self == *old(self),
                old(self).wf(),
                forall|l: int| 0 <= l < i ==> (#[trigger] self.entries@[l]).0@ != key@,
            decreases n - i,
        {
            if self.entries[i].0 == key {
                let ghost before = pairs_view(self.entries@);
                self.entries.remove(i);
                self.entries.insert(i, (key, value));
                proof {
                    assert(pairs_view(self.entries@) =~= before.update(i as int, (key@, value@)));
                    lemma_map_of_update(before, i as int, key@, value@);
                    assert(forall|l: int|
                        0 <= l < before.len() ==> (#[trigger] before.update(
                            i as int,
                            (key@, value@),
                        )[l]).0 == before[l].0);
                }
                return ;
            }
            i += 1;
        }
        let ghost before = pairs_view(self.entries@);
        self.entries.push((key, value));
        proof {
            let after = pairs_view(self.entries@);
            assert(after.drop_last() =~= before);
            assert(after.last() == (key@, value@));
            assert(forall|l: int| 0 <= l < before.len() ==> (#[trigger] before[l]).0 != key@);
            assert forall|a: int, b: int| 0 <= a < b < after.len() implies after[a].0 != after[b].0 by {
                if b == after.len() - 1 {
                    assert(after[a] == before[a]);
                } else {
                    assert(after[a] == before[a]);
                    assert(after[b] == before[b]);
                }
            }
        }
    }

    /// Looks a key up in the overlay.
    pub fn get(&self, key: &str) -> (r: Option<String>)
        requires
            self.wf(),
        ensures
            match r {
                Some(v) => self@.contains_key(key@) && self@[key@] == v@,
                None => !self@.contains_key(key@),
            },
    {
        let n = self.entries.len();
        let mut i: usize = 0;
        let k: String = key.to_owned();
        while i < n
            invariant
                i <= n,
                n == self.entries@.len(),
                self.wf(),
                k@ == key@,
                forall|l: int| 0 <= l < i ==> (#[trigger] self.entries@[l]).0@ != key@,
            decreases n - i,
        {
            if self.entries[i].0 == k {
                let v = self.entries[i].1.clone();
                proof {
                    lemma_map_of_entry(pairs_view(self.entries@), i as int);
                }
                return Some(v);
            }
            i += 1;
        }
        proof {
            lemma_map_of_key_absent(pairs_view(self.entries@), key@);
        }
        None
    }

    /// Applies the contents of an environment file to the overlay, line by
    /// line; lines without `'='` are inert.
    #[verifier::rlimit(60)]
    pub fn apply_contents(&mut self, contents: &str)
        requires
            old(self).wf(),
        ensures
            final(self).wf(),
            final(self)@ == sourced(old(self)@, contents@),
    {
        let n = contents.unicode_len();
        let mut i: usize = 0;
        proof {
            assert(contents@.skip(0) =~= contents@);
        }
        while i < n
            invariant
                i <= n,
                n == contents@.len(),
                self.wf(),
                sourced(self@, contents@.skip(i as int)) == sourced(old(self)@, contents@),
            decreases n - i,
        {
            let ghost env0 = self@;
            let ghost rest = contents@.skip(i as int);
            let start = i;
            let mut j = i;
            while j < n && contents.get_char(j) != '\n'
                invariant
                    start <= j <= n,
                    n == contents@.len(),
                    forall|l: int| start <= l < j ==> contents@[l] != '\n',
                decreases n - j,
            {
                j += 1;
            }
            proof {
                assert(forall|l: int| 0 <= l < j - start ==> rest[l] == contents@[start + l]);
                lemma_line_len_at(rest, j - start);
            }
            let mut lend = j;
            if j < n && lend > start && contents.get_char(lend - 1) == '\r' {
                lend -= 1;
            }
            let ghost line = if j < n {
                strip_cr(rest.take((j - start) as int))
            } else {
                rest
            };
            proof {
                assert(rest.take((j - start) as int) =~= contents@.subrange(
                    start as int,
                    j as int,
                ));
                if j == n {
                    assert(rest =~= contents@.subrange(start as int, j as int));
                }
                assert(line =~= contents@.subrange(start as int, lend as int));
            }
            let mut e = start;
            while e < lend && contents.get_char(e) != '='
                invariant
                    start <= e <= lend,
                    lend <= n,
                    n == contents@.len(),
                    forall|l: int| start <= l < e ==> contents@[l] != '=',
                decreases lend - e,
            {
                e += 1;
            }
            proof {
                assert(forall|l: int| 0 <= l < e - start ==> line[l] == contents@[start + l]);
                lemma_key_len_at(line, e - start);
            }
            if e < lend {
                let key = trim(contents.substring_char(start, e));
                let value = trim(contents.substring_char(e + 1, lend));
                proof {
                    assert(line.take((e - start) as int) =~= contents@.subrange(
                        start as int,
                        e as int,
                    ));
                    assert(line.skip(e - start + 1) =~= contents@.subrange(
                        e + 1 as int,
                        lend as int,
                    ));
                }
                self.insert(key, value);
            }
            proof {
                assert(self@ == line_applied(env0, line));
                if j < n {
                    assert(rest.skip(j - start + 1) =~= contents@.skip(j + 1));
                } else {
                    assert(contents@.skip(n as int) =~= Seq::<char>::empty());
                }
            }
            i = if j < n {
                j + 1
            } else {
                j
            };
        }
        proof {
            assert(contents@.skip(n as int) =~= Seq::<char>::empty());
        }
    }
}

} // verus!
