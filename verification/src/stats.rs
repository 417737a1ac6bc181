//! How many times each command was invoked since the bot started.

use vstd::prelude::*;

verus! {

/// The invocation count of `name` recorded in `entries` (the first entry with
/// that name counts; 0 without one).
pub open spec fn count_in(entries: Seq<(String, u64)>, name: Seq<char>) -> nat
    decreases entries.len(),
{
    if entries.len() == 0 {
        0
    } else if entries[0].0@ == name {
        entries[0].1 as nat
    } else {
        count_in(entries.drop_first(), name)
    }
}

/// The index of the first entry named `name`, if any.
pub open spec fn first_index(entries: Seq<(String, u64)>, name: Seq<char>) -> Option<int>
    decreases entries.len(),
{
    if entries.len() == 0 {
        None
    } else if entries[0].0@ == name {
        Some(0)
    } else {
        match first_index(entries.drop_first(), name) {
            Some(i) => Some(i + 1),
            None => None,
        }
    }
}

proof fn lemma_first_index(entries: Seq<(String, u64)>, name: Seq<char>)
    ensures
        match first_index(entries, name) {
            Some(i) => 0 <= i < entries.len() && entries[i].0@ == name && count_in(entries, name)
                == entries[i].1 && forall|j: int| 0 <= j < i ==> entries[j].0@ != name,
            None => count_in(entries, name) == 0 && forall|j: int|
                0 <= j < entries.len() ==> entries[j].0@ != name,
        },
    decreases entries.len(),
{
    if entries.len() > 0 && entries[0].0@ != name {
        lemma_first_index(entries.drop_first(), name);
        assert forall|j: int| 1 <= j < entries.len() implies entries[j] == entries.drop_first()[j - 1] by {}
    }
}

/// Setting the count of the entry at `i` changes the count of its name only,
/// provided no earlier entry has that name.
proof fn lemma_count_after_set(entries: Seq<(String, u64)>, i: int, v: u64, n: Seq<char>)
    requires
        0 <= i < entries.len(),
        forall|j: int| 0 <= j < i ==> entries[j].0@ != entries[i].0@,
    ensures
        count_in(entries.update(i, (entries[i].0, v)), n) == if n == entries[i].0@ {
            v as nat
        } else {
            count_in(entries, n)
        },
    decreases entries.len(),
{
    let updated = entries.update(i, (entries[i].0, v));
    if i == 0 {
        assert(updated.drop_first() =~= entries.drop_first());
    } else {
        assert(updated[0] == entries[0]);
        assert(updated.drop_first() =~= entries.drop_first().update(i - 1, (entries[i].0, v)));
        assert forall|j: int| 0 <= j < i - 1 implies (#[trigger] entries.drop_first()[j]).0@ != entries.drop_first()[i - 1].0@ by {
            assert(entries.drop_first()[j] == entries[j + 1]);
        }
        lemma_count_after_set(entries.drop_first(), i - 1, v, n);
        if entries[0].0@ == n {
            assert(n != entries[i].0@);
        }
    }
}

/// Appending an entry for a name that has none gives it that count and
/// leaves the other names alone.
proof fn lemma_count_after_push(entries: Seq<(String, u64)>, e: (String, u64), n: Seq<char>)
    requires
        forall|j: int| 0 <= j < entries.len() ==> entries[j].0@ != e.0@,
    ensures
        count_in(entries.push(e), n) == if n == e.0@ {
            e.1 as nat
        } else {
            count_in(entries, n)
        },
    decreases entries.len(),
{
    if entries.len() > 0 {
        assert(entries.push(e)[0] == entries[0]);
        assert(entries.push(e).drop_first() =~= entries.drop_first().push(e));
        assert forall|j: int| 0 <= j < entries.drop_first().len() implies (#[trigger] entries.drop_first()[j]).0@ != e.0@ by {
            assert(entries.drop_first()[j] == entries[j + 1]);
        }
        lemma_count_after_push(entries.drop_first(), e, n);
    } else {
        assert(entries.push(e).drop_first() =~= Seq::<(String, u64)>::empty());
        assert(entries.push(e)[0] == e);
        assert(count_in(entries.push(e).drop_first(), n) == 0);
    }
}

/// Invocation counts by command name, kept as a list of (name, count) pairs
/// with each name once: vstd specifies `HashMap` only for keys it knows to
/// hash by value (integers and `bool`), and a `String` key is not among them.
pub struct CommandCounter {
    entries: Vec<(String, u64)>,
}

impl CommandCounter {
    /// The number of recorded invocations of the command `name`.
    pub closed spec fn count(self, name: Seq<char>) -> nat {
        count_in(self.entries@, name)
    }

    /// A counter with no invocations recorded.
    pub fn new() -> (c: CommandCounter)
        ensures
            forall|n: Seq<char>| #[trigger] c.count(n) == 0,
    {
        CommandCounter { entries: Vec::new() }
    }

    fn find(&self, name: &str) -> (r: Option<usize>)
        ensures
            match r {
                Some(i) => first_index(self.entries@, name@) == Some(i as int),
                None => first_index(self.entries@, name@) is None,
            },
    {
        proof {
            lemma_first_index(self.entries@, name@);
        }
        let wanted = name.to_owned();
        let n = self.entries.len();
        let mut i: usize = 0;
        while i < n
            invariant
                n == self.entries@.len(),
                i <= n,
                wanted@ == name@,
                forall|j: int| 0 <= j < i ==> self.entries@[j].0@ != name@,
                match first_index(self.entries@, name@) {
                    Some(k) => 0 <= k < n && self.entries@[k].0@ == name@ && forall|j: int|
                        0 <= j < k ==> self.entries@[j].0@ != name@,
                    None => forall|j: int| 0 <= j < n ==> self.entries@[j].0@ != name@,
                },
            decreases n - i,
        {
            if self.entries[i].0 == wanted {
                return Some(i);
            }
            i = i + 1;
        }
        None
    }

    /// The number of recorded invocations of the command `name`.
    pub fn get(&self, name: &str) -> (r: u64)
        ensures
            r == self.count(name@),
    {
        proof {
            lemma_first_index(self.entries@, name@);
        }
        match self.find(name) {
            Some(i) => self.entries[i].1,
            None => 0,
        }
    }

    /// Records one more invocation of the command `name`.
    pub fn increment(&mut self, name: &str)
        requires
            old(self).count(name@) < u64::MAX,
        ensures
            forall|n: Seq<char>| #[trigger] final(self).count(n) == if n == name@ {
                old(self).count(n) + 1
            } else {
                old(self).count(n)
            },
    {
        proof {
            lemma_first_index(self.entries@, name@);
        }
        let ghost before = self.entries@;
        match self.find(name) {
            Some(i) => {
                let current = self.entries[i].1;
                let key = self.entries[i].0.clone();
                self.entries.set(i, (key, current + 1));
                proof {
                    assert(self.entries@ =~= before.update(i as int, (before[i as int].0, (current + 1) as u64)));
                    assert forall|n: Seq<char>| #[trigger] count_in(self.entries@, n) == if n == name@ {
                        count_in(before, n) + 1
                    } else {
                        count_in(before, n)
                    } by {
                        lemma_count_after_set(before, i as int, (current + 1) as u64, n);
                    }
                }
            },
            None => {
                let key = name.to_owned();
                self.entries.push((key, 1));
                proof {
                    assert forall|n: Seq<char>| #[trigger] count_in(self.entries@, n) == if n == name@ {
                        count_in(before, n) + 1
                    } else {
                        count_in(before, n)
                    } by {
                        lemma_count_after_push(before, (key, 1u64), n);
                    }
                }
            },
        }
    }

    /// Whether one more invocation of `name` can still be counted.
    pub fn has_room(&self, name: &str) -> (r: bool)
        ensures
            r == (self.count(name@) < u64::MAX),
    {
        self.get(name) < u64::MAX
    }
}

} // verus!
